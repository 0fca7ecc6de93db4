use vstd::prelude::*;

use std::sync::Arc;

use crate::adapter::AdapterQueue;
use crate::channel::{QuoteBus, QuoteSubscription};
use crate::endpoint::{QuoteEndpoint, TraderEndpoint, XTPExchangeType, XTPLogLevel, XTPProtocolType};
use crate::errors::XTPError;
use crate::events::{QuoteEvent, TradeEvent};

verus! {

/// Capacity of each endpoint adapter's destination queue.
pub const QUEUE_CAPACITY: usize = 10;

/// Capacity of the quote broadcast channel: how far one subscriber may lag
/// behind before it starts missing events.
pub const BUS_CAPACITY: usize = 10;

/// Where the connector stands in its lifecycle: configured with static
/// parameters, connected (endpoints built and logged in), or running the
/// merge loop with strategy tasks spawned. There is no stopped state; the
/// merge loop lasts for the process lifetime.
#[derive(Clone, Copy, PartialEq, Eq, Structural, Debug)]
pub enum ExchangePhase {
    Configured,
    Connected,
    Running,
}

/// What one turn of the merge loop did: forwarded a quote event to the
/// broadcast channel, drained one trade event, or found both feeds empty
/// (the caller should wait for more input).
#[derive(Clone, Copy, PartialEq, Eq, Structural, Debug)]
pub enum MergeOutcome {
    PublishedQuote,
    ObservedTrade,
    Idle,
}

/// Everything one spawned strategy task needs: the registration token it
/// was registered under, its own independent broadcast subscription, and
/// its own clone of the capability handle.
pub struct StrategyLaunch {
    pub strategy: u64,
    pub subscription: QuoteSubscription,
    pub handle: XTPExchangeHandle,
}

/// The cheaply-clonable capability object handed to strategy tasks.
///
/// It shares (never owns) the connector's two endpoint session objects and
/// exposes only the operations strategies may invoke, so strategy code can
/// never reach connector-internal scheduling state. Before the connector
/// is initialized the handle carries no endpoints and every operation
/// reports `EndpointNotReady` instead of crashing.
pub struct XTPExchangeHandle {
    quote_api: Option<Arc<QuoteEndpoint>>,
    trader_api: Option<Arc<TraderEndpoint>>,
}

impl XTPExchangeHandle {
    /// The shared quote session, if the connector is initialized.
    pub closed spec fn quote_ep(&self) -> Option<Arc<QuoteEndpoint>> {
        self.quote_api
    }

    /// The shared trade session, if the connector is initialized.
    pub closed spec fn trader_ep(&self) -> Option<Arc<TraderEndpoint>> {
        self.trader_api
    }

    pub fn new(quote_api: Option<Arc<QuoteEndpoint>>, trader_api: Option<Arc<TraderEndpoint>>) -> (h:
        XTPExchangeHandle)
        ensures
            h.quote_ep() == quote_api,
            h.trader_ep() == trader_api,
    {
        XTPExchangeHandle { quote_api, trader_api }
    }

    /// Forward a market-data subscription request to the shared quote
    /// endpoint. Before initialization this reports `EndpointNotReady`;
    /// afterwards the endpoint's own acceptance rule decides, and the
    /// exchange's acknowledgement arrives later as a quote event on the
    /// broadcast stream.
    pub fn subscribe_market_data(&self, tickers: &[&str], exchange_id: XTPExchangeType) -> (r:
        Result<(), XTPError>)
        ensures
            self.quote_ep() is None ==> r matches Err(XTPError::EndpointNotReady),
            self.quote_ep() matches Some(q) ==> {
                &&& r is Ok <==> crate::endpoint::subscribe_accepted(q.logged_in(), tickers@)
                &&& (!q.logged_in() ==> (r matches Err(XTPError::SubscriptionRejected { reason })
                    && reason@ == "not logged in"@))
                &&& (q.logged_in() && tickers@.len() == 0 ==> (r matches Err(
                    XTPError::SubscriptionRejected { reason },
                ) && reason@ == "empty ticker list"@))
                &&& (q.logged_in() && tickers@.len() > 0 && !crate::endpoint::subscribe_accepted(
                    q.logged_in(),
                    tickers@,
                ) ==> (r matches Err(XTPError::SubscriptionRejected { reason }) && reason@
                    == "malformed ticker"@))
            },
    {
        match &self.quote_api {
            None => Err(XTPError::EndpointNotReady),
            Some(q) => q.subscribe_market_data(tickers, exchange_id),
        }
    }
}

impl Clone for XTPExchangeHandle {
    /// A handle clone shares exactly the same endpoint sessions.
    fn clone(&self) -> (r: Self)
        ensures
            r == *self,
    {
        XTPExchangeHandle {
            quote_api: match &self.quote_api {
                Some(a) => Some(a.clone()),
                None => None,
            },
            trader_api: match &self.trader_api {
                Some(a) => Some(a.clone()),
                None => None,
            },
        }
    }
}

/// The exchange connector: it owns the two endpoint sessions, the two
/// adapter queues feeding typed events in from the exchange, the list of
/// registered strategies, and the broadcast channel that fans quote events
/// out to every strategy task.
pub struct XTPExchange {
    quote_addr: String,
    trader_addr: String,
    username: String,
    password: String,
    key: String,
    strategies: Vec<u64>,
    quote_api: Option<Arc<QuoteEndpoint>>,
    trader_api: Option<Arc<TraderEndpoint>>,
    quote_rx: Option<AdapterQueue<QuoteEvent>>,
    trader_rx: Option<AdapterQueue<TradeEvent>>,
    strategy_tx: QuoteBus,
    phase: ExchangePhase,
}

impl XTPExchange {
    pub closed spec fn quote_addr_chars(&self) -> Seq<char> {
        self.quote_addr@
    }

    pub closed spec fn trader_addr_chars(&self) -> Seq<char> {
        self.trader_addr@
    }

    pub closed spec fn username_chars(&self) -> Seq<char> {
        self.username@
    }

    pub closed spec fn password_chars(&self) -> Seq<char> {
        self.password@
    }

    pub closed spec fn key_chars(&self) -> Seq<char> {
        self.key@
    }

    /// The registration tokens of the strategies, in registration order.
    pub closed spec fn registered(&self) -> Seq<u64> {
        self.strategies@
    }

    pub closed spec fn phase(&self) -> ExchangePhase {
        self.phase
    }

    pub closed spec fn quote_ep(&self) -> Option<Arc<QuoteEndpoint>> {
        self.quote_api
    }

    pub closed spec fn trader_ep(&self) -> Option<Arc<TraderEndpoint>> {
        self.trader_api
    }

    /// The broadcast channel value.
    pub closed spec fn bus(&self) -> QuoteBus {
        self.strategy_tx
    }

    /// Quote events delivered by the adapter and not yet merged.
    pub closed spec fn quote_pending(&self) -> Seq<QuoteEvent> {
        match self.quote_rx {
            Some(q) => q.contents(),
            None => Seq::empty(),
        }
    }

    /// Trade events delivered by the adapter and not yet drained.
    pub closed spec fn trade_pending(&self) -> Seq<TradeEvent> {
        match self.trader_rx {
            Some(q) => q.contents(),
            None => Seq::empty(),
        }
    }

    /// The static configuration, which no operation ever changes.
    pub open spec fn config(&self) -> (Seq<char>, Seq<char>, Seq<char>, Seq<char>, Seq<char>) {
        (
            self.quote_addr_chars(),
            self.trader_addr_chars(),
            self.username_chars(),
            self.password_chars(),
            self.key_chars(),
        )
    }

    /// The two shared endpoint sessions as a pair.
    pub open spec fn endpoints(&self) -> (Option<Arc<QuoteEndpoint>>, Option<Arc<TraderEndpoint>>) {
        (self.quote_ep(), self.trader_ep())
    }

    /// The observable broadcast-channel state: full publication log,
    /// capacity, and whether it is closed.
    pub open spec fn bus_state(&self) -> (Seq<crate::events::QuoteEventView>, int, bool) {
        (self.bus().log(), self.bus().cap(), self.bus().is_closed())
    }

    /// Lifecycle invariant: the broadcast channel is well formed with the
    /// fixed capacity, endpoints and adapter queues exist exactly from
    /// initialization on, and then the endpoints are authenticated, the
    /// trade session carries its software key, and the queues are well
    /// formed at the fixed capacity.
    pub closed spec fn inv(&self) -> bool {
        &&& self.strategy_tx.wf()
        &&& self.strategy_tx.cap() == BUS_CAPACITY as int
        &&& if self.phase is Configured {
            &&& self.quote_api is None
            &&& self.trader_api is None
            &&& self.quote_rx is None
            &&& self.trader_rx is None
        } else {
            &&& self.quote_api matches Some(q) && q.logged_in()
            &&& self.trader_api matches Some(t) && t.key_set() && t.logged_in()
            &&& self.quote_rx matches Some(qq) && qq.wf() && qq.cap() == QUEUE_CAPACITY as int
            &&& self.trader_rx matches Some(tq) && tq.wf() && tq.cap() == QUEUE_CAPACITY as int
        }
    }

    /// A connector configured with its static parameters: not yet
    /// connected, no strategies, an empty broadcast channel.
    pub fn new(quote_addr: &str, trader_addr: &str, username: &str, password: &str, key: &str) -> (ex:
        XTPExchange)
        ensures
            ex.inv(),
            ex.phase() is Configured,
            ex.quote_addr_chars() == quote_addr@,
            ex.trader_addr_chars() == trader_addr@,
            ex.username_chars() == username@,
            ex.password_chars() == password@,
            ex.key_chars() == key@,
            ex.registered() == Seq::<u64>::empty(),
            ex.bus().log() == Seq::<crate::events::QuoteEventView>::empty(),
            ex.bus().cap() == BUS_CAPACITY as int,
            !ex.bus().is_closed(),
            ex.endpoints() == (None::<Arc<QuoteEndpoint>>, None::<Arc<TraderEndpoint>>),
            ex.quote_pending() == Seq::<QuoteEvent>::empty(),
            ex.trade_pending() == Seq::<TradeEvent>::empty(),
    {
        XTPExchange {
            quote_addr: quote_addr.to_owned(),
            trader_addr: trader_addr.to_owned(),
            username: username.to_owned(),
            password: password.to_owned(),
            key: key.to_owned(),
            strategies: Vec::new(),
            quote_api: None,
            trader_api: None,
            quote_rx: None,
            trader_rx: None,
            strategy_tx: QuoteBus::new(BUS_CAPACITY),
            phase: ExchangePhase::Configured,
        }
    }

    /// Register one strategy under a caller-chosen token. Registration is
    /// only valid before the merge loop starts.
    pub fn register(&mut self, strategy: u64)
        requires
            old(self).inv(),
            !(old(self).phase() is Running),
        ensures
            final(self).inv(),
            final(self).registered() == old(self).registered().push(strategy),
            final(self).phase() == old(self).phase(),
            final(self).config() == old(self).config(),
            final(self).endpoints() == old(self).endpoints(),
            final(self).bus_state() == old(self).bus_state(),
            final(self).quote_pending() == old(self).quote_pending(),
            final(self).trade_pending() == old(self).trade_pending(),
    {
        self.strategies.push(strategy);
    }

    pub fn current_phase(&self) -> (p: ExchangePhase)
        ensures
            p == self.phase(),
    {
        self.phase
    }

    pub fn strategy_count(&self) -> (n: usize)
        ensures
            n as int == self.registered().len(),
    {
        self.strategies.len()
    }

    /// The broadcast channel, for polling subscriptions against. On a
    /// connector that satisfies its lifecycle invariant the channel is well
    /// formed, so callers may poll subscriptions against it.
    pub fn bus_ref(&self) -> (b: &QuoteBus)
        ensures
            *b == self.bus(),
            self.inv() ==> b.wf(),
    {
        &self.strategy_tx
    }

    /// Build both endpoint sessions and authenticate them, turning a
    /// configured connector into a connected one.
    ///
    /// The two `*_login_accepted` arguments carry the exchange's verdicts
    /// on the stored credentials, reported back by the session layer. The
    /// trade session's software key is set before its login is attempted —
    /// a hard sequencing rule of the session protocol. Any failure aborts
    /// initialization with its cause and leaves the connector exactly as
    /// it was: never half-initialized.
    pub fn sys_init(&mut self, quote_login_accepted: bool, trader_login_accepted: bool) -> (r:
        Result<(), XTPError>)
        requires
            old(self).inv(),
            old(self).phase() is Configured,
        ensures
            final(self).inv(),
            final(self).config() == old(self).config(),
            final(self).registered() == old(self).registered(),
            final(self).bus_state() == old(self).bus_state(),
            r is Ok <==> (quote_login_accepted && trader_login_accepted && old(self).key_chars().len()
                > 0),
            r is Err ==> *final(self) == *old(self),
            !quote_login_accepted ==> (r matches Err(XTPError::LoginFailed { endpoint, .. })
                && endpoint == crate::errors::EndpointKind::Quote),
            quote_login_accepted && old(self).key_chars().len() == 0 ==> (r matches Err(
                XTPError::LoginFailed { endpoint, reason },
            ) && endpoint == crate::errors::EndpointKind::Trade && reason@
                == "empty software key"@),
            quote_login_accepted && old(self).key_chars().len() > 0 && !trader_login_accepted
                ==> (r matches Err(XTPError::LoginFailed { endpoint, .. }) && endpoint
                == crate::errors::EndpointKind::Trade),
            r is Ok ==> {
                &&& final(self).phase() is Connected
                &&& final(self).quote_ep() matches Some(q) && q.logged_in() && q.login_session()
                    == (
                    old(self).quote_addr_chars(),
                    old(self).username_chars(),
                    old(self).password_chars(),
                    XTPProtocolType::TCP,
                ) && q.heartbeat() == 10 && q.udp_buffer() == 1024
                &&& final(self).trader_ep() matches Some(t) && t.logged_in() && t.key_set()
                    && t.login_session() == (
                    old(self).trader_addr_chars(),
                    old(self).username_chars(),
                    old(self).password_chars(),
                    XTPProtocolType::TCP,
                ) && t.heartbeat() == 10
                &&& final(self).quote_pending() == Seq::<QuoteEvent>::empty()
                &&& final(self).trade_pending() == Seq::<TradeEvent>::empty()
            },
    {
        let mut qapi = QuoteEndpoint::new(1, "/tmp/xtp", XTPLogLevel::Trace);
        let qrx: AdapterQueue<QuoteEvent> = AdapterQueue::new(QUEUE_CAPACITY);
        qapi.set_heart_beat_interval(10);
        qapi.set_udp_buffer_size(1024);
        let quote_login = qapi.login(
            self.quote_addr.as_str(),
            self.username.as_str(),
            self.password.as_str(),
            XTPProtocolType::TCP,
            quote_login_accepted,
        );
        match quote_login {
            Ok(()) => {},
            Err(e) => {
                return Err(e);
            },
        }
        let mut tapi = TraderEndpoint::new(1, "/tmp/xtp", XTPLogLevel::Trace);
        let trx: AdapterQueue<TradeEvent> = AdapterQueue::new(QUEUE_CAPACITY);
        tapi.set_heart_beat_interval(10);
        // The software key must be set before login is attempted.
        let key_res = tapi.set_software_key(self.key.as_str());
        match key_res {
            Ok(()) => {},
            Err(e) => {
                return Err(e);
            },
        }
        let trader_login = tapi.login(
            self.trader_addr.as_str(),
            self.username.as_str(),
            self.password.as_str(),
            XTPProtocolType::TCP,
            trader_login_accepted,
        );
        match trader_login {
            Ok(()) => {},
            Err(e) => {
                return Err(e);
            },
        }
        self.quote_api = Some(Arc::new(qapi));
        self.quote_rx = Some(qrx);
        self.trader_api = Some(Arc::new(tapi));
        self.trader_rx = Some(trx);
        self.phase = ExchangePhase::Connected;
        Ok(())
    }

    /// A capability handle sharing this connector's endpoint sessions.
    /// Before initialization it carries no endpoints, and operations on it
    /// report `EndpointNotReady`.
    pub fn handle(&self) -> (h: XTPExchangeHandle)
        ensures
            h.quote_ep() == self.quote_ep(),
            h.trader_ep() == self.trader_ep(),
    {
        XTPExchangeHandle::new(
            match &self.quote_api {
                Some(a) => Some(a.clone()),
                None => None,
            },
            match &self.trader_api {
                Some(a) => Some(a.clone()),
                None => None,
            },
        )
    }

    /// Spawn plan for the merge loop: one launch per registered strategy,
    /// in registration order, each with its own fresh broadcast
    /// subscription (so dropping one cannot affect another) and its own
    /// handle clone. Moves the connector into its running phase; starting
    /// before initialization reports `EndpointNotReady` and changes
    /// nothing.
    pub fn start(&mut self) -> (r: Result<Vec<StrategyLaunch>, XTPError>)
        requires
            old(self).inv(),
            !(old(self).phase() is Running),
        ensures
            final(self).inv(),
            final(self).config() == old(self).config(),
            final(self).registered() == old(self).registered(),
            final(self).endpoints() == old(self).endpoints(),
            final(self).bus_state() == old(self).bus_state(),
            final(self).quote_pending() == old(self).quote_pending(),
            final(self).trade_pending() == old(self).trade_pending(),
            old(self).phase() is Configured ==> (r matches Err(XTPError::EndpointNotReady)
                && final(self).phase() is Configured),
            old(self).phase() is Connected ==> {
                &&& final(self).phase() is Running
                &&& r matches Ok(v) && v@.len() == old(self).registered().len() && forall|i: int|
                    0 <= i < v@.len() ==> {
                        &&& (#[trigger] v@[i]).strategy == old(self).registered()[i]
                        &&& v@[i].subscription.wf()
                        &&& v@[i].subscription.start_point() == old(self).bus().published_total()
                        &&& v@[i].subscription.cursor() == old(self).bus().published_total()
                        &&& v@[i].handle.quote_ep() == old(self).quote_ep()
                        &&& v@[i].handle.trader_ep() == old(self).trader_ep()
                    }
            },
    {
        if matches!(self.current_phase(), ExchangePhase::Configured) {
            return Err(XTPError::EndpointNotReady);
        }
        let h = self.handle();
        let mut launches: Vec<StrategyLaunch> = Vec::new();
        let n = self.strategies.len();
        let mut i: usize = 0;
        while i < n
            invariant
                0 <= i <= n,
                n == self.strategies@.len(),
                self.inv(),
                !(self.phase() is Configured),
                h.quote_ep() == self.quote_ep(),
                h.trader_ep() == self.trader_ep(),
                launches@.len() == i,
                forall|j: int|
                    0 <= j < i ==> {
                        &&& (#[trigger] launches@[j]).strategy == self.registered()[j]
                        &&& launches@[j].subscription.wf()
                        &&& launches@[j].subscription.start_point() == self.bus().published_total()
                        &&& launches@[j].subscription.cursor() == self.bus().published_total()
                        &&& launches@[j].handle.quote_ep() == self.quote_ep()
                        &&& launches@[j].handle.trader_ep() == self.trader_ep()
                    },
            decreases n - i,
        {
            let launch = StrategyLaunch {
                strategy: self.strategies[i],
                subscription: self.strategy_tx.subscribe(),
                handle: h.clone(),
            };
            launches.push(launch);
            i = i + 1;
        }
        self.phase = ExchangePhase::Running;
        Ok(launches)
    }

    /// Adapter ingestion for the quote feed: enqueue one typed event in
    /// arrival order, or hand it back when the bounded queue is full so
    /// the callback side can apply its backpressure policy.
    pub fn deliver_quote(&mut self, e: QuoteEvent) -> (r: Result<(), QuoteEvent>)
        requires
            old(self).inv(),
            !(old(self).phase() is Configured),
        ensures
            final(self).inv(),
            final(self).phase() == old(self).phase(),
            final(self).config() == old(self).config(),
            final(self).registered() == old(self).registered(),
            final(self).endpoints() == old(self).endpoints(),
            final(self).bus_state() == old(self).bus_state(),
            final(self).trade_pending() == old(self).trade_pending(),
            if old(self).quote_pending().len() < QUEUE_CAPACITY as int {
                &&& r is Ok
                &&& final(self).quote_pending() == old(self).quote_pending().push(e)
            } else {
                &&& r matches Err(back) && back == e
                &&& final(self).quote_pending() == old(self).quote_pending()
            },
    {
        match &mut self.quote_rx {
            Some(q) => q.try_enqueue(e),
            None => Err(e),
        }
    }

    /// Adapter ingestion for the trader feed.
    pub fn deliver_trade(&mut self, e: TradeEvent) -> (r: Result<(), TradeEvent>)
        requires
            old(self).inv(),
            !(old(self).phase() is Configured),
        ensures
            final(self).inv(),
            final(self).phase() == old(self).phase(),
            final(self).config() == old(self).config(),
            final(self).registered() == old(self).registered(),
            final(self).endpoints() == old(self).endpoints(),
            final(self).bus_state() == old(self).bus_state(),
            final(self).quote_pending() == old(self).quote_pending(),
            if old(self).trade_pending().len() < QUEUE_CAPACITY as int {
                &&& r is Ok
                &&& final(self).trade_pending() == old(self).trade_pending().push(e)
            } else {
                &&& r matches Err(back) && back == e
                &&& final(self).trade_pending() == old(self).trade_pending()
            },
    {
        match &mut self.trader_rx {
            Some(q) => q.try_enqueue(e),
            None => Err(e),
        }
    }

    /// One turn of the merge loop, the connector's beating heart: the next
    /// pending quote event is published to the broadcast channel; with no
    /// quote pending, the next trade event is drained. The tie-break is a
    /// fixed policy of this connector: a pending quote always goes first,
    /// and the trade feed is drained only when the quote feed is empty (no
    /// priority between the two streams is promised to callers, and none is
    /// owed). Trade events are
    /// observed and discarded: the connector does not yet redistribute
    /// them to strategies — an open point of the design; a second
    /// broadcast channel mirroring the quote path would close it. With
    /// both feeds empty nothing changes and the caller should wait for
    /// more input.
    pub fn merge_step(&mut self) -> (r: MergeOutcome)
        requires
            old(self).inv(),
            old(self).phase() is Running,
            old(self).bus().published_total() < usize::MAX,
        ensures
            final(self).inv(),
            final(self).phase() == old(self).phase(),
            final(self).config() == old(self).config(),
            final(self).registered() == old(self).registered(),
            final(self).endpoints() == old(self).endpoints(),
            final(self).bus().cap() == old(self).bus().cap(),
            final(self).bus().is_closed() == old(self).bus().is_closed(),
            if old(self).quote_pending().len() > 0 {
                &&& r == MergeOutcome::PublishedQuote
                &&& final(self).quote_pending() == old(self).quote_pending().skip(1)
                &&& final(self).trade_pending() == old(self).trade_pending()
                &&& final(self).bus().log() == old(self).bus().log().push(
                    old(self).quote_pending()[0]@,
                )
            } else if old(self).trade_pending().len() > 0 {
                &&& r == MergeOutcome::ObservedTrade
                &&& final(self).trade_pending() == old(self).trade_pending().skip(1)
                &&& final(self).quote_pending() == old(self).quote_pending()
                &&& final(self).bus().log() == old(self).bus().log()
            } else {
                &&& r == MergeOutcome::Idle
                &&& final(self).quote_pending() == old(self).quote_pending()
                &&& final(self).trade_pending() == old(self).trade_pending()
                &&& final(self).bus().log() == old(self).bus().log()
            },
    {
        let next_quote = match &mut self.quote_rx {
            Some(q) => q.dequeue(),
            None => None,
        };
        match next_quote {
            Some(e) => {
                self.strategy_tx.publish(e);
                return MergeOutcome::PublishedQuote;
            },
            None => {},
        }
        let next_trade = match &mut self.trader_rx {
            Some(q) => q.dequeue(),
            None => None,
        };
        match next_trade {
            Some(_e) => MergeOutcome::ObservedTrade,
            None => MergeOutcome::Idle,
        }
    }
}

/// A connector that satisfies its lifecycle invariant carries a well-formed
/// broadcast channel, so the subscriptions it hands out can always be
/// polled against the channel returned by `bus_ref`.
pub proof fn lemma_inv_implies_bus_wf(ex: &XTPExchange)
    requires
        ex.inv(),
    ensures
        ex.bus().wf(),
{
}

} // verus!
