use vstd::prelude::*;

use crate::errors::{EndpointKind, XTPError};

verus! {

/// The exchange market a request is directed at.
#[derive(Clone, Copy, PartialEq, Eq, Structural, Debug)]
pub enum XTPExchangeType {
    SH,
    SZ,
}

/// The transport used for the session login.
#[derive(Clone, Copy, PartialEq, Eq, Structural, Debug)]
pub enum XTPProtocolType {
    TCP,
    UDP,
}

/// Verbosity of the endpoint's own log sink.
#[derive(Clone, Copy, PartialEq, Eq, Structural, Debug)]
pub enum XTPLogLevel {
    Fatal,
    Error,
    Warning,
    Info,
    Debug,
    Trace,
}

/// Whether the quote endpoint accepts a market-data subscription request:
/// it must be logged in, and the ticker list must be non-empty with no
/// malformed (empty) instrument identifier.
pub open spec fn subscribe_accepted(logged_in: bool, tickers: Seq<&str>) -> bool {
    &&& logged_in
    &&& tickers.len() > 0
    &&& forall|i: int| 0 <= i < tickers.len() ==> (#[trigger] tickers[i])@.len() > 0
}

/// One authenticated market-data session with the exchange.
///
/// The connector builds and logs in the endpoint once during
/// initialization; afterwards the endpoint is immutable and shared between
/// the connector and every handle clone.
pub struct QuoteEndpoint {
    client_id: u8,
    log_path: String,
    log_level: XTPLogLevel,
    heartbeat_secs: u64,
    udp_buffer_bytes: u64,
    addr: String,
    login_user: String,
    login_pass: String,
    login_proto: XTPProtocolType,
    logged_in: bool,
}

impl QuoteEndpoint {
    pub closed spec fn client_id(&self) -> u8 {
        self.client_id
    }

    pub closed spec fn log_path_chars(&self) -> Seq<char> {
        self.log_path@
    }

    pub closed spec fn level(&self) -> XTPLogLevel {
        self.log_level
    }

    pub closed spec fn heartbeat(&self) -> u64 {
        self.heartbeat_secs
    }

    pub closed spec fn udp_buffer(&self) -> u64 {
        self.udp_buffer_bytes
    }

    pub closed spec fn addr_chars(&self) -> Seq<char> {
        self.addr@
    }

    /// The username the session was authenticated with.
    pub closed spec fn login_username_chars(&self) -> Seq<char> {
        self.login_user@
    }

    /// The password the session was authenticated with.
    pub closed spec fn login_password_chars(&self) -> Seq<char> {
        self.login_pass@
    }

    /// The transport protocol the session was authenticated over.
    pub closed spec fn login_protocol(&self) -> XTPProtocolType {
        self.login_proto
    }

    pub closed spec fn logged_in(&self) -> bool {
        self.logged_in
    }

    /// The session identity: address, username, password and transport, as
    /// recorded by a successful login.
    pub open spec fn login_session(&self) -> (Seq<char>, Seq<char>, Seq<char>, XTPProtocolType) {
        (
            self.addr_chars(),
            self.login_username_chars(),
            self.login_password_chars(),
            self.login_protocol(),
        )
    }

    /// A fresh, not yet authenticated session object with a log sink.
    pub fn new(client_id: u8, log_path: &str, log_level: XTPLogLevel) -> (ep: QuoteEndpoint)
        ensures
            ep.client_id() == client_id,
            ep.log_path_chars() == log_path@,
            ep.level() == log_level,
            ep.heartbeat() == 0,
            ep.udp_buffer() == 0,
            ep.login_session() == (
                Seq::<char>::empty(),
                Seq::<char>::empty(),
                Seq::<char>::empty(),
                XTPProtocolType::TCP,
            ),
            !ep.logged_in(),
    {
        QuoteEndpoint {
            client_id,
            log_path: log_path.to_owned(),
            log_level,
            heartbeat_secs: 0,
            udp_buffer_bytes: 0,
            addr: String::new(),
            login_user: String::new(),
            login_pass: String::new(),
            login_proto: XTPProtocolType::TCP,
            logged_in: false,
        }
    }

    /// Protocol tuning: how often the session heartbeats.
    pub fn set_heart_beat_interval(&mut self, secs: u64)
        ensures
            final(self).heartbeat() == secs,
            final(self).client_id() == old(self).client_id(),
            final(self).log_path_chars() == old(self).log_path_chars(),
            final(self).level() == old(self).level(),
            final(self).udp_buffer() == old(self).udp_buffer(),
            final(self).login_session() == old(self).login_session(),
            final(self).logged_in() == old(self).logged_in(),
    {
        self.heartbeat_secs = secs;
    }

    /// Protocol tuning: the transport buffer size for the quote feed.
    pub fn set_udp_buffer_size(&mut self, bytes: u64)
        ensures
            final(self).udp_buffer() == bytes,
            final(self).client_id() == old(self).client_id(),
            final(self).log_path_chars() == old(self).log_path_chars(),
            final(self).level() == old(self).level(),
            final(self).heartbeat() == old(self).heartbeat(),
            final(self).login_session() == old(self).login_session(),
            final(self).logged_in() == old(self).logged_in(),
    {
        self.udp_buffer_bytes = bytes;
    }

    /// Authenticate the session with the given credentials over the given
    /// transport. `accepted` is the exchange's verdict on those
    /// credentials, reported back by the session layer; a session can log
    /// in at most once. Success records exactly the address, credentials
    /// and protocol that were handed in; failure leaves the endpoint
    /// exactly as it was.
    pub fn login(
        &mut self,
        addr: &str,
        username: &str,
        password: &str,
        protocol: XTPProtocolType,
        accepted: bool,
    ) -> (r: Result<(), XTPError>)
        ensures
            r is Ok <==> (accepted && !old(self).logged_in()),
            r is Ok ==> {
                &&& final(self).logged_in()
                &&& final(self).login_session() == (addr@, username@, password@, protocol)
            },
            r is Err ==> *final(self) == *old(self),
            old(self).logged_in() ==> (r matches Err(XTPError::LoginFailed { endpoint, reason })
                && endpoint == EndpointKind::Quote && reason@ == "already logged in"@),
            !old(self).logged_in() && !accepted ==> (r matches Err(
                XTPError::LoginFailed { endpoint, reason },
            ) && endpoint == EndpointKind::Quote && reason@ == "rejected by exchange"@),
            final(self).client_id() == old(self).client_id(),
            final(self).log_path_chars() == old(self).log_path_chars(),
            final(self).level() == old(self).level(),
            final(self).heartbeat() == old(self).heartbeat(),
            final(self).udp_buffer() == old(self).udp_buffer(),
    {
        if self.logged_in {
            Err(XTPError::LoginFailed {
                endpoint: EndpointKind::Quote,
                reason: "already logged in".to_owned(),
            })
        } else if !accepted {
            Err(XTPError::LoginFailed {
                endpoint: EndpointKind::Quote,
                reason: "rejected by exchange".to_owned(),
            })
        } else {
            self.addr = addr.to_owned();
            self.login_user = username.to_owned();
            self.login_pass = password.to_owned();
            self.login_proto = protocol;
            self.logged_in = true;
            Ok(())
        }
    }

    /// Ask the exchange to start streaming market data for `tickers` on
    /// one market. Acceptance is local validation only; the exchange's own
    /// acknowledgement arrives asynchronously as a quote event.
    pub fn subscribe_market_data(&self, tickers: &[&str], _exchange_id: XTPExchangeType) -> (r:
        Result<(), XTPError>)
        ensures
            r is Ok <==> subscribe_accepted(self.logged_in(), tickers@),
            !self.logged_in() ==> (r matches Err(XTPError::SubscriptionRejected { reason })
                && reason@ == "not logged in"@),
            self.logged_in() && tickers@.len() == 0 ==> (r matches Err(
                XTPError::SubscriptionRejected { reason },
            ) && reason@ == "empty ticker list"@),
            self.logged_in() && tickers@.len() > 0 && !subscribe_accepted(
                self.logged_in(),
                tickers@,
            ) ==> (r matches Err(XTPError::SubscriptionRejected { reason }) && reason@
                == "malformed ticker"@),
    {
        if !self.logged_in {
            return Err(XTPError::SubscriptionRejected { reason: "not logged in".to_owned() });
        }
        if tickers.len() == 0 {
            return Err(XTPError::SubscriptionRejected { reason: "empty ticker list".to_owned() });
        }
        let n = tickers.len();
        let mut i: usize = 0;
        while i < n
            invariant
                self.logged_in(),
                n == tickers@.len(),
                0 <= i <= n,
                forall|j: int| 0 <= j < i ==> (#[trigger] tickers@[j])@.len() > 0,
            decreases n - i,
        {
            if tickers[i].is_empty() {
                return Err(XTPError::SubscriptionRejected {
                    reason: "malformed ticker".to_owned(),
                });
            }
            i = i + 1;
        }
        Ok(())
    }
}

/// Whether the trade endpoint accepts a software key: the key must be
/// non-empty and no login may have been attempted yet. This is a hard
/// sequencing rule of the session protocol, not incidental order.
pub open spec fn key_accepted(login_attempted: bool, key: Seq<char>) -> bool {
    !login_attempted && key.len() > 0
}

/// Whether a trade login succeeds: the software key must already be set,
/// the session must not be logged in yet, and the exchange must accept the
/// credentials.
pub open spec fn trade_login_accepted(key_set: bool, logged_in: bool, accepted: bool) -> bool {
    key_set && !logged_in && accepted
}

/// One authenticated order/trading session with the exchange.
///
/// The session protocol demands that the software key be set before any
/// login attempt; once a login has been attempted the key can no longer be
/// changed.
pub struct TraderEndpoint {
    client_id: u8,
    log_path: String,
    log_level: XTPLogLevel,
    heartbeat_secs: u64,
    addr: String,
    login_user: String,
    login_pass: String,
    login_proto: XTPProtocolType,
    key_set: bool,
    login_attempted: bool,
    logged_in: bool,
}

impl TraderEndpoint {
    pub closed spec fn client_id(&self) -> u8 {
        self.client_id
    }

    pub closed spec fn log_path_chars(&self) -> Seq<char> {
        self.log_path@
    }

    pub closed spec fn level(&self) -> XTPLogLevel {
        self.log_level
    }

    pub closed spec fn heartbeat(&self) -> u64 {
        self.heartbeat_secs
    }

    pub closed spec fn addr_chars(&self) -> Seq<char> {
        self.addr@
    }

    /// The username the session was authenticated with.
    pub closed spec fn login_username_chars(&self) -> Seq<char> {
        self.login_user@
    }

    /// The password the session was authenticated with.
    pub closed spec fn login_password_chars(&self) -> Seq<char> {
        self.login_pass@
    }

    /// The transport protocol the session was authenticated over.
    pub closed spec fn login_protocol(&self) -> XTPProtocolType {
        self.login_proto
    }

    pub closed spec fn key_set(&self) -> bool {
        self.key_set
    }

    pub closed spec fn login_attempted(&self) -> bool {
        self.login_attempted
    }

    pub closed spec fn logged_in(&self) -> bool {
        self.logged_in
    }

    /// The session identity: address, username, password and transport, as
    /// recorded by a successful login.
    pub open spec fn login_session(&self) -> (Seq<char>, Seq<char>, Seq<char>, XTPProtocolType) {
        (
            self.addr_chars(),
            self.login_username_chars(),
            self.login_password_chars(),
            self.login_protocol(),
        )
    }

    /// A fresh, not yet authenticated session object with a log sink.
    pub fn new(client_id: u8, log_path: &str, log_level: XTPLogLevel) -> (ep: TraderEndpoint)
        ensures
            ep.client_id() == client_id,
            ep.log_path_chars() == log_path@,
            ep.level() == log_level,
            ep.heartbeat() == 0,
            ep.login_session() == (
                Seq::<char>::empty(),
                Seq::<char>::empty(),
                Seq::<char>::empty(),
                XTPProtocolType::TCP,
            ),
            !ep.key_set(),
            !ep.login_attempted(),
            !ep.logged_in(),
    {
        TraderEndpoint {
            client_id,
            log_path: log_path.to_owned(),
            log_level,
            heartbeat_secs: 0,
            addr: String::new(),
            login_user: String::new(),
            login_pass: String::new(),
            login_proto: XTPProtocolType::TCP,
            key_set: false,
            login_attempted: false,
            logged_in: false,
        }
    }

    /// Protocol tuning: how often the session heartbeats.
    pub fn set_heart_beat_interval(&mut self, secs: u64)
        ensures
            final(self).heartbeat() == secs,
            final(self).client_id() == old(self).client_id(),
            final(self).log_path_chars() == old(self).log_path_chars(),
            final(self).level() == old(self).level(),
            final(self).login_session() == old(self).login_session(),
            final(self).key_set() == old(self).key_set(),
            final(self).login_attempted() == old(self).login_attempted(),
            final(self).logged_in() == old(self).logged_in(),
    {
        self.heartbeat_secs = secs;
    }

    /// Install the software key. Rejected once any login has been
    /// attempted, and for an empty key; a rejection is a startup failure of
    /// the trade endpoint, reported as `LoginFailed` with that endpoint and
    /// the cause, and it leaves the endpoint exactly as it was.
    pub fn set_software_key(&mut self, key: &str) -> (r: Result<(), XTPError>)
        ensures
            r is Ok <==> key_accepted(old(self).login_attempted(), key@),
            r is Ok ==> final(self).key_set(),
            r is Err ==> *final(self) == *old(self),
            old(self).login_attempted() ==> (r matches Err(
                XTPError::LoginFailed { endpoint, reason },
            ) && endpoint == EndpointKind::Trade && reason@
                == "key must be set before login is attempted"@),
            !old(self).login_attempted() && key@.len() == 0 ==> (r matches Err(
                XTPError::LoginFailed { endpoint, reason },
            ) && endpoint == EndpointKind::Trade && reason@ == "empty software key"@),
            final(self).client_id() == old(self).client_id(),
            final(self).log_path_chars() == old(self).log_path_chars(),
            final(self).level() == old(self).level(),
            final(self).heartbeat() == old(self).heartbeat(),
            final(self).login_session() == old(self).login_session(),
            final(self).login_attempted() == old(self).login_attempted(),
            final(self).logged_in() == old(self).logged_in(),
    {
        if self.login_attempted {
            Err(XTPError::LoginFailed {
                endpoint: EndpointKind::Trade,
                reason: "key must be set before login is attempted".to_owned(),
            })
        } else if key.is_empty() {
            Err(XTPError::LoginFailed {
                endpoint: EndpointKind::Trade,
                reason: "empty software key".to_owned(),
            })
        } else {
            self.key_set = true;
            Ok(())
        }
    }

    /// Attempt to authenticate the session with the given credentials over
    /// the given transport. Every call — successful or not — counts as a
    /// login attempt and freezes the software key. Login fails when the key
    /// was never set, when the session is already logged in, or when the
    /// exchange (whose verdict is `accepted`) rejects the credentials.
    /// Success records exactly the address, credentials and protocol that
    /// were handed in.
    pub fn login(
        &mut self,
        addr: &str,
        username: &str,
        password: &str,
        protocol: XTPProtocolType,
        accepted: bool,
    ) -> (r: Result<(), XTPError>)
        ensures
            final(self).login_attempted(),
            r is Ok <==> trade_login_accepted(
                old(self).key_set(),
                old(self).logged_in(),
                accepted,
            ),
            r is Ok ==> {
                &&& final(self).logged_in()
                &&& final(self).login_session() == (addr@, username@, password@, protocol)
            },
            r is Err ==> {
                &&& final(self).logged_in() == old(self).logged_in()
                &&& final(self).login_session() == old(self).login_session()
            },
            !old(self).key_set() ==> (r matches Err(XTPError::LoginFailed { endpoint, reason })
                && endpoint == EndpointKind::Trade && reason@ == "software key not set"@),
            old(self).key_set() && old(self).logged_in() ==> (r matches Err(
                XTPError::LoginFailed { endpoint, reason },
            ) && endpoint == EndpointKind::Trade && reason@ == "already logged in"@),
            old(self).key_set() && !old(self).logged_in() && !accepted ==> (r matches Err(
                XTPError::LoginFailed { endpoint, reason },
            ) && endpoint == EndpointKind::Trade && reason@ == "rejected by exchange"@),
            final(self).client_id() == old(self).client_id(),
            final(self).log_path_chars() == old(self).log_path_chars(),
            final(self).level() == old(self).level(),
            final(self).heartbeat() == old(self).heartbeat(),
            final(self).key_set() == old(self).key_set(),
    {
        self.login_attempted = true;
        if !self.key_set {
            Err(XTPError::LoginFailed {
                endpoint: EndpointKind::Trade,
                reason: "software key not set".to_owned(),
            })
        } else if self.logged_in {
            Err(XTPError::LoginFailed {
                endpoint: EndpointKind::Trade,
                reason: "already logged in".to_owned(),
            })
        } else if !accepted {
            Err(XTPError::LoginFailed {
                endpoint: EndpointKind::Trade,
                reason: "rejected by exchange".to_owned(),
            })
        } else {
            self.logged_in = true;
            self.addr = addr.to_owned();
            self.login_user = username.to_owned();
            self.login_pass = password.to_owned();
            self.login_proto = protocol;
            Ok(())
        }
    }
}

/// Ordering invariant of the trade session, first direction: once a login
/// has been attempted — successfully or not — any later attempt to set the
/// software key is rejected.
pub proof fn lemma_key_after_login_attempt_rejected(login_attempted: bool, key: Seq<char>)
    requires
        login_attempted,
    ensures
        !key_accepted(login_attempted, key),
{
}

/// Ordering invariant of the trade session, second direction: a login can
/// never succeed while the software key is not set, whatever the exchange
/// would answer.
pub proof fn lemma_login_requires_key(key_set: bool, logged_in: bool, accepted: bool)
    requires
        !key_set,
    ensures
        !trade_login_accepted(key_set, logged_in, accepted),
{
}

} // verus!
