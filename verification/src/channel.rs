use vstd::prelude::*;

use crate::errors::XTPError;
use crate::events::{QuoteEvent, QuoteEventView};

verus! {

/// The publication index of the oldest event still retained by a channel
/// that has published `total` events and keeps at most `cap` of them.
/// Everything before it has been overwritten and can only be reported as
/// lag.
pub open spec fn lag_floor(total: int, cap: int) -> int {
    if total > cap {
        total - cap
    } else {
        0
    }
}

/// Where a subscriber's cursor stands after one receive from a channel
/// with `total` publications and capacity `cap`: a lagged cursor jumps to
/// the oldest retained publication, a cursor with an event pending
/// advances past it, and a cursor that has seen everything stays put.
pub open spec fn next_cursor(total: int, cap: int, cur: int) -> int {
    if cur < lag_floor(total, cap) {
        lag_floor(total, cap)
    } else if cur < total {
        cur + 1
    } else {
        cur
    }
}

/// Whether a receive at cursor `cur` yields an event (rather than a lag
/// report, a closed notice, or nothing).
pub open spec fn receives_event(total: int, cap: int, cur: int) -> bool {
    lag_floor(total, cap) <= cur < total
}

/// The quote-event broadcast channel: one producer, many subscribers,
/// each with an independent read cursor and a bounded lag tolerance.
///
/// The channel retains only the newest `capacity` publications; a
/// subscriber that falls further behind is told how many events it missed
/// and resumes from the oldest retained one, so a slow subscriber never
/// blocks the producer. Publishing while nobody subscribes simply leaves
/// the event behind every future subscriber's starting point: it is
/// dropped silently, not an error.
pub struct QuoteBus {
    buffer: Vec<QuoteEvent>,
    total: usize,
    capacity: usize,
    closed: bool,
    hist: Ghost<Seq<QuoteEventView>>,
}

/// One subscriber's independent position in the broadcast stream.
///
/// `start` is the publication count at the moment the subscription was
/// taken; no event published before it is ever delivered here. `cursor`
/// is the next publication index to read.
pub struct QuoteSubscription {
    start: usize,
    cursor: usize,
}

impl QuoteSubscription {
    /// The publication count at the moment this subscription began.
    pub closed spec fn start_point(&self) -> int {
        self.start as int
    }

    /// The next publication index this subscriber will read.
    pub closed spec fn cursor(&self) -> int {
        self.cursor as int
    }

    /// A subscription never reaches back before its starting point.
    pub open spec fn wf(&self) -> bool {
        self.start_point() <= self.cursor()
    }
}

impl QuoteBus {
    /// Every event ever published on this channel, in publication order.
    pub closed spec fn log(&self) -> Seq<QuoteEventView> {
        self.hist@
    }

    /// The bound on how many publications are retained for slow
    /// subscribers.
    pub closed spec fn cap(&self) -> int {
        self.capacity as int
    }

    /// How many events have been published over the channel's lifetime.
    pub open spec fn published_total(&self) -> int {
        self.log().len() as int
    }

    /// Whether the producer side has shut the channel.
    pub closed spec fn is_closed(&self) -> bool {
        self.closed
    }

    /// Internal well-formedness: the retained buffer is exactly the newest
    /// publications, at most `capacity` of them, in publication order.
    pub closed spec fn wf(&self) -> bool {
        &&& self.capacity >= 1
        &&& self.hist@.len() == self.total as int
        &&& self.buffer@.len() == (if self.total as int <= self.capacity as int {
            self.total as int
        } else {
            self.capacity as int
        })
        &&& forall|i: int|
            0 <= i < self.buffer@.len() ==> #[trigger] self.buffer@[i]@ == self.hist@[self.total
                - self.buffer@.len() + i]
    }

    pub fn new(capacity: usize) -> (bus: QuoteBus)
        requires
            capacity >= 1,
        ensures
            bus.wf(),
            bus.cap() == capacity as int,
            bus.log() == Seq::<QuoteEventView>::empty(),
            !bus.is_closed(),
    {
        QuoteBus {
            buffer: Vec::new(),
            total: 0,
            capacity,
            closed: false,
            hist: Ghost(Seq::empty()),
        }
    }

    pub fn capacity(&self) -> (c: usize)
        ensures
            c as int == self.cap(),
    {
        self.capacity
    }

    pub fn published(&self) -> (n: usize)
        requires
            self.wf(),
        ensures
            n as int == self.published_total(),
    {
        self.total
    }

    /// Fan one event out to every current subscriber. Subscribers taken
    /// later start after it; subscribers more than `cap` behind after this
    /// publication will see it only as part of a lag report.
    pub fn publish(&mut self, e: QuoteEvent)
        requires
            old(self).wf(),
            old(self).published_total() < usize::MAX,
        ensures
            final(self).wf(),
            final(self).cap() == old(self).cap(),
            final(self).is_closed() == old(self).is_closed(),
            final(self).log() == old(self).log().push(e@),
    {
        let ghost ev: QuoteEventView = e@;
        if self.buffer.len() == self.capacity {
            self.buffer.remove(0);
        }
        self.buffer.push(e);
        self.total = self.total + 1;
        proof {
            self.hist@ = self.hist@.push(ev);
        }
    }

    /// Shut the producer side; subscribers that catch up will be told the
    /// channel is closed.
    pub fn close(&mut self)
        requires
            old(self).wf(),
        ensures
            final(self).wf(),
            final(self).cap() == old(self).cap(),
            final(self).log() == old(self).log(),
            final(self).is_closed(),
    {
        self.closed = true;
    }

    /// Take a fresh, independent subscription. Its cursor begins at the
    /// current publication count, so it observes exactly the events
    /// published from this moment on.
    pub fn subscribe(&self) -> (s: QuoteSubscription)
        requires
            self.wf(),
        ensures
            s.wf(),
            s.start_point() == self.published_total(),
            s.cursor() == self.published_total(),
    {
        QuoteSubscription { start: self.total, cursor: self.total }
    }
}

impl QuoteSubscription {
    /// Poll this subscription for the next broadcast event.
    ///
    /// Exactly one of four things happens, decided by where the cursor
    /// stands: the subscriber fell behind the retained window and is told
    /// once how many events it permanently missed (`ChannelLagged`); the
    /// next event in publication order is delivered; the channel is closed
    /// and drained (`ChannelClosed`); or nothing has been published yet
    /// (`Ok(None)`, the caller should wait and poll again).
    pub fn recv(&mut self, bus: &QuoteBus) -> (r: Result<Option<QuoteEvent>, XTPError>)
        requires
            bus.wf(),
        ensures
            final(self).start_point() == old(self).start_point(),
            final(self).cursor() == next_cursor(
                bus.published_total(),
                bus.cap(),
                old(self).cursor(),
            ),
            ({
                let cur = old(self).cursor();
                let fl = lag_floor(bus.published_total(), bus.cap());
                if cur < fl {
                    r matches Err(XTPError::ChannelLagged { skipped }) && skipped as int == fl
                        - cur
                } else if cur < bus.published_total() {
                    r matches Ok(Some(e)) && e@ == bus.log()[cur]
                } else if bus.is_closed() {
                    r matches Err(XTPError::ChannelClosed)
                } else {
                    r matches Ok(None::<QuoteEvent>)
                }
            }),
    {
        let oldest: usize = bus.total - bus.buffer.len();
        if self.cursor < oldest {
            let skipped: usize = oldest - self.cursor;
            self.cursor = oldest;
            Err(XTPError::ChannelLagged { skipped: skipped as u64 })
        } else if self.cursor < bus.total {
            let e = bus.buffer[self.cursor - oldest].clone();
            self.cursor = self.cursor + 1;
            Ok(Some(e))
        } else if bus.closed {
            Err(XTPError::ChannelClosed)
        } else {
            Ok(None)
        }
    }
}

/// Broadcast delivery is in publication order: a receive never moves a
/// subscriber's cursor backwards, and a receive that yields an event
/// advances the cursor to exactly the next publication index, so
/// successive events reach every subscriber in the order the connector
/// published them.
pub proof fn lemma_delivery_in_publication_order(total: int, cap: int, cur: int)
    requires
        cap >= 1,
        0 <= cur,
    ensures
        next_cursor(total, cap, cur) >= cur,
        receives_event(total, cap, cur) ==> next_cursor(total, cap, cur) == cur + 1,
{
}

/// No subscriber observes an event published before its subscription
/// began: the cursor starts at the subscription point, polling never moves
/// it back before that point, and a delivered event's publication index is
/// exactly the cursor it was delivered at.
pub proof fn lemma_no_delivery_from_before_subscription(total: int, cap: int, start: int, cur: int)
    requires
        cap >= 1,
        0 <= start <= cur,
    ensures
        receives_event(total, cap, cur) ==> cur >= start,
        start <= next_cursor(total, cap, cur),
{
}

/// The publication log is append-only: publishing changes no event that
/// was already published, so the event at a given publication index is
/// fixed forever, and every subscriber that reaches that index — whenever
/// it polls — reads the same event there.
pub proof fn lemma_log_append_only(log: Seq<QuoteEventView>, e: QuoteEventView, i: int)
    requires
        0 <= i < log.len(),
    ensures
        log.push(e)[i] == log[i],
        log.push(e).len() == log.len() + 1,
{
}

/// A subscriber that stopped polling for more than the channel capacity
/// worth of publications is told exactly once how many it missed: the lag
/// report is positive, it moves the cursor to the oldest retained
/// publication, and the very next receive delivers an event normally.
pub proof fn lemma_lag_reported_once_then_resumes(total: int, cap: int, cur: int)
    requires
        cap >= 1,
        0 <= cur < lag_floor(total, cap),
    ensures
        lag_floor(total, cap) - cur > 0,
        next_cursor(total, cap, cur) == lag_floor(total, cap),
        receives_event(total, cap, next_cursor(total, cap, cur)),
{
}

} // verus!
