use vstd::prelude::*;

verus! {

/// Which of the two exchange sessions an error concerns.
#[derive(Clone, Copy, PartialEq, Eq, Structural, Debug)]
pub enum EndpointKind {
    Quote,
    Trade,
}

/// The connector's error taxonomy.
///
/// Startup failures (`LoginFailed`) are fatal to initialization and carry
/// the distinguishing endpoint and cause; a rejected software key is a
/// startup failure of the trade endpoint and is reported the same way.
/// Per-request failures (`SubscriptionRejected`, `EndpointNotReady`) are
/// returned to the calling strategy. `ChannelLagged` and `ChannelClosed`
/// are delivered to a single subscriber through its own subscription and
/// never disturb the publisher or other subscribers.
#[derive(Debug)]
pub enum XTPError {
    /// Authenticating one endpoint failed — the login itself, or a step it
    /// depends on (the trade endpoint's software key); startup must abort.
    LoginFailed { endpoint: EndpointKind, reason: String },
    /// The quote endpoint refused a market-data subscription request.
    SubscriptionRejected { reason: String },
    /// An operation was attempted before the endpoints were initialized.
    EndpointNotReady,
    /// The subscriber fell behind the broadcast buffer and permanently
    /// missed `skipped` events; delivery resumes with the next receive.
    ChannelLagged { skipped: u64 },
    /// The publisher side of the broadcast channel is gone; terminal for
    /// the subscriber.
    ChannelClosed,
}

} // verus!
