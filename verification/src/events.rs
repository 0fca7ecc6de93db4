use vstd::prelude::*;

verus! {

/// One market-data notification from the quote feed.
///
/// Quote events are fanned out to every subscribed strategy, so they are
/// plain cloneable values with no exclusive-ownership resources.
#[derive(Debug)]
pub enum QuoteEvent {
    /// A last-price tick for one instrument.
    Tick { ticker: String, price: u64, volume: u64 },
    /// A top-of-book depth update for one instrument.
    Depth { ticker: String, bid: u64, ask: u64 },
    /// The exchange acknowledged a market-data subscription.
    SubscribeAck { ticker: String },
    /// The exchange rejected a market-data subscription.
    SubscribeError { ticker: String, code: u32 },
}

/// The mathematical image of a `QuoteEvent`: the same shape with every
/// text field read as a sequence of characters.
pub enum QuoteEventView {
    Tick { ticker: Seq<char>, price: u64, volume: u64 },
    Depth { ticker: Seq<char>, bid: u64, ask: u64 },
    SubscribeAck { ticker: Seq<char> },
    SubscribeError { ticker: Seq<char>, code: u32 },
}

impl View for QuoteEvent {
    type V = QuoteEventView;

    open spec fn view(&self) -> QuoteEventView {
        match self {
            QuoteEvent::Tick { ticker, price, volume } => QuoteEventView::Tick {
                ticker: ticker@,
                price: *price,
                volume: *volume,
            },
            QuoteEvent::Depth { ticker, bid, ask } => QuoteEventView::Depth {
                ticker: ticker@,
                bid: *bid,
                ask: *ask,
            },
            QuoteEvent::SubscribeAck { ticker } => QuoteEventView::SubscribeAck {
                ticker: ticker@,
            },
            QuoteEvent::SubscribeError { ticker, code } => QuoteEventView::SubscribeError {
                ticker: ticker@,
                code: *code,
            },
        }
    }
}

impl Clone for QuoteEvent {
    fn clone(&self) -> (r: Self)
        ensures
            r@ == self@,
    {
        match self {
            QuoteEvent::Tick { ticker, price, volume } => QuoteEvent::Tick {
                ticker: ticker.clone(),
                price: *price,
                volume: *volume,
            },
            QuoteEvent::Depth { ticker, bid, ask } => QuoteEvent::Depth {
                ticker: ticker.clone(),
                bid: *bid,
                ask: *ask,
            },
            QuoteEvent::SubscribeAck { ticker } => QuoteEvent::SubscribeAck {
                ticker: ticker.clone(),
            },
            QuoteEvent::SubscribeError { ticker, code } => QuoteEvent::SubscribeError {
                ticker: ticker.clone(),
                code: *code,
            },
        }
    }
}

/// One order or account notification from the trader feed.
///
/// Trade events are drained by the connector's merge loop; they are
/// observed but not yet redistributed to strategies.
#[derive(Debug)]
pub enum TradeEvent {
    /// The exchange accepted an order.
    OrderAccepted { order_id: u64 },
    /// The exchange rejected an order.
    OrderRejected { order_id: u64, code: u32 },
    /// An order was (partially) filled.
    TradeFilled { order_id: u64, price: u64, volume: u64 },
    /// A response to a position or fund query.
    QueryResponse { request_id: u64 },
}

/// The mathematical image of a `TradeEvent`.
pub enum TradeEventView {
    OrderAccepted { order_id: u64 },
    OrderRejected { order_id: u64, code: u32 },
    TradeFilled { order_id: u64, price: u64, volume: u64 },
    QueryResponse { request_id: u64 },
}

impl View for TradeEvent {
    type V = TradeEventView;

    open spec fn view(&self) -> TradeEventView {
        match self {
            TradeEvent::OrderAccepted { order_id } => TradeEventView::OrderAccepted {
                order_id: *order_id,
            },
            TradeEvent::OrderRejected { order_id, code } => TradeEventView::OrderRejected {
                order_id: *order_id,
                code: *code,
            },
            TradeEvent::TradeFilled { order_id, price, volume } => TradeEventView::TradeFilled {
                order_id: *order_id,
                price: *price,
                volume: *volume,
            },
            TradeEvent::QueryResponse { request_id } => TradeEventView::QueryResponse {
                request_id: *request_id,
            },
        }
    }
}

} // verus!
