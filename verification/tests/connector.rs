use xtp_connector::endpoint::XTPExchangeType;
use xtp_connector::errors::{EndpointKind, XTPError};
use xtp_connector::events::{QuoteEvent, TradeEvent};
use xtp_connector::exchange::{ExchangePhase, MergeOutcome, XTPExchange};

fn configured() -> XTPExchange {
    XTPExchange::new("127.0.0.1:6001", "127.0.0.1:6002", "user", "pass", "softkey")
}

fn tick(ticker: &str, price: u64) -> QuoteEvent {
    QuoteEvent::Tick { ticker: ticker.to_string(), price, volume: 1 }
}

fn expect_tick(r: Result<Option<QuoteEvent>, XTPError>) -> (String, u64) {
    match r {
        Ok(Some(QuoteEvent::Tick { ticker, price, .. })) => (ticker, price),
        other => panic!("expected a tick event, got {:?}", other),
    }
}

#[test]
fn subscribe_before_initialization_reports_endpoint_not_ready() {
    let ex = configured();
    let handle = ex.handle();
    let r = handle.subscribe_market_data(&["AAA"], XTPExchangeType::SH);
    assert!(matches!(r, Err(XTPError::EndpointNotReady)));
}

#[test]
fn start_before_initialization_reports_endpoint_not_ready() {
    let mut ex = configured();
    assert!(matches!(ex.start(), Err(XTPError::EndpointNotReady)));
    assert!(matches!(ex.current_phase(), ExchangePhase::Configured));
}

#[test]
fn quote_login_failure_aborts_startup_with_cause() {
    let mut ex = configured();
    let r = ex.sys_init(false, true);
    assert!(matches!(r, Err(XTPError::LoginFailed { endpoint: EndpointKind::Quote, .. })));
    assert!(matches!(ex.current_phase(), ExchangePhase::Configured));
}

#[test]
fn trade_login_failure_aborts_startup_with_cause() {
    let mut ex = configured();
    let r = ex.sys_init(true, false);
    assert!(matches!(r, Err(XTPError::LoginFailed { endpoint: EndpointKind::Trade, .. })));
    assert!(matches!(ex.current_phase(), ExchangePhase::Configured));
}

#[test]
fn empty_software_key_aborts_startup() {
    let mut ex = XTPExchange::new("q", "t", "user", "pass", "");
    match ex.sys_init(true, true) {
        Err(XTPError::LoginFailed { endpoint: EndpointKind::Trade, reason }) => {
            assert_eq!(reason, "empty software key");
        },
        other => panic!("expected startup to abort on the key, got {:?}", other),
    }
    assert!(matches!(ex.current_phase(), ExchangePhase::Configured));
}

#[test]
fn successful_initialization_connects() {
    let mut ex = configured();
    assert!(ex.sys_init(true, true).is_ok());
    assert!(matches!(ex.current_phase(), ExchangePhase::Connected));
}

#[test]
fn registering_k_strategies_yields_k_independent_launches() {
    let mut ex = configured();
    ex.register(11);
    ex.register(22);
    ex.register(33);
    assert_eq!(ex.strategy_count(), 3);
    assert!(ex.sys_init(true, true).is_ok());
    let mut launches = ex.start().expect("start after init");
    assert!(matches!(ex.current_phase(), ExchangePhase::Running));
    assert_eq!(launches.len(), 3);
    let tokens: Vec<u64> = launches.iter().map(|l| l.strategy).collect();
    assert_eq!(tokens, vec![11, 22, 33]);
    // Dropping one launch's subscription must not affect the others.
    let dropped = launches.remove(1);
    drop(dropped);
    assert!(ex.deliver_quote(tick("AAA", 5)).is_ok());
    assert!(matches!(ex.merge_step(), MergeOutcome::PublishedQuote));
    for launch in launches.iter_mut() {
        let (ticker, price) = expect_tick(launch.subscription.recv(ex.bus_ref()));
        assert_eq!(ticker, "AAA");
        assert_eq!(price, 5);
    }
}

#[test]
fn merge_loop_publishes_quotes_and_drains_trades() {
    let mut ex = configured();
    ex.register(1);
    assert!(ex.sys_init(true, true).is_ok());
    let mut launches = ex.start().expect("start after init");
    assert!(ex.deliver_trade(TradeEvent::OrderAccepted { order_id: 42 }).is_ok());
    assert!(ex.deliver_quote(tick("AAA", 8)).is_ok());
    // A pending quote is merged ahead of a pending trade.
    assert!(matches!(ex.merge_step(), MergeOutcome::PublishedQuote));
    assert!(matches!(ex.merge_step(), MergeOutcome::ObservedTrade));
    assert!(matches!(ex.merge_step(), MergeOutcome::Idle));
    let sub = &mut launches[0].subscription;
    let (ticker, price) = expect_tick(sub.recv(ex.bus_ref()));
    assert_eq!((ticker.as_str(), price), ("AAA", 8));
    // The trade event was observed, not broadcast.
    assert!(matches!(sub.recv(ex.bus_ref()), Ok(None)));
}

#[test]
fn adapter_queue_hands_back_overflow() {
    let mut ex = configured();
    assert!(ex.sys_init(true, true).is_ok());
    for p in 0u64..10 {
        assert!(ex.deliver_quote(tick("AAA", p)).is_ok());
    }
    match ex.deliver_quote(tick("BBB", 99)) {
        Err(QuoteEvent::Tick { ticker, price, .. }) => {
            assert_eq!((ticker.as_str(), price), ("BBB", 99));
        },
        other => panic!("expected the event handed back, got {:?}", other.is_ok()),
    }
}

#[test]
fn slow_subscriber_lags_once_then_resumes_via_connector() {
    let mut ex = configured();
    ex.register(1);
    assert!(ex.sys_init(true, true).is_ok());
    let mut launches = ex.start().expect("start after init");
    let sub = &mut launches[0].subscription;
    // 13 publications against a broadcast capacity of 10: 3 are lost.
    for p in 0u64..13 {
        assert!(ex.deliver_quote(tick("AAA", p)).is_ok());
        assert!(matches!(ex.merge_step(), MergeOutcome::PublishedQuote));
    }
    match sub.recv(ex.bus_ref()) {
        Err(XTPError::ChannelLagged { skipped }) => assert_eq!(skipped, 3),
        other => panic!("expected a lag report, got {:?}", other),
    }
    for p in 3u64..13 {
        let (_, price) = expect_tick(sub.recv(ex.bus_ref()));
        assert_eq!(price, p);
    }
    assert!(matches!(sub.recv(ex.bus_ref()), Ok(None)));
}

#[test]
fn end_to_end_two_strategies_both_observe_all_events_in_order() {
    let mut ex = configured();
    ex.register(1);  // strategy A
    ex.register(2);  // strategy B
    assert!(ex.sys_init(true, true).is_ok());
    let mut launches = ex.start().expect("start after init");
    assert_eq!(launches.len(), 2);
    // Strategy A subscribes to market data through its handle.
    let r = launches[0].handle.subscribe_market_data(&["AAA"], XTPExchangeType::SH);
    assert!(r.is_ok());
    // Three synthetic quote events for "AAA" arrive upstream.
    for p in 1u64..=3 {
        assert!(ex.deliver_quote(tick("AAA", p)).is_ok());
        assert!(matches!(ex.merge_step(), MergeOutcome::PublishedQuote));
    }
    // Both strategy A and strategy B observe all 3, in order.
    for launch in launches.iter_mut() {
        for p in 1u64..=3 {
            let (ticker, price) = expect_tick(launch.subscription.recv(ex.bus_ref()));
            assert_eq!(ticker, "AAA");
            assert_eq!(price, p);
        }
        assert!(matches!(launch.subscription.recv(ex.bus_ref()), Ok(None)));
    }
}
