use xtp_connector::channel::QuoteBus;
use xtp_connector::errors::XTPError;
use xtp_connector::events::QuoteEvent;

fn tick(ticker: &str, price: u64) -> QuoteEvent {
    QuoteEvent::Tick { ticker: ticker.to_string(), price, volume: 1 }
}

fn expect_price(r: Result<Option<QuoteEvent>, XTPError>) -> u64 {
    match r {
        Ok(Some(QuoteEvent::Tick { price, .. })) => price,
        other => panic!("expected a tick event, got {:?}", other),
    }
}

#[test]
fn subscribers_receive_in_publication_order() {
    let mut bus = QuoteBus::new(10);
    let mut a = bus.subscribe();
    let mut b = bus.subscribe();
    bus.publish(tick("AAA", 1));
    bus.publish(tick("AAA", 2));
    bus.publish(tick("AAA", 3));
    for sub in [&mut a, &mut b] {
        assert_eq!(expect_price(sub.recv(&bus)), 1);
        assert_eq!(expect_price(sub.recv(&bus)), 2);
        assert_eq!(expect_price(sub.recv(&bus)), 3);
        assert!(matches!(sub.recv(&bus), Ok(None)));
    }
}

#[test]
fn late_subscriber_sees_nothing_from_before() {
    let mut bus = QuoteBus::new(10);
    bus.publish(tick("AAA", 1));
    bus.publish(tick("AAA", 2));
    let mut late = bus.subscribe();
    assert!(matches!(late.recv(&bus), Ok(None)));
    bus.publish(tick("AAA", 3));
    assert_eq!(expect_price(late.recv(&bus)), 3);
    assert!(matches!(late.recv(&bus), Ok(None)));
}

#[test]
fn lag_reported_once_then_delivery_resumes() {
    let mut bus = QuoteBus::new(3);
    let mut slow = bus.subscribe();
    for p in 0u64..5 {
        bus.publish(tick("AAA", p));
    }
    // 5 publications, capacity 3: publications 0 and 1 are gone.
    match slow.recv(&bus) {
        Err(XTPError::ChannelLagged { skipped }) => assert_eq!(skipped, 2),
        other => panic!("expected a lag report, got {:?}", other),
    }
    assert_eq!(expect_price(slow.recv(&bus)), 2);
    assert_eq!(expect_price(slow.recv(&bus)), 3);
    assert_eq!(expect_price(slow.recv(&bus)), 4);
    assert!(matches!(slow.recv(&bus), Ok(None)));
}

#[test]
fn dropping_one_subscription_does_not_affect_others() {
    let mut bus = QuoteBus::new(10);
    let dropped = bus.subscribe();
    let mut kept = bus.subscribe();
    drop(dropped);
    bus.publish(tick("AAA", 9));
    assert_eq!(expect_price(kept.recv(&bus)), 9);
}

#[test]
fn closed_channel_drains_then_reports_channel_closed() {
    let mut bus = QuoteBus::new(10);
    let mut sub = bus.subscribe();
    bus.publish(tick("AAA", 4));
    bus.close();
    assert_eq!(expect_price(sub.recv(&bus)), 4);
    assert!(matches!(sub.recv(&bus), Err(XTPError::ChannelClosed)));
}

#[test]
fn publish_without_subscribers_drops_silently() {
    let bus = QuoteBus::new(10);
    assert_eq!(bus.capacity(), 10);
    let mut bus = bus;
    bus.publish(tick("AAA", 1));
    bus.publish(tick("AAA", 2));
    assert_eq!(bus.published(), 2);
    let mut sub = bus.subscribe();
    assert!(matches!(sub.recv(&bus), Ok(None)));
}
