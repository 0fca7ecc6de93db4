use xtp_connector::endpoint::{
    QuoteEndpoint, TraderEndpoint, XTPExchangeType, XTPLogLevel, XTPProtocolType,
};
use xtp_connector::errors::{EndpointKind, XTPError};

fn fresh_trader() -> TraderEndpoint {
    TraderEndpoint::new(1, "/tmp/xtp", XTPLogLevel::Trace)
}

fn fresh_quote() -> QuoteEndpoint {
    QuoteEndpoint::new(1, "/tmp/xtp", XTPLogLevel::Trace)
}

#[test]
fn software_key_after_login_attempt_is_rejected() {
    let mut t = fresh_trader();
    // The login attempt fails (no key), but it still counts as an attempt.
    let login = t.login("addr", "u", "p", XTPProtocolType::TCP, true);
    assert!(matches!(login, Err(XTPError::LoginFailed { endpoint: EndpointKind::Trade, .. })));
    match t.set_software_key("secret") {
        Err(XTPError::LoginFailed { endpoint: EndpointKind::Trade, reason }) => {
            assert_eq!(reason, "key must be set before login is attempted");
        },
        other => panic!("expected the key to be rejected, got {:?}", other),
    }
}

#[test]
fn key_before_login_succeeds() {
    let mut t = fresh_trader();
    assert!(t.set_software_key("secret").is_ok());
    assert!(t.login("addr", "u", "p", XTPProtocolType::TCP, true).is_ok());
}

#[test]
fn login_without_key_fails_even_when_exchange_would_accept() {
    let mut t = fresh_trader();
    match t.login("addr", "u", "p", XTPProtocolType::TCP, true) {
        Err(XTPError::LoginFailed { endpoint: EndpointKind::Trade, reason }) => {
            assert_eq!(reason, "software key not set");
        },
        other => panic!("expected the login to fail, got {:?}", other),
    }
}

#[test]
fn empty_software_key_is_rejected() {
    let mut t = fresh_trader();
    match t.set_software_key("") {
        Err(XTPError::LoginFailed { endpoint: EndpointKind::Trade, reason }) => {
            assert_eq!(reason, "empty software key");
        },
        other => panic!("expected the key to be rejected, got {:?}", other),
    }
}

#[test]
fn trade_login_rejected_by_exchange_fails() {
    let mut t = fresh_trader();
    assert!(t.set_software_key("secret").is_ok());
    let login = t.login("addr", "u", "p", XTPProtocolType::TCP, false);
    assert!(matches!(login, Err(XTPError::LoginFailed { endpoint: EndpointKind::Trade, .. })));
}

#[test]
fn quote_login_rejected_by_exchange_fails() {
    let mut q = fresh_quote();
    let login = q.login("addr", "u", "p", XTPProtocolType::TCP, false);
    assert!(matches!(login, Err(XTPError::LoginFailed { endpoint: EndpointKind::Quote, .. })));
}

#[test]
fn subscribe_requires_login() {
    let q = fresh_quote();
    let r = q.subscribe_market_data(&["AAA"], XTPExchangeType::SH);
    assert!(matches!(r, Err(XTPError::SubscriptionRejected { .. })));
}

#[test]
fn subscribe_rejects_empty_ticker_list() {
    let mut q = fresh_quote();
    assert!(q.login("addr", "u", "p", XTPProtocolType::TCP, true).is_ok());
    let r = q.subscribe_market_data(&[], XTPExchangeType::SH);
    assert!(matches!(r, Err(XTPError::SubscriptionRejected { .. })));
}

#[test]
fn subscribe_rejects_malformed_ticker() {
    let mut q = fresh_quote();
    assert!(q.login("addr", "u", "p", XTPProtocolType::TCP, true).is_ok());
    match q.subscribe_market_data(&["AAA", ""], XTPExchangeType::SH) {
        Err(XTPError::SubscriptionRejected { reason }) => assert_eq!(reason, "malformed ticker"),
        other => panic!("expected the subscription to be rejected, got {:?}", other),
    }
}

#[test]
fn subscribe_accepts_valid_request_after_login() {
    let mut q = fresh_quote();
    assert!(q.login("addr", "u", "p", XTPProtocolType::TCP, true).is_ok());
    assert!(q.subscribe_market_data(&["AAA", "BBB"], XTPExchangeType::SZ).is_ok());
}
