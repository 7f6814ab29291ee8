use rs_hyperliquid::client_state::ClientState;
use rs_hyperliquid::decimal::{Decimal, Notional};
use rs_hyperliquid::error::HyperliquidError;
use rs_hyperliquid::json::quote_json_string;
use rs_hyperliquid::session::SessionInput;
use rs_hyperliquid::text::str_eq;
use rs_hyperliquid::types::{Subscription, SubscriptionRequest, Trade};

fn request(channel: &str, coin: &str) -> SubscriptionRequest {
    SubscriptionRequest {
        method: "subscribe".to_string(),
        subscription: Subscription {
            subscription_type: channel.to_string(),
            coin: coin.to_string(),
        },
    }
}

#[test]
fn subscription_requests() {
    assert_eq!(SubscriptionRequest::new_trades_subscription("BTC"), request("trades", "BTC"));
    assert_eq!(SubscriptionRequest::new_l2_book_subscription("ETH"), request("l2Book", "ETH"));
    assert_eq!(SubscriptionRequest::new_bbo_subscription("SOL"), request("bbo", "SOL"));
    assert_eq!(SubscriptionRequest::new_all_mids_subscription(), request("allMids", "*"));
    assert_eq!(
        SubscriptionRequest::new_candle_subscription("BTC", "1m"),
        request("candle.1m", "BTC")
    );
    assert_eq!(SubscriptionRequest::new_candle_subscription("BTC", ""), request("candle.", "BTC"));
    assert_eq!(
        SubscriptionRequest::new_user_events_subscription("0xuser"),
        request("userEvents", "0xuser")
    );
    assert_eq!(
        SubscriptionRequest::new_user_fills_subscription("0xuser"),
        request("userFills", "0xuser")
    );
    assert_eq!(SubscriptionRequest::new_notification_subscription(), request("notification", "*"));
}

#[test]
fn subscription_wire_text() {
    assert_eq!(
        SubscriptionRequest::new_trades_subscription("BTC").to_wire(),
        "{\"method\":\"subscribe\",\"subscription\":{\"type\":\"trades\",\"coin\":\"BTC\"}}"
    );
    assert_eq!(
        SubscriptionRequest::new_trades_subscription("a\"b\\c\n").to_wire(),
        "{\"method\":\"subscribe\",\"subscription\":{\"type\":\"trades\",\"coin\":\"a\\\"b\\\\c\\n\"}}"
    );
}

#[test]
fn json_strings_are_quoted_and_escaped() {
    assert_eq!(quote_json_string("BTC"), "\"BTC\"");
    assert_eq!(quote_json_string(""), "\"\"");
    assert_eq!(quote_json_string("tab\there"), "\"tab\\there\"");
    assert_eq!(quote_json_string("é"), "\"é\"");
}

fn trade_with(side: &str, users: &[&str]) -> Trade {
    Trade {
        coin: "BTC".to_string(),
        side: side.to_string(),
        px: Decimal { units: 432505, scale: 1 },
        sz: Decimal { units: 125, scale: 4 },
        time: 1,
        hash: "h".to_string(),
        tid: 1,
        users: users.iter().map(|u| u.to_string()).collect(),
    }
}

#[test]
fn trade_sides() {
    for side in ["B", "b", "BUY", "buy", "Buy"] {
        let trade = trade_with(side, &[]);
        assert!(trade.is_buy(), "{}", side);
        assert!(!trade.is_sell(), "{}", side);
        assert_eq!(trade.side_formatted(), "BUY");
    }
    for side in ["S", "s", "SELL", "sell", "SeLl"] {
        let trade = trade_with(side, &[]);
        assert!(trade.is_sell(), "{}", side);
        assert!(!trade.is_buy(), "{}", side);
        assert_eq!(trade.side_formatted(), "SELL");
    }
    for side in ["A", "", "BU", "BUYS", "ß", "BÜY", "B "] {
        let trade = trade_with(side, &[]);
        assert!(!trade.is_buy(), "{}", side);
        assert!(!trade.is_sell(), "{}", side);
        assert_eq!(trade.side_formatted(), "SELL");
    }
}

#[test]
fn trade_counterparties() {
    let a = "a".to_string();
    let b = "b".to_string();
    assert_eq!(trade_with("B", &[]).buyer_seller(), (None, None));
    assert_eq!(trade_with("B", &["a"]).buyer_seller(), (Some(&a), None));
    assert_eq!(trade_with("B", &["a", "b"]).buyer_seller(), (Some(&a), Some(&b)));
    assert_eq!(trade_with("B", &["a", "b", "c"]).buyer_seller(), (None, None));
}

#[test]
fn trade_value_is_price_times_size() {
    assert_eq!(trade_with("B", &[]).value(), Notional { units: 54063125, scale: 5 });
}

#[test]
fn text_comparisons() {
    assert!(str_eq("", ""));
    assert!(str_eq("trades", "trades"));
    assert!(!str_eq("trades", "trade"));
    assert!(!str_eq("trades", "Trades"));
    assert!(str_eq("héllo", "héllo"));
    assert!(!str_eq("héllo", "hello"));
}

#[test]
fn error_messages() {
    let cases = vec![
        (HyperliquidError::WebSocketError("x".to_string()), "WebSocket connection error: x"),
        (
            HyperliquidError::SerdeError("x".to_string()),
            "JSON serialization/deserialization error: x",
        ),
        (HyperliquidError::UrlError("x".to_string()), "URL parsing error: x"),
        (HyperliquidError::IoError("x".to_string()), "IO error: x"),
        (HyperliquidError::Timeout, "Connection timeout"),
        (HyperliquidError::ConnectionClosed, "Connection closed unexpectedly"),
        (
            HyperliquidError::SubscriptionFailed { message: "x".to_string() },
            "Subscription failed: x",
        ),
        (HyperliquidError::HealthCheckFailed { reason: "x".to_string() }, "Health check failed: x"),
        (HyperliquidError::MaxReconnectsExceeded, "Maximum reconnection attempts exceeded"),
        (HyperliquidError::InvalidMessage("x".to_string()), "Invalid message format: x"),
        (HyperliquidError::MetricsError("x".to_string()), "Metrics server error: x"),
    ];
    for (error, message) in cases {
        assert_eq!(error.message(), message);
        assert_eq!(error.is_terminal(), error == HyperliquidError::MaxReconnectsExceeded);
    }
}

#[test]
fn client_state_bookkeeping() {
    let mut state = ClientState::with_connection_id("a".to_string());
    assert_eq!(state.reconnect_count, 0);
    assert_eq!(state.last_message_time, None);
    assert!(!state.is_connected);
    state.increment_reconnect(10);
    state.increment_reconnect(11);
    assert_eq!(state.reconnect_count, 2);
    assert_eq!(state.last_disconnect_time, Some(11));
    state.reset_connection_as("b".to_string(), 20);
    assert_eq!(state.connection_id, "b");
    assert!(state.is_connected);
    assert_eq!(state.last_message_time, Some(20));
    assert_eq!(state.reconnect_count, 2);
    state.mark_listening();
    assert_eq!(state.reconnect_count, 0);
    state.record_message(30);
    state.record_frame(31);
    state.record_trade();
    assert_eq!(state.total_messages_received, 1);
    assert_eq!(state.trade_count, 1);
    assert_eq!(state.last_message_time, Some(31));
    state.disconnect(40);
    assert!(!state.is_connected);
    assert_eq!(state.last_disconnect_time, Some(40));
    state.reset_connection(50);
    assert_ne!(state.connection_id, "b");
    assert!(state.is_connected);
}

#[test]
fn counters_stop_at_their_largest_value() {
    let mut state = ClientState::with_connection_id("a".to_string());
    state.reconnect_count = u32::MAX;
    state.trade_count = u64::MAX;
    state.total_messages_received = u64::MAX;
    state.increment_reconnect(1);
    state.record_trade();
    state.record_message(2);
    assert_eq!(state.reconnect_count, u32::MAX);
    assert_eq!(state.trade_count, u64::MAX);
    assert_eq!(state.total_messages_received, u64::MAX);
    let fresh = ClientState::new();
    assert_eq!(fresh.connection_id.len(), 36);
}

fn is_uuid_text(text: &str) -> bool {
    let chars: Vec<char> = text.chars().collect();
    chars.len() == 36
        && chars.iter().enumerate().all(|(i, c)| match i {
            8 | 13 | 18 | 23 => *c == '-',
            _ => matches!(*c, '0'..='9' | 'a'..='f'),
        })
}

#[test]
fn fresh_identifiers_have_the_form_of_a_uuid() {
    let mut seen: Vec<String> = Vec::new();
    for round in 0..200u64 {
        let mut state = ClientState::new();
        assert!(is_uuid_text(&state.connection_id), "{}", state.connection_id);
        seen.push(state.connection_id.clone());
        state.reset_connection(round);
        assert!(is_uuid_text(&state.connection_id), "{}", state.connection_id);
        seen.push(state.connection_id.clone());
        match SessionInput::upgrade_succeeded() {
            SessionInput::UpgradeSucceeded { connection_id } => {
                assert!(is_uuid_text(&connection_id), "{}", connection_id);
                seen.push(connection_id);
            }
            other => panic!("unexpected input {:?}", other),
        }
    }
    let total = seen.len();
    seen.sort();
    seen.dedup();
    assert_eq!(seen.len(), total);
    assert!(!is_uuid_text(""));
    assert!(!is_uuid_text("00000000-0000-4000-8000-00000000000G"));
    assert!(!is_uuid_text("00000000-0000-4000-8000-00000000000A"));
    assert!(!is_uuid_text("00000000000004000080000000000000000000"));
}
