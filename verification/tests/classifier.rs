use rs_hyperliquid::classifier::{classify, classify_document, classify_parsed, Classified};
use rs_hyperliquid::decimal::Decimal;
use rs_hyperliquid::events::ClientEvent;
use rs_hyperliquid::json::{parse_json, JsonNumber, JsonValue};
use rs_hyperliquid::types::{
    AllMids, AllMidsDataMessage, Bbo, BboDataMessage, Book, BookDataMessage, Candle,
    CandleDataMessage, Channel, Level, Notification, NotificationMessage, Subscription,
    SubscriptionResponse, SubscriptionResponseData, Trade, TradeDataMessage, UserEvent,
    UserEventMessage, UserFunding, WebSocketMessage,
};

fn trade_json(tid: i64) -> String {
    format!(
        "{{\"coin\":\"BTC\",\"side\":\"B\",\"px\":\"43250.5\",\"sz\":\"0.0125\",\"time\":1700000000000,\"hash\":\"0xabc\",\"tid\":{},\"users\":[\"0xbuyer\",\"0xseller\"]}}",
        tid
    )
}

fn trade(tid: i64) -> Trade {
    Trade {
        coin: "BTC".to_string(),
        side: "B".to_string(),
        px: Decimal { units: 432505, scale: 1 },
        sz: Decimal { units: 125, scale: 4 },
        time: 1700000000000,
        hash: "0xabc".to_string(),
        tid,
        users: vec!["0xbuyer".to_string(), "0xseller".to_string()],
    }
}

#[test]
fn bare_trade_array_is_direct_trades() {
    let text = format!("[{},{}]", trade_json(5), trade_json(7));
    assert_eq!(
        classify(&text),
        Classified::Known(WebSocketMessage::DirectTrades(vec![trade(5), trade(7)]))
    );
}

#[test]
fn enveloped_trade_array_is_trade_data() {
    let text = format!("{{\"channel\":\"trades\",\"data\":[{},{}]}}", trade_json(5), trade_json(7));
    assert_eq!(
        classify(&text),
        Classified::Known(WebSocketMessage::TradeData(TradeDataMessage {
            channel: "trades".to_string(),
            data: vec![trade(5), trade(7)],
        }))
    );
}

#[test]
fn bare_and_enveloped_paths_extract_the_same_trades() {
    let list = format!("[{},{},{}]", trade_json(9), trade_json(3), trade_json(9));
    let bare = classify(&list).into_parts("BTC");
    let enveloped = classify(&format!("{{\"channel\":\"trades\",\"data\":{}}}", list)).into_parts("BTC");
    assert_eq!(bare.0, vec![trade(9), trade(3), trade(9)]);
    assert_eq!(bare.0, enveloped.0);
    assert!(bare.1.is_empty());
    assert!(enveloped.1.is_empty());
}

#[test]
fn envelope_channel_name_plays_no_part_in_the_trade_shape() {
    let text = format!("{{\"channel\":\"anything\",\"data\":[{}]}}", trade_json(1));
    let (trades, notes) = classify(&text).into_parts("BTC");
    assert_eq!(trades, vec![trade(1)]);
    assert!(notes.is_empty());
}

#[test]
fn empty_array_is_an_empty_trade_list() {
    assert_eq!(classify("[]"), Classified::Known(WebSocketMessage::DirectTrades(vec![])));
    assert_eq!(
        classify("{\"channel\":\"candle\",\"data\":[]}"),
        Classified::Known(WebSocketMessage::TradeData(TradeDataMessage {
            channel: "candle".to_string(),
            data: vec![],
        }))
    );
}

#[test]
fn acknowledgement_echoes_the_request() {
    let text = "{\"channel\":\"subscriptionResponse\",\"data\":{\"method\":\"subscribe\",\"subscription\":{\"type\":\"l2Book\",\"coin\":\"ETH\"}}}";
    let classified = classify(text);
    assert_eq!(
        classified,
        Classified::Known(WebSocketMessage::SubscriptionResponse(SubscriptionResponse {
            channel: "subscriptionResponse".to_string(),
            data: SubscriptionResponseData {
                method: "subscribe".to_string(),
                subscription: Subscription {
                    subscription_type: "l2Book".to_string(),
                    coin: "ETH".to_string(),
                },
            },
        }))
    );
    let (trades, notes) = classified.into_parts("BTC");
    assert!(trades.is_empty());
    assert_eq!(
        notes,
        vec![ClientEvent::SubscriptionConfirmed {
            sub_type: "l2Book".to_string(),
            coin: "ETH".to_string(),
        }]
    );
}

#[test]
fn acknowledgement_of_unexpected_shape_falls_back_to_the_channel_name() {
    let classified = classify("{\"channel\":\"subscriptionResponse\",\"data\":\"ok\"}");
    assert_eq!(classified, Classified::Acknowledged);
    let (trades, notes) = classified.into_parts("SOL");
    assert!(trades.is_empty());
    assert_eq!(
        notes,
        vec![ClientEvent::SubscriptionConfirmed {
            sub_type: "trades".to_string(),
            coin: "SOL".to_string(),
        }]
    );
}

#[test]
fn trades_channel_with_unreadable_payload_is_unparsed() {
    let classified = classify("{\"channel\":\"trades\",\"data\":{\"oops\":1}}");
    assert_eq!(classified, Classified::Unparsed);
    assert!(classified.is_unparsed());
}

#[test]
fn other_channel_is_a_ping() {
    assert_eq!(
        classify("{\"channel\":\"pong\"}"),
        Classified::Known(WebSocketMessage::Ping(Channel { channel: "pong".to_string() }))
    );
    assert_eq!(
        classify("{\"channel\":\"l2Book\",\"data\":12}"),
        Classified::Known(WebSocketMessage::Ping(Channel { channel: "l2Book".to_string() }))
    );
}

#[test]
fn payloads_without_a_known_shape_are_unparsed() {
    assert_eq!(classify("not json"), Classified::Unparsed);
    assert_eq!(classify(""), Classified::Unparsed);
    assert_eq!(classify("42"), Classified::Unparsed);
    assert_eq!(classify("\"text\""), Classified::Unparsed);
    assert_eq!(classify("null"), Classified::Unparsed);
    assert_eq!(classify("{\"data\":[]}"), Classified::Unparsed);
    assert_eq!(classify("{\"channel\":7}"), Classified::Unparsed);
    assert_eq!(classify("[1,2,3]"), Classified::Unparsed);
    assert_eq!(classify_parsed(&None), Classified::Unparsed);
}

#[test]
fn order_book_snapshot() {
    let text = "{\"channel\":\"l2Book\",\"data\":{\"coin\":\"BTC\",\"levels\":[[{\"px\":\"100.5\",\"sz\":\"2\",\"n\":3}],[{\"px\":\"101\",\"sz\":\"1.5\",\"n\":1},{\"px\":\"102\",\"sz\":\"4\",\"n\":2}]],\"time\":1700000000001}}";
    assert_eq!(
        classify(text),
        Classified::Known(WebSocketMessage::BookData(BookDataMessage {
            channel: "l2Book".to_string(),
            data: Book {
                coin: "BTC".to_string(),
                levels: (
                    vec![Level {
                        px: Decimal { units: 1005, scale: 1 },
                        sz: Decimal { units: 2, scale: 0 },
                        n: 3,
                    }],
                    vec![
                        Level {
                            px: Decimal { units: 101, scale: 0 },
                            sz: Decimal { units: 15, scale: 1 },
                            n: 1,
                        },
                        Level {
                            px: Decimal { units: 102, scale: 0 },
                            sz: Decimal { units: 4, scale: 0 },
                            n: 2,
                        },
                    ],
                ),
                time: 1700000000001,
            },
        }))
    );
}

#[test]
fn order_book_needs_exactly_two_sides() {
    let text = "{\"channel\":\"l2Book\",\"data\":{\"coin\":\"BTC\",\"levels\":[[],[],[]],\"time\":1}}";
    assert_eq!(
        classify(text),
        Classified::Known(WebSocketMessage::Ping(Channel { channel: "l2Book".to_string() }))
    );
}

#[test]
fn best_bid_offer_with_one_side_absent() {
    let text = "{\"channel\":\"bbo\",\"data\":{\"coin\":\"ETH\",\"time\":12,\"bbo\":[{\"px\":\"10\",\"sz\":\"1\",\"n\":1},null]}}";
    assert_eq!(
        classify(text),
        Classified::Known(WebSocketMessage::BboData(BboDataMessage {
            channel: "bbo".to_string(),
            data: Bbo {
                coin: "ETH".to_string(),
                time: 12,
                bbo: (
                    Some(Level {
                        px: Decimal { units: 10, scale: 0 },
                        sz: Decimal { units: 1, scale: 0 },
                        n: 1,
                    }),
                    None,
                ),
            },
        }))
    );
}

#[test]
fn all_mids_come_in_the_order_of_the_document() {
    let text = "{\"channel\":\"allMids\",\"data\":{\"mids\":{\"ETH\":\"2000.1\",\"BTC\":\"43000\"}}}";
    assert_eq!(
        classify(text),
        Classified::Known(WebSocketMessage::AllMidsData(AllMidsDataMessage {
            channel: "allMids".to_string(),
            data: AllMids {
                mids: vec![
                    ("BTC".to_string(), "43000".to_string()),
                    ("ETH".to_string(), "2000.1".to_string()),
                ],
            },
        }))
    );
}

fn candle_json() -> &'static str {
    "{\"t\":1000,\"T\":2000,\"s\":\"BTC\",\"i\":\"1m\",\"o\":100,\"c\":101.5,\"h\":102,\"l\":-1,\"v\":12.25,\"n\":7}"
}

fn candle() -> Candle {
    Candle {
        t: 1000,
        close_time: 2000,
        s: "BTC".to_string(),
        i: "1m".to_string(),
        o: JsonNumber::Unsigned(100),
        c: JsonNumber::Float("101.5".to_string()),
        h: JsonNumber::Unsigned(102),
        l: JsonNumber::Negative(-1),
        v: JsonNumber::Float("12.25".to_string()),
        n: 7,
    }
}

#[test]
fn candles_enveloped_and_bare() {
    assert_eq!(
        classify(&format!("{{\"channel\":\"candle\",\"data\":[{}]}}", candle_json())),
        Classified::Known(WebSocketMessage::CandleData(CandleDataMessage {
            channel: "candle".to_string(),
            data: vec![candle()],
        }))
    );
    assert_eq!(
        classify(&format!("[{}]", candle_json())),
        Classified::Known(WebSocketMessage::DirectCandles(vec![candle()]))
    );
}

#[test]
fn user_event_takes_the_first_shape_that_fits() {
    let text = "{\"channel\":\"user\",\"data\":{\"funding\":{\"time\":5,\"coin\":\"BTC\",\"usdc\":\"1.5\",\"szi\":\"2\",\"fundingRate\":\"0.0001\"},\"fills\":\"none\"}}";
    assert_eq!(
        classify(text),
        Classified::Known(WebSocketMessage::UserEvent(UserEventMessage {
            channel: "user".to_string(),
            data: UserEvent::Funding {
                funding: UserFunding {
                    time: 5,
                    coin: "BTC".to_string(),
                    usdc: "1.5".to_string(),
                    szi: "2".to_string(),
                    funding_rate: "0.0001".to_string(),
                },
            },
        }))
    );
    let cancels = "{\"channel\":\"user\",\"data\":{\"non_user_cancel\":[{\"coin\":\"BTC\",\"oid\":77}]}}";
    match classify(cancels) {
        Classified::Known(WebSocketMessage::UserEvent(message)) => match message.data {
            UserEvent::NonUserCancel { non_user_cancel } => {
                assert_eq!(non_user_cancel.len(), 1);
                assert_eq!(non_user_cancel[0].oid, 77);
            }
            other => panic!("unexpected user event {:?}", other),
        },
        other => panic!("unexpected classification {:?}", other),
    }
}

#[test]
fn user_fills_with_and_without_builder_fee() {
    let fill = |fee: &str| {
        format!(
            "{{\"coin\":\"BTC\",\"px\":\"1\",\"sz\":\"2\",\"side\":\"B\",\"time\":3,\"startPosition\":\"0\",\"dir\":\"Open Long\",\"closedPnl\":\"0\",\"hash\":\"0x1\",\"oid\":4,\"crossed\":true,\"fee\":\"0.1\",\"tid\":5,\"feeToken\":\"USDC\"{}}}",
            fee
        )
    };
    let text = format!(
        "{{\"channel\":\"user\",\"data\":{{\"fills\":[{},{},{}]}}}}",
        fill(""),
        fill(",\"builderFee\":null"),
        fill(",\"builderFee\":\"0.01\"")
    );
    match classify(&text) {
        Classified::Known(WebSocketMessage::UserEvent(message)) => match message.data {
            UserEvent::Fills { fills } => {
                assert_eq!(fills.len(), 3);
                assert_eq!(fills[0].builder_fee, None);
                assert_eq!(fills[1].builder_fee, None);
                assert_eq!(fills[2].builder_fee, Some("0.01".to_string()));
                assert_eq!(fills[0].start_position, "0");
                assert_eq!(fills[0].fee_token, "USDC");
                assert!(fills[0].crossed);
            }
            other => panic!("unexpected user event {:?}", other),
        },
        other => panic!("unexpected classification {:?}", other),
    }
    let bad = format!("{{\"channel\":\"user\",\"data\":{{\"fills\":[{}]}}}}", fill(",\"builderFee\":7"));
    assert_eq!(
        classify(&bad),
        Classified::Known(WebSocketMessage::Ping(Channel { channel: "user".to_string() }))
    );
}

#[test]
fn notification_message() {
    assert_eq!(
        classify("{\"channel\":\"notification\",\"data\":{\"notification\":\"maintenance\"}}"),
        Classified::Known(WebSocketMessage::Notification(NotificationMessage {
            channel: "notification".to_string(),
            data: Notification { notification: "maintenance".to_string() },
        }))
    );
}

fn with_field(field: &str, value: &str) -> String {
    let mut members = vec![
        ("coin", "\"BTC\"".to_string()),
        ("side", "\"A\"".to_string()),
        ("px", "\"1\"".to_string()),
        ("sz", "\"1\"".to_string()),
        ("time", "1".to_string()),
        ("hash", "\"h\"".to_string()),
        ("tid", "1".to_string()),
        ("users", "[]".to_string()),
    ];
    for member in members.iter_mut() {
        if member.0 == field {
            member.1 = value.to_string();
        }
    }
    let body: Vec<String> = members.iter().map(|(k, v)| format!("\"{}\":{}", k, v)).collect();
    format!("[{{{}}}]", body.join(","))
}

fn is_trade_list(text: &str) -> bool {
    matches!(classify(text), Classified::Known(WebSocketMessage::DirectTrades(_)))
}

#[test]
fn trade_shape_is_checked_field_by_field() {
    assert!(is_trade_list(&with_field("none", "")));
    assert!(is_trade_list(&with_field("px", "\".5\"")));
    assert!(is_trade_list(&with_field("px", "\"5.\"")));
    assert!(is_trade_list(&with_field("users", "[\"a\"]")));
    assert!(is_trade_list(&with_field("users", "[\"a\",\"b\"]")));
    assert!(is_trade_list(&with_field("tid", "-9223372036854775808")));
    assert!(!is_trade_list(&with_field("users", "[\"a\",\"b\",\"c\"]")));
    assert!(!is_trade_list(&with_field("users", "[1]")));
    assert!(!is_trade_list(&with_field("px", "1")));
    assert!(!is_trade_list(&with_field("px", "\"-1\"")));
    assert!(!is_trade_list(&with_field("px", "\"1e5\"")));
    assert!(!is_trade_list(&with_field("px", "\"inf\"")));
    assert!(!is_trade_list(&with_field("px", "\"NaN\"")));
    assert!(!is_trade_list(&with_field("sz", "\"\"")));
    assert!(!is_trade_list(&with_field("sz", "\"99999999999999999999\"")));
    assert!(!is_trade_list(&with_field("time", "1.5")));
    assert!(!is_trade_list(&with_field("time", "\"1\"")));
    assert!(!is_trade_list(&with_field("tid", "9223372036854775808")));
    assert!(!is_trade_list(&with_field("coin", "null")));
    assert!(!is_trade_list("[{\"coin\":\"BTC\"}]"));
}

#[test]
fn classify_document_reads_a_hand_made_document() {
    let doc = JsonValue::Object(vec![
        ("channel".to_string(), JsonValue::Text("subscriptionResponse".to_string())),
        ("data".to_string(), JsonValue::Null),
    ]);
    assert_eq!(classify_document(&doc), Classified::Acknowledged);
    let ping = JsonValue::Object(vec![
        ("extra".to_string(), JsonValue::Bool(true)),
        ("channel".to_string(), JsonValue::Text("first".to_string())),
        ("channel".to_string(), JsonValue::Text("second".to_string())),
    ]);
    assert_eq!(
        classify_document(&ping),
        Classified::Known(WebSocketMessage::Ping(Channel { channel: "first".to_string() }))
    );
}

#[test]
fn parser_hands_out_every_kind_of_value() {
    let doc = parse_json("{\"b\":[true,null,\"x\"],\"a\":{\"n\":[0,18446744073709551615,-3,1.5,1e300]},\"a\":7}");
    assert_eq!(
        doc,
        Some(JsonValue::Object(vec![
            ("a".to_string(), JsonValue::Number(JsonNumber::Unsigned(7))),
            (
                "b".to_string(),
                JsonValue::Array(vec![
                    JsonValue::Bool(true),
                    JsonValue::Null,
                    JsonValue::Text("x".to_string()),
                ])
            ),
        ]))
    );
    let numbers = parse_json("[0,18446744073709551615,-3,1.5,1e300]");
    assert_eq!(
        numbers,
        Some(JsonValue::Array(vec![
            JsonValue::Number(JsonNumber::Unsigned(0)),
            JsonValue::Number(JsonNumber::Unsigned(18446744073709551615)),
            JsonValue::Number(JsonNumber::Negative(-3)),
            JsonValue::Number(JsonNumber::Float("1.5".to_string())),
            JsonValue::Number(JsonNumber::Float("1e+300".to_string())),
        ]))
    );
    assert_eq!(parse_json("{"), None);
    assert_eq!(parse_json("[1,]"), None);
    assert_eq!(parse_json("1 2"), None);
}

#[test]
fn json_accessors() {
    let doc = parse_json("{\"t\":\"x\",\"i\":-4,\"u\":9223372036854775808,\"b\":false,\"l\":[1],\"o\":{}}").unwrap();
    assert_eq!(doc.get("t").and_then(|v| v.as_text()), Some(&"x".to_string()));
    assert_eq!(doc.get("i").and_then(|v| v.as_integer()), Some(-4));
    assert_eq!(doc.get("u").and_then(|v| v.as_integer()), None);
    assert_eq!(doc.get("u").and_then(|v| v.as_number()), Some(&JsonNumber::Unsigned(9223372036854775808)));
    assert_eq!(doc.get("b").and_then(|v| v.as_bool()), Some(false));
    assert_eq!(doc.get("l").and_then(|v| v.as_items()).map(|l| l.len()), Some(1));
    assert_eq!(doc.get("o").and_then(|v| v.as_members()).map(|m| m.len()), Some(0));
    assert!(doc.get("missing").is_none());
    assert!(doc.get("t").unwrap().get("t").is_none());
    assert!(JsonValue::Null.is_null());
    assert!(!doc.is_null());
}
