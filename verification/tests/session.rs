use rs_hyperliquid::client_state::ClientState;
use rs_hyperliquid::decimal::Decimal;
use rs_hyperliquid::error::HyperliquidError;
use rs_hyperliquid::events::ClientEvent;
use rs_hyperliquid::integrity::IntegrityTracker;
use rs_hyperliquid::policy::ReconnectPolicy;
use rs_hyperliquid::session::{
    Frame, Session, SessionAction, SessionConfig, SessionEnd, SessionInput, SessionOutput,
    SessionPhase,
};
use rs_hyperliquid::types::Trade;

const URL: &str = "wss://feed.example/ws";
const SUBSCRIPTION: &str =
    "{\"method\":\"subscribe\",\"subscription\":{\"type\":\"trades\",\"coin\":\"BTC\"}}";

fn config(max_attempts: u32) -> SessionConfig {
    SessionConfig {
        url: URL.to_string(),
        coin: "BTC".to_string(),
        timeout_secs: 30,
        policy: ReconnectPolicy::new(max_attempts, 5),
        check_interval_secs: 30,
    }
}

fn session(max_attempts: u32) -> Session {
    Session::with_parts(
        config(max_attempts),
        ClientState::with_connection_id("initial".to_string()),
        IntegrityTracker::new(),
    )
}

fn upgraded(id: &str) -> SessionInput {
    SessionInput::UpgradeSucceeded { connection_id: id.to_string() }
}

fn text(payload: &str) -> SessionInput {
    SessionInput::FrameReceived(Frame::Text(payload.to_string()))
}

fn trade_json(tid: i64, time: i64) -> String {
    format!(
        "{{\"coin\":\"BTC\",\"side\":\"B\",\"px\":\"100\",\"sz\":\"2\",\"time\":{},\"hash\":\"h\",\"tid\":{},\"users\":[]}}",
        time, tid
    )
}

fn trade(tid: i64, time: i64) -> Trade {
    Trade {
        coin: "BTC".to_string(),
        side: "B".to_string(),
        px: Decimal { units: 100, scale: 0 },
        sz: Decimal { units: 2, scale: 0 },
        time,
        hash: "h".to_string(),
        tid,
        users: vec![],
    }
}

fn plain(action: SessionAction, events: Vec<ClientEvent>) -> SessionOutput {
    SessionOutput { action, events, failure: None, unparsed: false }
}

fn connect_action() -> SessionAction {
    SessionAction::Connect { url: URL.to_string(), timeout_secs: 30 }
}

/// Drives a session to listening; every step is checked on the way.
fn listening(max_attempts: u32) -> Session {
    let mut s = session(max_attempts);
    assert_eq!(
        s.step(SessionInput::Start, 0),
        plain(
            connect_action(),
            vec![ClientEvent::Starting, ClientEvent::Connecting { url: URL.to_string() }]
        )
    );
    assert_eq!(s.phase(), SessionPhase::Connecting);
    assert_eq!(s.step(SessionInput::ConnectSucceeded, 1), plain(SessionAction::Upgrade, vec![]));
    assert_eq!(s.phase(), SessionPhase::Handshaking);
    assert_eq!(
        s.step(upgraded("id-1"), 2),
        plain(
            SessionAction::SendText { text: SUBSCRIPTION.to_string() },
            vec![ClientEvent::Connected { connection_id: "id-1".to_string() }]
        )
    );
    assert_eq!(s.phase(), SessionPhase::Subscribing);
    assert_eq!(
        s.step(SessionInput::SubscriptionWritten, 3),
        plain(
            SessionAction::ReceiveFrame,
            vec![ClientEvent::SubscriptionSent { message: SUBSCRIPTION.to_string() }]
        )
    );
    assert_eq!(s.phase(), SessionPhase::Listening);
    s
}

#[test]
fn session_reaches_listening_step_by_step() {
    let s = listening(0);
    assert_eq!(s.state().connection_id, "id-1");
    assert!(s.state().is_connected);
    assert_eq!(s.state().last_message_time, Some(2));
    assert_eq!(s.state().reconnect_count, 0);
    assert!(!s.is_finished());
    assert_eq!(s.ended(), None);
    assert_eq!(s.config(), &config(0));
}

#[test]
fn scripted_transport_end_to_end() {
    let mut s = session(0);
    let mut events: Vec<ClientEvent> = Vec::new();
    let mut run = |s: &mut Session, input: SessionInput, now: u64| {
        let output = s.step(input, now);
        events.extend(output.events);
        output.action
    };
    assert_eq!(run(&mut s, SessionInput::Start, 0), connect_action());
    assert_eq!(run(&mut s, SessionInput::ConnectTimedOut, 30_000), SessionAction::Teardown);
    assert_eq!(run(&mut s, SessionInput::TornDown, 30_001), SessionAction::Wait { delay_secs: 5 });
    assert_eq!(run(&mut s, SessionInput::RetryDue, 35_001), connect_action());
    assert_eq!(run(&mut s, SessionInput::ConnectSucceeded, 35_100), SessionAction::Upgrade);
    assert_eq!(
        run(&mut s, upgraded("id-2"), 35_200),
        SessionAction::SendText { text: SUBSCRIPTION.to_string() }
    );
    assert_eq!(run(&mut s, SessionInput::SubscriptionWritten, 35_300), SessionAction::ReceiveFrame);
    let ack = "{\"channel\":\"subscriptionResponse\",\"data\":{\"method\":\"subscribe\",\"subscription\":{\"type\":\"trades\",\"coin\":\"BTC\"}}}";
    assert_eq!(run(&mut s, text(ack), 35_400), SessionAction::ReceiveFrame);
    let batch = format!(
        "{{\"channel\":\"trades\",\"data\":[{},{},{}]}}",
        trade_json(5, 1700000000000),
        trade_json(5, 1700000000001),
        trade_json(7, 1700000000002)
    );
    assert_eq!(run(&mut s, text(&batch), 35_500), SessionAction::ReceiveFrame);

    let salient: Vec<ClientEvent> = events
        .iter()
        .filter(|event| {
            matches!(
                event,
                ClientEvent::Reconnecting { .. }
                    | ClientEvent::Connected { .. }
                    | ClientEvent::SubscriptionConfirmed { .. }
                    | ClientEvent::TradeReceived(_)
            )
        })
        .cloned()
        .collect();
    assert_eq!(
        salient,
        vec![
            ClientEvent::Reconnecting { attempt: 1, delay_secs: 5 },
            ClientEvent::Connected { connection_id: "id-2".to_string() },
            ClientEvent::SubscriptionConfirmed {
                sub_type: "trades".to_string(),
                coin: "BTC".to_string(),
            },
            ClientEvent::TradeReceived(trade(5, 1700000000000)),
            ClientEvent::TradeReceived(trade(7, 1700000000002)),
        ]
    );
    assert_eq!(
        events,
        vec![
            ClientEvent::Starting,
            ClientEvent::Connecting { url: URL.to_string() },
            ClientEvent::Reconnecting { attempt: 1, delay_secs: 5 },
            ClientEvent::Connecting { url: URL.to_string() },
            ClientEvent::Connected { connection_id: "id-2".to_string() },
            ClientEvent::SubscriptionSent { message: SUBSCRIPTION.to_string() },
            ClientEvent::MessageReceived { raw_message: ack.to_string() },
            ClientEvent::SubscriptionConfirmed {
                sub_type: "trades".to_string(),
                coin: "BTC".to_string(),
            },
            ClientEvent::MessageReceived { raw_message: batch.clone() },
            ClientEvent::TradeReceived(trade(5, 1700000000000)),
            ClientEvent::TradeReceived(trade(7, 1700000000002)),
        ]
    );
    assert_eq!(s.integrity().duplicate_trades(), 1);
    assert_eq!(s.integrity().invalid_timestamps(), 0);
    assert_eq!(s.integrity().total_processed(), 2);
    assert_eq!(s.integrity().last_seen("BTC"), Some(7));
    assert_eq!(s.state().trade_count, 2);
    assert_eq!(s.state().total_messages_received, 2);
    assert_eq!(s.state().reconnect_count, 0);
    assert_eq!(s.state().last_message_time, Some(35_500));
    assert_eq!(s.state().last_disconnect_time, Some(30_000));
    assert_eq!(s.phase(), SessionPhase::Listening);
}

#[test]
fn duplicates_are_caught_across_messages_and_sessions() {
    let mut s = listening(0);
    let one = format!("[{}]", trade_json(5, 1700000000000));
    assert_eq!(s.step(text(&one), 10).events.len(), 2);
    assert_eq!(s.step(text(&one), 11).events.len(), 1);
    assert_eq!(s.integrity().duplicate_trades(), 1);
    s.step(SessionInput::ReadFailed { reason: "reset".to_string() }, 12);
    s.step(SessionInput::TornDown, 13);
    s.step(SessionInput::RetryDue, 14);
    s.step(SessionInput::ConnectSucceeded, 15);
    s.step(upgraded("id-3"), 16);
    s.step(SessionInput::SubscriptionWritten, 17);
    assert_eq!(s.phase(), SessionPhase::Listening);
    let output = s.step(text(&one), 18);
    assert_eq!(output.events, vec![ClientEvent::MessageReceived { raw_message: one.clone() }]);
    assert_eq!(s.integrity().duplicate_trades(), 2);
    assert_eq!(s.state().trade_count, 1);
}

#[test]
fn implausible_timestamps_are_counted_and_the_trade_still_published() {
    let mut s = listening(0);
    let batch = format!("[{},{}]", trade_json(1, 0), trade_json(2, -5));
    let output = s.step(text(&batch), 10);
    assert_eq!(
        output.events,
        vec![
            ClientEvent::MessageReceived { raw_message: batch.clone() },
            ClientEvent::TradeReceived(trade(1, 0)),
            ClientEvent::TradeReceived(trade(2, -5)),
        ]
    );
    assert_eq!(s.integrity().invalid_timestamps(), 2);
    assert_eq!(s.state().trade_count, 2);
}

#[test]
fn unparsed_payload_is_flagged_and_the_session_goes_on() {
    let mut s = listening(0);
    let output = s.step(text("garbage"), 10);
    assert_eq!(
        output,
        SessionOutput {
            action: SessionAction::ReceiveFrame,
            events: vec![ClientEvent::MessageReceived { raw_message: "garbage".to_string() }],
            failure: None,
            unparsed: true,
        }
    );
    assert_eq!(s.phase(), SessionPhase::Listening);
    assert_eq!(s.state().total_messages_received, 1);
    assert_eq!(s.integrity().total_processed(), 1);
    let ping = s.step(text("{\"channel\":\"pong\"}"), 11);
    assert!(!ping.unparsed);
}

#[test]
fn control_frames_end_the_silence_and_count_nothing() {
    let mut s = listening(0);
    for (now, frame) in [
        (100, Frame::Binary(vec![1, 2, 3])),
        (200, Frame::Ping(vec![])),
        (300, Frame::Pong(vec![9])),
    ] {
        assert_eq!(
            s.step(SessionInput::FrameReceived(frame), now),
            plain(SessionAction::ReceiveFrame, vec![])
        );
        assert_eq!(s.state().last_message_time, Some(now));
    }
    assert_eq!(s.state().total_messages_received, 0);
    assert_eq!(s.phase(), SessionPhase::Listening);
}

#[test]
fn connect_timeout_is_a_timeout_failure() {
    let mut s = session(0);
    s.step(SessionInput::Start, 0);
    assert_eq!(
        s.step(SessionInput::ConnectTimedOut, 30_000),
        SessionOutput {
            action: SessionAction::Teardown,
            events: vec![],
            failure: Some(HyperliquidError::Timeout),
            unparsed: false,
        }
    );
    assert_eq!(s.phase(), SessionPhase::Failed);
}

#[test]
fn close_frame_fails_the_session() {
    let mut s = listening(0);
    assert_eq!(
        s.step(SessionInput::FrameReceived(Frame::Close), 50),
        SessionOutput {
            action: SessionAction::Teardown,
            events: vec![ClientEvent::Disconnected],
            failure: Some(HyperliquidError::ConnectionClosed),
            unparsed: false,
        }
    );
    assert_eq!(s.phase(), SessionPhase::Failed);
    assert_eq!(s.state().reconnect_count, 1);
    assert!(!s.state().is_connected);
    assert_eq!(s.state().last_disconnect_time, Some(50));
}

#[test]
fn every_failure_counts_one_and_listening_resets() {
    let mut s = session(0);
    s.step(SessionInput::Start, 0);
    let failure = s.step(SessionInput::ConnectFailed { reason: "refused".to_string() }, 1);
    assert_eq!(failure.failure, Some(HyperliquidError::WebSocketError("refused".to_string())));
    assert_eq!(s.state().reconnect_count, 1);
    s.step(SessionInput::TornDown, 2);
    s.step(SessionInput::RetryDue, 3);
    s.step(SessionInput::ConnectSucceeded, 4);
    let failure = s.step(SessionInput::UpgradeRejected { reason: "403".to_string() }, 5);
    assert_eq!(failure.failure, Some(HyperliquidError::WebSocketError("403".to_string())));
    assert_eq!(s.state().reconnect_count, 2);
    assert_eq!(
        s.step(SessionInput::TornDown, 6),
        plain(
            SessionAction::Wait { delay_secs: 5 },
            vec![ClientEvent::Reconnecting { attempt: 2, delay_secs: 5 }]
        )
    );
    s.step(SessionInput::RetryDue, 7);
    s.step(SessionInput::ConnectSucceeded, 8);
    s.step(upgraded("x"), 9);
    let failure = s.step(SessionInput::WriteFailed { reason: "pipe".to_string() }, 10);
    assert_eq!(failure.failure, Some(HyperliquidError::WebSocketError("pipe".to_string())));
    assert_eq!(s.state().reconnect_count, 3);
    s.step(SessionInput::TornDown, 11);
    s.step(SessionInput::RetryDue, 12);
    s.step(SessionInput::ConnectSucceeded, 13);
    s.step(upgraded("y"), 14);
    assert_eq!(s.state().reconnect_count, 3);
    s.step(SessionInput::SubscriptionWritten, 15);
    assert_eq!(s.phase(), SessionPhase::Listening);
    assert_eq!(s.state().reconnect_count, 0);
    s.step(SessionInput::ReadFailed { reason: "eof".to_string() }, 16);
    assert_eq!(s.state().reconnect_count, 1);
}

fn fail_one_attempt(s: &mut Session, now: u64) -> SessionOutput {
    let wake = if s.state().last_disconnect_time.is_none() && s.state().reconnect_count == 0 {
        SessionInput::Start
    } else {
        SessionInput::RetryDue
    };
    assert_eq!(s.step(wake, now).action, connect_action());
    assert_eq!(s.step(SessionInput::ConnectTimedOut, now).action, SessionAction::Teardown);
    s.step(SessionInput::TornDown, now)
}

#[test]
fn permanent_failure_comes_with_the_failure_after_the_cap() {
    for cap in [1u32, 2, 5] {
        let mut s = session(cap);
        for attempt in 1..=cap {
            assert_eq!(
                fail_one_attempt(&mut s, attempt as u64),
                plain(
                    SessionAction::Wait { delay_secs: 5 },
                    vec![ClientEvent::Reconnecting { attempt, delay_secs: 5 }]
                )
            );
            assert!(!s.is_finished());
        }
        assert_eq!(
            fail_one_attempt(&mut s, 100),
            SessionOutput {
                action: SessionAction::Exit { error: Some(HyperliquidError::MaxReconnectsExceeded) },
                events: vec![],
                failure: Some(HyperliquidError::MaxReconnectsExceeded),
                unparsed: false,
            }
        );
        assert!(s.is_finished());
        assert_eq!(s.ended(), Some(SessionEnd::GaveUp));
        for input in [
            SessionInput::RetryDue,
            SessionInput::Start,
            SessionInput::ConnectSucceeded,
            SessionInput::TornDown,
            SessionInput::Shutdown,
            SessionInput::HealthTick,
        ] {
            assert_eq!(
                s.step(input, 200),
                plain(
                    SessionAction::Exit { error: Some(HyperliquidError::MaxReconnectsExceeded) },
                    vec![]
                )
            );
        }
        assert_eq!(s.state().reconnect_count, cap + 1);
    }
}

#[test]
fn success_in_between_gives_the_attempts_back() {
    let mut s = session(1);
    assert_eq!(fail_one_attempt(&mut s, 1).action, SessionAction::Wait { delay_secs: 5 });
    s.step(SessionInput::RetryDue, 2);
    s.step(SessionInput::ConnectSucceeded, 3);
    s.step(upgraded("z"), 4);
    s.step(SessionInput::SubscriptionWritten, 5);
    s.step(SessionInput::ReadFailed { reason: "eof".to_string() }, 6);
    assert_eq!(
        s.step(SessionInput::TornDown, 7),
        plain(
            SessionAction::Wait { delay_secs: 5 },
            vec![ClientEvent::Reconnecting { attempt: 1, delay_secs: 5 }]
        )
    );
    assert!(!s.is_finished());
}

#[test]
fn silence_forces_a_failure() {
    let mut s = listening(0);
    assert_eq!(s.step(SessionInput::HealthTick, 2 + 90_000), plain(SessionAction::Continue, vec![]));
    assert_eq!(s.phase(), SessionPhase::Listening);
    let reason = "no frame within three check intervals".to_string();
    assert_eq!(
        s.step(SessionInput::HealthTick, 2 + 90_001),
        SessionOutput {
            action: SessionAction::Teardown,
            events: vec![ClientEvent::HealthCheckFailed { reason: reason.clone() }],
            failure: Some(HyperliquidError::HealthCheckFailed { reason }),
            unparsed: false,
        }
    );
    assert_eq!(s.phase(), SessionPhase::Failed);
    assert_eq!(s.state().reconnect_count, 1);
}

#[test]
fn a_frame_in_time_keeps_the_session_alive() {
    let mut s = listening(0);
    s.step(SessionInput::FrameReceived(Frame::Ping(vec![])), 80_000);
    assert_eq!(s.step(SessionInput::HealthTick, 100_000), plain(SessionAction::Continue, vec![]));
    assert_eq!(s.step(SessionInput::HealthTick, 170_000), plain(SessionAction::Continue, vec![]));
    assert_eq!(s.step(SessionInput::HealthTick, 170_001).action, SessionAction::Teardown);
}

#[test]
fn health_tick_outside_listening_changes_nothing() {
    let mut s = session(0);
    assert_eq!(s.step(SessionInput::HealthTick, u64::MAX), plain(SessionAction::Continue, vec![]));
    s.step(SessionInput::Start, 0);
    assert_eq!(s.step(SessionInput::HealthTick, u64::MAX), plain(SessionAction::Continue, vec![]));
    assert_eq!(s.phase(), SessionPhase::Connecting);
}

#[test]
fn shutdown_closes_without_asking_the_policy() {
    let mut s = listening(1);
    assert_eq!(
        s.step(SessionInput::Shutdown, 10),
        plain(SessionAction::Teardown, vec![ClientEvent::Stopping])
    );
    assert_eq!(s.phase(), SessionPhase::Closing);
    assert_eq!(s.step(SessionInput::Shutdown, 11), plain(SessionAction::Continue, vec![]));
    assert_eq!(s.step(text("[]"), 12), plain(SessionAction::Continue, vec![]));
    assert_eq!(
        s.step(SessionInput::TornDown, 13),
        plain(SessionAction::Exit { error: None }, vec![])
    );
    assert_eq!(s.phase(), SessionPhase::Idle);
    assert!(s.is_finished());
    assert_eq!(s.ended(), Some(SessionEnd::Clean));
    assert_eq!(s.state().reconnect_count, 0);
    assert!(!s.state().is_connected);
    assert_eq!(s.step(SessionInput::Start, 14), plain(SessionAction::Exit { error: None }, vec![]));
}

#[test]
fn shutdown_cancels_the_wait_and_a_pending_failure() {
    let mut s = session(1);
    fail_one_attempt(&mut s, 1);
    assert_eq!(s.phase(), SessionPhase::Idle);
    assert_eq!(s.step(SessionInput::Shutdown, 2).action, SessionAction::Teardown);
    assert_eq!(s.step(SessionInput::RetryDue, 3), plain(SessionAction::Continue, vec![]));
    assert_eq!(s.step(SessionInput::TornDown, 4).action, SessionAction::Exit { error: None });

    let mut s = session(1);
    fail_one_attempt(&mut s, 1);
    s.step(SessionInput::RetryDue, 2);
    s.step(SessionInput::ConnectTimedOut, 3);
    assert_eq!(s.phase(), SessionPhase::Failed);
    assert_eq!(s.step(SessionInput::Shutdown, 4).action, SessionAction::Teardown);
    assert_eq!(s.step(SessionInput::TornDown, 5).action, SessionAction::Exit { error: None });
}

#[test]
fn inputs_out_of_place_are_passed_over() {
    let mut s = session(0);
    for input in [
        SessionInput::RetryDue,
        SessionInput::ConnectSucceeded,
        SessionInput::ConnectTimedOut,
        upgraded("a"),
        SessionInput::SubscriptionWritten,
        text("[]"),
        SessionInput::ReadFailed { reason: "r".to_string() },
        SessionInput::TornDown,
    ] {
        assert_eq!(s.step(input, 1), plain(SessionAction::Continue, vec![]));
        assert_eq!(s.phase(), SessionPhase::Idle);
    }
    assert_eq!(s.state(), &ClientState::with_connection_id("initial".to_string()));
    s.step(SessionInput::Start, 2);
    assert_eq!(s.step(SessionInput::Start, 3), plain(SessionAction::Continue, vec![]));
    assert_eq!(s.step(SessionInput::SubscriptionWritten, 3), plain(SessionAction::Continue, vec![]));
    assert_eq!(s.phase(), SessionPhase::Connecting);
}

#[test]
fn fresh_sessions_get_fresh_identifiers() {
    let a = Session::new(config(0));
    let b = Session::new(config(0));
    assert_ne!(a.state().connection_id, b.state().connection_id);
    assert_eq!(a.state().connection_id.len(), 36);
    assert_eq!(a.phase(), SessionPhase::Idle);
    let first = SessionInput::upgrade_succeeded();
    let second = SessionInput::upgrade_succeeded();
    assert_ne!(first, second);
    assert!(matches!(first, SessionInput::UpgradeSucceeded { .. }));
}
