//! The connection session: one state machine that takes what the transport
//! and the timers report, one input at a time, and answers each with the next
//! thing to do and the events to publish.
//!
//! The session owns no socket and reads no clock. Its driver performs each
//! action, reports the outcome as the next input, and passes the time along.

use crate::classifier::{classified_text, classify, Classified, ClassifiedModel};
use crate::client_state::{fresh_connection_id, is_uuid_text, ClientState, ClientStateModel};
use crate::error::{HyperliquidError, HyperliquidErrorModel};
use crate::events::{ClientEvent, ClientEventModel};
use crate::health::{is_stale, silence_exceeded};
use crate::integrity::{IntegrityModel, IntegrityTracker};
use crate::policy::{ReconnectDecision, ReconnectPolicy};
use crate::timestamp::plausible_timestamp;
use crate::types::{subscribe_to, SubscriptionRequest, Trade, TradeModel};
use vstd::prelude::*;

verus! {

/// What a session is configured with.
#[derive(Debug, Clone, PartialEq, Eq)]
pub struct SessionConfig {
    /// Where to connect.
    pub url: String,
    /// The symbol whose trades are subscribed to.
    pub coin: String,
    /// How long a connect may take, in seconds.
    pub timeout_secs: u64,
    pub policy: ReconnectPolicy,
    /// The interval of the health check, in seconds.
    pub check_interval_secs: u64,
}

/// The mathematical model of a [`SessionConfig`].
pub struct SessionConfigModel {
    pub url: Seq<char>,
    pub coin: Seq<char>,
    pub timeout_secs: u64,
    pub policy: ReconnectPolicy,
    pub check_interval_secs: u64,
}

impl DeepView for SessionConfig {
    type V = SessionConfigModel;

    open spec fn deep_view(&self) -> SessionConfigModel {
        SessionConfigModel {
            url: self.url@,
            coin: self.coin@,
            timeout_secs: self.timeout_secs,
            policy: self.policy,
            check_interval_secs: self.check_interval_secs,
        }
    }
}

impl SessionConfigModel {
    /// The subscription request as it goes out on the wire.
    pub open spec fn subscription_text(self) -> Seq<char> {
        subscribe_to("trades"@, self.coin).wire_text()
    }
}

/// Where a session stands.
#[derive(Debug, Clone, Copy, PartialEq, Eq, Structural)]
pub enum SessionPhase {
    /// Nothing is in progress: before the start, between attempts, and after
    /// the end.
    Idle,
    /// A connect is under way.
    Connecting,
    /// The protocol upgrade is under way.
    Handshaking,
    /// The subscription request is being written.
    Subscribing,
    /// Frames are being read.
    Listening,
    /// A shutdown was asked for; the transport is being torn down.
    Closing,
    /// The session failed; the transport is being torn down.
    Failed,
}

/// One frame from the transport: its opcode, with the payload where this
/// library reads it.
#[derive(Debug, Clone, PartialEq, Eq)]
pub enum Frame {
    Text(String),
    Binary(Vec<u8>),
    Ping(Vec<u8>),
    Pong(Vec<u8>),
    Close,
}

/// The mathematical model of a [`Frame`].
pub enum FrameModel {
    Text(Seq<char>),
    Binary(Seq<u8>),
    Ping(Seq<u8>),
    Pong(Seq<u8>),
    Close,
}

impl DeepView for Frame {
    type V = FrameModel;

    open spec fn deep_view(&self) -> FrameModel {
        match self {
            Frame::Text(text) => FrameModel::Text(text@),
            Frame::Binary(bytes) => FrameModel::Binary(bytes@),
            Frame::Ping(bytes) => FrameModel::Ping(bytes@),
            Frame::Pong(bytes) => FrameModel::Pong(bytes@),
            Frame::Close => FrameModel::Close,
        }
    }
}

/// What the driver reports to the session.
#[derive(Debug, Clone, PartialEq, Eq)]
pub enum SessionInput {
    /// The client is started.
    Start,
    /// The wait before a reconnect is over.
    RetryDue,
    ConnectSucceeded,
    /// The connect did not finish within the configured time.
    ConnectTimedOut,
    ConnectFailed { reason: String },
    /// The protocol upgrade was answered with success. The new session goes
    /// by `connection_id`.
    UpgradeSucceeded { connection_id: String },
    /// The upgrade was refused, or its answer was malformed.
    UpgradeRejected { reason: String },
    SubscriptionWritten,
    WriteFailed { reason: String },
    FrameReceived(Frame),
    ReadFailed { reason: String },
    /// The health check is due.
    HealthTick,
    /// The transport has been torn down.
    TornDown,
    /// A shutdown is asked for from outside.
    Shutdown,
}

/// The mathematical model of a [`SessionInput`].
pub enum SessionInputModel {
    Start,
    RetryDue,
    ConnectSucceeded,
    ConnectTimedOut,
    ConnectFailed { reason: Seq<char> },
    UpgradeSucceeded { connection_id: Seq<char> },
    UpgradeRejected { reason: Seq<char> },
    SubscriptionWritten,
    WriteFailed { reason: Seq<char> },
    FrameReceived(FrameModel),
    ReadFailed { reason: Seq<char> },
    HealthTick,
    TornDown,
    Shutdown,
}

impl DeepView for SessionInput {
    type V = SessionInputModel;

    open spec fn deep_view(&self) -> SessionInputModel {
        match self {
            SessionInput::Start => SessionInputModel::Start,
            SessionInput::RetryDue => SessionInputModel::RetryDue,
            SessionInput::ConnectSucceeded => SessionInputModel::ConnectSucceeded,
            SessionInput::ConnectTimedOut => SessionInputModel::ConnectTimedOut,
            SessionInput::ConnectFailed { reason } => SessionInputModel::ConnectFailed {
                reason: reason@,
            },
            SessionInput::UpgradeSucceeded { connection_id } => {
                SessionInputModel::UpgradeSucceeded { connection_id: connection_id@ }
            },
            SessionInput::UpgradeRejected { reason } => SessionInputModel::UpgradeRejected {
                reason: reason@,
            },
            SessionInput::SubscriptionWritten => SessionInputModel::SubscriptionWritten,
            SessionInput::WriteFailed { reason } => SessionInputModel::WriteFailed {
                reason: reason@,
            },
            SessionInput::FrameReceived(frame) => SessionInputModel::FrameReceived(
                frame.deep_view(),
            ),
            SessionInput::ReadFailed { reason } => SessionInputModel::ReadFailed {
                reason: reason@,
            },
            SessionInput::HealthTick => SessionInputModel::HealthTick,
            SessionInput::TornDown => SessionInputModel::TornDown,
            SessionInput::Shutdown => SessionInputModel::Shutdown,
        }
    }
}

impl SessionInput {
    /// The report of a successful upgrade, with a fresh identifier for the
    /// session that begins: a random UUID, written as text.
    pub fn upgrade_succeeded() -> (input: SessionInput)
        ensures
            input is UpgradeSucceeded,
            is_uuid_text(input->connection_id@),
    {
        SessionInput::UpgradeSucceeded { connection_id: fresh_connection_id() }
    }
}

/// What the driver is to do next.
#[derive(Debug, Clone, PartialEq, Eq)]
pub enum SessionAction {
    /// Open a connection to `url`, within `timeout_secs` seconds.
    Connect { url: String, timeout_secs: u64 },
    /// Perform the protocol upgrade on the open connection.
    Upgrade,
    /// Write `text` as one text frame.
    SendText { text: String },
    /// Read the next frame.
    ReceiveFrame,
    /// Release the transport.
    Teardown,
    /// Wait `delay_secs` seconds, unless a shutdown comes first.
    Wait { delay_secs: u64 },
    /// Nothing new: go on with what is in progress.
    Continue,
    /// Stop driving the session. `error` is the failure to surface, `None`
    /// after a clean shutdown.
    Exit { error: Option<HyperliquidError> },
}

/// The mathematical model of a [`SessionAction`].
pub enum SessionActionModel {
    Connect { url: Seq<char>, timeout_secs: u64 },
    Upgrade,
    SendText { text: Seq<char> },
    ReceiveFrame,
    Teardown,
    Wait { delay_secs: u64 },
    Continue,
    Exit { error: Option<HyperliquidErrorModel> },
}

impl DeepView for SessionAction {
    type V = SessionActionModel;

    open spec fn deep_view(&self) -> SessionActionModel {
        match self {
            SessionAction::Connect { url, timeout_secs } => SessionActionModel::Connect {
                url: url@,
                timeout_secs: *timeout_secs,
            },
            SessionAction::Upgrade => SessionActionModel::Upgrade,
            SessionAction::SendText { text } => SessionActionModel::SendText { text: text@ },
            SessionAction::ReceiveFrame => SessionActionModel::ReceiveFrame,
            SessionAction::Teardown => SessionActionModel::Teardown,
            SessionAction::Wait { delay_secs } => SessionActionModel::Wait {
                delay_secs: *delay_secs,
            },
            SessionAction::Continue => SessionActionModel::Continue,
            SessionAction::Exit { error } => SessionActionModel::Exit {
                error: error.deep_view(),
            },
        }
    }
}

/// The session's answer to one input.
#[derive(Debug, PartialEq, Eq)]
pub struct SessionOutput {
    pub action: SessionAction,
    /// The events to publish, in this order.
    pub events: Vec<ClientEvent>,
    /// The failure that this step met, if it met one.
    pub failure: Option<HyperliquidError>,
    /// The input was a text frame whose payload has none of the known shapes.
    pub unparsed: bool,
}

/// The mathematical model of a [`SessionOutput`].
pub struct SessionOutputModel {
    pub action: SessionActionModel,
    pub events: Seq<ClientEventModel>,
    pub failure: Option<HyperliquidErrorModel>,
    pub unparsed: bool,
}

impl DeepView for SessionOutput {
    type V = SessionOutputModel;

    open spec fn deep_view(&self) -> SessionOutputModel {
        SessionOutputModel {
            action: self.action.deep_view(),
            events: self.events.deep_view(),
            failure: self.failure.deep_view(),
            unparsed: self.unparsed,
        }
    }
}

/// What the tracker, the counters and the events are after a run of trades
/// has gone through the tracker.
pub struct Absorbed {
    pub integrity: IntegrityModel,
    pub state: ClientStateModel,
    pub events: Seq<ClientEventModel>,
}

/// Puts `trades` through the tracker in their order. Each has its timestamp
/// looked at, and is submitted by symbol and identifier. An accepted trade is
/// counted and published; a duplicate is counted by the tracker and goes no
/// further.
pub open spec fn absorb(
    integrity: IntegrityModel,
    state: ClientStateModel,
    trades: Seq<TradeModel>,
) -> Absorbed
    decreases trades.len(),
{
    if trades.len() == 0 {
        Absorbed { integrity, state, events: Seq::empty() }
    } else {
        let before = absorb(integrity, state, trades.drop_last());
        let trade = trades.last();
        let noted = before.integrity.note_timestamp(plausible_timestamp(trade.time));
        let integrity = noted.record_trade(trade.coin, trade.tid);
        if noted.is_duplicate(trade.coin, trade.tid) {
            Absorbed { integrity, state: before.state, events: before.events }
        } else {
            Absorbed {
                integrity,
                state: before.state.record_trade(),
                events: before.events.push(ClientEventModel::TradeReceived(trade)),
            }
        }
    }
}

/// The reason given where the health check fails a session.
pub open spec fn silence_reason() -> Seq<char> {
    "no frame within three check intervals"@
}

/// How a session has ended.
#[derive(Debug, Clone, Copy, PartialEq, Eq, Structural)]
pub enum SessionEnd {
    /// A shutdown was asked for.
    Clean,
    /// The reconnect attempts were used up.
    GaveUp,
}

/// The mathematical model of a [`Session`].
pub struct SessionModel {
    pub config: SessionConfigModel,
    pub phase: SessionPhase,
    /// The client was started.
    pub started: bool,
    /// How the session has ended, once it has: from there on it answers
    /// every input with the exit.
    pub ended: Option<SessionEnd>,
    /// What the reconnect policy decided at the last failure.
    pub pending: ReconnectDecision,
    pub state: ClientStateModel,
    pub integrity: IntegrityModel,
}

impl SessionModel {
    /// A session that was not started yet.
    pub open spec fn initial(
        config: SessionConfigModel,
        state: ClientStateModel,
        integrity: IntegrityModel,
    ) -> SessionModel {
        SessionModel {
            config,
            phase: SessionPhase::Idle,
            started: false,
            ended: None,
            pending: ReconnectDecision::GiveUp,
            state,
            integrity,
        }
    }

    /// The session has ended for good.
    pub open spec fn finished(self) -> bool {
        self.ended is Some
    }

    /// The failure that a finished session surfaces.
    pub open spec fn exit_error(self) -> Option<HyperliquidErrorModel> {
        match self.ended {
            Some(SessionEnd::GaveUp) => Some(HyperliquidErrorModel::MaxReconnectsExceeded),
            _ => None,
        }
    }

    /// An input that does not apply where the session stands changes
    /// nothing.
    pub open spec fn ignore(self) -> (SessionModel, SessionOutputModel) {
        (
            self,
            SessionOutputModel {
                action: SessionActionModel::Continue,
                events: Seq::empty(),
                failure: None,
                unparsed: false,
            },
        )
    }

    /// The session moves on to `phase` with the given action and events.
    pub open spec fn advance(
        self,
        phase: SessionPhase,
        action: SessionActionModel,
        events: Seq<ClientEventModel>,
    ) -> (SessionModel, SessionOutputModel) {
        (
            SessionModel { phase, ..self },
            SessionOutputModel { action, events, failure: None, unparsed: false },
        )
    }

    /// The failed transition: the policy is asked with the reconnect attempts
    /// made so far, the reconnect count goes up by one, and the transport is
    /// to be torn down.
    pub open spec fn fail(
        self,
        cause: HyperliquidErrorModel,
        now: u64,
        events: Seq<ClientEventModel>,
    ) -> (SessionModel, SessionOutputModel) {
        (
            SessionModel {
                phase: SessionPhase::Failed,
                pending: self.config.policy.decision(self.state.reconnect_count),
                state: self.state.increment_reconnect(now),
                ..self
            },
            SessionOutputModel {
                action: SessionActionModel::Teardown,
                events,
                failure: Some(cause),
                unparsed: false,
            },
        )
    }

    /// The start of a connection attempt.
    pub open spec fn connect(self, events: Seq<ClientEventModel>) -> (
        SessionModel,
        SessionOutputModel,
    ) {
        (
            SessionModel { phase: SessionPhase::Connecting, started: true, ..self },
            SessionOutputModel {
                action: SessionActionModel::Connect {
                    url: self.config.url,
                    timeout_secs: self.config.timeout_secs,
                },
                events: events.push(ClientEventModel::Connecting { url: self.config.url }),
                failure: None,
                unparsed: false,
            },
        )
    }

    /// A text frame on a listening session: the message is counted and
    /// published raw, classified, and its trades go through the tracker.
    pub open spec fn on_text(self, text: Seq<char>, now: u64) -> (
        SessionModel,
        SessionOutputModel,
    ) {
        let classified = classified_text(text);
        let absorbed = absorb(
            self.integrity.note_message(),
            self.state.record_message(now),
            classified.trades(),
        );
        (
            SessionModel { state: absorbed.state, integrity: absorbed.integrity, ..self },
            SessionOutputModel {
                action: SessionActionModel::ReceiveFrame,
                events: seq![ClientEventModel::MessageReceived { raw_message: text }]
                    + classified.notifications(self.config.coin) + absorbed.events,
                failure: None,
                unparsed: classified is Unparsed,
            },
        )
    }

    /// A frame on a listening session.
    pub open spec fn on_frame(self, frame: FrameModel, now: u64) -> (
        SessionModel,
        SessionOutputModel,
    ) {
        match frame {
            FrameModel::Text(text) => self.on_text(text, now),
            FrameModel::Close => self.fail(
                HyperliquidErrorModel::ConnectionClosed,
                now,
                seq![ClientEventModel::Disconnected],
            ),
            _ => (
                SessionModel { state: self.state.record_frame(now), ..self },
                SessionOutputModel {
                    action: SessionActionModel::ReceiveFrame,
                    events: Seq::empty(),
                    failure: None,
                    unparsed: false,
                },
            ),
        }
    }

    /// The transport is torn down. After a failure the pending decision of
    /// the policy is carried out: a wait before the next attempt, or the end
    /// of the client. After a shutdown the session ends cleanly.
    pub open spec fn on_torn_down(self, now: u64) -> (SessionModel, SessionOutputModel) {
        match self.phase {
            SessionPhase::Failed => match self.pending {
                ReconnectDecision::Retry { delay_secs } => self.advance(
                    SessionPhase::Idle,
                    SessionActionModel::Wait { delay_secs },
                    seq![
                        ClientEventModel::Reconnecting {
                            attempt: self.state.reconnect_count,
                            delay_secs,
                        },
                    ],
                ),
                ReconnectDecision::GiveUp => (
                    SessionModel { ended: Some(SessionEnd::GaveUp), ..self },
                    SessionOutputModel {
                        action: SessionActionModel::Exit {
                            error: Some(HyperliquidErrorModel::MaxReconnectsExceeded),
                        },
                        events: Seq::empty(),
                        failure: Some(HyperliquidErrorModel::MaxReconnectsExceeded),
                        unparsed: false,
                    },
                ),
            },
            SessionPhase::Closing => (
                SessionModel {
                    phase: SessionPhase::Idle,
                    ended: Some(SessionEnd::Clean),
                    state: self.state.disconnect(now),
                    ..self
                },
                SessionOutputModel {
                    action: SessionActionModel::Exit { error: None },
                    events: Seq::empty(),
                    failure: None,
                    unparsed: false,
                },
            ),
            _ => self.ignore(),
        }
    }

    /// The session's answer to `input` at time `now`, and the session after
    /// it.
    pub open spec fn step(self, input: SessionInputModel, now: u64) -> (
        SessionModel,
        SessionOutputModel,
    ) {
        if self.finished() {
            (
                self,
                SessionOutputModel {
                    action: SessionActionModel::Exit { error: self.exit_error() },
                    events: Seq::empty(),
                    failure: None,
                    unparsed: false,
                },
            )
        } else {
            match input {
                SessionInputModel::Shutdown => if self.phase is Closing {
                    self.ignore()
                } else {
                    self.advance(
                        SessionPhase::Closing,
                        SessionActionModel::Teardown,
                        seq![ClientEventModel::Stopping],
                    )
                },
                SessionInputModel::Start => if self.phase is Idle && !self.started {
                    self.connect(seq![ClientEventModel::Starting])
                } else {
                    self.ignore()
                },
                SessionInputModel::RetryDue => if self.phase is Idle && self.started {
                    self.connect(Seq::empty())
                } else {
                    self.ignore()
                },
                SessionInputModel::ConnectSucceeded => if self.phase is Connecting {
                    self.advance(
                        SessionPhase::Handshaking,
                        SessionActionModel::Upgrade,
                        Seq::empty(),
                    )
                } else {
                    self.ignore()
                },
                SessionInputModel::ConnectTimedOut => if self.phase is Connecting {
                    self.fail(HyperliquidErrorModel::Timeout, now, Seq::empty())
                } else {
                    self.ignore()
                },
                SessionInputModel::ConnectFailed { reason } => if self.phase is Connecting {
                    self.fail(HyperliquidErrorModel::WebSocketError(reason), now, Seq::empty())
                } else {
                    self.ignore()
                },
                SessionInputModel::UpgradeSucceeded { connection_id } => if self.phase
                    is Handshaking {
                    (
                        SessionModel {
                            phase: SessionPhase::Subscribing,
                            state: self.state.reset_connection(connection_id, now),
                            ..self
                        },
                        SessionOutputModel {
                            action: SessionActionModel::SendText {
                                text: self.config.subscription_text(),
                            },
                            events: seq![ClientEventModel::Connected { connection_id }],
                            failure: None,
                            unparsed: false,
                        },
                    )
                } else {
                    self.ignore()
                },
                SessionInputModel::UpgradeRejected { reason } => if self.phase is Handshaking {
                    self.fail(HyperliquidErrorModel::WebSocketError(reason), now, Seq::empty())
                } else {
                    self.ignore()
                },
                SessionInputModel::SubscriptionWritten => if self.phase is Subscribing {
                    (
                        SessionModel {
                            phase: SessionPhase::Listening,
                            state: self.state.mark_listening(),
                            ..self
                        },
                        SessionOutputModel {
                            action: SessionActionModel::ReceiveFrame,
                            events: seq![
                                ClientEventModel::SubscriptionSent {
                                    message: self.config.subscription_text(),
                                },
                            ],
                            failure: None,
                            unparsed: false,
                        },
                    )
                } else {
                    self.ignore()
                },
                SessionInputModel::WriteFailed { reason } => if self.phase is Subscribing {
                    self.fail(HyperliquidErrorModel::WebSocketError(reason), now, Seq::empty())
                } else {
                    self.ignore()
                },
                SessionInputModel::FrameReceived(frame) => if self.phase is Listening {
                    self.on_frame(frame, now)
                } else {
                    self.ignore()
                },
                SessionInputModel::ReadFailed { reason } => if self.phase is Listening {
                    self.fail(HyperliquidErrorModel::WebSocketError(reason), now, Seq::empty())
                } else {
                    self.ignore()
                },
                SessionInputModel::HealthTick => if self.phase is Listening && silence_exceeded(
                    self.state.last_message_time,
                    now,
                    self.config.check_interval_secs,
                ) {
                    self.fail(
                        HyperliquidErrorModel::HealthCheckFailed { reason: silence_reason() },
                        now,
                        seq![ClientEventModel::HealthCheckFailed { reason: silence_reason() }],
                    )
                } else {
                    self.ignore()
                },
                SessionInputModel::TornDown => self.on_torn_down(now),
            }
        }
    }
}

/// The connection session.
pub struct Session {
    config: SessionConfig,
    phase: SessionPhase,
    started: bool,
    ended: Option<SessionEnd>,
    pending: ReconnectDecision,
    state: ClientState,
    integrity: IntegrityTracker,
}

fn quiet(action: SessionAction, events: Vec<ClientEvent>) -> (output: SessionOutput)
    ensures
        output.deep_view() == (SessionOutputModel {
            action: action.deep_view(),
            events: events.deep_view(),
            failure: None,
            unparsed: false,
        }),
{
    SessionOutput { action, events, failure: None, unparsed: false }
}

fn no_events() -> (events: Vec<ClientEvent>)
    ensures
        events.deep_view() == Seq::<ClientEventModel>::empty(),
{
    let events: Vec<ClientEvent> = Vec::new();
    assert(events.deep_view() =~= Seq::<ClientEventModel>::empty());
    events
}

fn one_event(event: ClientEvent) -> (events: Vec<ClientEvent>)
    ensures
        events.deep_view() == seq![event.deep_view()],
{
    let mut events: Vec<ClientEvent> = Vec::new();
    events.push(event);
    assert(events.deep_view() =~= seq![event.deep_view()]);
    events
}

impl Session {
    pub closed spec fn view(&self) -> SessionModel {
        SessionModel {
            config: self.config.deep_view(),
            phase: self.phase,
            started: self.started,
            ended: self.ended,
            pending: self.pending,
            state: self.state.deep_view(),
            integrity: self.integrity@,
        }
    }

    /// A session that was not started yet, with counters at zero and a
    /// tracker that has seen nothing.
    pub fn new(config: SessionConfig) -> (session: Self)
        ensures
            session@ == SessionModel::initial(
                config.deep_view(),
                session@.state,
                IntegrityModel::empty(),
            ),
            session@.state == ClientStateModel::initial(session@.state.connection_id),
            is_uuid_text(session@.state.connection_id),
    {
        Self::with_parts(config, ClientState::new(), IntegrityTracker::new())
    }

    /// A session that was not started yet, over the given counters and
    /// tracker. A client that outlives its session hands both on to the
    /// next one this way.
    pub fn with_parts(
        config: SessionConfig,
        state: ClientState,
        integrity: IntegrityTracker,
    ) -> (session: Self)
        ensures
            session@ == SessionModel::initial(config.deep_view(), state.deep_view(), integrity@),
    {
        Session {
            config,
            phase: SessionPhase::Idle,
            started: false,
            ended: None,
            pending: ReconnectDecision::GiveUp,
            state,
            integrity,
        }
    }

    pub fn phase(&self) -> (phase: SessionPhase)
        ensures
            phase == self@.phase,
    {
        self.phase
    }

    /// Whether the session has ended for good.
    pub fn is_finished(&self) -> (finished: bool)
        ensures
            finished == self@.finished(),
    {
        self.ended.is_some()
    }

    /// How the session has ended, once it has.
    pub fn ended(&self) -> (ended: Option<SessionEnd>)
        ensures
            ended == self@.ended,
    {
        self.ended
    }

    pub fn config(&self) -> (config: &SessionConfig)
        ensures
            config.deep_view() == self@.config,
    {
        &self.config
    }

    pub fn state(&self) -> (state: &ClientState)
        ensures
            state.deep_view() == self@.state,
    {
        &self.state
    }

    pub fn integrity(&self) -> (integrity: &IntegrityTracker)
        ensures
            integrity@ == self@.integrity,
    {
        &self.integrity
    }

    fn subscription_text(&self) -> (text: String)
        ensures
            text@ == self@.config.subscription_text(),
    {
        SubscriptionRequest::new_trades_subscription(self.config.coin.as_str()).to_wire()
    }

    fn fail(&mut self, cause: HyperliquidError, now: u64, events: Vec<ClientEvent>) -> (output:
        SessionOutput)
        ensures
            (final(self)@, output.deep_view()) == old(self)@.fail(
                cause.deep_view(),
                now,
                events.deep_view(),
            ),
    {
        self.pending = self.config.policy.decide(self.state.reconnect_count);
        self.state.increment_reconnect(now);
        self.phase = SessionPhase::Failed;
        SessionOutput {
            action: SessionAction::Teardown,
            events,
            failure: Some(cause),
            unparsed: false,
        }
    }

    fn connect(&mut self, events: Vec<ClientEvent>) -> (output: SessionOutput)
        ensures
            (final(self)@, output.deep_view()) == old(self)@.connect(events.deep_view()),
    {
        let mut events = events;
        let ghost before = events.deep_view();
        events.push(ClientEvent::Connecting { url: self.config.url.clone() });
        assert(events.deep_view() =~= before.push(
            ClientEventModel::Connecting { url: self.config.url@ },
        ));
        self.phase = SessionPhase::Connecting;
        self.started = true;
        quiet(
            SessionAction::Connect {
                url: self.config.url.clone(),
                timeout_secs: self.config.timeout_secs,
            },
            events,
        )
    }

    /// Puts the trades of one message through the tracker and appends the
    /// events of those that are accepted.
    fn absorb_trades(&mut self, trades: Vec<Trade>, events: &mut Vec<ClientEvent>)
        ensures
            final(self)@ == (SessionModel {
                integrity: absorb(
                    old(self)@.integrity,
                    old(self)@.state,
                    trades.deep_view(),
                ).integrity,
                state: absorb(old(self)@.integrity, old(self)@.state, trades.deep_view()).state,
                ..old(self)@
            }),
            final(events).deep_view() == old(events).deep_view() + absorb(
                old(self)@.integrity,
                old(self)@.state,
                trades.deep_view(),
            ).events,
    {
        let ghost integrity0 = self@.integrity;
        let ghost state0 = self@.state;
        let ghost events0 = events.deep_view();
        let ghost all = trades.deep_view();
        assert(all.take(0) =~= Seq::<TradeModel>::empty());
        assert(events.deep_view() =~= events0 + Seq::<ClientEventModel>::empty());
        for trade in it: trades
            invariant
                it.seq().len() == all.len(),
                forall|k: int|
                    0 <= k < all.len() ==> (#[trigger] it.seq()[k]).deep_view() == all[k],
                self@ == (SessionModel {
                    integrity: absorb(integrity0, state0, all.take(it.index() as int)).integrity,
                    state: absorb(integrity0, state0, all.take(it.index() as int)).state,
                    ..old(self)@
                }),
                events.deep_view() == events0 + absorb(
                    integrity0,
                    state0,
                    all.take(it.index() as int),
                ).events,
        {
            let ghost k = it.index() as int;
            let ghost before = absorb(integrity0, state0, all.take(k));
            proof {
                assert(all.take(k + 1).drop_last() =~= all.take(k));
                assert(all.take(k + 1).last() == trade.deep_view());
            }
            self.integrity.observe_timestamp(trade.time);
            let accepted = self.integrity.record_trade(trade.coin.as_str(), trade.tid);
            if accepted {
                self.state.record_trade();
                let ghost shown = events.deep_view();
                events.push(ClientEvent::TradeReceived(trade));
                assert(events.deep_view() =~= shown.push(
                    ClientEventModel::TradeReceived(trade.deep_view()),
                ));
                assert(events.deep_view() =~= events0 + before.events.push(
                    ClientEventModel::TradeReceived(trade.deep_view()),
                ));
            }
        }
        assert(all.take(all.len() as int) =~= all);
    }

    fn on_text(&mut self, text: String, now: u64) -> (output: SessionOutput)
        ensures
            (final(self)@, output.deep_view()) == old(self)@.on_text(text@, now),
    {
        let classified = classify(text.as_str());
        let unparsed = classified.is_unparsed();
        let ghost model = classified.deep_view();
        let (trades, notes) = classified.into_parts(self.config.coin.as_str());
        self.state.record_message(now);
        self.integrity.note_message();
        let mut events: Vec<ClientEvent> = Vec::new();
        events.push(ClientEvent::MessageReceived { raw_message: text });
        let mut notes = notes;
        let ghost first = events.deep_view();
        let ghost second = notes.deep_view();
        events.append(&mut notes);
        assert(events.deep_view() =~= seq![ClientEventModel::MessageReceived { raw_message: text@ }]
            + model.notifications(self.config.coin@)) by {
            assert(first =~= seq![ClientEventModel::MessageReceived { raw_message: text@ }]);
            assert(events.deep_view() =~= first + second);
        }
        self.absorb_trades(trades, &mut events);
        SessionOutput { action: SessionAction::ReceiveFrame, events, failure: None, unparsed }
    }

    fn on_frame(&mut self, frame: Frame, now: u64) -> (output: SessionOutput)
        ensures
            (final(self)@, output.deep_view()) == old(self)@.on_frame(frame.deep_view(), now),
    {
        match frame {
            Frame::Text(text) => self.on_text(text, now),
            Frame::Close => self.fail(
                HyperliquidError::ConnectionClosed,
                now,
                one_event(ClientEvent::Disconnected),
            ),
            _ => {
                self.state.record_frame(now);
                quiet(SessionAction::ReceiveFrame, no_events())
            },
        }
    }

    fn on_torn_down(&mut self, now: u64) -> (output: SessionOutput)
        ensures
            (final(self)@, output.deep_view()) == old(self)@.on_torn_down(now),
    {
        match self.phase {
            SessionPhase::Failed => match self.pending {
                ReconnectDecision::Retry { delay_secs } => {
                    self.phase = SessionPhase::Idle;
                    quiet(
                        SessionAction::Wait { delay_secs },
                        one_event(
                            ClientEvent::Reconnecting {
                                attempt: self.state.reconnect_count,
                                delay_secs,
                            },
                        ),
                    )
                },
                ReconnectDecision::GiveUp => {
                    self.ended = Some(SessionEnd::GaveUp);
                    SessionOutput {
                        action: SessionAction::Exit {
                            error: Some(HyperliquidError::MaxReconnectsExceeded),
                        },
                        events: no_events(),
                        failure: Some(HyperliquidError::MaxReconnectsExceeded),
                        unparsed: false,
                    }
                },
            },
            SessionPhase::Closing => {
                self.phase = SessionPhase::Idle;
                self.ended = Some(SessionEnd::Clean);
                self.state.disconnect(now);
                quiet(SessionAction::Exit { error: None }, no_events())
            },
            _ => quiet(SessionAction::Continue, no_events()),
        }
    }

    /// Takes one input at time `now`, in milliseconds on the driver's clock,
    /// and answers with the next action and the events to publish.
    pub fn step(&mut self, input: SessionInput, now: u64) -> (output: SessionOutput)
        ensures
            (final(self)@, output.deep_view()) == old(self)@.step(input.deep_view(), now),
    {
        if let Some(end) = self.ended {
            let error = match end {
                SessionEnd::GaveUp => Some(HyperliquidError::MaxReconnectsExceeded),
                SessionEnd::Clean => None,
            };
            return quiet(SessionAction::Exit { error }, no_events());
        }
        match input {
            SessionInput::Shutdown => {
                if self.phase == SessionPhase::Closing {
                    quiet(SessionAction::Continue, no_events())
                } else {
                    self.phase = SessionPhase::Closing;
                    quiet(SessionAction::Teardown, one_event(ClientEvent::Stopping))
                }
            },
            SessionInput::Start => {
                if self.phase == SessionPhase::Idle && !self.started {
                    self.connect(one_event(ClientEvent::Starting))
                } else {
                    quiet(SessionAction::Continue, no_events())
                }
            },
            SessionInput::RetryDue => {
                if self.phase == SessionPhase::Idle && self.started {
                    self.connect(no_events())
                } else {
                    quiet(SessionAction::Continue, no_events())
                }
            },
            SessionInput::ConnectSucceeded => {
                if self.phase == SessionPhase::Connecting {
                    self.phase = SessionPhase::Handshaking;
                    quiet(SessionAction::Upgrade, no_events())
                } else {
                    quiet(SessionAction::Continue, no_events())
                }
            },
            SessionInput::ConnectTimedOut => {
                if self.phase == SessionPhase::Connecting {
                    self.fail(HyperliquidError::Timeout, now, no_events())
                } else {
                    quiet(SessionAction::Continue, no_events())
                }
            },
            SessionInput::ConnectFailed { reason } => {
                if self.phase == SessionPhase::Connecting {
                    self.fail(HyperliquidError::WebSocketError(reason), now, no_events())
                } else {
                    quiet(SessionAction::Continue, no_events())
                }
            },
            SessionInput::UpgradeSucceeded { connection_id } => {
                if self.phase == SessionPhase::Handshaking {
                    let text = self.subscription_text();
                    let events = one_event(
                        ClientEvent::Connected { connection_id: connection_id.clone() },
                    );
                    self.state.reset_connection_as(connection_id, now);
                    self.phase = SessionPhase::Subscribing;
                    quiet(SessionAction::SendText { text }, events)
                } else {
                    quiet(SessionAction::Continue, no_events())
                }
            },
            SessionInput::UpgradeRejected { reason } => {
                if self.phase == SessionPhase::Handshaking {
                    self.fail(HyperliquidError::WebSocketError(reason), now, no_events())
                } else {
                    quiet(SessionAction::Continue, no_events())
                }
            },
            SessionInput::SubscriptionWritten => {
                if self.phase == SessionPhase::Subscribing {
                    let message = self.subscription_text();
                    self.state.mark_listening();
                    self.phase = SessionPhase::Listening;
                    quiet(
                        SessionAction::ReceiveFrame,
                        one_event(ClientEvent::SubscriptionSent { message }),
                    )
                } else {
                    quiet(SessionAction::Continue, no_events())
                }
            },
            SessionInput::WriteFailed { reason } => {
                if self.phase == SessionPhase::Subscribing {
                    self.fail(HyperliquidError::WebSocketError(reason), now, no_events())
                } else {
                    quiet(SessionAction::Continue, no_events())
                }
            },
            SessionInput::FrameReceived(frame) => {
                if self.phase == SessionPhase::Listening {
                    self.on_frame(frame, now)
                } else {
                    quiet(SessionAction::Continue, no_events())
                }
            },
            SessionInput::ReadFailed { reason } => {
                if self.phase == SessionPhase::Listening {
                    self.fail(HyperliquidError::WebSocketError(reason), now, no_events())
                } else {
                    quiet(SessionAction::Continue, no_events())
                }
            },
            SessionInput::HealthTick => {
                if self.phase == SessionPhase::Listening && is_stale(
                    self.state.last_message_time,
                    now,
                    self.config.check_interval_secs,
                ) {
                    self.fail(
                        HyperliquidError::HealthCheckFailed {
                            reason: "no frame within three check intervals".to_owned(),
                        },
                        now,
                        one_event(
                            ClientEvent::HealthCheckFailed {
                                reason: "no frame within three check intervals".to_owned(),
                            },
                        ),
                    )
                } else {
                    quiet(SessionAction::Continue, no_events())
                }
            },
            SessionInput::TornDown => self.on_torn_down(now),
        }
    }
}

impl SessionModel {
    /// The step from `self` to `next` enters `phase`.
    pub open spec fn enters(self, next: SessionModel, phase: SessionPhase) -> bool {
        self.phase != phase && next.phase == phase
    }

    /// The input that sets an idle session going: the start, or after that
    /// the end of the wait.
    pub open spec fn wake(self) -> SessionInputModel {
        if self.started {
            SessionInputModel::RetryDue
        } else {
            SessionInputModel::Start
        }
    }

    /// One failed attempt from idle, step by step: the session is set going,
    /// the connect times out, the transport is torn down.
    pub open spec fn failed_attempt(self, now: u64) -> (SessionModel, SessionOutputModel) {
        self.step(self.wake(), now).0.step(SessionInputModel::ConnectTimedOut, now).0.step(
            SessionInputModel::TornDown,
            now,
        )
    }

    /// The session after `count` failed attempts in a row.
    pub open spec fn after_failed_attempts(self, count: nat, now: u64) -> SessionModel
        decreases count,
    {
        if count == 0 {
            self
        } else {
            self.after_failed_attempts((count - 1) as nat, now).failed_attempt(now).0
        }
    }
}

/// Putting trades through the tracker changes the count of trades and
/// nothing else of the client state.
pub proof fn lemma_absorb_counts_trades_only(
    integrity: IntegrityModel,
    state: ClientStateModel,
    trades: Seq<TradeModel>,
)
    ensures
        absorb(integrity, state, trades).state == (ClientStateModel {
            trade_count: absorb(integrity, state, trades).state.trade_count,
            ..state
        }),
    decreases trades.len(),
{
    if trades.len() > 0 {
        lemma_absorb_counts_trades_only(integrity, state, trades.drop_last());
    }
}

/// The reconnect count starts over at zero with the step that reaches
/// listening. It goes up by exactly one with every step that enters the
/// failed phase, as long as it has room to count. No other step changes it.
pub proof fn law_reconnect_count(session: SessionModel, input: SessionInputModel, now: u64)
    ensures
        ({
            let next = session.step(input, now).0;
            let before = session.state.reconnect_count;
            let after = next.state.reconnect_count;
            &&& session.enters(next, SessionPhase::Listening) ==> after == 0
            &&& session.enters(next, SessionPhase::Failed) && before < u32::MAX ==> after == before
                + 1
            &&& !session.enters(next, SessionPhase::Listening) && !session.enters(
                next,
                SessionPhase::Failed,
            ) ==> after == before
        }),
{
    if let SessionInputModel::FrameReceived(FrameModel::Text(text)) = input {
        lemma_absorb_counts_trades_only(
            session.integrity.note_message(),
            session.state.record_message(now),
            classified_text(text).trades(),
        );
    }
}

/// With a cap of `max_attempts` above zero, the step that enters the failed
/// phase after `max_attempts` reconnect attempts, or more, decides for giving
/// up, and a failure after fewer decides for another attempt. When the
/// transport is torn down after that, giving up ends the session with the
/// permanent failure, and another attempt leaves it idle and waiting.
pub proof fn law_attempts_are_capped(session: SessionModel, input: SessionInputModel, now: u64)
    requires
        session.config.policy.max_attempts > 0,
    ensures
        ({
            let failed = session.step(input, now).0;
            let (after, output) = failed.step(SessionInputModel::TornDown, now);
            session.enters(failed, SessionPhase::Failed) ==> {
                if session.state.reconnect_count >= session.config.policy.max_attempts {
                    &&& after.finished()
                    &&& output.action == SessionActionModel::Exit {
                        error: Some(HyperliquidErrorModel::MaxReconnectsExceeded),
                    }
                } else {
                    &&& !after.finished()
                    &&& after.phase is Idle
                    &&& output.action == SessionActionModel::Wait {
                        delay_secs: session.config.policy.base_delay_secs,
                    }
                }
            }
        }),
{
}

/// A session that has ended stays ended: it answers every input with the
/// exit, changes nothing, and so never asks for another connect.
pub proof fn law_finished_is_final(session: SessionModel, input: SessionInputModel, now: u64)
    requires
        session.finished(),
    ensures
        session.step(input, now).0 == session,
        session.step(input, now).1.action == (SessionActionModel::Exit {
            error: session.exit_error(),
        }),
        session.step(input, now).1.events == Seq::<ClientEventModel>::empty(),
{
}

/// With a cap of `max_attempts` above zero, an idle session whose reconnect
/// count is at zero survives that many failed attempts in a row, each followed
/// by a wait, and the failure of the next attempt ends it with the permanent
/// failure.
pub proof fn law_permanent_failure_after_cap(session: SessionModel, now: u64)
    requires
        session.config.policy.max_attempts > 0,
        session.phase is Idle,
        !session.finished(),
        session.state.reconnect_count == 0,
    ensures
        ({
            let cap = session.config.policy.max_attempts as nat;
            let last = session.after_failed_attempts(cap, now);
            let end = last.failed_attempt(now);
            &&& !last.finished()
            &&& last.phase is Idle
            &&& end.0.finished()
            &&& end.1.action == SessionActionModel::Exit {
                error: Some(HyperliquidErrorModel::MaxReconnectsExceeded),
            }
        }),
{
    lemma_failed_attempts(session, session.config.policy.max_attempts as nat, now);
}

proof fn lemma_failed_attempts(session: SessionModel, count: nat, now: u64)
    requires
        session.config.policy.max_attempts > 0,
        session.phase is Idle,
        !session.finished(),
        session.state.reconnect_count == 0,
        count <= session.config.policy.max_attempts,
    ensures
        ({
            let after = session.after_failed_attempts(count, now);
            &&& after.config == session.config
            &&& after.phase is Idle
            &&& !after.finished()
            &&& after.state.reconnect_count == count
        }),
    decreases count,
{
    if count > 0 {
        lemma_failed_attempts(session, (count - 1) as nat, now);
    }
}

/// The phases follow one another as the life cycle lays down: from idle to
/// connecting, on to handshaking, subscribing and listening; from any of those
/// four to failed; from failed back to idle; and from any phase to closing,
/// which ends in idle. No step leads anywhere else.
pub open spec fn may_follow(before: SessionPhase, after: SessionPhase) -> bool {
    ||| after == before
    ||| after is Closing
    ||| before is Idle && after is Connecting
    ||| before is Connecting && (after is Handshaking || after is Failed)
    ||| before is Handshaking && (after is Subscribing || after is Failed)
    ||| before is Subscribing && (after is Listening || after is Failed)
    ||| before is Listening && after is Failed
    ||| before is Failed && after is Idle
    ||| before is Closing && after is Idle
}

/// Every step keeps to the life cycle, and keeps the configuration. Only a
/// shutdown leads to closing, and a step enters the failed phase exactly when
/// it reports a failure that leaves the session going.
pub proof fn law_steps_follow_the_life_cycle(
    session: SessionModel,
    input: SessionInputModel,
    now: u64,
)
    ensures
        ({
            let (next, output) = session.step(input, now);
            &&& may_follow(session.phase, next.phase)
            &&& next.config == session.config
            &&& session.enters(next, SessionPhase::Closing) ==> input is Shutdown
            &&& session.enters(next, SessionPhase::Failed) <==> output.failure is Some
                && !next.finished()
        }),
{
}

/// No message ends a session: whatever the text of a frame, a listening
/// session stays listening, reports no failure, and asks for the next
/// frame.
pub proof fn law_messages_never_end_a_session(session: SessionModel, text: Seq<char>, now: u64)
    requires
        !session.finished(),
        session.phase is Listening,
    ensures
        ({
            let (next, output) = session.step(
                SessionInputModel::FrameReceived(FrameModel::Text(text)),
                now,
            );
            &&& next.phase is Listening
            &&& !next.finished()
            &&& output.failure is None
            &&& output.action is ReceiveFrame
            &&& output.events[0] == ClientEventModel::MessageReceived { raw_message: text }
        }),
{
}

/// The tracker outlives the sessions: nothing but a text frame on a
/// listening session touches it, so what it has seen is still there after a
/// failure, a reconnect, or a shutdown.
pub proof fn law_tracker_outlives_sessions(
    session: SessionModel,
    input: SessionInputModel,
    now: u64,
)
    requires
        !(session.phase is Listening && input is FrameReceived && input->FrameReceived_0 is Text),
    ensures
        session.step(input, now).0.integrity == session.integrity,
{
}

/// A shutdown closes the session without asking the reconnect policy: from
/// any phase of a session that has not ended, the shutdown and the teardown
/// that follows it end the session with no failure to surface, and the
/// reconnect count is what it was.
pub proof fn law_shutdown_is_clean(session: SessionModel, now: u64, later: u64)
    requires
        !session.finished(),
    ensures
        ({
            let closing = session.step(SessionInputModel::Shutdown, now).0;
            let (end, output) = closing.step(SessionInputModel::TornDown, later);
            &&& closing.phase is Closing
            &&& end.ended == Some(SessionEnd::Clean)
            &&& output.action == SessionActionModel::Exit { error: None }
            &&& end.state.reconnect_count == session.state.reconnect_count
            &&& end.pending == session.pending
        }),
{
}

/// Silence forces a failure: on a listening session whose last frame came in
/// more than three check intervals ago, the health check alone, with no frame
/// and no error from the transport, brings on the failed transition. Within
/// that time it changes nothing.
pub proof fn law_silence_forces_failure(session: SessionModel, now: u64)
    requires
        !session.finished(),
        session.phase is Listening,
    ensures
        ({
            let (next, output) = session.step(SessionInputModel::HealthTick, now);
            if silence_exceeded(
                session.state.last_message_time,
                now,
                session.config.check_interval_secs,
            ) {
                &&& next.phase is Failed
                &&& output.action is Teardown
                &&& output.failure is Some
                &&& output.failure->0 is HealthCheckFailed
            } else {
                &&& next == session
                &&& output.action is Continue
            }
        }),
{
}

} // verus!
