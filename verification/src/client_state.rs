//! What the client keeps about the session in progress and across sessions.

use vstd::prelude::*;

verus! {

/// One more, up to the largest value.
pub open spec fn bumped_u32(count: u32) -> u32 {
    if count < u32::MAX {
        (count + 1) as u32
    } else {
        count
    }
}

/// One more, up to the largest value.
pub open spec fn bumped_u64(count: u64) -> u64 {
    if count < u64::MAX {
        (count + 1) as u64
    } else {
        count
    }
}

/// The session in progress and the counters that outlive it. Times are
/// milliseconds on the caller's clock.
#[derive(Debug, Clone, PartialEq, Eq)]
pub struct ClientState {
    /// The identifier of the current session, made anew for each one.
    pub connection_id: String,
    /// The reconnect attempts since a session last reached listening.
    pub reconnect_count: u32,
    /// When the last frame of the current session came in.
    pub last_message_time: Option<u64>,
    /// When a session last ended or failed.
    pub last_disconnect_time: Option<u64>,
    pub trade_count: u64,
    pub is_connected: bool,
    pub total_messages_received: u64,
}

/// The mathematical model of a [`ClientState`].
pub struct ClientStateModel {
    pub connection_id: Seq<char>,
    pub reconnect_count: u32,
    pub last_message_time: Option<u64>,
    pub last_disconnect_time: Option<u64>,
    pub trade_count: u64,
    pub is_connected: bool,
    pub total_messages_received: u64,
}

impl DeepView for ClientState {
    type V = ClientStateModel;

    open spec fn deep_view(&self) -> ClientStateModel {
        ClientStateModel {
            connection_id: self.connection_id@,
            reconnect_count: self.reconnect_count,
            last_message_time: self.last_message_time,
            last_disconnect_time: self.last_disconnect_time,
            trade_count: self.trade_count,
            is_connected: self.is_connected,
            total_messages_received: self.total_messages_received,
        }
    }
}

impl ClientStateModel {
    /// The state before any session, under the given identifier.
    pub open spec fn initial(connection_id: Seq<char>) -> ClientStateModel {
        ClientStateModel {
            connection_id,
            reconnect_count: 0,
            last_message_time: None,
            last_disconnect_time: None,
            trade_count: 0,
            is_connected: false,
            total_messages_received: 0,
        }
    }

    /// A new session begins: a new identifier, connected, and the silence
    /// measured from `now`. The counters stay.
    pub open spec fn reset_connection(
        self,
        connection_id: Seq<char>,
        now: u64,
    ) -> ClientStateModel {
        ClientStateModel {
            connection_id,
            last_message_time: Some(now),
            is_connected: true,
            ..self
        }
    }

    /// The session has reached listening: the reconnect count starts over.
    pub open spec fn mark_listening(self) -> ClientStateModel {
        ClientStateModel { reconnect_count: 0, ..self }
    }

    /// The session has failed: one more on the reconnect count, and the session
    /// is gone.
    pub open spec fn increment_reconnect(self, now: u64) -> ClientStateModel {
        ClientStateModel {
            reconnect_count: bumped_u32(self.reconnect_count),
            is_connected: false,
            last_disconnect_time: Some(now),
            ..self
        }
    }

    /// A text message came in.
    pub open spec fn record_message(self, now: u64) -> ClientStateModel {
        ClientStateModel {
            last_message_time: Some(now),
            total_messages_received: bumped_u64(self.total_messages_received),
            ..self
        }
    }

    /// A frame that is no text message came in: the silence ends, nothing
    /// is counted.
    pub open spec fn record_frame(self, now: u64) -> ClientStateModel {
        ClientStateModel { last_message_time: Some(now), ..self }
    }

    /// A trade was accepted.
    pub open spec fn record_trade(self) -> ClientStateModel {
        ClientStateModel { trade_count: bumped_u64(self.trade_count), ..self }
    }

    /// The session was closed.
    pub open spec fn disconnect(self, now: u64) -> ClientStateModel {
        ClientStateModel { is_connected: false, last_disconnect_time: Some(now), ..self }
    }
}

/// A hexadecimal digit in lower case.
pub open spec fn is_lower_hex(c: char) -> bool {
    ('0' <= c && c <= '9') || ('a' <= c && c <= 'f')
}

/// The text of a UUID in its usual form: 36 characters, hexadecimal digits in
/// lower case in groups of 8, 4, 4, 4 and 12, with a hyphen between the
/// groups.
pub open spec fn is_uuid_text(text: Seq<char>) -> bool {
    &&& text.len() == 36
    &&& forall|i: int|
        #![trigger text[i]]
        0 <= i < 36 ==> if i == 8 || i == 13 || i == 18 || i == 23 {
            text[i] == '-'
        } else {
            is_lower_hex(text[i])
        }
}

/// Calls `uuid::Uuid::new_v4` and writes the identifier out through its
/// `Display`, which gives the hyphenated form in lower case. The identifier
/// is random: only its form is promised.
#[verifier::external_body]
pub(crate) fn fresh_connection_id() -> (id: String)
    ensures
        is_uuid_text(id@),
{
    uuid::Uuid::new_v4().to_string()
}

impl ClientState {
    /// The state before any session, under a fresh identifier: a random
    /// UUID, written as text.
    pub fn new() -> (state: Self)
        ensures
            is_uuid_text(state.connection_id@),
            state.deep_view() == ClientStateModel::initial(state.connection_id@),
    {
        Self::with_connection_id(fresh_connection_id())
    }

    /// The state before any session, under the given identifier.
    pub fn with_connection_id(connection_id: String) -> (state: Self)
        ensures
            state.deep_view() == ClientStateModel::initial(connection_id@),
    {
        ClientState {
            connection_id,
            reconnect_count: 0,
            last_message_time: None,
            last_disconnect_time: None,
            trade_count: 0,
            is_connected: false,
            total_messages_received: 0,
        }
    }

    /// Begins a session under a fresh identifier: a random UUID, written as
    /// text.
    pub fn reset_connection(&mut self, now: u64)
        ensures
            is_uuid_text(final(self).connection_id@),
            final(self).deep_view() == old(self).deep_view().reset_connection(
                final(self).connection_id@,
                now,
            ),
    {
        self.reset_connection_as(fresh_connection_id(), now);
    }

    /// Begins a session under the given identifier.
    pub fn reset_connection_as(&mut self, connection_id: String, now: u64)
        ensures
            final(self).deep_view() == old(self).deep_view().reset_connection(connection_id@, now),
    {
        self.connection_id = connection_id;
        self.last_message_time = Some(now);
        self.is_connected = true;
    }

    pub fn mark_listening(&mut self)
        ensures
            final(self).deep_view() == old(self).deep_view().mark_listening(),
    {
        self.reconnect_count = 0;
    }

    pub fn increment_reconnect(&mut self, now: u64)
        ensures
            final(self).deep_view() == old(self).deep_view().increment_reconnect(now),
    {
        self.reconnect_count = self.reconnect_count.saturating_add(1);
        self.is_connected = false;
        self.last_disconnect_time = Some(now);
    }

    pub fn record_message(&mut self, now: u64)
        ensures
            final(self).deep_view() == old(self).deep_view().record_message(now),
    {
        self.last_message_time = Some(now);
        self.total_messages_received = self.total_messages_received.saturating_add(1);
    }

    pub fn record_frame(&mut self, now: u64)
        ensures
            final(self).deep_view() == old(self).deep_view().record_frame(now),
    {
        self.last_message_time = Some(now);
    }

    pub fn record_trade(&mut self)
        ensures
            final(self).deep_view() == old(self).deep_view().record_trade(),
    {
        self.trade_count = self.trade_count.saturating_add(1);
    }

    pub fn disconnect(&mut self, now: u64)
        ensures
            final(self).deep_view() == old(self).deep_view().disconnect(now),
    {
        self.is_connected = false;
        self.last_disconnect_time = Some(now);
    }
}

} // verus!
