//! The notifications that the session produces, and the bounded bus that
//! carries them to a consumer in the order in which they were produced.

use crate::types::{Trade, TradeModel};
use std::collections::VecDeque;
use vstd::prelude::*;

verus! {

/// A notification of the client's life cycle, or a record it received.
#[derive(Debug, Clone, PartialEq, Eq)]
pub enum ClientEvent {
    Starting,
    Connecting { url: String },
    Connected { connection_id: String },
    SubscriptionSent { message: String },
    SubscriptionConfirmed { sub_type: String, coin: String },
    TradeReceived(Trade),
    MessageReceived { raw_message: String },
    ConnectionFailed(String),
    Reconnecting { attempt: u32, delay_secs: u64 },
    HealthCheckFailed { reason: String },
    Disconnected,
    Stopping,
}

/// The mathematical model of a [`ClientEvent`].
pub enum ClientEventModel {
    Starting,
    Connecting { url: Seq<char> },
    Connected { connection_id: Seq<char> },
    SubscriptionSent { message: Seq<char> },
    SubscriptionConfirmed { sub_type: Seq<char>, coin: Seq<char> },
    TradeReceived(TradeModel),
    MessageReceived { raw_message: Seq<char> },
    ConnectionFailed(Seq<char>),
    Reconnecting { attempt: u32, delay_secs: u64 },
    HealthCheckFailed { reason: Seq<char> },
    Disconnected,
    Stopping,
}

impl DeepView for ClientEvent {
    type V = ClientEventModel;

    open spec fn deep_view(&self) -> ClientEventModel {
        match self {
            ClientEvent::Starting => ClientEventModel::Starting,
            ClientEvent::Connecting { url } => ClientEventModel::Connecting { url: url@ },
            ClientEvent::Connected { connection_id } => ClientEventModel::Connected {
                connection_id: connection_id@,
            },
            ClientEvent::SubscriptionSent { message } => ClientEventModel::SubscriptionSent {
                message: message@,
            },
            ClientEvent::SubscriptionConfirmed { sub_type, coin } => {
                ClientEventModel::SubscriptionConfirmed { sub_type: sub_type@, coin: coin@ }
            },
            ClientEvent::TradeReceived(trade) => ClientEventModel::TradeReceived(
                trade.deep_view(),
            ),
            ClientEvent::MessageReceived { raw_message } => ClientEventModel::MessageReceived {
                raw_message: raw_message@,
            },
            ClientEvent::ConnectionFailed(reason) => ClientEventModel::ConnectionFailed(reason@),
            ClientEvent::Reconnecting { attempt, delay_secs } => ClientEventModel::Reconnecting {
                attempt: *attempt,
                delay_secs: *delay_secs,
            },
            ClientEvent::HealthCheckFailed { reason } => ClientEventModel::HealthCheckFailed {
                reason: reason@,
            },
            ClientEvent::Disconnected => ClientEventModel::Disconnected,
            ClientEvent::Stopping => ClientEventModel::Stopping,
        }
    }
}

/// The mathematical model of an [`EventBus`]: the events sent and not yet
/// received, oldest first, and the most it holds.
pub struct BusModel {
    pub pending: Seq<ClientEventModel>,
    pub capacity: nat,
}

impl BusModel {
    pub open spec fn is_full(self) -> bool {
        self.pending.len() >= self.capacity
    }

    /// The bus after an attempt to send `event`: unchanged where it is full,
    /// else with `event` behind all that is pending.
    pub open spec fn send(self, event: ClientEventModel) -> BusModel {
        if self.is_full() {
            self
        } else {
            BusModel { pending: self.pending.push(event), ..self }
        }
    }

    /// The event that the next receive hands out: the oldest one pending.
    pub open spec fn front(self) -> Option<ClientEventModel> {
        if self.pending.len() > 0 {
            Some(self.pending[0])
        } else {
            None
        }
    }

    /// The bus after a receive.
    pub open spec fn receive(self) -> BusModel {
        if self.pending.len() > 0 {
            BusModel { pending: self.pending.drop_first(), ..self }
        } else {
            self
        }
    }
}

/// A bounded queue of events between the session and one consumer.
pub struct EventBus {
    queue: VecDeque<ClientEvent>,
    capacity: usize,
}

impl EventBus {
    #[verifier::type_invariant]
    spec fn within_capacity(self) -> bool {
        self.queue@.len() <= self.capacity
    }

    pub closed spec fn view(&self) -> BusModel {
        BusModel {
            pending: Seq::new(self.queue@.len(), |i: int| self.queue@[i].deep_view()),
            capacity: self.capacity as nat,
        }
    }

    /// An empty bus that holds at most `capacity` events.
    pub fn new(capacity: usize) -> (bus: Self)
        ensures
            bus@.pending == Seq::<ClientEventModel>::empty(),
            bus@.capacity == capacity,
    {
        let bus = EventBus { queue: VecDeque::new(), capacity };
        assert(bus@.pending =~= Seq::<ClientEventModel>::empty());
        bus
    }

    pub fn capacity(&self) -> (capacity: usize)
        ensures
            capacity == self@.capacity,
    {
        self.capacity
    }

    /// How many events wait to be received.
    pub fn len(&self) -> (len: usize)
        ensures
            len == self@.pending.len(),
            len <= self@.capacity,
    {
        proof {
            use_type_invariant(self);
        }
        self.queue.len()
    }

    pub fn is_empty(&self) -> (empty: bool)
        ensures
            empty == (self@.pending.len() == 0),
    {
        self.queue.len() == 0
    }

    pub fn is_full(&self) -> (full: bool)
        ensures
            full == self@.is_full(),
    {
        self.queue.len() >= self.capacity
    }

    /// Puts `event` behind all pending events. A full bus takes nothing:
    /// it stays as it is and hands the event back, for the producer to offer
    /// again once the consumer has made room.
    pub fn try_send(&mut self, event: ClientEvent) -> (outcome: Result<(), ClientEvent>)
        ensures
            final(self)@ == old(self)@.send(event.deep_view()),
            match outcome {
                Ok(_) => !old(self)@.is_full(),
                Err(back) => old(self)@.is_full() && back == event,
            },
    {
        if self.queue.len() >= self.capacity {
            Err(event)
        } else {
            let mut queue: VecDeque<ClientEvent> = VecDeque::new();
            std::mem::swap(&mut self.queue, &mut queue);
            queue.push_back(event);
            std::mem::swap(&mut self.queue, &mut queue);
            assert(self@.pending =~= old(self)@.pending.push(event.deep_view()));
            Ok(())
        }
    }

    /// Takes the oldest pending event; `None` from an empty bus.
    pub fn recv(&mut self) -> (event: Option<ClientEvent>)
        ensures
            event.deep_view() == old(self)@.front(),
            final(self)@ == old(self)@.receive(),
    {
        proof {
            use_type_invariant(&*self);
        }
        let mut queue: VecDeque<ClientEvent> = VecDeque::new();
        std::mem::swap(&mut self.queue, &mut queue);
        let event = queue.pop_front();
        std::mem::swap(&mut self.queue, &mut queue);
        proof {
            if event is Some {
                assert(self@.pending =~= old(self)@.pending.drop_first());
            } else {
                assert(self@.pending =~= old(self)@.pending);
            }
        }
        event
    }
}

/// A new event bus of the given capacity.
pub fn create_event_channel(capacity: usize) -> (bus: EventBus)
    ensures
        bus@.pending == Seq::<ClientEventModel>::empty(),
        bus@.capacity == capacity,
{
    EventBus::new(capacity)
}

/// One use of the bus: the producer offers an event, or the consumer
/// asks for one.
pub enum BusOp {
    Send(ClientEventModel),
    Receive,
}

/// What has happened on a bus: the events it took, in the order in which they
/// were offered, those it handed out, in the order in which it did, and the
/// bus as it stands.
pub struct BusHistory {
    pub bus: BusModel,
    pub accepted: Seq<ClientEventModel>,
    pub delivered: Seq<ClientEventModel>,
}

/// The history of a bus of the given capacity that starts empty and is used
/// as `ops` says, one after the other.
pub open spec fn bus_history(capacity: nat, ops: Seq<BusOp>) -> BusHistory
    decreases ops.len(),
{
    if ops.len() == 0 {
        BusHistory {
            bus: BusModel { pending: Seq::empty(), capacity },
            accepted: Seq::empty(),
            delivered: Seq::empty(),
        }
    } else {
        let before = bus_history(capacity, ops.drop_last());
        match ops.last() {
            BusOp::Send(event) => BusHistory {
                bus: before.bus.send(event),
                accepted: if before.bus.is_full() {
                    before.accepted
                } else {
                    before.accepted.push(event)
                },
                delivered: before.delivered,
            },
            BusOp::Receive => BusHistory {
                bus: before.bus.receive(),
                accepted: before.accepted,
                delivered: match before.bus.front() {
                    Some(event) => before.delivered.push(event),
                    None => before.delivered,
                },
            },
        }
    }
}

/// First in, first out, and nothing lost: however a bus is used, the events
/// it has handed out, followed by those still pending, are exactly the events
/// it took, in the order in which the producer offered them. The bus never
/// holds more than its capacity, and an offer that it refuses leaves it as it
/// was.
pub proof fn law_bus_keeps_order(capacity: nat, ops: Seq<BusOp>)
    ensures
        bus_history(capacity, ops).delivered + bus_history(capacity, ops).bus.pending
            == bus_history(capacity, ops).accepted,
        bus_history(capacity, ops).bus.pending.len() <= capacity,
        bus_history(capacity, ops).bus.capacity == capacity,
    decreases ops.len(),
{
    let now = bus_history(capacity, ops);
    if ops.len() == 0 {
        assert(now.delivered + now.bus.pending =~= now.accepted);
    } else {
        law_bus_keeps_order(capacity, ops.drop_last());
        let before = bus_history(capacity, ops.drop_last());
        assert(now.delivered + now.bus.pending =~= now.accepted);
    }
}

} // verus!
