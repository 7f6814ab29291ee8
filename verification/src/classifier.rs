//! The message classifier: from a text payload to one of the known message
//! shapes, or to the finding that it has none of them.
//!
//! The shapes are tried in a fixed order. First the enveloped ones, each an
//! object with a channel and a payload of one kind: acknowledgement, trades,
//! order book, best bid and offer, mid prices, candles, user event,
//! notification. After those the fallbacks: a bare array of trades, a bare
//! array of candles, and last any object that names its channel, read by that
//! name alone.

use crate::decode::{list_member, list_of, text_member, FromJson, decode_list, get_list, get_text};
use crate::events::{ClientEvent, ClientEventModel};
use crate::json::{json_document, parse_json, JsonModel, JsonValue};
use crate::text::str_eq;
use crate::types::{
    AllMidsDataMessage, BboDataMessage, BookDataMessage, Candle, CandleDataMessage, Channel,
    ChannelModel, NotificationMessage, SubscriptionResponse, Trade, TradeDataMessage,
    TradeDataMessageModel, TradeModel, UserEventMessage, WebSocketMessage, WebSocketMessageModel,
};
use vstd::prelude::*;

verus! {

/// What the classifier makes of one payload.
#[derive(Debug, PartialEq, Eq)]
pub enum Classified {
    /// The payload has this known shape.
    Known(WebSocketMessage),
    /// The payload names the acknowledgement channel, and its payload is not
    /// the echo of a request.
    Acknowledged,
    /// The payload has none of the known shapes, or is no JSON at all.
    Unparsed,
}

/// The mathematical model of a [`Classified`].
pub enum ClassifiedModel {
    Known(WebSocketMessageModel),
    Acknowledged,
    Unparsed,
}

impl DeepView for Classified {
    type V = ClassifiedModel;

    open spec fn deep_view(&self) -> ClassifiedModel {
        match self {
            Classified::Known(message) => ClassifiedModel::Known(message.deep_view()),
            Classified::Acknowledged => ClassifiedModel::Acknowledged,
            Classified::Unparsed => ClassifiedModel::Unparsed,
        }
    }
}

/// The first enveloped shape that `doc` has.
pub open spec fn envelope_of(doc: JsonModel) -> Option<WebSocketMessageModel> {
    if SubscriptionResponse::of(doc) is Some {
        Some(WebSocketMessageModel::SubscriptionResponse(SubscriptionResponse::of(doc)->0))
    } else if TradeDataMessage::of(doc) is Some {
        Some(WebSocketMessageModel::TradeData(TradeDataMessage::of(doc)->0))
    } else if BookDataMessage::of(doc) is Some {
        Some(WebSocketMessageModel::BookData(BookDataMessage::of(doc)->0))
    } else if BboDataMessage::of(doc) is Some {
        Some(WebSocketMessageModel::BboData(BboDataMessage::of(doc)->0))
    } else if AllMidsDataMessage::of(doc) is Some {
        Some(WebSocketMessageModel::AllMidsData(AllMidsDataMessage::of(doc)->0))
    } else if CandleDataMessage::of(doc) is Some {
        Some(WebSocketMessageModel::CandleData(CandleDataMessage::of(doc)->0))
    } else if UserEventMessage::of(doc) is Some {
        Some(WebSocketMessageModel::UserEvent(UserEventMessage::of(doc)->0))
    } else if NotificationMessage::of(doc) is Some {
        Some(WebSocketMessageModel::Notification(NotificationMessage::of(doc)->0))
    } else {
        None
    }
}

/// What the channel name alone says of an object that has no enveloped shape
/// and is no bare array: an acknowledgement on the acknowledgement channel;
/// on the trades channel the trades of the payload, if it holds any; on any
/// other channel a document that is recognised and passed over.
pub open spec fn by_channel(doc: JsonModel, channel: Seq<char>) -> ClassifiedModel {
    if channel == "subscriptionResponse"@ {
        ClassifiedModel::Acknowledged
    } else if channel == "trades"@ {
        match list_member::<Trade>(doc, "data"@) {
            Some(trades) => ClassifiedModel::Known(
                WebSocketMessageModel::TradeData(TradeDataMessageModel { channel, data: trades }),
            ),
            None => ClassifiedModel::Unparsed,
        }
    } else {
        ClassifiedModel::Known(WebSocketMessageModel::Ping(ChannelModel { channel }))
    }
}

/// What a document that has no enveloped shape is taken for.
pub open spec fn fallback_of(doc: JsonModel) -> ClassifiedModel {
    if list_of::<Trade>(doc) is Some {
        ClassifiedModel::Known(WebSocketMessageModel::DirectTrades(list_of::<Trade>(doc)->0))
    } else if list_of::<Candle>(doc) is Some {
        ClassifiedModel::Known(WebSocketMessageModel::DirectCandles(list_of::<Candle>(doc)->0))
    } else {
        match text_member(doc, "channel"@) {
            Some(channel) => by_channel(doc, channel),
            None => ClassifiedModel::Unparsed,
        }
    }
}

/// The classification of a JSON document.
pub open spec fn classified_document(doc: JsonModel) -> ClassifiedModel {
    match envelope_of(doc) {
        Some(message) => ClassifiedModel::Known(message),
        None => fallback_of(doc),
    }
}

/// The classification of what the JSON parser made of a payload.
pub open spec fn classified_parsed(parsed: Option<JsonModel>) -> ClassifiedModel {
    match parsed {
        Some(doc) => classified_document(doc),
        None => ClassifiedModel::Unparsed,
    }
}

/// The classification of a text payload.
pub open spec fn classified_text(text: Seq<char>) -> ClassifiedModel {
    classified_parsed(json_document(text))
}

impl ClassifiedModel {
    /// The trades that the payload carries, in its order.
    pub open spec fn trades(self) -> Seq<TradeModel> {
        match self {
            ClassifiedModel::Known(WebSocketMessageModel::TradeData(message)) => message.data,
            ClassifiedModel::Known(WebSocketMessageModel::DirectTrades(trades)) => trades,
            _ => Seq::empty(),
        }
    }

    /// The life-cycle notifications that the payload gives rise to, for a
    /// client subscribed to `coin`: a confirmation of the subscription for an
    /// acknowledgement, with the channel and symbol that the server echoes or,
    /// where it echoes none, with `trades` and `coin`.
    pub open spec fn notifications(self, coin: Seq<char>) -> Seq<ClientEventModel> {
        match self {
            ClassifiedModel::Known(WebSocketMessageModel::SubscriptionResponse(response)) => seq![
                ClientEventModel::SubscriptionConfirmed {
                    sub_type: response.data.subscription.subscription_type,
                    coin: response.data.subscription.coin,
                },
            ],
            ClassifiedModel::Acknowledged => seq![
                ClientEventModel::SubscriptionConfirmed { sub_type: "trades"@, coin },
            ],
            _ => Seq::empty(),
        }
    }
}

/// Reads the first enveloped shape that `doc` has.
pub fn decode_envelope(doc: &JsonValue) -> (message: Option<WebSocketMessage>)
    ensures
        message.deep_view() == envelope_of(doc.deep_view()),
{
    if let Some(m) = SubscriptionResponse::decode(doc) {
        return Some(WebSocketMessage::SubscriptionResponse(m));
    }
    if let Some(m) = TradeDataMessage::decode(doc) {
        return Some(WebSocketMessage::TradeData(m));
    }
    if let Some(m) = BookDataMessage::decode(doc) {
        return Some(WebSocketMessage::BookData(m));
    }
    if let Some(m) = BboDataMessage::decode(doc) {
        return Some(WebSocketMessage::BboData(m));
    }
    if let Some(m) = AllMidsDataMessage::decode(doc) {
        return Some(WebSocketMessage::AllMidsData(m));
    }
    if let Some(m) = CandleDataMessage::decode(doc) {
        return Some(WebSocketMessage::CandleData(m));
    }
    if let Some(m) = UserEventMessage::decode(doc) {
        return Some(WebSocketMessage::UserEvent(m));
    }
    if let Some(m) = NotificationMessage::decode(doc) {
        return Some(WebSocketMessage::Notification(m));
    }
    None
}

/// Classifies a document that has no enveloped shape.
pub fn classify_fallback(doc: &JsonValue) -> (classified: Classified)
    ensures
        classified.deep_view() == fallback_of(doc.deep_view()),
{
    if let Some(trades) = decode_list::<Trade>(doc) {
        return Classified::Known(WebSocketMessage::DirectTrades(trades));
    }
    if let Some(candles) = decode_list::<Candle>(doc) {
        return Classified::Known(WebSocketMessage::DirectCandles(candles));
    }
    match get_text(doc, "channel") {
        Some(channel) => {
            if str_eq(channel.as_str(), "subscriptionResponse") {
                Classified::Acknowledged
            } else if str_eq(channel.as_str(), "trades") {
                match get_list::<Trade>(doc, "data") {
                    Some(data) => Classified::Known(
                        WebSocketMessage::TradeData(TradeDataMessage { channel, data }),
                    ),
                    None => Classified::Unparsed,
                }
            } else {
                Classified::Known(WebSocketMessage::Ping(Channel { channel }))
            }
        },
        None => Classified::Unparsed,
    }
}

/// Classifies a JSON document.
pub fn classify_document(doc: &JsonValue) -> (classified: Classified)
    ensures
        classified.deep_view() == classified_document(doc.deep_view()),
{
    match decode_envelope(doc) {
        Some(message) => Classified::Known(message),
        None => classify_fallback(doc),
    }
}

/// Classifies what the JSON parser made of a payload: `None` stands for a
/// payload that is no JSON.
pub fn classify_parsed(parsed: &Option<JsonValue>) -> (classified: Classified)
    ensures
        classified.deep_view() == classified_parsed(parsed.deep_view()),
{
    match parsed {
        Some(doc) => classify_document(doc),
        None => Classified::Unparsed,
    }
}

/// Classifies a text payload.
pub fn classify(text: &str) -> (classified: Classified)
    ensures
        classified.deep_view() == classified_text(text@),
{
    let parsed = parse_json(text);
    classify_parsed(&parsed)
}

impl Classified {
    /// Whether the payload had none of the known shapes.
    pub fn is_unparsed(&self) -> (unparsed: bool)
        ensures
            unparsed == (self.deep_view() is Unparsed),
    {
        match self {
            Classified::Unparsed => true,
            _ => false,
        }
    }

    /// Splits the classification into the trades it carries and the
    /// notifications it gives rise to, for a client subscribed to `coin`.
    pub fn into_parts(self, coin: &str) -> (parts: (Vec<Trade>, Vec<ClientEvent>))
        ensures
            parts.0.deep_view() == self.deep_view().trades(),
            parts.1.deep_view() == self.deep_view().notifications(coin@),
    {
        let mut notes: Vec<ClientEvent> = Vec::new();
        let trades: Vec<Trade> = match self {
            Classified::Known(WebSocketMessage::TradeData(message)) => message.data,
            Classified::Known(WebSocketMessage::DirectTrades(trades)) => trades,
            Classified::Known(WebSocketMessage::SubscriptionResponse(response)) => {
                notes.push(
                    ClientEvent::SubscriptionConfirmed {
                        sub_type: response.data.subscription.subscription_type,
                        coin: response.data.subscription.coin,
                    },
                );
                Vec::new()
            },
            Classified::Acknowledged => {
                notes.push(
                    ClientEvent::SubscriptionConfirmed {
                        sub_type: "trades".to_owned(),
                        coin: coin.to_owned(),
                    },
                );
                Vec::new()
            },
            _ => Vec::new(),
        };
        assert(trades.deep_view() =~= self.deep_view().trades());
        assert(notes.deep_view() =~= self.deep_view().notifications(coin@));
        (trades, notes)
    }
}

/// Classifier-path equivalence: an array of trades yields the same trades,
/// in the same order, whether it arrives bare or as the payload of an
/// envelope that names a channel.
pub proof fn law_trade_paths_agree(trades: JsonModel, envelope: JsonModel)
    requires
        list_of::<Trade>(trades) is Some,
        text_member(envelope, "channel"@) is Some,
        envelope.member("data"@) == Some(trades),
    ensures
        classified_document(trades).trades() == list_of::<Trade>(trades)->0,
        classified_document(envelope).trades() == list_of::<Trade>(trades)->0,
{
    assert(trades is Array);
    assert(envelope_of(trades) is None);
    assert(SubscriptionResponse::of(envelope) is None);
    assert(TradeDataMessage::of(envelope) is Some);
}

} // verus!
