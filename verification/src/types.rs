//! The records that travel on the wire, each with its mathematical model.

use crate::decimal::{Decimal, Notional};
use crate::json::{json_quoted, quote_json_string, JsonNumber, NumberModel};
use crate::text::{matches_ascii_word, same_ignoring_ascii_case};
use vstd::prelude::*;
use vstd::string::*;

verus! {

/// One channel and the symbol, or the user, that it is asked for.
#[derive(Debug, Clone, PartialEq, Eq)]
pub struct Subscription {
    /// The channel: `trades`, `l2Book`, `bbo` and so on.
    pub subscription_type: String,
    pub coin: String,
}

/// The mathematical model of a [`Subscription`].
pub struct SubscriptionModel {
    pub subscription_type: Seq<char>,
    pub coin: Seq<char>,
}

impl DeepView for Subscription {
    type V = SubscriptionModel;

    open spec fn deep_view(&self) -> SubscriptionModel {
        SubscriptionModel {
            subscription_type: self.subscription_type@,
            coin: self.coin@,
        }
    }
}

/// The request that an acknowledgement echoes.
#[derive(Debug, Clone, PartialEq, Eq)]
pub struct SubscriptionResponseData {
    pub method: String,
    pub subscription: Subscription,
}

/// The mathematical model of a [`SubscriptionResponseData`].
pub struct SubscriptionResponseDataModel {
    pub method: Seq<char>,
    pub subscription: SubscriptionModel,
}

impl DeepView for SubscriptionResponseData {
    type V = SubscriptionResponseDataModel;

    open spec fn deep_view(&self) -> SubscriptionResponseDataModel {
        SubscriptionResponseDataModel {
            method: self.method@,
            subscription: self.subscription.deep_view(),
        }
    }
}

/// The server's acknowledgement of a subscription.
#[derive(Debug, Clone, PartialEq, Eq)]
pub struct SubscriptionResponse {
    pub channel: String,
    pub data: SubscriptionResponseData,
}

/// The mathematical model of a [`SubscriptionResponse`].
pub struct SubscriptionResponseModel {
    pub channel: Seq<char>,
    pub data: SubscriptionResponseDataModel,
}

impl DeepView for SubscriptionResponse {
    type V = SubscriptionResponseModel;

    open spec fn deep_view(&self) -> SubscriptionResponseModel {
        SubscriptionResponseModel {
            channel: self.channel@,
            data: self.data.deep_view(),
        }
    }
}

/// One executed trade.
#[derive(Debug, Clone, PartialEq, Eq)]
pub struct Trade {
    /// The traded symbol.
    pub coin: String,
    /// The side as the server names it; see [`Trade::is_buy`].
    pub side: String,
    /// The price.
    pub px: Decimal,
    /// The size.
    pub sz: Decimal,
    /// The server's timestamp, in milliseconds since the Unix epoch.
    pub time: i64,
    /// The content hash of the trade.
    pub hash: String,
    /// The identifier of the trade.
    pub tid: i64,
    /// The counterparties, buyer first: none, one or two of them.
    pub users: Vec<String>,
}

/// The mathematical model of a [`Trade`].
pub struct TradeModel {
    pub coin: Seq<char>,
    pub side: Seq<char>,
    pub px: Decimal,
    pub sz: Decimal,
    pub time: i64,
    pub hash: Seq<char>,
    pub tid: i64,
    pub users: Seq<Seq<char>>,
}

impl DeepView for Trade {
    type V = TradeModel;

    open spec fn deep_view(&self) -> TradeModel {
        TradeModel {
            coin: self.coin@,
            side: self.side@,
            px: self.px,
            sz: self.sz,
            time: self.time,
            hash: self.hash@,
            tid: self.tid,
            users: self.users.deep_view(),
        }
    }
}

/// A batch of trades on a channel.
#[derive(Debug, Clone, PartialEq, Eq)]
pub struct TradeDataMessage {
    pub channel: String,
    pub data: Vec<Trade>,
}

/// The mathematical model of a [`TradeDataMessage`].
pub struct TradeDataMessageModel {
    pub channel: Seq<char>,
    pub data: Seq<TradeModel>,
}

impl DeepView for TradeDataMessage {
    type V = TradeDataMessageModel;

    open spec fn deep_view(&self) -> TradeDataMessageModel {
        TradeDataMessageModel {
            channel: self.channel@,
            data: self.data.deep_view(),
        }
    }
}

/// One price level of an order book.
#[derive(Debug, Clone, PartialEq, Eq)]
pub struct Level {
    /// The price.
    pub px: Decimal,
    /// The size resting at that price.
    pub sz: Decimal,
    /// The number of orders.
    pub n: i32,
}

/// The mathematical model of a [`Level`].
pub struct LevelModel {
    pub px: Decimal,
    pub sz: Decimal,
    pub n: i32,
}

impl DeepView for Level {
    type V = LevelModel;

    open spec fn deep_view(&self) -> LevelModel {
        LevelModel {
            px: self.px,
            sz: self.sz,
            n: self.n,
        }
    }
}

/// A snapshot of an order book.
#[derive(Debug, PartialEq, Eq)]
pub struct Book {
    pub coin: String,
    /// The bids, then the asks.
    pub levels: (Vec<Level>, Vec<Level>),
    pub time: i64,
}

/// The mathematical model of a [`Book`].
pub struct BookModel {
    pub coin: Seq<char>,
    pub levels: (Seq<LevelModel>, Seq<LevelModel>),
    pub time: i64,
}

impl DeepView for Book {
    type V = BookModel;

    open spec fn deep_view(&self) -> BookModel {
        BookModel {
            coin: self.coin@,
            levels: self.levels.deep_view(),
            time: self.time,
        }
    }
}

/// An order book snapshot on a channel.
#[derive(Debug, PartialEq, Eq)]
pub struct BookDataMessage {
    pub channel: String,
    pub data: Book,
}

/// The mathematical model of a [`BookDataMessage`].
pub struct BookDataMessageModel {
    pub channel: Seq<char>,
    pub data: BookModel,
}

impl DeepView for BookDataMessage {
    type V = BookDataMessageModel;

    open spec fn deep_view(&self) -> BookDataMessageModel {
        BookDataMessageModel {
            channel: self.channel@,
            data: self.data.deep_view(),
        }
    }
}

/// The best bid and the best offer.
#[derive(Debug, PartialEq, Eq)]
pub struct Bbo {
    pub coin: String,
    pub time: i64,
    /// The best bid, then the best ask; either may be absent.
    pub bbo: (Option<Level>, Option<Level>),
}

/// The mathematical model of a [`Bbo`].
pub struct BboModel {
    pub coin: Seq<char>,
    pub time: i64,
    pub bbo: (Option<LevelModel>, Option<LevelModel>),
}

impl DeepView for Bbo {
    type V = BboModel;

    open spec fn deep_view(&self) -> BboModel {
        BboModel {
            coin: self.coin@,
            time: self.time,
            bbo: self.bbo.deep_view(),
        }
    }
}

/// A best bid and offer on a channel.
#[derive(Debug, PartialEq, Eq)]
pub struct BboDataMessage {
    pub channel: String,
    pub data: Bbo,
}

/// The mathematical model of a [`BboDataMessage`].
pub struct BboDataMessageModel {
    pub channel: Seq<char>,
    pub data: BboModel,
}

impl DeepView for BboDataMessage {
    type V = BboDataMessageModel;

    open spec fn deep_view(&self) -> BboDataMessageModel {
        BboDataMessageModel {
            channel: self.channel@,
            data: self.data.deep_view(),
        }
    }
}

/// The mid price of every symbol.
#[derive(Debug, Clone, PartialEq, Eq)]
pub struct AllMids {
    /// Each symbol with its mid price as decimal text, in the order of the document.
    pub mids: Vec<(String, String)>,
}

/// The mathematical model of a [`AllMids`].
pub struct AllMidsModel {
    pub mids: Seq<(Seq<char>, Seq<char>)>,
}

impl DeepView for AllMids {
    type V = AllMidsModel;

    open spec fn deep_view(&self) -> AllMidsModel {
        AllMidsModel {
            mids: self.mids.deep_view(),
        }
    }
}

/// The mid prices on a channel.
#[derive(Debug, Clone, PartialEq, Eq)]
pub struct AllMidsDataMessage {
    pub channel: String,
    pub data: AllMids,
}

/// The mathematical model of a [`AllMidsDataMessage`].
pub struct AllMidsDataMessageModel {
    pub channel: Seq<char>,
    pub data: AllMidsModel,
}

impl DeepView for AllMidsDataMessage {
    type V = AllMidsDataMessageModel;

    open spec fn deep_view(&self) -> AllMidsDataMessageModel {
        AllMidsDataMessageModel {
            channel: self.channel@,
            data: self.data.deep_view(),
        }
    }
}

/// One candle. Prices and volume are kept as the JSON numbers they arrive as.
#[derive(Debug, Clone, PartialEq, Eq)]
pub struct Candle {
    /// The opening time, in milliseconds.
    pub t: i64,
    /// The closing time, in milliseconds.
    pub close_time: i64,
    /// The symbol.
    pub s: String,
    /// The interval.
    pub i: String,
    /// The opening price.
    pub o: JsonNumber,
    /// The closing price.
    pub c: JsonNumber,
    /// The highest price.
    pub h: JsonNumber,
    /// The lowest price.
    pub l: JsonNumber,
    /// The volume, in the base unit.
    pub v: JsonNumber,
    /// The number of trades.
    pub n: i32,
}

/// The mathematical model of a [`Candle`].
pub struct CandleModel {
    pub t: i64,
    pub close_time: i64,
    pub s: Seq<char>,
    pub i: Seq<char>,
    pub o: NumberModel,
    pub c: NumberModel,
    pub h: NumberModel,
    pub l: NumberModel,
    pub v: NumberModel,
    pub n: i32,
}

impl DeepView for Candle {
    type V = CandleModel;

    open spec fn deep_view(&self) -> CandleModel {
        CandleModel {
            t: self.t,
            close_time: self.close_time,
            s: self.s@,
            i: self.i@,
            o: self.o.deep_view(),
            c: self.c.deep_view(),
            h: self.h.deep_view(),
            l: self.l.deep_view(),
            v: self.v.deep_view(),
            n: self.n,
        }
    }
}

/// A batch of candles on a channel.
#[derive(Debug, Clone, PartialEq, Eq)]
pub struct CandleDataMessage {
    pub channel: String,
    pub data: Vec<Candle>,
}

/// The mathematical model of a [`CandleDataMessage`].
pub struct CandleDataMessageModel {
    pub channel: Seq<char>,
    pub data: Seq<CandleModel>,
}

impl DeepView for CandleDataMessage {
    type V = CandleDataMessageModel;

    open spec fn deep_view(&self) -> CandleDataMessageModel {
        CandleDataMessageModel {
            channel: self.channel@,
            data: self.data.deep_view(),
        }
    }
}

/// One fill of a user's order.
#[derive(Debug, Clone, PartialEq, Eq)]
pub struct Fill {
    pub coin: String,
    pub px: String,
    pub sz: String,
    pub side: String,
    pub time: i64,
    pub start_position: String,
    pub dir: String,
    pub closed_pnl: String,
    pub hash: String,
    pub oid: i64,
    pub crossed: bool,
    pub fee: String,
    pub tid: i64,
    pub fee_token: String,
    /// Absent where the member is missing or null.
    pub builder_fee: Option<String>,
}

/// The mathematical model of a [`Fill`].
pub struct FillModel {
    pub coin: Seq<char>,
    pub px: Seq<char>,
    pub sz: Seq<char>,
    pub side: Seq<char>,
    pub time: i64,
    pub start_position: Seq<char>,
    pub dir: Seq<char>,
    pub closed_pnl: Seq<char>,
    pub hash: Seq<char>,
    pub oid: i64,
    pub crossed: bool,
    pub fee: Seq<char>,
    pub tid: i64,
    pub fee_token: Seq<char>,
    pub builder_fee: Option<Seq<char>>,
}

impl DeepView for Fill {
    type V = FillModel;

    open spec fn deep_view(&self) -> FillModel {
        FillModel {
            coin: self.coin@,
            px: self.px@,
            sz: self.sz@,
            side: self.side@,
            time: self.time,
            start_position: self.start_position@,
            dir: self.dir@,
            closed_pnl: self.closed_pnl@,
            hash: self.hash@,
            oid: self.oid,
            crossed: self.crossed,
            fee: self.fee@,
            tid: self.tid,
            fee_token: self.fee_token@,
            builder_fee: self.builder_fee.deep_view(),
        }
    }
}

/// A funding payment of a user.
#[derive(Debug, Clone, PartialEq, Eq)]
pub struct UserFunding {
    pub time: i64,
    pub coin: String,
    pub usdc: String,
    pub szi: String,
    pub funding_rate: String,
}

/// The mathematical model of a [`UserFunding`].
pub struct UserFundingModel {
    pub time: i64,
    pub coin: Seq<char>,
    pub usdc: Seq<char>,
    pub szi: Seq<char>,
    pub funding_rate: Seq<char>,
}

impl DeepView for UserFunding {
    type V = UserFundingModel;

    open spec fn deep_view(&self) -> UserFundingModel {
        UserFundingModel {
            time: self.time,
            coin: self.coin@,
            usdc: self.usdc@,
            szi: self.szi@,
            funding_rate: self.funding_rate@,
        }
    }
}

/// A liquidation.
#[derive(Debug, Clone, PartialEq, Eq)]
pub struct Liquidation {
    pub lid: i64,
    pub liquidator: String,
    pub liquidated_user: String,
    pub liquidated_ntl_pos: String,
    pub liquidated_account_value: String,
}

/// The mathematical model of a [`Liquidation`].
pub struct LiquidationModel {
    pub lid: i64,
    pub liquidator: Seq<char>,
    pub liquidated_user: Seq<char>,
    pub liquidated_ntl_pos: Seq<char>,
    pub liquidated_account_value: Seq<char>,
}

impl DeepView for Liquidation {
    type V = LiquidationModel;

    open spec fn deep_view(&self) -> LiquidationModel {
        LiquidationModel {
            lid: self.lid,
            liquidator: self.liquidator@,
            liquidated_user: self.liquidated_user@,
            liquidated_ntl_pos: self.liquidated_ntl_pos@,
            liquidated_account_value: self.liquidated_account_value@,
        }
    }
}

/// An order cancelled by the exchange.
#[derive(Debug, Clone, PartialEq, Eq)]
pub struct NonUserCancel {
    pub coin: String,
    pub oid: i64,
}

/// The mathematical model of a [`NonUserCancel`].
pub struct NonUserCancelModel {
    pub coin: Seq<char>,
    pub oid: i64,
}

impl DeepView for NonUserCancel {
    type V = NonUserCancelModel;

    open spec fn deep_view(&self) -> NonUserCancelModel {
        NonUserCancelModel {
            coin: self.coin@,
            oid: self.oid,
        }
    }
}

/// An event of the user's account on a channel.
#[derive(Debug, Clone, PartialEq, Eq)]
pub struct UserEventMessage {
    pub channel: String,
    pub data: UserEvent,
}

/// The mathematical model of a [`UserEventMessage`].
pub struct UserEventMessageModel {
    pub channel: Seq<char>,
    pub data: UserEventModel,
}

impl DeepView for UserEventMessage {
    type V = UserEventMessageModel;

    open spec fn deep_view(&self) -> UserEventMessageModel {
        UserEventMessageModel {
            channel: self.channel@,
            data: self.data.deep_view(),
        }
    }
}

/// A notice from the server.
#[derive(Debug, Clone, PartialEq, Eq)]
pub struct Notification {
    pub notification: String,
}

/// The mathematical model of a [`Notification`].
pub struct NotificationModel {
    pub notification: Seq<char>,
}

impl DeepView for Notification {
    type V = NotificationModel;

    open spec fn deep_view(&self) -> NotificationModel {
        NotificationModel {
            notification: self.notification@,
        }
    }
}

/// A notice on a channel.
#[derive(Debug, Clone, PartialEq, Eq)]
pub struct NotificationMessage {
    pub channel: String,
    pub data: Notification,
}

/// The mathematical model of a [`NotificationMessage`].
pub struct NotificationMessageModel {
    pub channel: Seq<char>,
    pub data: NotificationModel,
}

impl DeepView for NotificationMessage {
    type V = NotificationMessageModel;

    open spec fn deep_view(&self) -> NotificationMessageModel {
        NotificationMessageModel {
            channel: self.channel@,
            data: self.data.deep_view(),
        }
    }
}

/// A document that names its channel and nothing this library reads.
#[derive(Debug, Clone, PartialEq, Eq)]
pub struct Channel {
    pub channel: String,
}

/// The mathematical model of a [`Channel`].
pub struct ChannelModel {
    pub channel: Seq<char>,
}

impl DeepView for Channel {
    type V = ChannelModel;

    open spec fn deep_view(&self) -> ChannelModel {
        ChannelModel {
            channel: self.channel@,
        }
    }
}

/// An event of the user's account: the first of these shapes that the
/// document has.
#[derive(Debug, Clone, PartialEq, Eq)]
pub enum UserEvent {
    Fills { fills: Vec<Fill> },
    Funding { funding: UserFunding },
    Liquidation { liquidation: Liquidation },
    NonUserCancel { non_user_cancel: Vec<NonUserCancel> },
}

/// The mathematical model of a [`UserEvent`].
pub enum UserEventModel {
    Fills { fills: Seq<FillModel> },
    Funding { funding: UserFundingModel },
    Liquidation { liquidation: LiquidationModel },
    NonUserCancel { non_user_cancel: Seq<NonUserCancelModel> },
}

impl DeepView for UserEvent {
    type V = UserEventModel;

    open spec fn deep_view(&self) -> UserEventModel {
        match self {
            UserEvent::Fills { fills } => UserEventModel::Fills { fills: fills.deep_view() },
            UserEvent::Funding { funding } => UserEventModel::Funding {
                funding: funding.deep_view(),
            },
            UserEvent::Liquidation { liquidation } => UserEventModel::Liquidation {
                liquidation: liquidation.deep_view(),
            },
            UserEvent::NonUserCancel { non_user_cancel } => UserEventModel::NonUserCancel {
                non_user_cancel: non_user_cancel.deep_view(),
            },
        }
    }
}

/// A message from the server, by its shape.
#[derive(Debug, PartialEq, Eq)]
pub enum WebSocketMessage {
    SubscriptionResponse(SubscriptionResponse),
    TradeData(TradeDataMessage),
    BookData(BookDataMessage),
    BboData(BboDataMessage),
    AllMidsData(AllMidsDataMessage),
    CandleData(CandleDataMessage),
    UserEvent(UserEventMessage),
    Notification(NotificationMessage),
    /// An array of trades with nothing around it.
    DirectTrades(Vec<Trade>),
    /// An array of candles with nothing around it.
    DirectCandles(Vec<Candle>),
    /// A keep-alive, or any other document that only names a channel.
    Ping(Channel),
}

/// The mathematical model of a [`WebSocketMessage`].
pub enum WebSocketMessageModel {
    SubscriptionResponse(SubscriptionResponseModel),
    TradeData(TradeDataMessageModel),
    BookData(BookDataMessageModel),
    BboData(BboDataMessageModel),
    AllMidsData(AllMidsDataMessageModel),
    CandleData(CandleDataMessageModel),
    UserEvent(UserEventMessageModel),
    Notification(NotificationMessageModel),
    DirectTrades(Seq<TradeModel>),
    DirectCandles(Seq<CandleModel>),
    Ping(ChannelModel),
}

impl DeepView for WebSocketMessage {
    type V = WebSocketMessageModel;

    open spec fn deep_view(&self) -> WebSocketMessageModel {
        match self {
            WebSocketMessage::SubscriptionResponse(m) => {
                WebSocketMessageModel::SubscriptionResponse(m.deep_view())
            },
            WebSocketMessage::TradeData(m) => WebSocketMessageModel::TradeData(m.deep_view()),
            WebSocketMessage::BookData(m) => WebSocketMessageModel::BookData(m.deep_view()),
            WebSocketMessage::BboData(m) => WebSocketMessageModel::BboData(m.deep_view()),
            WebSocketMessage::AllMidsData(m) => WebSocketMessageModel::AllMidsData(m.deep_view()),
            WebSocketMessage::CandleData(m) => WebSocketMessageModel::CandleData(m.deep_view()),
            WebSocketMessage::UserEvent(m) => WebSocketMessageModel::UserEvent(m.deep_view()),
            WebSocketMessage::Notification(m) => WebSocketMessageModel::Notification(
                m.deep_view(),
            ),
            WebSocketMessage::DirectTrades(trades) => WebSocketMessageModel::DirectTrades(
                trades.deep_view(),
            ),
            WebSocketMessage::DirectCandles(candles) => WebSocketMessageModel::DirectCandles(
                candles.deep_view(),
            ),
            WebSocketMessage::Ping(m) => WebSocketMessageModel::Ping(m.deep_view()),
        }
    }
}

/// A request to subscribe to one channel.
#[derive(Debug, Clone, PartialEq, Eq)]
pub struct SubscriptionRequest {
    pub method: String,
    pub subscription: Subscription,
}

/// The mathematical model of a [`SubscriptionRequest`].
pub struct SubscriptionRequestModel {
    pub method: Seq<char>,
    pub subscription: SubscriptionModel,
}

impl DeepView for SubscriptionRequest {
    type V = SubscriptionRequestModel;

    open spec fn deep_view(&self) -> SubscriptionRequestModel {
        SubscriptionRequestModel {
            method: self.method@,
            subscription: self.subscription.deep_view(),
        }
    }
}

/// The request to subscribe to `channel` for `coin`.
pub open spec fn subscribe_to(channel: Seq<char>, coin: Seq<char>) -> SubscriptionRequestModel {
    SubscriptionRequestModel {
        method: "subscribe"@,
        subscription: SubscriptionModel { subscription_type: channel, coin },
    }
}

impl SubscriptionRequestModel {
    /// The request as it is written on the wire: one JSON object, without
    /// spaces, its members in the order `method`, `subscription`, and under
    /// that `type`, `coin`.
    pub open spec fn wire_text(self) -> Seq<char> {
        "{\"method\":"@ + json_quoted(self.method) + ",\"subscription\":{\"type\":"@ + json_quoted(
            self.subscription.subscription_type,
        ) + ",\"coin\":"@ + json_quoted(self.subscription.coin) + "}}"@
    }
}

impl SubscriptionRequest {
    fn subscribe(channel: String, coin: String) -> (request: Self)
        ensures
            request.deep_view() == subscribe_to(channel@, coin@),
    {
        SubscriptionRequest {
            method: "subscribe".to_owned(),
            subscription: Subscription { subscription_type: channel, coin },
        }
    }

    pub fn new_trades_subscription(coin: &str) -> (request: Self)
        ensures
            request.deep_view() == subscribe_to("trades"@, coin@),
    {
        Self::subscribe("trades".to_owned(), coin.to_owned())
    }

    pub fn new_l2_book_subscription(coin: &str) -> (request: Self)
        ensures
            request.deep_view() == subscribe_to("l2Book"@, coin@),
    {
        Self::subscribe("l2Book".to_owned(), coin.to_owned())
    }

    pub fn new_bbo_subscription(coin: &str) -> (request: Self)
        ensures
            request.deep_view() == subscribe_to("bbo"@, coin@),
    {
        Self::subscribe("bbo".to_owned(), coin.to_owned())
    }

    pub fn new_all_mids_subscription() -> (request: Self)
        ensures
            request.deep_view() == subscribe_to("allMids"@, "*"@),
    {
        Self::subscribe("allMids".to_owned(), "*".to_owned())
    }

    /// Candles of `coin` at `interval`: the channel is `candle.` followed by
    /// the interval.
    pub fn new_candle_subscription(coin: &str, interval: &str) -> (request: Self)
        ensures
            request.deep_view() == subscribe_to("candle."@ + interval@, coin@),
    {
        let mut channel = "candle.".to_owned();
        channel.append(interval);
        Self::subscribe(channel, coin.to_owned())
    }

    pub fn new_user_events_subscription(user: &str) -> (request: Self)
        ensures
            request.deep_view() == subscribe_to("userEvents"@, user@),
    {
        Self::subscribe("userEvents".to_owned(), user.to_owned())
    }

    pub fn new_user_fills_subscription(user: &str) -> (request: Self)
        ensures
            request.deep_view() == subscribe_to("userFills"@, user@),
    {
        Self::subscribe("userFills".to_owned(), user.to_owned())
    }

    pub fn new_notification_subscription() -> (request: Self)
        ensures
            request.deep_view() == subscribe_to("notification"@, "*"@),
    {
        Self::subscribe("notification".to_owned(), "*".to_owned())
    }

    /// The text to send: see [`SubscriptionRequestModel::wire_text`].
    pub fn to_wire(&self) -> (text: String)
        ensures
            text@ == self.deep_view().wire_text(),
    {
        let mut text = "{\"method\":".to_owned();
        let method = quote_json_string(self.method.as_str());
        text.append(method.as_str());
        text.append(",\"subscription\":{\"type\":");
        let channel = quote_json_string(self.subscription.subscription_type.as_str());
        text.append(channel.as_str());
        text.append(",\"coin\":");
        let coin = quote_json_string(self.subscription.coin.as_str());
        text.append(coin.as_str());
        text.append("}}");
        text
    }
}

impl TradeModel {
    /// The side reads `B` or `BUY`, in either case of the letters.
    pub open spec fn is_buy(self) -> bool {
        same_ignoring_ascii_case(self.side, "B"@) || same_ignoring_ascii_case(self.side, "BUY"@)
    }

    /// The side reads `S` or `SELL`, in either case of the letters.
    pub open spec fn is_sell(self) -> bool {
        same_ignoring_ascii_case(self.side, "S"@) || same_ignoring_ascii_case(self.side, "SELL"@)
    }
}

impl Trade {
    /// Price times size, exactly.
    pub fn value(&self) -> (value: Notional)
        ensures
            value.units == self.px.units * self.sz.units,
            value.scale == self.px.scale + self.sz.scale,
    {
        self.px.times(&self.sz)
    }

    pub fn is_buy(&self) -> (buy: bool)
        ensures
            buy == self.deep_view().is_buy(),
    {
        proof {
            reveal_strlit("B");
            reveal_strlit("BUY");
        }
        matches_ascii_word(self.side.as_str(), "B") || matches_ascii_word(
            self.side.as_str(),
            "BUY",
        )
    }

    pub fn is_sell(&self) -> (sell: bool)
        ensures
            sell == self.deep_view().is_sell(),
    {
        proof {
            reveal_strlit("S");
            reveal_strlit("SELL");
        }
        matches_ascii_word(self.side.as_str(), "S") || matches_ascii_word(
            self.side.as_str(),
            "SELL",
        )
    }

    /// The side in one of its two canonical forms: `BUY` for a buy, `SELL`
    /// for anything else.
    pub fn side_formatted(&self) -> (side: &'static str)
        ensures
            side@ == if self.deep_view().is_buy() {
                "BUY"@
            } else {
                "SELL"@
            },
    {
        if self.is_buy() {
            "BUY"
        } else {
            "SELL"
        }
    }

    /// The buyer and the seller: both where two users are given, the buyer
    /// alone where one is, neither otherwise.
    pub fn buyer_seller(&self) -> (pair: (Option<&String>, Option<&String>))
        ensures
            self.users@.len() == 2 ==> pair == (Some(&self.users@[0]), Some(&self.users@[1])),
            self.users@.len() == 1 ==> pair == (Some(&self.users@[0]), None::<&String>),
            self.users@.len() != 1 && self.users@.len() != 2 ==> pair == (
                None::<&String>,
                None::<&String>,
            ),
    {
        if self.users.len() == 2 {
            (Some(&self.users[0]), Some(&self.users[1]))
        } else if self.users.len() == 1 {
            (Some(&self.users[0]), None)
        } else {
            (None, None)
        }
    }
}

} // verus!
