//! Reading typed records out of JSON documents.
//!
//! Each record has one shape: an object with the members named here, each of
//! the kind that the record's field has. Members beyond those are passed
//! over. Where an object holds a name twice, the first one counts.

use crate::decimal::{decimal_of_text, Decimal};
use crate::json::{JsonModel, JsonNumber, JsonValue, NumberModel};
use crate::types::{
    AllMids, AllMidsDataMessage, AllMidsDataMessageModel, AllMidsModel, Bbo, BboDataMessage,
    BboDataMessageModel, BboModel, Book, BookDataMessage, BookDataMessageModel, BookModel, Candle,
    CandleDataMessage, CandleDataMessageModel, CandleModel, Channel, ChannelModel, Fill, FillModel,
    Level, LevelModel, Liquidation, LiquidationModel, NonUserCancel, NonUserCancelModel,
    Notification, NotificationMessage, NotificationMessageModel, NotificationModel, Subscription,
    SubscriptionModel, SubscriptionResponse, SubscriptionResponseData,
    SubscriptionResponseDataModel, SubscriptionResponseModel, Trade, TradeDataMessage,
    TradeDataMessageModel, TradeModel, UserEvent, UserEventMessage, UserEventMessageModel,
    UserEventModel, UserFunding, UserFundingModel,
};
use vstd::prelude::*;

verus! {

/// A record with a fixed JSON shape.
pub trait FromJson: DeepView + Sized {
    /// The record that `doc` holds, where `doc` has the record's shape.
    spec fn of(doc: JsonModel) -> Option<Self::V>;

    /// Reads the record out of `doc`; `None` where `doc` has another shape.
    fn decode(doc: &JsonValue) -> (record: Option<Self>)
        ensures
            record.deep_view() == Self::of(doc.deep_view()),
    ;
}

/// The characters of the string member `key`.
pub open spec fn text_member(doc: JsonModel, key: Seq<char>) -> Option<Seq<char>> {
    match doc.member(key) {
        Some(m) => m.text(),
        None => None,
    }
}

/// The member `key`, a number that is an integer of 64 bits.
pub open spec fn integer_member(doc: JsonModel, key: Seq<char>) -> Option<i64> {
    match doc.member(key) {
        Some(m) => m.integer(),
        None => None,
    }
}

/// The member `key`, a number that is an integer of 32 bits.
pub open spec fn int32_member(doc: JsonModel, key: Seq<char>) -> Option<i32> {
    match integer_member(doc, key) {
        Some(v) => if i32::MIN <= v <= i32::MAX {
            Some(v as i32)
        } else {
            None
        },
        None => None,
    }
}

/// The boolean member `key`.
pub open spec fn bool_member(doc: JsonModel, key: Seq<char>) -> Option<bool> {
    match doc.member(key) {
        Some(m) => m.boolean(),
        None => None,
    }
}

/// The string member `key`, read as a plain decimal numeral.
pub open spec fn decimal_member(doc: JsonModel, key: Seq<char>) -> Option<Decimal> {
    match text_member(doc, key) {
        Some(text) => decimal_of_text(text),
        None => None,
    }
}

/// The number member `key`.
pub open spec fn number_member(doc: JsonModel, key: Seq<char>) -> Option<NumberModel> {
    match doc.member(key) {
        Some(m) => m.number(),
        None => None,
    }
}

/// The string member `key` that may be left out: absent where the member is
/// missing or null, and no reading at all where it is anything but a string.
pub open spec fn optional_text_member(doc: JsonModel, key: Seq<char>) -> Option<
    Option<Seq<char>>,
> {
    match doc.member(key) {
        None => Some(None),
        Some(JsonModel::Null) => Some(None),
        Some(JsonModel::Text(s)) => Some(Some(s)),
        Some(_) => None,
    }
}

/// The member `key` read as a `T`.
pub open spec fn record_member<T: FromJson>(doc: JsonModel, key: Seq<char>) -> Option<T::V> {
    match doc.member(key) {
        Some(m) => T::of(m),
        None => None,
    }
}

/// Every item of `items` read as a `T`, where each has that shape.
pub open spec fn all_of<T: FromJson>(items: Seq<JsonModel>) -> Option<Seq<T::V>> {
    if forall|i: int| 0 <= i < items.len() ==> (#[trigger] T::of(items[i])) is Some {
        Some(Seq::new(items.len(), |i: int| T::of(items[i])->0))
    } else {
        None
    }
}

/// An array whose items all have the shape of `T`.
pub open spec fn list_of<T: FromJson>(doc: JsonModel) -> Option<Seq<T::V>> {
    match doc.items() {
        Some(items) => all_of::<T>(items),
        None => None,
    }
}

/// The member `key`, an array of `T`.
pub open spec fn list_member<T: FromJson>(doc: JsonModel, key: Seq<char>) -> Option<Seq<T::V>> {
    match doc.member(key) {
        Some(m) => list_of::<T>(m),
        None => None,
    }
}

/// An array of strings.
pub open spec fn text_list_of(doc: JsonModel) -> Option<Seq<Seq<char>>> {
    match doc.items() {
        Some(items) => if forall|i: int|
            0 <= i < items.len() ==> (#[trigger] items[i].text()) is Some {
            Some(Seq::new(items.len(), |i: int| items[i].text()->0))
        } else {
            None
        },
        None => None,
    }
}

/// The member `key`, an array of strings.
pub open spec fn users_member(doc: JsonModel, key: Seq<char>) -> Option<Seq<Seq<char>>> {
    match doc.member(key) {
        Some(m) => text_list_of(m),
        None => None,
    }
}

/// An array of exactly two arrays of levels.
pub open spec fn level_lists_of(doc: JsonModel) -> Option<(Seq<LevelModel>, Seq<LevelModel>)> {
    match doc.items() {
        Some(items) => if items.len() == 2 && list_of::<Level>(items[0]) is Some && list_of::<
            Level,
        >(items[1]) is Some {
            Some((list_of::<Level>(items[0])->0, list_of::<Level>(items[1])->0))
        } else {
            None
        },
        None => None,
    }
}

/// The member `key`, two arrays of levels.
pub open spec fn level_lists_member(doc: JsonModel, key: Seq<char>) -> Option<
    (Seq<LevelModel>, Seq<LevelModel>),
> {
    match doc.member(key) {
        Some(m) => level_lists_of(m),
        None => None,
    }
}

/// A level, or null for none.
pub open spec fn optional_level_of(doc: JsonModel) -> Option<Option<LevelModel>> {
    if doc == JsonModel::Null {
        Some(None)
    } else {
        match Level::of(doc) {
            Some(level) => Some(Some(level)),
            None => None,
        }
    }
}

/// An array of exactly two items, each a level or null.
pub open spec fn level_pair_of(doc: JsonModel) -> Option<
    (Option<LevelModel>, Option<LevelModel>),
> {
    match doc.items() {
        Some(items) => if items.len() == 2 && optional_level_of(items[0]) is Some
            && optional_level_of(items[1]) is Some {
            Some((optional_level_of(items[0])->0, optional_level_of(items[1])->0))
        } else {
            None
        },
        None => None,
    }
}

/// The member `key`, two levels of which either may be null.
pub open spec fn level_pair_member(doc: JsonModel, key: Seq<char>) -> Option<
    (Option<LevelModel>, Option<LevelModel>),
> {
    match doc.member(key) {
        Some(m) => level_pair_of(m),
        None => None,
    }
}

/// An object whose members are all strings: each name with its string, in
/// the order of the document.
pub open spec fn text_map_of(doc: JsonModel) -> Option<Seq<(Seq<char>, Seq<char>)>> {
    match doc.members() {
        Some(members) => if forall|i: int|
            0 <= i < members.len() ==> (#[trigger] members[i].1.text()) is Some {
            Some(Seq::new(members.len(), |i: int| (members[i].0, members[i].1.text()->0)))
        } else {
            None
        },
        None => None,
    }
}

/// The member `key`, an object of strings.
pub open spec fn text_map_member(doc: JsonModel, key: Seq<char>) -> Option<
    Seq<(Seq<char>, Seq<char>)>,
> {
    match doc.member(key) {
        Some(m) => text_map_of(m),
        None => None,
    }
}

pub fn get_text(doc: &JsonValue, key: &str) -> (text: Option<String>)
    ensures
        text.deep_view() == text_member(doc.deep_view(), key@),
{
    let member = doc.get(key)?;
    let text = member.as_text()?;
    Some(text.clone())
}

pub fn get_integer(doc: &JsonValue, key: &str) -> (integer: Option<i64>)
    ensures
        integer == integer_member(doc.deep_view(), key@),
{
    let member = doc.get(key)?;
    member.as_integer()
}

pub fn get_int32(doc: &JsonValue, key: &str) -> (integer: Option<i32>)
    ensures
        integer == int32_member(doc.deep_view(), key@),
{
    let wide: i64 = get_integer(doc, key)?;
    if -2147483648 <= wide && wide <= 2147483647 {
        Some(wide as i32)
    } else {
        None
    }
}

pub fn get_bool(doc: &JsonValue, key: &str) -> (b: Option<bool>)
    ensures
        b == bool_member(doc.deep_view(), key@),
{
    let member = doc.get(key)?;
    member.as_bool()
}

pub fn get_decimal(doc: &JsonValue, key: &str) -> (decimal: Option<Decimal>)
    ensures
        decimal == decimal_member(doc.deep_view(), key@),
{
    let member = doc.get(key)?;
    let text = member.as_text()?;
    Decimal::parse(text.as_str())
}

pub fn get_number(doc: &JsonValue, key: &str) -> (number: Option<JsonNumber>)
    ensures
        number.deep_view() == number_member(doc.deep_view(), key@),
{
    let member = doc.get(key)?;
    let number = member.as_number()?;
    Some(number.duplicate())
}

pub fn get_optional_text(doc: &JsonValue, key: &str) -> (text: Option<Option<String>>)
    ensures
        text.deep_view() == optional_text_member(doc.deep_view(), key@),
{
    match doc.get(key) {
        None => Some(None),
        Some(JsonValue::Null) => Some(None),
        Some(JsonValue::Text(s)) => Some(Some(s.clone())),
        Some(_) => None,
    }
}

pub fn get_record<T: FromJson>(doc: &JsonValue, key: &str) -> (record: Option<T>)
    ensures
        record.deep_view() == record_member::<T>(doc.deep_view(), key@),
{
    let member = doc.get(key)?;
    T::decode(member)
}

/// Reads an array of records.
pub fn decode_list<T: FromJson>(doc: &JsonValue) -> (list: Option<Vec<T>>)
    ensures
        list.deep_view() == list_of::<T>(doc.deep_view()),
{
    let items = doc.as_items()?;
    let ghost models = items.deep_view();
    let mut out: Vec<T> = Vec::new();
    let mut i: usize = 0;
    while i < items.len()
        invariant
            i <= items@.len(),
            out@.len() == i,
            models == items.deep_view(),
            doc.deep_view().items() == Some(models),
            forall|k: int|
                0 <= k < i ==> (#[trigger] T::of(models[k])) == Some(out@[k].deep_view()),
        decreases items@.len() - i,
    {
        match T::decode(&items[i]) {
            Some(record) => {
                out.push(record);
            },
            None => {
                assert(models[i as int] == items@[i as int].deep_view());
                assert(T::of(models[i as int]) is None);
                return None;
            },
        }
        i += 1;
    }
    assert(out.deep_view() =~= all_of::<T>(models)->0);
    Some(out)
}

pub fn get_list<T: FromJson>(doc: &JsonValue, key: &str) -> (list: Option<Vec<T>>)
    ensures
        list.deep_view() == list_member::<T>(doc.deep_view(), key@),
{
    let member = doc.get(key)?;
    decode_list::<T>(member)
}

/// Reads an array of strings.
pub fn decode_text_list(doc: &JsonValue) -> (list: Option<Vec<String>>)
    ensures
        list.deep_view() == text_list_of(doc.deep_view()),
{
    let items = doc.as_items()?;
    let ghost models = items.deep_view();
    let mut out: Vec<String> = Vec::new();
    let mut i: usize = 0;
    while i < items.len()
        invariant
            i <= items@.len(),
            out@.len() == i,
            models == items.deep_view(),
            doc.deep_view().items() == Some(models),
            forall|k: int| 0 <= k < i ==> (#[trigger] models[k].text()) == Some(out@[k]@),
        decreases items@.len() - i,
    {
        match items[i].as_text() {
            Some(text) => {
                out.push(text.clone());
            },
            None => {
                assert(models[i as int] == items@[i as int].deep_view());
                assert(models[i as int].text() is None);
                return None;
            },
        }
        i += 1;
    }
    assert(out.deep_view() =~= text_list_of(doc.deep_view())->0);
    Some(out)
}

pub fn get_users(doc: &JsonValue, key: &str) -> (users: Option<Vec<String>>)
    ensures
        users.deep_view() == users_member(doc.deep_view(), key@),
{
    let member = doc.get(key)?;
    decode_text_list(member)
}

pub fn get_level_lists(doc: &JsonValue, key: &str) -> (lists: Option<(Vec<Level>, Vec<Level>)>)
    ensures
        lists.deep_view() == level_lists_member(doc.deep_view(), key@),
{
    let member = doc.get(key)?;
    let items = member.as_items()?;
    if items.len() != 2 {
        return None;
    }
    assert(items.deep_view()[0] == items@[0].deep_view());
    assert(items.deep_view()[1] == items@[1].deep_view());
    let bids = decode_list::<Level>(&items[0])?;
    let asks = decode_list::<Level>(&items[1])?;
    Some((bids, asks))
}

fn decode_optional_level(doc: &JsonValue) -> (level: Option<Option<Level>>)
    ensures
        level.deep_view() == optional_level_of(doc.deep_view()),
{
    if doc.is_null() {
        Some(None)
    } else {
        match Level::decode(doc) {
            Some(level) => Some(Some(level)),
            None => None,
        }
    }
}

pub fn get_level_pair(doc: &JsonValue, key: &str) -> (pair: Option<(Option<Level>, Option<Level>)>)
    ensures
        pair.deep_view() == level_pair_member(doc.deep_view(), key@),
{
    let member = doc.get(key)?;
    let items = member.as_items()?;
    if items.len() != 2 {
        return None;
    }
    assert(items.deep_view()[0] == items@[0].deep_view());
    assert(items.deep_view()[1] == items@[1].deep_view());
    let bid = decode_optional_level(&items[0])?;
    let ask = decode_optional_level(&items[1])?;
    Some((bid, ask))
}

pub fn get_text_map(doc: &JsonValue, key: &str) -> (map: Option<Vec<(String, String)>>)
    ensures
        map.deep_view() == text_map_member(doc.deep_view(), key@),
{
    let member = doc.get(key)?;
    let members = member.as_members()?;
    let ghost models = members.deep_view();
    let mut out: Vec<(String, String)> = Vec::new();
    let mut i: usize = 0;
    while i < members.len()
        invariant
            i <= members@.len(),
            out@.len() == i,
            models == members.deep_view(),
            member.deep_view().members() == Some(models),
            doc.deep_view().member(key@) == Some(member.deep_view()),
            forall|k: int|
                0 <= k < i ==> {
                    &&& (#[trigger] models[k].1.text()) == Some(out@[k].1@)
                    &&& models[k].0 == out@[k].0@
                },
        decreases members@.len() - i,
    {
        assert(models[i as int] == members@[i as int].deep_view());
        match members[i].1.as_text() {
            Some(text) => {
                out.push((members[i].0.clone(), text.clone()));
            },
            None => {
                assert(models[i as int].1.text() is None);
                return None;
            },
        }
        i += 1;
    }
    assert(out.deep_view() =~= text_map_of(member.deep_view())->0);
    Some(out)
}

impl FromJson for Subscription {
    open spec fn of(doc: JsonModel) -> Option<SubscriptionModel> {
        let subscription_type = text_member(doc, "type"@);
        let coin = text_member(doc, "coin"@);
        if subscription_type is Some && coin is Some {
            Some(
                SubscriptionModel {
                    subscription_type: subscription_type->0,
                    coin: coin->0,
                },
            )
        } else {
            None
        }
    }

    fn decode(doc: &JsonValue) -> (record: Option<Self>) {
        let subscription_type = get_text(doc, "type")?;
        let coin = get_text(doc, "coin")?;
        Some(Subscription { subscription_type, coin })
    }
}

impl FromJson for SubscriptionResponseData {
    open spec fn of(doc: JsonModel) -> Option<SubscriptionResponseDataModel> {
        let method = text_member(doc, "method"@);
        let subscription = record_member::<Subscription>(doc, "subscription"@);
        if method is Some && subscription is Some {
            Some(
                SubscriptionResponseDataModel {
                    method: method->0,
                    subscription: subscription->0,
                },
            )
        } else {
            None
        }
    }

    fn decode(doc: &JsonValue) -> (record: Option<Self>) {
        let method = get_text(doc, "method")?;
        let subscription = get_record::<Subscription>(doc, "subscription")?;
        Some(SubscriptionResponseData { method, subscription })
    }
}

impl FromJson for SubscriptionResponse {
    open spec fn of(doc: JsonModel) -> Option<SubscriptionResponseModel> {
        let channel = text_member(doc, "channel"@);
        let data = record_member::<SubscriptionResponseData>(doc, "data"@);
        if channel is Some && data is Some {
            Some(
                SubscriptionResponseModel {
                    channel: channel->0,
                    data: data->0,
                },
            )
        } else {
            None
        }
    }

    fn decode(doc: &JsonValue) -> (record: Option<Self>) {
        let channel = get_text(doc, "channel")?;
        let data = get_record::<SubscriptionResponseData>(doc, "data")?;
        Some(SubscriptionResponse { channel, data })
    }
}

impl FromJson for Trade {
    open spec fn of(doc: JsonModel) -> Option<TradeModel> {
        let coin = text_member(doc, "coin"@);
        let side = text_member(doc, "side"@);
        let px = decimal_member(doc, "px"@);
        let sz = decimal_member(doc, "sz"@);
        let time = integer_member(doc, "time"@);
        let hash = text_member(doc, "hash"@);
        let tid = integer_member(doc, "tid"@);
        let users = users_member(doc, "users"@);
        if {
            &&& coin is Some
            &&& side is Some
            &&& px is Some
            &&& sz is Some
            &&& time is Some
            &&& hash is Some
            &&& tid is Some
            &&& users is Some
            &&& users->0.len() <= 2
        } {
            Some(
                TradeModel {
                    coin: coin->0,
                    side: side->0,
                    px: px->0,
                    sz: sz->0,
                    time: time->0,
                    hash: hash->0,
                    tid: tid->0,
                    users: users->0,
                },
            )
        } else {
            None
        }
    }

    fn decode(doc: &JsonValue) -> (record: Option<Self>) {
        let coin = get_text(doc, "coin")?;
        let side = get_text(doc, "side")?;
        let px = get_decimal(doc, "px")?;
        let sz = get_decimal(doc, "sz")?;
        let time = get_integer(doc, "time")?;
        let hash = get_text(doc, "hash")?;
        let tid = get_integer(doc, "tid")?;
        let users = get_users(doc, "users")?;
        if users.len() > 2 {
            return None;
        }
        Some(Trade { coin, side, px, sz, time, hash, tid, users })
    }
}

impl FromJson for TradeDataMessage {
    open spec fn of(doc: JsonModel) -> Option<TradeDataMessageModel> {
        let channel = text_member(doc, "channel"@);
        let data = list_member::<Trade>(doc, "data"@);
        if channel is Some && data is Some {
            Some(
                TradeDataMessageModel {
                    channel: channel->0,
                    data: data->0,
                },
            )
        } else {
            None
        }
    }

    fn decode(doc: &JsonValue) -> (record: Option<Self>) {
        let channel = get_text(doc, "channel")?;
        let data = get_list::<Trade>(doc, "data")?;
        Some(TradeDataMessage { channel, data })
    }
}

impl FromJson for Level {
    open spec fn of(doc: JsonModel) -> Option<LevelModel> {
        let px = decimal_member(doc, "px"@);
        let sz = decimal_member(doc, "sz"@);
        let n = int32_member(doc, "n"@);
        if px is Some && sz is Some && n is Some {
            Some(
                LevelModel {
                    px: px->0,
                    sz: sz->0,
                    n: n->0,
                },
            )
        } else {
            None
        }
    }

    fn decode(doc: &JsonValue) -> (record: Option<Self>) {
        let px = get_decimal(doc, "px")?;
        let sz = get_decimal(doc, "sz")?;
        let n = get_int32(doc, "n")?;
        Some(Level { px, sz, n })
    }
}

impl FromJson for Book {
    open spec fn of(doc: JsonModel) -> Option<BookModel> {
        let coin = text_member(doc, "coin"@);
        let levels = level_lists_member(doc, "levels"@);
        let time = integer_member(doc, "time"@);
        if coin is Some && levels is Some && time is Some {
            Some(
                BookModel {
                    coin: coin->0,
                    levels: levels->0,
                    time: time->0,
                },
            )
        } else {
            None
        }
    }

    fn decode(doc: &JsonValue) -> (record: Option<Self>) {
        let coin = get_text(doc, "coin")?;
        let levels = get_level_lists(doc, "levels")?;
        let time = get_integer(doc, "time")?;
        Some(Book { coin, levels, time })
    }
}

impl FromJson for BookDataMessage {
    open spec fn of(doc: JsonModel) -> Option<BookDataMessageModel> {
        let channel = text_member(doc, "channel"@);
        let data = record_member::<Book>(doc, "data"@);
        if channel is Some && data is Some {
            Some(
                BookDataMessageModel {
                    channel: channel->0,
                    data: data->0,
                },
            )
        } else {
            None
        }
    }

    fn decode(doc: &JsonValue) -> (record: Option<Self>) {
        let channel = get_text(doc, "channel")?;
        let data = get_record::<Book>(doc, "data")?;
        Some(BookDataMessage { channel, data })
    }
}

impl FromJson for Bbo {
    open spec fn of(doc: JsonModel) -> Option<BboModel> {
        let coin = text_member(doc, "coin"@);
        let time = integer_member(doc, "time"@);
        let bbo = level_pair_member(doc, "bbo"@);
        if coin is Some && time is Some && bbo is Some {
            Some(
                BboModel {
                    coin: coin->0,
                    time: time->0,
                    bbo: bbo->0,
                },
            )
        } else {
            None
        }
    }

    fn decode(doc: &JsonValue) -> (record: Option<Self>) {
        let coin = get_text(doc, "coin")?;
        let time = get_integer(doc, "time")?;
        let bbo = get_level_pair(doc, "bbo")?;
        Some(Bbo { coin, time, bbo })
    }
}

impl FromJson for BboDataMessage {
    open spec fn of(doc: JsonModel) -> Option<BboDataMessageModel> {
        let channel = text_member(doc, "channel"@);
        let data = record_member::<Bbo>(doc, "data"@);
        if channel is Some && data is Some {
            Some(
                BboDataMessageModel {
                    channel: channel->0,
                    data: data->0,
                },
            )
        } else {
            None
        }
    }

    fn decode(doc: &JsonValue) -> (record: Option<Self>) {
        let channel = get_text(doc, "channel")?;
        let data = get_record::<Bbo>(doc, "data")?;
        Some(BboDataMessage { channel, data })
    }
}

impl FromJson for AllMids {
    open spec fn of(doc: JsonModel) -> Option<AllMidsModel> {
        let mids = text_map_member(doc, "mids"@);
        if mids is Some {
            Some(
                AllMidsModel {
                    mids: mids->0,
                },
            )
        } else {
            None
        }
    }

    fn decode(doc: &JsonValue) -> (record: Option<Self>) {
        let mids = get_text_map(doc, "mids")?;
        Some(AllMids { mids })
    }
}

impl FromJson for AllMidsDataMessage {
    open spec fn of(doc: JsonModel) -> Option<AllMidsDataMessageModel> {
        let channel = text_member(doc, "channel"@);
        let data = record_member::<AllMids>(doc, "data"@);
        if channel is Some && data is Some {
            Some(
                AllMidsDataMessageModel {
                    channel: channel->0,
                    data: data->0,
                },
            )
        } else {
            None
        }
    }

    fn decode(doc: &JsonValue) -> (record: Option<Self>) {
        let channel = get_text(doc, "channel")?;
        let data = get_record::<AllMids>(doc, "data")?;
        Some(AllMidsDataMessage { channel, data })
    }
}

impl FromJson for Candle {
    open spec fn of(doc: JsonModel) -> Option<CandleModel> {
        let t = integer_member(doc, "t"@);
        let close_time = integer_member(doc, "T"@);
        let s = text_member(doc, "s"@);
        let i = text_member(doc, "i"@);
        let o = number_member(doc, "o"@);
        let c = number_member(doc, "c"@);
        let h = number_member(doc, "h"@);
        let l = number_member(doc, "l"@);
        let v = number_member(doc, "v"@);
        let n = int32_member(doc, "n"@);
        if {
            &&& t is Some
            &&& close_time is Some
            &&& s is Some
            &&& i is Some
            &&& o is Some
            &&& c is Some
            &&& h is Some
            &&& l is Some
            &&& v is Some
            &&& n is Some
        } {
            Some(
                CandleModel {
                    t: t->0,
                    close_time: close_time->0,
                    s: s->0,
                    i: i->0,
                    o: o->0,
                    c: c->0,
                    h: h->0,
                    l: l->0,
                    v: v->0,
                    n: n->0,
                },
            )
        } else {
            None
        }
    }

    fn decode(doc: &JsonValue) -> (record: Option<Self>) {
        let t = get_integer(doc, "t")?;
        let close_time = get_integer(doc, "T")?;
        let s = get_text(doc, "s")?;
        let i = get_text(doc, "i")?;
        let o = get_number(doc, "o")?;
        let c = get_number(doc, "c")?;
        let h = get_number(doc, "h")?;
        let l = get_number(doc, "l")?;
        let v = get_number(doc, "v")?;
        let n = get_int32(doc, "n")?;
        Some(Candle { t, close_time, s, i, o, c, h, l, v, n })
    }
}

impl FromJson for CandleDataMessage {
    open spec fn of(doc: JsonModel) -> Option<CandleDataMessageModel> {
        let channel = text_member(doc, "channel"@);
        let data = list_member::<Candle>(doc, "data"@);
        if channel is Some && data is Some {
            Some(
                CandleDataMessageModel {
                    channel: channel->0,
                    data: data->0,
                },
            )
        } else {
            None
        }
    }

    fn decode(doc: &JsonValue) -> (record: Option<Self>) {
        let channel = get_text(doc, "channel")?;
        let data = get_list::<Candle>(doc, "data")?;
        Some(CandleDataMessage { channel, data })
    }
}

impl FromJson for Fill {
    open spec fn of(doc: JsonModel) -> Option<FillModel> {
        let coin = text_member(doc, "coin"@);
        let px = text_member(doc, "px"@);
        let sz = text_member(doc, "sz"@);
        let side = text_member(doc, "side"@);
        let time = integer_member(doc, "time"@);
        let start_position = text_member(doc, "startPosition"@);
        let dir = text_member(doc, "dir"@);
        let closed_pnl = text_member(doc, "closedPnl"@);
        let hash = text_member(doc, "hash"@);
        let oid = integer_member(doc, "oid"@);
        let crossed = bool_member(doc, "crossed"@);
        let fee = text_member(doc, "fee"@);
        let tid = integer_member(doc, "tid"@);
        let fee_token = text_member(doc, "feeToken"@);
        let builder_fee = optional_text_member(doc, "builderFee"@);
        if {
            &&& coin is Some
            &&& px is Some
            &&& sz is Some
            &&& side is Some
            &&& time is Some
            &&& start_position is Some
            &&& dir is Some
            &&& closed_pnl is Some
            &&& hash is Some
            &&& oid is Some
            &&& crossed is Some
            &&& fee is Some
            &&& tid is Some
            &&& fee_token is Some
            &&& builder_fee is Some
        } {
            Some(
                FillModel {
                    coin: coin->0,
                    px: px->0,
                    sz: sz->0,
                    side: side->0,
                    time: time->0,
                    start_position: start_position->0,
                    dir: dir->0,
                    closed_pnl: closed_pnl->0,
                    hash: hash->0,
                    oid: oid->0,
                    crossed: crossed->0,
                    fee: fee->0,
                    tid: tid->0,
                    fee_token: fee_token->0,
                    builder_fee: builder_fee->0,
                },
            )
        } else {
            None
        }
    }

    fn decode(doc: &JsonValue) -> (record: Option<Self>) {
        let coin = get_text(doc, "coin")?;
        let px = get_text(doc, "px")?;
        let sz = get_text(doc, "sz")?;
        let side = get_text(doc, "side")?;
        let time = get_integer(doc, "time")?;
        let start_position = get_text(doc, "startPosition")?;
        let dir = get_text(doc, "dir")?;
        let closed_pnl = get_text(doc, "closedPnl")?;
        let hash = get_text(doc, "hash")?;
        let oid = get_integer(doc, "oid")?;
        let crossed = get_bool(doc, "crossed")?;
        let fee = get_text(doc, "fee")?;
        let tid = get_integer(doc, "tid")?;
        let fee_token = get_text(doc, "feeToken")?;
        let builder_fee = get_optional_text(doc, "builderFee")?;
        Some(
            Fill {
                coin,
                px,
                sz,
                side,
                time,
                start_position,
                dir,
                closed_pnl,
                hash,
                oid,
                crossed,
                fee,
                tid,
                fee_token,
                builder_fee,
            },
        )
    }
}

impl FromJson for UserFunding {
    open spec fn of(doc: JsonModel) -> Option<UserFundingModel> {
        let time = integer_member(doc, "time"@);
        let coin = text_member(doc, "coin"@);
        let usdc = text_member(doc, "usdc"@);
        let szi = text_member(doc, "szi"@);
        let funding_rate = text_member(doc, "fundingRate"@);
        if time is Some && coin is Some && usdc is Some && szi is Some && funding_rate is Some {
            Some(
                UserFundingModel {
                    time: time->0,
                    coin: coin->0,
                    usdc: usdc->0,
                    szi: szi->0,
                    funding_rate: funding_rate->0,
                },
            )
        } else {
            None
        }
    }

    fn decode(doc: &JsonValue) -> (record: Option<Self>) {
        let time = get_integer(doc, "time")?;
        let coin = get_text(doc, "coin")?;
        let usdc = get_text(doc, "usdc")?;
        let szi = get_text(doc, "szi")?;
        let funding_rate = get_text(doc, "fundingRate")?;
        Some(UserFunding { time, coin, usdc, szi, funding_rate })
    }
}

impl FromJson for Liquidation {
    open spec fn of(doc: JsonModel) -> Option<LiquidationModel> {
        let lid = integer_member(doc, "lid"@);
        let liquidator = text_member(doc, "liquidator"@);
        let liquidated_user = text_member(doc, "liquidated_user"@);
        let liquidated_ntl_pos = text_member(doc, "liquidated_ntl_pos"@);
        let liquidated_account_value = text_member(doc, "liquidated_account_value"@);
        if {
            &&& lid is Some
            &&& liquidator is Some
            &&& liquidated_user is Some
            &&& liquidated_ntl_pos is Some
            &&& liquidated_account_value is Some
        } {
            Some(
                LiquidationModel {
                    lid: lid->0,
                    liquidator: liquidator->0,
                    liquidated_user: liquidated_user->0,
                    liquidated_ntl_pos: liquidated_ntl_pos->0,
                    liquidated_account_value: liquidated_account_value->0,
                },
            )
        } else {
            None
        }
    }

    fn decode(doc: &JsonValue) -> (record: Option<Self>) {
        let lid = get_integer(doc, "lid")?;
        let liquidator = get_text(doc, "liquidator")?;
        let liquidated_user = get_text(doc, "liquidated_user")?;
        let liquidated_ntl_pos = get_text(doc, "liquidated_ntl_pos")?;
        let liquidated_account_value = get_text(doc, "liquidated_account_value")?;
        Some(
            Liquidation {
                lid,
                liquidator,
                liquidated_user,
                liquidated_ntl_pos,
                liquidated_account_value,
            },
        )
    }
}

impl FromJson for NonUserCancel {
    open spec fn of(doc: JsonModel) -> Option<NonUserCancelModel> {
        let coin = text_member(doc, "coin"@);
        let oid = integer_member(doc, "oid"@);
        if coin is Some && oid is Some {
            Some(
                NonUserCancelModel {
                    coin: coin->0,
                    oid: oid->0,
                },
            )
        } else {
            None
        }
    }

    fn decode(doc: &JsonValue) -> (record: Option<Self>) {
        let coin = get_text(doc, "coin")?;
        let oid = get_integer(doc, "oid")?;
        Some(NonUserCancel { coin, oid })
    }
}

impl FromJson for UserEventMessage {
    open spec fn of(doc: JsonModel) -> Option<UserEventMessageModel> {
        let channel = text_member(doc, "channel"@);
        let data = record_member::<UserEvent>(doc, "data"@);
        if channel is Some && data is Some {
            Some(
                UserEventMessageModel {
                    channel: channel->0,
                    data: data->0,
                },
            )
        } else {
            None
        }
    }

    fn decode(doc: &JsonValue) -> (record: Option<Self>) {
        let channel = get_text(doc, "channel")?;
        let data = get_record::<UserEvent>(doc, "data")?;
        Some(UserEventMessage { channel, data })
    }
}

impl FromJson for Notification {
    open spec fn of(doc: JsonModel) -> Option<NotificationModel> {
        let notification = text_member(doc, "notification"@);
        if notification is Some {
            Some(
                NotificationModel {
                    notification: notification->0,
                },
            )
        } else {
            None
        }
    }

    fn decode(doc: &JsonValue) -> (record: Option<Self>) {
        let notification = get_text(doc, "notification")?;
        Some(Notification { notification })
    }
}

impl FromJson for NotificationMessage {
    open spec fn of(doc: JsonModel) -> Option<NotificationMessageModel> {
        let channel = text_member(doc, "channel"@);
        let data = record_member::<Notification>(doc, "data"@);
        if channel is Some && data is Some {
            Some(
                NotificationMessageModel {
                    channel: channel->0,
                    data: data->0,
                },
            )
        } else {
            None
        }
    }

    fn decode(doc: &JsonValue) -> (record: Option<Self>) {
        let channel = get_text(doc, "channel")?;
        let data = get_record::<Notification>(doc, "data")?;
        Some(NotificationMessage { channel, data })
    }
}

impl FromJson for Channel {
    open spec fn of(doc: JsonModel) -> Option<ChannelModel> {
        let channel = text_member(doc, "channel"@);
        if channel is Some {
            Some(
                ChannelModel {
                    channel: channel->0,
                },
            )
        } else {
            None
        }
    }

    fn decode(doc: &JsonValue) -> (record: Option<Self>) {
        let channel = get_text(doc, "channel")?;
        Some(Channel { channel })
    }
}

impl FromJson for UserEvent {
    open spec fn of(doc: JsonModel) -> Option<UserEventModel> {
        if list_member::<Fill>(doc, "fills"@) is Some {
            Some(UserEventModel::Fills { fills: list_member::<Fill>(doc, "fills"@)->0 })
        } else if record_member::<UserFunding>(doc, "funding"@) is Some {
            Some(
                UserEventModel::Funding {
                    funding: record_member::<UserFunding>(doc, "funding"@)->0,
                },
            )
        } else if record_member::<Liquidation>(doc, "liquidation"@) is Some {
            Some(
                UserEventModel::Liquidation {
                    liquidation: record_member::<Liquidation>(doc, "liquidation"@)->0,
                },
            )
        } else if list_member::<NonUserCancel>(doc, "non_user_cancel"@) is Some {
            Some(
                UserEventModel::NonUserCancel {
                    non_user_cancel: list_member::<NonUserCancel>(doc, "non_user_cancel"@)->0,
                },
            )
        } else {
            None
        }
    }

    fn decode(doc: &JsonValue) -> (record: Option<Self>) {
        if let Some(fills) = get_list::<Fill>(doc, "fills") {
            return Some(UserEvent::Fills { fills });
        }
        if let Some(funding) = get_record::<UserFunding>(doc, "funding") {
            return Some(UserEvent::Funding { funding });
        }
        if let Some(liquidation) = get_record::<Liquidation>(doc, "liquidation") {
            return Some(UserEvent::Liquidation { liquidation });
        }
        if let Some(non_user_cancel) = get_list::<NonUserCancel>(doc, "non_user_cancel") {
            return Some(UserEvent::NonUserCancel { non_user_cancel });
        }
        None
    }
}

} // verus!
