//! JSON documents as plain values, read and written with `serde_json`.

use crate::text::str_eq;
use vstd::prelude::*;

verus! {

/// A JSON number: a non-negative integer, a negative integer, or any other
/// number as its decimal text.
#[derive(Debug, Clone, PartialEq, Eq)]
pub enum JsonNumber {
    Unsigned(u64),
    Negative(i64),
    Float(String),
}

/// A JSON document.
#[derive(Debug, PartialEq, Eq)]
pub enum JsonValue {
    Null,
    Bool(bool),
    Number(JsonNumber),
    Text(String),
    Array(Vec<JsonValue>),
    /// The members of an object, in the order in which they are held.
    Object(Vec<(String, JsonValue)>),
}

/// The mathematical model of a [`JsonNumber`].
pub enum NumberModel {
    Unsigned(u64),
    Negative(i64),
    Float(Seq<char>),
}

impl NumberModel {
    /// The number as a signed integer of 64 bits, where it is one.
    pub open spec fn integer(self) -> Option<i64> {
        match self {
            NumberModel::Unsigned(u) => if u <= i64::MAX {
                Some(u as i64)
            } else {
                None
            },
            NumberModel::Negative(i) => Some(i),
            NumberModel::Float(_) => None,
        }
    }

    /// The number that `serde_json` reports through `Number::as_u64`,
    /// `Number::as_i64` and its text.
    pub open spec fn of_parts(
        unsigned: Option<u64>,
        signed: Option<i64>,
        text: Seq<char>,
    ) -> NumberModel {
        match (unsigned, signed) {
            (Some(u), _) => NumberModel::Unsigned(u),
            (None, Some(i)) => NumberModel::Negative(i),
            (None, None) => NumberModel::Float(text),
        }
    }
}

/// The mathematical model of a [`JsonValue`].
pub enum JsonModel {
    Null,
    Bool(bool),
    Number(NumberModel),
    Text(Seq<char>),
    Array(Seq<JsonModel>),
    Object(Seq<(Seq<char>, JsonModel)>),
}

impl DeepView for JsonNumber {
    type V = NumberModel;

    open spec fn deep_view(&self) -> NumberModel {
        match self {
            JsonNumber::Unsigned(u) => NumberModel::Unsigned(*u),
            JsonNumber::Negative(i) => NumberModel::Negative(*i),
            JsonNumber::Float(text) => NumberModel::Float(text@),
        }
    }
}

impl DeepView for JsonValue {
    type V = JsonModel;

    open spec fn deep_view(&self) -> JsonModel
        decreases self,
    {
        match self {
            JsonValue::Null => JsonModel::Null,
            JsonValue::Bool(b) => JsonModel::Bool(*b),
            JsonValue::Number(n) => JsonModel::Number(n.deep_view()),
            JsonValue::Text(s) => JsonModel::Text(s@),
            JsonValue::Array(items) => JsonModel::Array(
                Seq::new(
                    items@.len(),
                    |i: int|
                        if 0 <= i < items@.len() {
                            items@[i].deep_view()
                        } else {
                            JsonModel::Null
                        },
                ),
            ),
            JsonValue::Object(members) => JsonModel::Object(
                Seq::new(
                    members@.len(),
                    |i: int|
                        if 0 <= i < members@.len() {
                            (members@[i].0@, members@[i].1.deep_view())
                        } else {
                            (Seq::empty(), JsonModel::Null)
                        },
                ),
            ),
        }
    }
}

/// The first member of `members` whose name is `key`.
pub open spec fn find_member(members: Seq<(Seq<char>, JsonModel)>, key: Seq<char>) -> Option<
    JsonModel,
>
    decreases members.len(),
{
    if members.len() == 0 {
        None
    } else if members[0].0 == key {
        Some(members[0].1)
    } else {
        find_member(members.drop_first(), key)
    }
}

impl JsonModel {
    /// The member `key` of an object; `None` of any other document.
    pub open spec fn member(self, key: Seq<char>) -> Option<JsonModel> {
        match self {
            JsonModel::Object(members) => find_member(members, key),
            _ => None,
        }
    }

    /// The characters of a string.
    pub open spec fn text(self) -> Option<Seq<char>> {
        match self {
            JsonModel::Text(s) => Some(s),
            _ => None,
        }
    }

    /// The value of a number that is a signed integer of 64 bits.
    pub open spec fn integer(self) -> Option<i64> {
        match self {
            JsonModel::Number(n) => n.integer(),
            _ => None,
        }
    }

    /// A number.
    pub open spec fn number(self) -> Option<NumberModel> {
        match self {
            JsonModel::Number(n) => Some(n),
            _ => None,
        }
    }

    /// The value of a boolean.
    pub open spec fn boolean(self) -> Option<bool> {
        match self {
            JsonModel::Bool(b) => Some(b),
            _ => None,
        }
    }

    /// The items of an array.
    pub open spec fn items(self) -> Option<Seq<JsonModel>> {
        match self {
            JsonModel::Array(items) => Some(items),
            _ => None,
        }
    }

    /// The members of an object.
    pub open spec fn members(self) -> Option<Seq<(Seq<char>, JsonModel)>> {
        match self {
            JsonModel::Object(members) => Some(members),
            _ => None,
        }
    }
}

impl JsonNumber {
    /// The number as a signed integer of 64 bits, where it is one.
    pub fn as_integer(&self) -> (integer: Option<i64>)
        ensures
            integer == self.deep_view().integer(),
    {
        match self {
            JsonNumber::Unsigned(u) => if *u <= 9223372036854775807 {
                Some(*u as i64)
            } else {
                None
            },
            JsonNumber::Negative(i) => Some(*i),
            JsonNumber::Float(_) => None,
        }
    }

    /// A copy of the number.
    pub fn duplicate(&self) -> (copy: JsonNumber)
        ensures
            copy.deep_view() == self.deep_view(),
    {
        match self {
            JsonNumber::Unsigned(u) => JsonNumber::Unsigned(*u),
            JsonNumber::Negative(i) => JsonNumber::Negative(*i),
            JsonNumber::Float(text) => JsonNumber::Float(text.clone()),
        }
    }
}

impl JsonValue {
    /// The member `key` of an object: the first one of that name.
    pub fn get(&self, key: &str) -> (found: Option<&JsonValue>)
        ensures
            found.deep_view() == self.deep_view().member(key@),
    {
        proof {
            reveal_with_fuel(<JsonValue as DeepView>::deep_view, 2);
        }
        match self {
            JsonValue::Object(members) => {
                let ghost all = self.deep_view()->Object_0;
                let mut i: usize = 0;
                assert(all.skip(0) =~= all);
                while i < members.len()
                    invariant
                        i <= members@.len(),
                        self.deep_view() == JsonModel::Object(all),
                        all.len() == members@.len(),
                        forall|k: int|
                            0 <= k < members@.len() ==> all[k] == (
                                (#[trigger] members@[k]).0@,
                                members@[k].1.deep_view(),
                            ),
                        find_member(all, key@) == find_member(all.skip(i as int), key@),
                    decreases members@.len() - i,
                {
                    proof {
                        assert(all.skip(i as int).drop_first() =~= all.skip(i + 1));
                        assert(all.skip(i as int)[0] == all[i as int]);
                    }
                    if str_eq(members[i].0.as_str(), key) {
                        return Some(&members[i].1);
                    }
                    i += 1;
                }
                None
            },
            _ => None,
        }
    }

    pub fn as_text(&self) -> (text: Option<&String>)
        ensures
            text.deep_view() == self.deep_view().text(),
    {
        match self {
            JsonValue::Text(s) => Some(s),
            _ => None,
        }
    }

    pub fn as_integer(&self) -> (integer: Option<i64>)
        ensures
            integer == self.deep_view().integer(),
    {
        match self {
            JsonValue::Number(n) => n.as_integer(),
            _ => None,
        }
    }

    pub fn as_number(&self) -> (number: Option<&JsonNumber>)
        ensures
            number.deep_view() == self.deep_view().number(),
    {
        match self {
            JsonValue::Number(n) => Some(n),
            _ => None,
        }
    }

    pub fn as_bool(&self) -> (b: Option<bool>)
        ensures
            b == self.deep_view().boolean(),
    {
        match self {
            JsonValue::Bool(b) => Some(*b),
            _ => None,
        }
    }

    pub fn as_items(&self) -> (items: Option<&Vec<JsonValue>>)
        ensures
            items.deep_view() == self.deep_view().items(),
    {
        proof {
            reveal_with_fuel(<JsonValue as DeepView>::deep_view, 2);
        }
        match self {
            JsonValue::Array(items) => {
                assert(items.deep_view() =~= self.deep_view()->Array_0);
                Some(items)
            },
            _ => None,
        }
    }

    pub fn as_members(&self) -> (members: Option<&Vec<(String, JsonValue)>>)
        ensures
            members.deep_view() == self.deep_view().members(),
    {
        proof {
            reveal_with_fuel(<JsonValue as DeepView>::deep_view, 2);
        }
        match self {
            JsonValue::Object(members) => {
                assert(members.deep_view() =~= self.deep_view()->Object_0);
                Some(members)
            },
            _ => None,
        }
    }

    pub fn is_null(&self) -> (null: bool)
        ensures
            null == (self.deep_view() == JsonModel::Null),
    {
        match self {
            JsonValue::Null => true,
            _ => false,
        }
    }
}

/// `serde_json::Value`, carried from the parser to [`lift`] and no further.
#[verifier::external_type_specification]
#[verifier::external_body]
pub struct ExValue(serde_json::Value);

/// The document that a `serde_json::Value` holds.
pub uninterp spec fn json_tree(value: serde_json::Value) -> JsonModel;

/// What `serde_json::from_str` makes of a text: the document it reads, or
/// `None` where it reports an error.
pub uninterp spec fn json_document(text: Seq<char>) -> Option<JsonModel>;

/// What `serde_json::to_string` writes for a string slice: the text as one JSON
/// string, quotation marks and escapes in place.
pub uninterp spec fn json_quoted(text: Seq<char>) -> Seq<char>;

/// One level of a `serde_json::Value`: its variant, with scalars copied out
/// and the children still in the parser's own type.
enum Unfolded<'a> {
    Null,
    Bool(bool),
    /// What `Number::as_u64` and `Number::as_i64` give, and the number's text.
    Number(Option<u64>, Option<i64>, String),
    Text(String),
    Array(Vec<&'a serde_json::Value>),
    Object(Vec<(String, &'a serde_json::Value)>),
}

impl<'a> Unfolded<'a> {
    /// This level shows exactly the top of `tree`, child by child.
    spec fn shows(self, tree: JsonModel) -> bool {
        match self {
            Unfolded::Null => tree == JsonModel::Null,
            Unfolded::Bool(b) => tree == JsonModel::Bool(b),
            Unfolded::Number(unsigned, signed, text) => tree == JsonModel::Number(
                NumberModel::of_parts(unsigned, signed, text@),
            ),
            Unfolded::Text(text) => tree == JsonModel::Text(text@),
            Unfolded::Array(items) => {
                &&& tree matches JsonModel::Array(children)
                &&& children.len() == items@.len()
                &&& forall|i: int|
                    0 <= i < items@.len() ==> json_tree(*#[trigger] items@[i]) == children[i]
            },
            Unfolded::Object(members) => {
                &&& tree matches JsonModel::Object(children)
                &&& children.len() == members@.len()
                &&& forall|i: int|
                    0 <= i < members@.len() ==> {
                        &&& (#[trigger] members@[i]).0@ == children[i].0
                        &&& json_tree(*members@[i].1) == children[i].1
                    }
            },
        }
    }
}

/// Calls `serde_json::from_str` for a `serde_json::Value`. The contract names
/// the outcome and says nothing of which texts are read.
#[verifier::external_body]
fn read_document(text: &str) -> (parsed: Option<serde_json::Value>)
    ensures
        match parsed {
            Some(value) => json_document(text@) == Some(json_tree(value)),
            None => json_document(text@) is None,
        },
{
    serde_json::from_str::<serde_json::Value>(text).ok()
}

/// Tells the six variants of `serde_json::Value` apart. A number is handed
/// out through `Number::as_u64`, `Number::as_i64` and its `Display` text, a
/// string is copied, and the items of an array and the members of an object
/// (`Map::iter`) come as references, in the order in which the value holds
/// them.
#[verifier::external_body]
fn unfold<'a>(value: &'a serde_json::Value) -> (level: Unfolded<'a>)
    ensures
        level.shows(json_tree(*value)),
{
    match value {
        serde_json::Value::Null => Unfolded::Null,
        serde_json::Value::Bool(b) => Unfolded::Bool(*b),
        serde_json::Value::Number(n) => Unfolded::Number(n.as_u64(), n.as_i64(), n.to_string()),
        serde_json::Value::String(s) => Unfolded::Text(s.clone()),
        serde_json::Value::Array(items) => Unfolded::Array(items.iter().collect()),
        serde_json::Value::Object(map) => Unfolded::Object(
            map.iter().map(|(k, v)| (k.clone(), v)).collect(),
        ),
    }
}

/// Calls `serde_json::to_string` on a string slice, which cannot fail: a
/// string is always serialisable and the writer is in memory.
#[verifier::external_body]
fn quote(text: &str) -> (quoted: String)
    ensures
        quoted@ == json_quoted(text@),
{
    match serde_json::to_string(text) {
        Ok(quoted) => quoted,
        Err(_) => String::new(),
    }
}

/// Copies a parsed document into the library's own type.
fn lift(value: &serde_json::Value) -> (doc: JsonValue)
    ensures
        doc.deep_view() == json_tree(*value),
    decreases json_tree(*value),
{
    match unfold(value) {
        Unfolded::Null => JsonValue::Null,
        Unfolded::Bool(b) => JsonValue::Bool(b),
        Unfolded::Number(unsigned, signed, text) => JsonValue::Number(
            match (unsigned, signed) {
                (Some(u), _) => JsonNumber::Unsigned(u),
                (None, Some(i)) => JsonNumber::Negative(i),
                (None, None) => JsonNumber::Float(text),
            },
        ),
        Unfolded::Text(text) => JsonValue::Text(text),
        Unfolded::Array(items) => {
            let ghost children = json_tree(*value)->Array_0;
            let mut out: Vec<JsonValue> = Vec::new();
            let mut i: usize = 0;
            while i < items.len()
                invariant
                    i <= items@.len(),
                    out@.len() == i,
                    json_tree(*value) == JsonModel::Array(children),
                    children.len() == items@.len(),
                    forall|k: int|
                        0 <= k < items@.len() ==> json_tree(*#[trigger] items@[k]) == children[k],
                    forall|k: int| 0 <= k < i ==> (#[trigger] out@[k]).deep_view() == children[k],
                decreases items@.len() - i,
            {
                proof {
                    let tree = json_tree(*value);
                    assert(json_tree(*items@[i as int]) == children[i as int]);
                    assert(decreases_to!(tree => tree->Array_0));
                    assert(decreases_to!(tree->Array_0 => tree->Array_0[i as int]));
                }
                let item = lift(items[i]);
                out.push(item);
                i += 1;
            }
            let doc = JsonValue::Array(out);
            assert(doc.deep_view()->Array_0 =~= children);
            doc
        },
        Unfolded::Object(members) => {
            let ghost children = json_tree(*value)->Object_0;
            let mut out: Vec<(String, JsonValue)> = Vec::new();
            let mut i: usize = 0;
            while i < members.len()
                invariant
                    i <= members@.len(),
                    out@.len() == i,
                    json_tree(*value) == JsonModel::Object(children),
                    children.len() == members@.len(),
                    forall|k: int|
                        0 <= k < members@.len() ==> {
                            &&& (#[trigger] members@[k]).0@ == children[k].0
                            &&& json_tree(*members@[k].1) == children[k].1
                        },
                    forall|k: int|
                        0 <= k < i ==> {
                            &&& (#[trigger] out@[k]).0@ == children[k].0
                            &&& out@[k].1.deep_view() == children[k].1
                        },
                decreases members@.len() - i,
            {
                let key = members[i].0.clone();
                proof {
                    let tree = json_tree(*value);
                    assert(json_tree(*members@[i as int].1) == children[i as int].1);
                    assert(decreases_to!(tree => tree->Object_0));
                    assert(decreases_to!(tree->Object_0 => tree->Object_0[i as int]));
                    assert(decreases_to!(tree->Object_0[i as int] => tree->Object_0[i as int].1));
                }
                let member = lift(members[i].1);
                out.push((key, member));
                i += 1;
            }
            let doc = JsonValue::Object(out);
            assert(doc.deep_view()->Object_0 =~= children);
            doc
        },
    }
}

/// Reads a JSON text. `None` where the text is no JSON document.
pub fn parse_json(text: &str) -> (doc: Option<JsonValue>)
    ensures
        doc.deep_view() == json_document(text@),
{
    match read_document(text) {
        Some(value) => Some(lift(&value)),
        None => None,
    }
}

/// Writes `text` as one JSON string.
pub fn quote_json_string(text: &str) -> (quoted: String)
    ensures
        quoted@ == json_quoted(text@),
{
    quote(text)
}

} // verus!
