//! JSON documents as trees of plain values, and the parser that reads them.

use serde_json::Value;
use vstd::prelude::*;

verus! {

/// A JSON number, kept in the form in which it was written.
#[derive(Debug, PartialEq, Eq)]
pub enum JsonNumber {
    /// A non-negative integer.
    PosInt(u64),
    /// A negative integer.
    NegInt(i64),
    /// Any other number, as its decimal text.
    Real(String),
}

/// The mathematical value of a [`JsonNumber`].
pub enum NumberValue {
    PosInt(u64),
    NegInt(i64),
    Real(Seq<char>),
}

impl DeepView for JsonNumber {
    type V = NumberValue;

    open spec fn deep_view(&self) -> NumberValue {
        match self {
            JsonNumber::PosInt(u) => NumberValue::PosInt(*u),
            JsonNumber::NegInt(i) => NumberValue::NegInt(*i),
            JsonNumber::Real(t) => NumberValue::Real(t@),
        }
    }
}

impl NumberValue {
    /// The integer that the number denotes, if it is written as one.
    pub open spec fn integer(self) -> Option<int> {
        match self {
            NumberValue::PosInt(u) => Some(u as int),
            NumberValue::NegInt(i) => Some(i as int),
            NumberValue::Real(_) => None,
        }
    }
}

impl JsonNumber {
    /// A copy of the number.
    pub fn duplicate(&self) -> (r: JsonNumber)
        ensures
            r.deep_view() == self.deep_view(),
    {
        match self {
            JsonNumber::PosInt(u) => JsonNumber::PosInt(*u),
            JsonNumber::NegInt(i) => JsonNumber::NegInt(*i),
            JsonNumber::Real(t) => JsonNumber::Real(t.clone()),
        }
    }
}

/// One member of a JSON object.
#[derive(Debug, PartialEq, Eq)]
pub struct Member {
    pub key: String,
    pub value: Json,
}

/// A JSON document as a tree of plain values.
#[derive(Debug, PartialEq, Eq)]
pub enum Json {
    Null,
    Bool(bool),
    Number(JsonNumber),
    Text(String),
    Array(Vec<Json>),
    Object(Vec<Member>),
}

/// The mathematical value of a JSON document. The members of an object are
/// kept in the order in which the document holds them.
pub enum JsonValue {
    Null,
    Bool(bool),
    Number(NumberValue),
    Text(Seq<char>),
    Array(Seq<JsonValue>),
    Object(Seq<(Seq<char>, JsonValue)>),
}

/// The value of a document: each item and member by its own value.
pub open spec fn value_of(j: Json) -> JsonValue
    decreases j,
{
    match j {
        Json::Null => JsonValue::Null,
        Json::Bool(b) => JsonValue::Bool(b),
        Json::Number(n) => JsonValue::Number(n.deep_view()),
        Json::Text(s) => JsonValue::Text(s@),
        Json::Array(items) => JsonValue::Array(
            Seq::new(
                items.len() as nat,
                |i: int|
                    if 0 <= i < items.len() {
                        value_of(items[i])
                    } else {
                        JsonValue::Null
                    },
            ),
        ),
        Json::Object(members) => JsonValue::Object(
            Seq::new(
                members.len() as nat,
                |i: int|
                    if 0 <= i < members.len() {
                        (members[i].key@, value_of(members[i].value))
                    } else {
                        (Seq::empty(), JsonValue::Null)
                    },
            ),
        ),
    }
}

impl DeepView for Json {
    type V = JsonValue;

    open spec fn deep_view(&self) -> JsonValue {
        value_of(*self)
    }
}

impl DeepView for Member {
    type V = (Seq<char>, JsonValue);

    open spec fn deep_view(&self) -> (Seq<char>, JsonValue) {
        (self.key@, value_of(self.value))
    }
}

/// The value of an array is the run of its items' values.
pub proof fn lemma_array_value(items: Vec<Json>)
    ensures
        Json::Array(items).deep_view() == JsonValue::Array(items.deep_view()),
{
    assert(Json::Array(items).deep_view()->Array_0 =~= items.deep_view());
}

/// The value of an object is the run of its members' keys and values.
pub proof fn lemma_object_value(members: Vec<Member>)
    ensures
        Json::Object(members).deep_view() == JsonValue::Object(members.deep_view()),
{
    assert(Json::Object(members).deep_view()->Object_0 =~= members.deep_view());
}

/// The position of the first member from `from` on whose key is `key`.
pub open spec fn position(members: Seq<(Seq<char>, JsonValue)>, key: Seq<char>, from: int) -> Option<int>
    decreases members.len() - from,
{
    if from < 0 || from >= members.len() {
        None
    } else if members[from].0 == key {
        Some(from)
    } else {
        position(members, key, from + 1)
    }
}

/// The value of the first member whose key is `key`.
pub open spec fn lookup(members: Seq<(Seq<char>, JsonValue)>, key: Seq<char>) -> Option<JsonValue> {
    match position(members, key, 0) {
        Some(i) => Some(members[i].1),
        None => None,
    }
}

/// What [`position`] finds is a member with that key, and the first one.
pub proof fn lemma_position(members: Seq<(Seq<char>, JsonValue)>, key: Seq<char>, from: int)
    requires
        0 <= from,
    ensures
        match position(members, key, from) {
            Some(i) => from <= i < members.len() && members[i].0 == key && forall|k: int|
                from <= k < i ==> members[k].0 != key,
            None => forall|k: int| from <= k < members.len() ==> members[k].0 != key,
        },
    decreases members.len() - from,
{
    if from < members.len() && members[from].0 != key {
        lemma_position(members, key, from + 1);
    }
}

/// `serde_json::Value`, as the parser hands it over. Nothing is known of
/// what a value holds but through [`document`].
#[verifier::external_type_specification]
#[verifier::external_body]
pub struct ExValue(Value);

/// The document that a parsed `serde_json::Value` stands for.
pub uninterp spec fn document(value: Value) -> JsonValue;

/// What the JSON parser makes of a text: the document that it holds, or the
/// parser's complaint where the text is no JSON.
pub uninterp spec fn parsed(bytes: Seq<u8>) -> Result<JsonValue, Seq<char>>;

/// `serde_json::from_slice`, read into a `serde_json::Value`. The contract
/// claims only that the outcome is settled by the bytes: the document read,
/// or the text of the parser's error.
#[verifier::external_body]
fn read_value(bytes: &[u8]) -> (r: Result<Value, String>)
    ensures
        match r {
            Ok(value) => parsed(bytes@) == Ok::<JsonValue, Seq<char>>(document(value)),
            Err(complaint) => parsed(bytes@) == Err::<JsonValue, Seq<char>>(complaint@),
        },
{
    match serde_json::from_slice::<Value>(bytes) {
        Ok(value) => Ok(value),
        Err(error) => Err(error.to_string()),
    }
}

/// Moves a `serde_json::Value` into a [`Json`], variant by variant; a number
/// through `Number::as_u64`, `Number::as_i64` and its `to_string`. The
/// contract claims only that the tree is settled by the value.
#[verifier::external_body]
fn tree_of(value: Value) -> (r: Json)
    ensures
        r.deep_view() == document(value),
{
    match value {
        Value::Null => Json::Null,
        Value::Bool(b) => Json::Bool(b),
        Value::Number(n) => Json::Number(match (n.as_u64(), n.as_i64()) {
            (Some(u), _) => JsonNumber::PosInt(u),
            (None, Some(i)) => JsonNumber::NegInt(i),
            (None, None) => JsonNumber::Real(n.to_string()),
        }),
        Value::String(s) => Json::Text(s),
        Value::Array(a) => Json::Array(a.into_iter().map(tree_of).collect()),
        Value::Object(m) => Json::Object(m.into_iter().map(|(key, v)| Member { key, value: tree_of(v) }).collect()),
    }
}

/// Reads a JSON text into a tree, or hands back the parser's complaint.
pub fn parse(bytes: &[u8]) -> (r: Result<Json, String>)
    ensures
        match r {
            Ok(tree) => parsed(bytes@) == Ok::<JsonValue, Seq<char>>(tree.deep_view()),
            Err(complaint) => parsed(bytes@) == Err::<JsonValue, Seq<char>>(complaint@),
        },
{
    match read_value(bytes) {
        Ok(value) => Ok(tree_of(value)),
        Err(complaint) => Err(complaint),
    }
}

} // verus!
