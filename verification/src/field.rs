//! Reading the members of JSON objects: lookups, typed readers, and the
//! paths by which a value at fault is reported.

use crate::json::{lookup, position, Json, JsonNumber, JsonValue, Member, NumberValue};
use crate::text::same_text;
use vstd::prelude::*;
use vstd::string::*;

verus! {

/// One step on the way from the root of a document to a value inside it.
#[derive(Debug, PartialEq, Eq)]
pub enum Step {
    /// Into the member of an object with this key.
    Key(String),
    /// Into the item of an array at this position.
    Index(usize),
}

/// The mathematical value of a [`Step`].
pub enum StepValue {
    Key(Seq<char>),
    Index(nat),
}

impl DeepView for Step {
    type V = StepValue;

    open spec fn deep_view(&self) -> StepValue {
        match self {
            Step::Key(k) => StepValue::Key(k@),
            Step::Index(i) => StepValue::Index(*i as nat),
        }
    }
}

/// The place of a value in a document: the steps that lead to it from the root.
#[derive(Debug, PartialEq, Eq)]
pub struct FieldPath {
    pub steps: Vec<Step>,
}

impl DeepView for FieldPath {
    type V = Seq<StepValue>;

    open spec fn deep_view(&self) -> Seq<StepValue> {
        self.steps.deep_view()
    }
}

/// What a failed reading reports: the path of the value at fault.
pub type Fault = Seq<StepValue>;

/// The path of the member `name` of the value at hand.
pub open spec fn at(name: Seq<char>) -> Seq<StepValue> {
    seq![StepValue::Key(name)]
}

/// The path `rest`, seen from the object that holds its start as member `name`.
pub open spec fn below(name: Seq<char>, rest: Seq<StepValue>) -> Seq<StepValue> {
    seq![StepValue::Key(name)] + rest
}

/// The path `rest`, seen from the array that holds its start as item `index`.
pub open spec fn below_index(index: nat, rest: Seq<StepValue>) -> Seq<StepValue> {
    seq![StepValue::Index(index)] + rest
}

/// A result as a mathematical value: what it holds, by its value.
pub open spec fn outcome<T: DeepView, E: DeepView>(r: Result<T, E>) -> Result<T::V, E::V> {
    match r {
        Ok(t) => Ok(t.deep_view()),
        Err(e) => Err(e.deep_view()),
    }
}

/// The result `r` of reading member `name`, with a failure's path made to
/// start at the object that holds the member.
pub open spec fn prefixed<T>(name: Seq<char>, r: Result<T, Seq<StepValue>>) -> Result<
    T,
    Seq<StepValue>,
> {
    match r {
        Ok(t) => Ok(t),
        Err(p) => Err(below(name, p)),
    }
}

/// The result `r` of reading item `index`, with a failure's path made to
/// start at the array that holds the item.
pub open spec fn prefixed_index<T>(index: nat, r: Result<T, Seq<StepValue>>) -> Result<
    T,
    Seq<StepValue>,
> {
    match r {
        Ok(t) => Ok(t),
        Err(p) => Err(below_index(index, p)),
    }
}

impl FieldPath {
    /// The path of the value at hand itself.
    pub fn root() -> (r: FieldPath)
        ensures
            r.deep_view() == Seq::<StepValue>::empty(),
    {
        let r = FieldPath { steps: Vec::new() };
        assert(r.deep_view() =~= Seq::<StepValue>::empty());
        r
    }

    /// The path of the member `name`.
    pub fn at(name: &str) -> (r: FieldPath)
        ensures
            r.deep_view() == at(name@),
    {
        let mut steps: Vec<Step> = Vec::new();
        steps.push(Step::Key(String::from_str(name)));
        let r = FieldPath { steps };
        assert(r.deep_view() =~= at(name@));
        r
    }

    /// This path, seen from one level up: from the object whose member
    /// `name` holds the path's start.
    pub fn below(self, name: &str) -> (r: FieldPath)
        ensures
            r.deep_view() == below(name@, self.deep_view()),
    {
        let ghost before = self.deep_view();
        let mut steps = self.steps;
        steps.insert(0, Step::Key(String::from_str(name)));
        let r = FieldPath { steps };
        assert(r.deep_view() =~= below(name@, before));
        r
    }

    /// This path, seen from one level up: from the array whose item `index`
    /// holds the path's start.
    pub fn below_index(self, index: usize) -> (r: FieldPath)
        ensures
            r.deep_view() == below_index(index as nat, self.deep_view()),
    {
        let ghost before = self.deep_view();
        let mut steps = self.steps;
        steps.insert(0, Step::Index(index));
        let r = FieldPath { steps };
        assert(r.deep_view() =~= below_index(index as nat, before));
        r
    }
}

/// Puts the name of the member in front of the path of a failure.
pub fn prefix<T: DeepView>(r: Result<T, FieldPath>, name: &str) -> (out: Result<T, FieldPath>)
    ensures
        outcome(out) == prefixed(name@, outcome(r)),
{
    match r {
        Ok(t) => Ok(t),
        Err(p) => Err(p.below(name)),
    }
}

/// Puts the position of the item in front of the path of a failure.
pub fn prefix_index<T: DeepView>(r: Result<T, FieldPath>, index: usize) -> (out: Result<
    T,
    FieldPath,
>)
    ensures
        outcome(out) == prefixed_index(index as nat, outcome(r)),
{
    match r {
        Ok(t) => Ok(t),
        Err(p) => Err(p.below_index(index)),
    }
}

/// The value of the first member of `members` whose key is `name`.
pub fn find<'a>(members: &'a Vec<Member>, name: &str) -> (r: Option<&'a Json>)
    ensures
        r.deep_view() == lookup(members.deep_view(), name@),
{
    let ghost all = members.deep_view();
    let mut i: usize = 0;
    while i < members.len()
        invariant
            i <= members.len(),
            all == members.deep_view(),
            position(all, name@, 0) == position(all, name@, i as int),
        decreases members.len() - i,
    {
        if same_text(members[i].key.as_str(), name) {
            return Some(&members[i].value);
        }
        i += 1;
    }
    None
}

/// The value of a member that may stand under either of two keys. A
/// document that holds both keys is at fault.
pub open spec fn lookup_either(
    members: Seq<(Seq<char>, JsonValue)>,
    name: Seq<char>,
    alias: Seq<char>,
) -> Result<Option<JsonValue>, Seq<StepValue>> {
    match (lookup(members, name), lookup(members, alias)) {
        (Some(_), Some(_)) => Err(at(name)),
        (Some(v), None) => Ok(Some(v)),
        (None, other) => Ok(other),
    }
}

/// The value of the member that stands under `name` or under `alias`.
pub fn find_either<'a>(members: &'a Vec<Member>, name: &str, alias: &str) -> (r: Result<
    Option<&'a Json>,
    FieldPath,
>)
    ensures
        outcome(r) == lookup_either(members.deep_view(), name@, alias@),
{
    let long = find(members, name);
    let short = find(members, alias);
    match long {
        Some(v) => match short {
            Some(_) => Err(FieldPath::at(name)),
            None => Ok(Some(v)),
        },
        None => Ok(short),
    }
}

/// A member that must hold a string.
pub open spec fn text_in(slot: Option<JsonValue>, name: Seq<char>) -> Result<
    Seq<char>,
    Seq<StepValue>,
> {
    match slot {
        Some(JsonValue::Text(t)) => Ok(t),
        _ => Err(at(name)),
    }
}

/// A member that holds a string, or is `null` or absent.
pub open spec fn optional_text_in(slot: Option<JsonValue>, name: Seq<char>) -> Result<
    Option<Seq<char>>,
    Seq<StepValue>,
> {
    match slot {
        None => Ok(None),
        Some(JsonValue::Null) => Ok(None),
        Some(JsonValue::Text(t)) => Ok(Some(t)),
        _ => Err(at(name)),
    }
}

/// A member that must hold `true` or `false`.
pub open spec fn flag_in(slot: Option<JsonValue>, name: Seq<char>) -> Result<bool, Seq<StepValue>> {
    match slot {
        Some(JsonValue::Bool(b)) => Ok(b),
        _ => Err(at(name)),
    }
}

/// A member that holds `true` or `false`, or is `null` or absent.
pub open spec fn optional_flag_in(slot: Option<JsonValue>, name: Seq<char>) -> Result<
    Option<bool>,
    Seq<StepValue>,
> {
    match slot {
        None => Ok(None),
        Some(JsonValue::Null) => Ok(None),
        Some(JsonValue::Bool(b)) => Ok(Some(b)),
        _ => Err(at(name)),
    }
}

/// A member that must hold a number of any form.
pub open spec fn number_in(slot: Option<JsonValue>, name: Seq<char>) -> Result<
    NumberValue,
    Seq<StepValue>,
> {
    match slot {
        Some(JsonValue::Number(n)) => Ok(n),
        _ => Err(at(name)),
    }
}

/// A member that must hold an integer from `low` to `high`.
pub open spec fn integer_in(slot: Option<JsonValue>, name: Seq<char>, low: int, high: int) -> Result<
    int,
    Seq<StepValue>,
> {
    match slot {
        Some(JsonValue::Number(n)) => match n.integer() {
            Some(v) => if low <= v <= high {
                Ok(v)
            } else {
                Err(at(name))
            },
            None => Err(at(name)),
        },
        _ => Err(at(name)),
    }
}

/// A member that must hold an integer that fits 64 bits with a sign.
pub open spec fn i64_in(slot: Option<JsonValue>, name: Seq<char>) -> Result<i64, Seq<StepValue>> {
    match integer_in(slot, name, i64::MIN as int, i64::MAX as int) {
        Ok(v) => Ok(v as i64),
        Err(p) => Err(p),
    }
}

/// A member that must hold an integer that fits 64 bits without a sign.
pub open spec fn u64_in(slot: Option<JsonValue>, name: Seq<char>) -> Result<u64, Seq<StepValue>> {
    match integer_in(slot, name, 0, u64::MAX as int) {
        Ok(v) => Ok(v as u64),
        Err(p) => Err(p),
    }
}

/// A member that must hold an integer that fits 32 bits without a sign.
pub open spec fn u32_in(slot: Option<JsonValue>, name: Seq<char>) -> Result<u32, Seq<StepValue>> {
    match integer_in(slot, name, 0, u32::MAX as int) {
        Ok(v) => Ok(v as u32),
        Err(p) => Err(p),
    }
}

/// A member that holds an integer that fits 64 bits without a sign, or is
/// `null` or absent.
pub open spec fn optional_u64_in(slot: Option<JsonValue>, name: Seq<char>) -> Result<
    Option<u64>,
    Seq<StepValue>,
> {
    match slot {
        None => Ok(None),
        Some(JsonValue::Null) => Ok(None),
        _ => match u64_in(slot, name) {
            Ok(v) => Ok(Some(v)),
            Err(p) => Err(p),
        },
    }
}

/// A member that must hold an array.
pub open spec fn items_in(slot: Option<JsonValue>, name: Seq<char>) -> Result<
    Seq<JsonValue>,
    Seq<StepValue>,
> {
    match slot {
        Some(JsonValue::Array(items)) => Ok(items),
        _ => Err(at(name)),
    }
}

/// The members of a value that must be an object.
pub open spec fn members_of(v: JsonValue) -> Result<Seq<(Seq<char>, JsonValue)>, Seq<StepValue>> {
    match v {
        JsonValue::Object(members) => Ok(members),
        _ => Err(Seq::empty()),
    }
}

/// The value of a member, where `null` counts as absent.
pub open spec fn present(slot: Option<JsonValue>) -> Option<JsonValue> {
    match slot {
        Some(JsonValue::Null) => None,
        _ => slot,
    }
}

/// Reads a member that must hold a string.
pub fn read_text(slot: Option<&Json>, name: &str) -> (r: Result<String, FieldPath>)
    ensures
        outcome(r) == text_in(slot.deep_view(), name@),
{
    match slot {
        Some(Json::Text(t)) => Ok(t.clone()),
        _ => Err(FieldPath::at(name)),
    }
}

/// Reads a member that holds a string, or is `null` or absent.
pub fn read_optional_text(slot: Option<&Json>, name: &str) -> (r: Result<Option<String>, FieldPath>)
    ensures
        outcome(r) == optional_text_in(slot.deep_view(), name@),
{
    match slot {
        None => Ok(None),
        Some(Json::Null) => Ok(None),
        Some(Json::Text(t)) => Ok(Some(t.clone())),
        _ => Err(FieldPath::at(name)),
    }
}

/// Reads a member that must hold `true` or `false`.
pub fn read_flag(slot: Option<&Json>, name: &str) -> (r: Result<bool, FieldPath>)
    ensures
        outcome(r) == flag_in(slot.deep_view(), name@),
{
    match slot {
        Some(Json::Bool(b)) => Ok(*b),
        _ => Err(FieldPath::at(name)),
    }
}

/// Reads a member that holds `true` or `false`, or is `null` or absent.
pub fn read_optional_flag(slot: Option<&Json>, name: &str) -> (r: Result<Option<bool>, FieldPath>)
    ensures
        outcome(r) == optional_flag_in(slot.deep_view(), name@),
{
    match slot {
        None => Ok(None),
        Some(Json::Null) => Ok(None),
        Some(Json::Bool(b)) => Ok(Some(*b)),
        _ => Err(FieldPath::at(name)),
    }
}

/// Reads a member that must hold a number of any form.
pub fn read_number(slot: Option<&Json>, name: &str) -> (r: Result<JsonNumber, FieldPath>)
    ensures
        outcome(r) == number_in(slot.deep_view(), name@),
{
    match slot {
        Some(Json::Number(n)) => Ok(n.duplicate()),
        _ => Err(FieldPath::at(name)),
    }
}

/// Reads a member that must hold an integer that fits 64 bits with a sign.
pub fn read_i64(slot: Option<&Json>, name: &str) -> (r: Result<i64, FieldPath>)
    ensures
        outcome(r) == i64_in(slot.deep_view(), name@),
{
    match slot {
        Some(Json::Number(JsonNumber::PosInt(u))) => {
            if *u <= 0x7fff_ffff_ffff_ffff {
                Ok(*u as i64)
            } else {
                Err(FieldPath::at(name))
            }
        },
        Some(Json::Number(JsonNumber::NegInt(i))) => Ok(*i),
        _ => Err(FieldPath::at(name)),
    }
}

/// Reads a member that must hold an integer that fits 64 bits without a sign.
pub fn read_u64(slot: Option<&Json>, name: &str) -> (r: Result<u64, FieldPath>)
    ensures
        outcome(r) == u64_in(slot.deep_view(), name@),
{
    match slot {
        Some(Json::Number(JsonNumber::PosInt(u))) => Ok(*u),
        Some(Json::Number(JsonNumber::NegInt(i))) => {
            if *i >= 0 {
                Ok(*i as u64)
            } else {
                Err(FieldPath::at(name))
            }
        },
        _ => Err(FieldPath::at(name)),
    }
}

/// Reads a member that must hold an integer that fits 32 bits without a sign.
pub fn read_u32(slot: Option<&Json>, name: &str) -> (r: Result<u32, FieldPath>)
    ensures
        outcome(r) == u32_in(slot.deep_view(), name@),
{
    match slot {
        Some(Json::Number(JsonNumber::PosInt(u))) => {
            if *u <= 0xffff_ffff {
                Ok(*u as u32)
            } else {
                Err(FieldPath::at(name))
            }
        },
        Some(Json::Number(JsonNumber::NegInt(i))) => {
            if 0 <= *i && *i <= 0xffff_ffff {
                Ok(*i as u32)
            } else {
                Err(FieldPath::at(name))
            }
        },
        _ => Err(FieldPath::at(name)),
    }
}

/// Reads a member that holds an integer that fits 64 bits without a sign, or is
/// `null` or absent.
pub fn read_optional_u64(slot: Option<&Json>, name: &str) -> (r: Result<Option<u64>, FieldPath>)
    ensures
        outcome(r) == optional_u64_in(slot.deep_view(), name@),
{
    match slot {
        None => Ok(None),
        Some(Json::Null) => Ok(None),
        _ => match read_u64(slot, name) {
            Ok(v) => Ok(Some(v)),
            Err(p) => Err(p),
        },
    }
}

/// Reads a member that must hold an array.
pub fn read_items<'a>(slot: Option<&'a Json>, name: &str) -> (r: Result<&'a Vec<Json>, FieldPath>)
    ensures
        outcome(r) == items_in(slot.deep_view(), name@),
{
    match slot {
        Some(Json::Array(items)) => {
            proof {
                crate::json::lemma_array_value(*items);
            }
            Ok(items)
        },
        _ => Err(FieldPath::at(name)),
    }
}

/// The members of a value that must be an object.
pub fn read_members<'a>(value: &'a Json) -> (r: Result<&'a Vec<Member>, FieldPath>)
    ensures
        outcome(r) == members_of(value.deep_view()),
{
    match value {
        Json::Object(members) => {
            proof {
                crate::json::lemma_object_value(*members);
            }
            Ok(members)
        },
        _ => Err(FieldPath::root()),
    }
}

/// The value of a member, where `null` counts as absent.
pub fn read_present<'a>(slot: Option<&'a Json>) -> (r: Option<&'a Json>)
    ensures
        r.deep_view() == present(slot.deep_view()),
{
    match slot {
        Some(Json::Null) => None,
        _ => slot,
    }
}

/// The member `name` of an object, which holds a string.
pub open spec fn text_at(members: Seq<(Seq<char>, JsonValue)>, name: Seq<char>) -> Result<Seq<char>, Fault> {
    text_in(lookup(members, name), name)
}

/// Reads the member `name` of an object, which holds a string.
pub fn get_text(members: &Vec<Member>, name: &str) -> (r: Result<String, FieldPath>)
    ensures
        outcome(r) == text_at(members.deep_view(), name@),
{
    read_text(find(members, name), name)
}

/// The member `name` of an object, which holds a string, or is `null` or absent.
pub open spec fn optional_text_at(members: Seq<(Seq<char>, JsonValue)>, name: Seq<char>) -> Result<Option<Seq<char>>, Fault> {
    optional_text_in(lookup(members, name), name)
}

/// Reads the member `name` of an object, which holds a string, or is `null` or
/// absent.
pub fn get_optional_text(members: &Vec<Member>, name: &str) -> (r: Result<Option<String>, FieldPath>)
    ensures
        outcome(r) == optional_text_at(members.deep_view(), name@),
{
    read_optional_text(find(members, name), name)
}

/// The member `name` of an object, which holds `true` or `false`.
pub open spec fn flag_at(members: Seq<(Seq<char>, JsonValue)>, name: Seq<char>) -> Result<bool, Fault> {
    flag_in(lookup(members, name), name)
}

/// Reads the member `name` of an object, which holds `true` or `false`.
pub fn get_flag(members: &Vec<Member>, name: &str) -> (r: Result<bool, FieldPath>)
    ensures
        outcome(r) == flag_at(members.deep_view(), name@),
{
    read_flag(find(members, name), name)
}

/// The member `name` of an object, which holds `true` or `false`, or is `null` or absent.
pub open spec fn optional_flag_at(members: Seq<(Seq<char>, JsonValue)>, name: Seq<char>) -> Result<Option<bool>, Fault> {
    optional_flag_in(lookup(members, name), name)
}

/// Reads the member `name` of an object, which holds `true` or `false`, or is
/// `null` or absent.
pub fn get_optional_flag(members: &Vec<Member>, name: &str) -> (r: Result<Option<bool>, FieldPath>)
    ensures
        outcome(r) == optional_flag_at(members.deep_view(), name@),
{
    read_optional_flag(find(members, name), name)
}

/// The member `name` of an object, which holds a number of any form.
pub open spec fn number_at(members: Seq<(Seq<char>, JsonValue)>, name: Seq<char>) -> Result<NumberValue, Fault> {
    number_in(lookup(members, name), name)
}

/// Reads the member `name` of an object, which holds a number of any form.
pub fn get_number(members: &Vec<Member>, name: &str) -> (r: Result<JsonNumber, FieldPath>)
    ensures
        outcome(r) == number_at(members.deep_view(), name@),
{
    read_number(find(members, name), name)
}

/// The member `name` of an object, which holds an integer that fits 64 bits with a sign.
pub open spec fn i64_at(members: Seq<(Seq<char>, JsonValue)>, name: Seq<char>) -> Result<i64, Fault> {
    i64_in(lookup(members, name), name)
}

/// Reads the member `name` of an object, which holds an integer that fits 64
/// bits with a sign.
pub fn get_i64(members: &Vec<Member>, name: &str) -> (r: Result<i64, FieldPath>)
    ensures
        outcome(r) == i64_at(members.deep_view(), name@),
{
    read_i64(find(members, name), name)
}

/// The member `name` of an object, which holds an integer that fits 64 bits without a sign.
pub open spec fn u64_at(members: Seq<(Seq<char>, JsonValue)>, name: Seq<char>) -> Result<u64, Fault> {
    u64_in(lookup(members, name), name)
}

/// Reads the member `name` of an object, which holds an integer that fits 64
/// bits without a sign.
pub fn get_u64(members: &Vec<Member>, name: &str) -> (r: Result<u64, FieldPath>)
    ensures
        outcome(r) == u64_at(members.deep_view(), name@),
{
    read_u64(find(members, name), name)
}

/// The member `name` of an object, which holds an integer that fits 32 bits without a sign.
pub open spec fn u32_at(members: Seq<(Seq<char>, JsonValue)>, name: Seq<char>) -> Result<u32, Fault> {
    u32_in(lookup(members, name), name)
}

/// Reads the member `name` of an object, which holds an integer that fits 32
/// bits without a sign.
pub fn get_u32(members: &Vec<Member>, name: &str) -> (r: Result<u32, FieldPath>)
    ensures
        outcome(r) == u32_at(members.deep_view(), name@),
{
    read_u32(find(members, name), name)
}

/// The member `name` of an object, which holds an integer that fits 64 bits without a sign, or is `null` or absent.
pub open spec fn optional_u64_at(members: Seq<(Seq<char>, JsonValue)>, name: Seq<char>) -> Result<Option<u64>, Fault> {
    optional_u64_in(lookup(members, name), name)
}

/// Reads the member `name` of an object, which holds an integer that fits 64
/// bits without a sign, or is `null` or absent.
pub fn get_optional_u64(members: &Vec<Member>, name: &str) -> (r: Result<Option<u64>, FieldPath>)
    ensures
        outcome(r) == optional_u64_at(members.deep_view(), name@),
{
    read_optional_u64(find(members, name), name)
}

/// The member `name` of an object, which holds an array.
pub open spec fn items_at(members: Seq<(Seq<char>, JsonValue)>, name: Seq<char>) -> Result<
    Seq<JsonValue>,
    Fault,
> {
    items_in(lookup(members, name), name)
}

/// Reads the member `name` of an object, which holds an array.
pub fn get_items<'a>(members: &'a Vec<Member>, name: &str) -> (r: Result<&'a Vec<Json>, FieldPath>)
    ensures
        outcome(r) == items_at(members.deep_view(), name@),
{
    read_items(find(members, name), name)
}

/// The member under `name` or `alias`, which holds a string.
pub open spec fn text_under(
    members: Seq<(Seq<char>, JsonValue)>,
    name: Seq<char>,
    alias: Seq<char>,
) -> Result<Seq<char>, Fault> {
    match lookup_either(members, name, alias) {
        Ok(slot) => text_in(slot, name),
        Err(p) => Err(p),
    }
}

/// Reads the member under `name` or `alias`, which holds a string.
pub fn get_text_either(members: &Vec<Member>, name: &str, alias: &str) -> (r: Result<
    String,
    FieldPath,
>)
    ensures
        outcome(r) == text_under(members.deep_view(), name@, alias@),
{
    read_text(find_either(members, name, alias)?, name)
}

/// The member under `name` or `alias`, which holds a string, or is `null` or absent.
pub open spec fn optional_text_under(
    members: Seq<(Seq<char>, JsonValue)>,
    name: Seq<char>,
    alias: Seq<char>,
) -> Result<Option<Seq<char>>, Fault> {
    match lookup_either(members, name, alias) {
        Ok(slot) => optional_text_in(slot, name),
        Err(p) => Err(p),
    }
}

/// Reads the member under `name` or `alias`, which holds a string, or is `null`
/// or absent.
pub fn get_optional_text_either(members: &Vec<Member>, name: &str, alias: &str) -> (r: Result<
    Option<String>,
    FieldPath,
>)
    ensures
        outcome(r) == optional_text_under(members.deep_view(), name@, alias@),
{
    read_optional_text(find_either(members, name, alias)?, name)
}

/// The member under `name` or `alias`, which holds an integer that fits 64 bits with a sign.
pub open spec fn i64_under(
    members: Seq<(Seq<char>, JsonValue)>,
    name: Seq<char>,
    alias: Seq<char>,
) -> Result<i64, Fault> {
    match lookup_either(members, name, alias) {
        Ok(slot) => i64_in(slot, name),
        Err(p) => Err(p),
    }
}

/// Reads the member under `name` or `alias`, which holds an integer that fits
/// 64 bits with a sign.
pub fn get_i64_either(members: &Vec<Member>, name: &str, alias: &str) -> (r: Result<
    i64,
    FieldPath,
>)
    ensures
        outcome(r) == i64_under(members.deep_view(), name@, alias@),
{
    read_i64(find_either(members, name, alias)?, name)
}

/// The member under `name` or `alias`, which holds an array.
pub open spec fn items_under(
    members: Seq<(Seq<char>, JsonValue)>,
    name: Seq<char>,
    alias: Seq<char>,
) -> Result<Seq<JsonValue>, Fault> {
    match lookup_either(members, name, alias) {
        Ok(slot) => items_in(slot, name),
        Err(p) => Err(p),
    }
}

/// Reads the member under `name` or `alias`, which holds an array.
pub fn get_items_either<'a>(members: &'a Vec<Member>, name: &str, alias: &str) -> (r: Result<
    &'a Vec<Json>,
    FieldPath,
>)
    ensures
        outcome(r) == items_under(members.deep_view(), name@, alias@),
{
    read_items(find_either(members, name, alias)?, name)
}

/// The values that `decode` makes of the first `n` of `items`, in order; or
/// the fault of the first item that it fails on. `decode` is given each
/// item with its position.
pub open spec fn each<A, T>(
    items: Seq<A>,
    decode: spec_fn(int, A) -> Result<T, Fault>,
    n: int,
) -> Result<Seq<T>, Fault>
    decreases n,
{
    if n <= 0 {
        Ok(Seq::empty())
    } else {
        match each(items, decode, n - 1) {
            Err(p) => Err(p),
            Ok(before) => match decode(n - 1, items[n - 1]) {
                Err(p) => Err(p),
                Ok(value) => Ok(before.push(value)),
            },
        }
    }
}

/// [`each`] succeeds exactly when `decode` succeeds on every item, and then
/// gives one value for each item, in the items' order. Where it fails, the
/// fault is that of the first item on which `decode` fails.
pub proof fn lemma_each<A, T>(items: Seq<A>, decode: spec_fn(int, A) -> Result<T, Fault>, n: int)
    requires
        0 <= n <= items.len(),
    ensures
        match each(items, decode, n) {
            Ok(values) => values.len() == n && forall|i: int|
                0 <= i < n ==> decode(i, items[i]) == Ok::<T, Fault>(#[trigger] values[i]),
            Err(p) => exists|k: int|
                0 <= k < n && #[trigger] decode(k, items[k]) == Err::<T, Fault>(p) && forall|i: int|
                    0 <= i < k ==> #[trigger] decode(i, items[i]) is Ok,
        },
    decreases n,
{
    if n > 0 {
        lemma_each(items, decode, n - 1);
        match each(items, decode, n - 1) {
            Ok(before) => {
                match decode(n - 1, items[n - 1]) {
                    Ok(value) => {
                        let values = before.push(value);
                        assert forall|i: int| 0 <= i < n implies decode(i, items[i]) == Ok::<
                            T,
                            Fault,
                        >(#[trigger] values[i]) by {
                            if i < n - 1 {
                                assert(values[i] == before[i]);
                            }
                        }
                    },
                    Err(p) => {
                        let k = n - 1;
                        assert forall|i: int| 0 <= i < k implies #[trigger] decode(
                            i,
                            items[i],
                        ) is Ok by {
                            assert(decode(i, items[i]) == Ok::<T, Fault>(before[i]));
                        }
                        assert(decode(k, items[k]) == Err::<T, Fault>(p));
                    },
                }
            },
            Err(p) => {
                let k = choose|k: int|
                    0 <= k < n - 1 && #[trigger] decode(k, items[k]) == Err::<T, Fault>(p)
                        && forall|i: int| 0 <= i < k ==> #[trigger] decode(i, items[i]) is Ok;
                assert(decode(k, items[k]) == Err::<T, Fault>(p));
            },
        }
    }
}

/// Once [`each`] has failed on a first part of the items, it fails in the
/// same way on every longer part.
pub proof fn lemma_each_failed<A, T>(
    items: Seq<A>,
    decode: spec_fn(int, A) -> Result<T, Fault>,
    k: int,
    n: int,
)
    requires
        k <= n,
        each(items, decode, k) is Err,
    ensures
        each(items, decode, n) == each(items, decode, k),
    decreases n - k,
{
    if k < n {
        lemma_each_failed(items, decode, k, n - 1);
    }
}

/// The character that stands for a digit.
pub open spec fn digit(d: nat) -> char {
    if d == 0 {
        '0'
    } else if d == 1 {
        '1'
    } else if d == 2 {
        '2'
    } else if d == 3 {
        '3'
    } else if d == 4 {
        '4'
    } else if d == 5 {
        '5'
    } else if d == 6 {
        '6'
    } else if d == 7 {
        '7'
    } else if d == 8 {
        '8'
    } else {
        '9'
    }
}

/// A number written in decimal, without leading zeros.
pub open spec fn decimal(n: nat) -> Seq<char>
    decreases n,
{
    if n < 10 {
        seq![digit(n)]
    } else {
        decimal(n / 10).push(digit(n % 10))
    }
}

/// One step as a path shows it: a key after a dot, a position in brackets.
pub open spec fn step_text(step: StepValue) -> Seq<char> {
    match step {
        StepValue::Key(k) => seq!['.'] + k,
        StepValue::Index(i) => seq!['['] + decimal(i) + seq![']'],
    }
}

/// The first `n` steps of a path as text, one after the other.
pub open spec fn path_text(path: Seq<StepValue>, n: int) -> Seq<char>
    decreases n,
{
    if n <= 0 {
        Seq::empty()
    } else {
        path_text(path, n - 1) + step_text(path[n - 1])
    }
}

/// The text of one digit.
fn digit_text(d: usize) -> (r: &'static str)
    requires
        d < 10,
    ensures
        r@ == seq![digit(d as nat)],
{
    proof {
        reveal_strlit("0");
        reveal_strlit("1");
        reveal_strlit("2");
        reveal_strlit("3");
        reveal_strlit("4");
        reveal_strlit("5");
        reveal_strlit("6");
        reveal_strlit("7");
        reveal_strlit("8");
        reveal_strlit("9");
    }
    let r = if d == 0 {
        "0"
    } else if d == 1 {
        "1"
    } else if d == 2 {
        "2"
    } else if d == 3 {
        "3"
    } else if d == 4 {
        "4"
    } else if d == 5 {
        "5"
    } else if d == 6 {
        "6"
    } else if d == 7 {
        "7"
    } else if d == 8 {
        "8"
    } else {
        "9"
    };
    assert(r@ =~= seq![digit(d as nat)]);
    r
}

/// Writes a number in decimal.
pub fn write_decimal(n: usize) -> (r: String)
    ensures
        r@ == decimal(n as nat),
    decreases n,
{
    if n < 10 {
        String::from_str(digit_text(n))
    } else {
        let mut r = write_decimal(n / 10);
        r.append(digit_text(n % 10));
        assert(r@ =~= decimal(n as nat));
        r
    }
}

impl FieldPath {
    /// The path as text, such as `.data.children[3].title`; the empty text
    /// for the path of the value at hand itself.
    pub fn describe(&self) -> (r: String)
        ensures
            r@ == path_text(self.deep_view(), self.steps.len() as int),
    {
        proof {
            reveal_strlit(".");
            reveal_strlit("[");
            reveal_strlit("]");
        }
        let ghost path = self.deep_view();
        let mut r = String::new();
        let mut i: usize = 0;
        while i < self.steps.len()
            invariant
                i <= self.steps.len(),
                path == self.deep_view(),
                r@ == path_text(path, i as int),
                "."@ == seq!['.'],
                "["@ == seq!['['],
                "]"@ == seq![']'],
            decreases self.steps.len() - i,
        {
            let ghost before = r@;
            assert(path[i as int] == self.steps[i as int].deep_view());
            match &self.steps[i] {
                Step::Key(k) => {
                    r.append(".");
                    r.append(k.as_str());
                    assert(r@ =~= before + step_text(path[i as int]));
                },
                Step::Index(n) => {
                    let number = write_decimal(*n);
                    r.append("[");
                    r.append(number.as_str());
                    r.append("]");
                    assert(r@ =~= before + step_text(path[i as int]));
                },
            }
            i += 1;
        }
        r
    }
}

} // verus!
