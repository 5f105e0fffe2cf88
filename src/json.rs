//! A plain model of JSON documents, typed reading out of it, and writing
//! into it.
//!
//! Text is turned into a `JsonValue`, and back, by serde_json, behind the
//! trusted items at the end of this file. Everything that reads or writes the
//! model is verified here.
use serde_json::{Number, Value};
use vstd::prelude::*;

verus! {

/// A JSON number as serde_json classifies it: a non-negative integer, a
/// negative integer, or any other number (kept as serde_json prints it).
#[derive(Clone, Debug, PartialEq)]
pub enum JsonNumber {
    PosInt(u64),
    NegInt(i64),
    Float(String),
}

/// A JSON document. Object members keep the order in which they came.
#[derive(Debug)]
pub enum JsonValue {
    Null,
    Bool(bool),
    Number(JsonNumber),
    Str(String),
    Array(Vec<JsonValue>),
    Object(Vec<(String, JsonValue)>),
}

/// The value of the first member of `entries` named `key`.
pub open spec fn lookup(entries: Seq<(String, JsonValue)>, key: Seq<char>) -> Option<JsonValue>
    decreases entries.len(),
{
    if entries.len() == 0 {
        None
    } else if entries[0].0@ == key {
        Some(entries[0].1)
    } else {
        lookup(entries.drop_first(), key)
    }
}

/// The value that a reader sees for member `key`: a missing member reads as `null`.
pub open spec fn field_value(entries: Seq<(String, JsonValue)>, key: Seq<char>) -> JsonValue {
    match lookup(entries, key) {
        Some(v) => v,
        None => JsonValue::Null,
    }
}

/// Finds the first member of `entries` named `key`.
pub fn get_field<'a>(entries: &'a Vec<(String, JsonValue)>, key: &str) -> (r: Option<
    &'a JsonValue,
>)
    ensures
        r is None <==> lookup(entries@, key@) is None,
        r matches Some(v) ==> lookup(entries@, key@) == Some(*v),
{
    let k = String::from_str(key);
    let n = entries.len();
    let mut i: usize = 0;
    assert(entries@.subrange(0, n as int) =~= entries@);
    while i < n
        invariant
            n == entries@.len(),
            i <= n,
            k@ == key@,
            lookup(entries@, key@) == lookup(entries@.subrange(i as int, n as int), key@),
        decreases n - i,
    {
        let ghost rest = entries@.subrange(i as int, n as int);
        assert(rest.drop_first() =~= entries@.subrange(i + 1, n as int));
        if entries[i].0 == k {
            return Some(&entries[i].1);
        }
        i = i + 1;
    }
    None
}

/// A type that is read out of a JSON document, with unknown members ignored.
pub trait FromJson: Sized {
    /// `v` has the shape that a value of this type is read from.
    spec fn fits(v: JsonValue) -> bool;

    /// `out` is what is read from `v`.
    spec fn reads_as(v: JsonValue, out: Self) -> bool;

    fn from_json(v: &JsonValue) -> (r: Option<Self>)
        ensures
            r is Some <==> Self::fits(*v),
            r matches Some(x) ==> Self::reads_as(*v, x),
    ;
}

impl FromJson for String {
    open spec fn fits(v: JsonValue) -> bool {
        v is Str
    }

    open spec fn reads_as(v: JsonValue, out: String) -> bool {
        v matches JsonValue::Str(s) && out@ == s@
    }

    fn from_json(v: &JsonValue) -> (r: Option<String>) {
        match v {
            JsonValue::Str(s) => Some(s.clone()),
            _ => None,
        }
    }
}

impl FromJson for bool {
    open spec fn fits(v: JsonValue) -> bool {
        v is Bool
    }

    open spec fn reads_as(v: JsonValue, out: bool) -> bool {
        v == JsonValue::Bool(out)
    }

    fn from_json(v: &JsonValue) -> (r: Option<bool>) {
        match v {
            JsonValue::Bool(b) => Some(*b),
            _ => None,
        }
    }
}

impl FromJson for u32 {
    open spec fn fits(v: JsonValue) -> bool {
        v matches JsonValue::Number(JsonNumber::PosInt(n)) && n <= u32::MAX
    }

    open spec fn reads_as(v: JsonValue, out: u32) -> bool {
        v == JsonValue::Number(JsonNumber::PosInt(out as u64))
    }

    fn from_json(v: &JsonValue) -> (r: Option<u32>) {
        match v {
            JsonValue::Number(JsonNumber::PosInt(n)) => {
                if *n <= u32::MAX as u64 {
                    Some(*n as u32)
                } else {
                    None
                }
            },
            _ => None,
        }
    }
}

impl FromJson for u64 {
    open spec fn fits(v: JsonValue) -> bool {
        v matches JsonValue::Number(JsonNumber::PosInt(_))
    }

    open spec fn reads_as(v: JsonValue, out: u64) -> bool {
        v == JsonValue::Number(JsonNumber::PosInt(out))
    }

    fn from_json(v: &JsonValue) -> (r: Option<u64>) {
        match v {
            JsonValue::Number(JsonNumber::PosInt(n)) => Some(*n),
            _ => None,
        }
    }
}

/// `null` reads as `None`; anything else must read as the inner type.
impl<T: FromJson> FromJson for Option<T> {
    open spec fn fits(v: JsonValue) -> bool {
        v is Null || T::fits(v)
    }

    open spec fn reads_as(v: JsonValue, out: Option<T>) -> bool {
        if v is Null {
            out is None
        } else {
            out matches Some(x) && T::reads_as(v, x)
        }
    }

    fn from_json(v: &JsonValue) -> (r: Option<Option<T>>) {
        match v {
            JsonValue::Null => Some(None),
            _ => match T::from_json(v) {
                Some(x) => Some(Some(x)),
                None => None,
            },
        }
    }
}

/// Every element of `items` fits `T`.
pub open spec fn all_fit<T: FromJson>(items: Seq<JsonValue>) -> bool {
    forall|i: int| 0 <= i < items.len() ==> #[trigger] T::fits(items[i])
}

/// `out` is read element by element from `items`.
pub open spec fn all_read_as<T: FromJson>(items: Seq<JsonValue>, out: Seq<T>) -> bool {
    &&& out.len() == items.len()
    &&& forall|i: int| 0 <= i < items.len() ==> #[trigger] T::reads_as(items[i], out[i])
}

/// Reads every element of `items`; one element that does not fit fails the whole.
pub fn read_all<T: FromJson>(items: &Vec<JsonValue>) -> (r: Option<Vec<T>>)
    ensures
        r is Some <==> all_fit::<T>(items@),
        r matches Some(out) ==> all_read_as::<T>(items@, out@),
{
    let mut out: Vec<T> = Vec::new();
    let n = items.len();
    let mut i: usize = 0;
    while i < n
        invariant
            n == items@.len(),
            i <= n,
            out@.len() == i,
            forall|j: int| 0 <= j < i ==> #[trigger] T::fits(items@[j]),
            forall|j: int| 0 <= j < i ==> #[trigger] T::reads_as(items@[j], out@[j]),
        decreases n - i,
    {
        match T::from_json(&items[i]) {
            Some(x) => {
                out.push(x);
            },
            None => {
                assert(!T::fits(items@[i as int]));
                return None;
            },
        }
        i = i + 1;
    }
    Some(out)
}

/// An array reads element by element.
impl<T: FromJson> FromJson for Vec<T> {
    open spec fn fits(v: JsonValue) -> bool {
        v matches JsonValue::Array(items) && all_fit::<T>(items@)
    }

    open spec fn reads_as(v: JsonValue, out: Vec<T>) -> bool {
        v matches JsonValue::Array(items) && all_read_as::<T>(items@, out@)
    }

    fn from_json(v: &JsonValue) -> (r: Option<Vec<T>>) {
        match v {
            JsonValue::Array(items) => read_all(items),
            _ => None,
        }
    }
}

/// Reads member `key` of an object; a missing member reads as `null`.
pub fn read_field<T: FromJson>(entries: &Vec<(String, JsonValue)>, key: &str) -> (r: Option<T>)
    ensures
        r is Some <==> T::fits(field_value(entries@, key@)),
        r matches Some(x) ==> T::reads_as(field_value(entries@, key@), x),
{
    match get_field(entries, key) {
        Some(v) => T::from_json(v),
        None => {
            let null = JsonValue::Null;
            T::from_json(&null)
        },
    }
}


/// `a` and `b` are the same document: equal texts, numbers and flags, and
/// arrays and objects equal member by member, in order.
pub open spec fn same_json(a: JsonValue, b: JsonValue) -> bool
    decreases a,
{
    match a {
        JsonValue::Null => b is Null,
        JsonValue::Bool(x) => b == JsonValue::Bool(x),
        JsonValue::Number(JsonNumber::PosInt(n)) => b == JsonValue::Number(JsonNumber::PosInt(n)),
        JsonValue::Number(JsonNumber::NegInt(n)) => b == JsonValue::Number(JsonNumber::NegInt(n)),
        JsonValue::Number(JsonNumber::Float(t)) => b matches JsonValue::Number(JsonNumber::Float(u))
            && u@ == t@,
        JsonValue::Str(t) => b matches JsonValue::Str(u) && u@ == t@,
        JsonValue::Array(xs) => b matches JsonValue::Array(ys) && xs@.len() == ys@.len() && forall|i: int|
            0 <= i < xs@.len() ==> #[trigger] same_json(xs@[i], ys@[i]),
        JsonValue::Object(xs) => b matches JsonValue::Object(ys) && xs@.len() == ys@.len() && forall|i: int|
            0 <= i < xs@.len() ==> ys@[i].0@ == xs@[i].0@ && #[trigger] same_json(xs@[i].1, ys@[i].1),
    }
}


/// A copy of `v`.
pub fn copy_json(v: &JsonValue) -> (r: JsonValue)
    ensures
        same_json(*v, r),
    decreases v,
{
    match v {
        JsonValue::Null => JsonValue::Null,
        JsonValue::Bool(b) => JsonValue::Bool(*b),
        JsonValue::Number(JsonNumber::PosInt(n)) => JsonValue::Number(JsonNumber::PosInt(*n)),
        JsonValue::Number(JsonNumber::NegInt(n)) => JsonValue::Number(JsonNumber::NegInt(*n)),
        JsonValue::Number(JsonNumber::Float(t)) => JsonValue::Number(JsonNumber::Float(t.clone())),
        JsonValue::Str(t) => JsonValue::Str(t.clone()),
        JsonValue::Array(xs) => {
            let mut out: Vec<JsonValue> = Vec::new();
            let n = xs.len();
            let mut i: usize = 0;
            while i < n
                invariant
                    *v == JsonValue::Array(*xs),
                    n == xs@.len(),
                    i <= n,
                    out@.len() == i,
                    forall|j: int| 0 <= j < i ==> #[trigger] same_json(xs@[j], out@[j]),
                decreases n - i,
            {
                proof {
                    assert(decreases_to!(*v => (*v)->Array_0@[i as int]));
                }
                let c = copy_json(&xs[i]);
                out.push(c);
                i = i + 1;
            }
            assert(i == n);
            assert(out@.len() == xs@.len());
            assert(forall|j: int| 0 <= j < xs@.len() ==> same_json(xs@[j], out@[j]));
            assert(same_json(*v, JsonValue::Array(out))) by {
                reveal_with_fuel(same_json, 2);
            }
            JsonValue::Array(out)
        },
        JsonValue::Object(xs) => {
            let mut out: Vec<(String, JsonValue)> = Vec::new();
            let n = xs.len();
            let mut i: usize = 0;
            while i < n
                invariant
                    *v == JsonValue::Object(*xs),
                    n == xs@.len(),
                    i <= n,
                    out@.len() == i,
                    forall|j: int| 0 <= j < i ==> (#[trigger] out@[j]).0@ == xs@[j].0@,
                    forall|j: int| 0 <= j < i ==> #[trigger] same_json(xs@[j].1, out@[j].1),
                decreases n - i,
            {
                proof {
                    assert(decreases_to!(*v => (*v)->Object_0@[i as int].1));
                }
                let k = xs[i].0.clone();
                let c = copy_json(&xs[i].1);
                out.push((k, c));
                i = i + 1;
            }
            assert(i == n);
            assert(out@.len() == xs@.len());
            assert(forall|j: int| 0 <= j < xs@.len() ==> same_json(xs@[j].1, out@[j].1));
            assert(same_json(*v, JsonValue::Object(out))) by {
                reveal_with_fuel(same_json, 2);
            }
            JsonValue::Object(out)
        },
    }
}

/// A copy of the members of an object, in order.
#[derive(Debug)]
pub struct JsonObject {
    pub members: Vec<(String, JsonValue)>,
}

/// Any object reads as a copy of its members.
impl FromJson for JsonObject {
    open spec fn fits(v: JsonValue) -> bool {
        v is Object
    }

    open spec fn reads_as(v: JsonValue, out: JsonObject) -> bool {
        same_json(v, JsonValue::Object(out.members))
    }

    fn from_json(v: &JsonValue) -> (r: Option<JsonObject>) {
        match v {
            JsonValue::Object(_) => match copy_json(v) {
                JsonValue::Object(members) => Some(JsonObject { members }),
                _ => None,
            },
            _ => None,
        }
    }
}

/// The first member named `key` is the one at `i` when it is named so and no
/// member before it is.
pub proof fn lemma_lookup_at(entries: Seq<(String, JsonValue)>, key: Seq<char>, i: int)
    requires
        0 <= i < entries.len(),
        entries[i].0@ == key,
        forall|j: int| 0 <= j < i ==> (#[trigger] entries[j]).0@ != key,
    ensures
        lookup(entries, key) == Some(entries[i].1),
    decreases i,
{
    if i > 0 {
        let rest = entries.drop_first();
        assert forall|j: int| 0 <= j < i - 1 implies (#[trigger] rest[j]).0@ != key by {
            assert(rest[j] == entries[j + 1]);
        }
        lemma_lookup_at(rest, key, i - 1);
    }
}

/// A type that is written as a JSON document that reads back as the same value.
pub trait ToJson: FromJson {
    fn to_json(&self) -> (r: JsonValue)
        ensures
            Self::fits(r),
            Self::reads_as(r, *self),
            !(r is Null),
    ;
}

impl ToJson for String {
    fn to_json(&self) -> (r: JsonValue) {
        JsonValue::Str(self.clone())
    }
}

impl ToJson for bool {
    fn to_json(&self) -> (r: JsonValue) {
        JsonValue::Bool(*self)
    }
}

impl ToJson for u32 {
    fn to_json(&self) -> (r: JsonValue) {
        JsonValue::Number(JsonNumber::PosInt(*self as u64))
    }
}

impl ToJson for u64 {
    fn to_json(&self) -> (r: JsonValue) {
        JsonValue::Number(JsonNumber::PosInt(*self))
    }
}

/// Writes `x`, with `None` written as `null`.
pub fn write_option<T: ToJson>(x: &Option<T>) -> (r: JsonValue)
    ensures
        <Option<T> as FromJson>::fits(r),
        <Option<T> as FromJson>::reads_as(r, *x),
{
    match x {
        Some(y) => y.to_json(),
        None => JsonValue::Null,
    }
}

/// Writes every element of `xs`, in order, as an array.
pub fn write_all<T: ToJson>(xs: &Vec<T>) -> (r: Vec<JsonValue>)
    ensures
        all_fit::<T>(r@),
        all_read_as::<T>(r@, xs@),
{
    let mut out: Vec<JsonValue> = Vec::new();
    let n = xs.len();
    let mut i: usize = 0;
    while i < n
        invariant
            n == xs@.len(),
            i <= n,
            out@.len() == i,
            forall|j: int| 0 <= j < i ==> #[trigger] T::fits(out@[j]),
            forall|j: int| 0 <= j < i ==> #[trigger] T::reads_as(out@[j], xs@[j]),
        decreases n - i,
    {
        let d = xs[i].to_json();
        out.push(d);
        i = i + 1;
    }
    out
}

impl<T: ToJson> ToJson for Vec<T> {
    fn to_json(&self) -> (r: JsonValue) {
        JsonValue::Array(write_all(self))
    }
}

#[verifier::external_type_specification]
#[verifier::external_body]
pub struct ExSerdeJsonValue(Value);

/// What serde_json reads from `text`: a document, or the message of its error.
pub uninterp spec fn json_parse_of(text: Seq<char>) -> Result<JsonValue, String>;

/// The compact text that serde_json writes for `v`.
pub uninterp spec fn json_text_of(v: JsonValue) -> Seq<char>;

/// Relies on serde_json::from_str into serde_json::Value: the outcome depends
/// on the text alone.
#[verifier::external_body]
pub(crate) fn parse_json(text: &str) -> (r: Result<JsonValue, String>)
    ensures
        r == json_parse_of(text@),
{
    serde_json::from_str::<Value>(text).map(from_serde).map_err(|e| e.to_string())
}

/// Relies on serde_json::to_string on serde_json::Value: the text depends on
/// the document alone.
#[verifier::external_body]
pub(crate) fn json_text(v: &JsonValue) -> (r: String)
    ensures
        r@ == json_text_of(*v),
{
    serde_json::to_string(&to_serde(v)).unwrap_or_default()
}

impl JsonValue {
    /// Parses JSON text.
    pub fn parse(text: &str) -> (r: Result<JsonValue, String>)
        ensures
            r == json_parse_of(text@),
    {
        parse_json(text)
    }

    /// This document as compact JSON text.
    pub fn to_text(&self) -> (r: String)
        ensures
            r@ == json_text_of(*self),
    {
        json_text(self)
    }
}

/// Converts serde_json's document into this model; numbers are told apart by
/// serde_json::Number::as_u64 and as_i64.
#[verifier::external_body]
fn from_serde(v: Value) -> JsonValue {
    match v {
        Value::Null => JsonValue::Null,
        Value::Bool(b) => JsonValue::Bool(b),
        Value::Number(n) => JsonValue::Number(match (n.as_u64(), n.as_i64()) {
            (Some(u), _) => JsonNumber::PosInt(u),
            (None, Some(i)) => JsonNumber::NegInt(i),
            (None, None) => JsonNumber::Float(n.to_string()),
        }),
        Value::String(s) => JsonValue::Str(s),
        Value::Array(a) => JsonValue::Array(a.into_iter().map(from_serde).collect()),
        Value::Object(m) => JsonValue::Object(m.into_iter().map(|(k, x)| (k, from_serde(x))).collect()),
    }
}

/// Converts this model into serde_json's document; a float is read back by
/// serde_json::Number's FromStr.
#[verifier::external_body]
fn to_serde(v: &JsonValue) -> Value {
    match v {
        JsonValue::Null => Value::Null,
        JsonValue::Bool(b) => Value::Bool(*b),
        JsonValue::Number(JsonNumber::PosInt(n)) => Value::from(*n),
        JsonValue::Number(JsonNumber::NegInt(n)) => Value::from(*n),
        JsonValue::Number(JsonNumber::Float(t)) => t.parse::<Number>().map_or(Value::Null, Value::Number),
        JsonValue::Str(s) => Value::String(s.clone()),
        JsonValue::Array(a) => Value::Array(a.iter().map(to_serde).collect()),
        JsonValue::Object(m) => Value::Object(m.iter().map(|(k, x)| (k.clone(), to_serde(x))).collect()),
    }
}

} // verus!
