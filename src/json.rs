//! A JSON document as the report parsers read it.
//!
//! The text is parsed by serde_json; the tree it yields is held here as plain
//! values, so that every reader below can be stated and proved.

use crate::error::HLedgerError;
use vstd::prelude::*;

verus! {

/// What the readers need of a JSON number: serde_json's own readings of it as
/// an unsigned and as a signed 64-bit integer, and its shortest decimal text.
pub struct JsonNumber {
    pub as_u64: Option<u64>,
    pub as_i64: Option<i64>,
    pub text: String,
}

/// One JSON value. An object keeps its members in the order serde_json gave
/// them, each key once.
pub enum JsonValue {
    Null,
    Bool(bool),
    Number(JsonNumber),
    Str(String),
    Array(Vec<JsonValue>),
    Object(Vec<(String, JsonValue)>),
}

/// The value stored under `key` among `members`, the first one that matches.
pub open spec fn member(members: Seq<(String, JsonValue)>, key: Seq<char>) -> Option<JsonValue>
    decreases members.len(),
{
    if members.len() == 0 {
        None
    } else if members[0].0@ == key {
        Some(members[0].1)
    } else {
        member(members.drop_first(), key)
    }
}

impl JsonValue {
    /// The member `key` of an object; nothing for any other value.
    pub open spec fn field(self, key: Seq<char>) -> Option<JsonValue> {
        match self {
            JsonValue::Object(members) => member(members@, key),
            _ => None,
        }
    }

    pub open spec fn str_view(self) -> Option<Seq<char>> {
        match self {
            JsonValue::Str(s) => Some(s@),
            _ => None,
        }
    }

    pub open spec fn u64_view(self) -> Option<u64> {
        match self {
            JsonValue::Number(n) => n.as_u64,
            _ => None,
        }
    }

    pub open spec fn i64_view(self) -> Option<i64> {
        match self {
            JsonValue::Number(n) => n.as_i64,
            _ => None,
        }
    }

    pub open spec fn bool_view(self) -> Option<bool> {
        match self {
            JsonValue::Bool(b) => Some(b),
            _ => None,
        }
    }

    pub open spec fn array_view(self) -> Option<Seq<JsonValue>> {
        match self {
            JsonValue::Array(items) => Some(items@),
            _ => None,
        }
    }

    /// Reads one JSON document; text that is none is a JSON error.
    pub fn parse(text: &str) -> (r: Result<JsonValue, HLedgerError>)
        ensures
            r is Ok == json_document(text@) is Some,
            r matches Ok(v) ==> json_document(text@) == Some(v),
            r matches Err(e) ==> e is Json,
    {
        match parse_json(text) {
            Ok(v) => Ok(v),
            Err(e) => Err(HLedgerError::Json(e)),
        }
    }

    pub fn get(&self, key: &str) -> (r: Option<&JsonValue>)
        ensures
            r is Some == self.field(key@) is Some,
            r matches Some(x) ==> self.field(key@) == Some(*x),
    {
        match self {
            JsonValue::Object(members) => {
                let mut i: usize = 0;
                assert(members@.skip(0) =~= members@);
                while i < members.len()
                    invariant
                        i <= members.len(),
                        self.field(key@) == member(members@, key@),
                        member(members@, key@) == member(members@.skip(i as int), key@),
                    decreases members.len() - i,
                {
                    assert(members@.skip(i as int).drop_first() =~= members@.skip(i + 1));
                    assert(members@.skip(i as int)[0] == members@[i as int]);
                    if str_eq(members[i].0.as_str(), key) {
                        return Some(&members[i].1);
                    }
                    i = i + 1;
                }
                None
            },
            _ => None,
        }
    }

    pub fn as_str(&self) -> (r: Option<&String>)
        ensures
            r is Some == self.str_view() is Some,
            r matches Some(s) ==> self.str_view() == Some(s@),
    {
        match self {
            JsonValue::Str(s) => Some(s),
            _ => None,
        }
    }

    pub fn as_u64(&self) -> (r: Option<u64>)
        ensures
            r == self.u64_view(),
    {
        match self {
            JsonValue::Number(n) => n.as_u64,
            _ => None,
        }
    }

    pub fn as_i64(&self) -> (r: Option<i64>)
        ensures
            r == self.i64_view(),
    {
        match self {
            JsonValue::Number(n) => n.as_i64,
            _ => None,
        }
    }

    pub fn as_bool(&self) -> (r: Option<bool>)
        ensures
            r == self.bool_view(),
    {
        match self {
            JsonValue::Bool(b) => Some(*b),
            _ => None,
        }
    }

    pub fn as_array(&self) -> (r: Option<&Vec<JsonValue>>)
        ensures
            r is Some == self.array_view() is Some,
            r matches Some(items) ==> self.array_view() == Some(items@),
    {
        match self {
            JsonValue::Array(items) => Some(items),
            _ => None,
        }
    }

    pub fn text_or(&self, key: &str, default: &str) -> (r: String)
        ensures
            r@ == text_or(*self, key@, default@),
    {
        match self.get(key) {
            Some(x) => match x.as_str() {
                Some(s) => s.clone(),
                None => default.to_string(),
            },
            None => default.to_string(),
        }
    }

    pub fn opt_text(&self, key: &str) -> (r: Option<String>)
        ensures
            r is Some == opt_text(*self, key@) is Some,
            r matches Some(s) ==> opt_text(*self, key@) == Some(s@),
    {
        match self.get(key) {
            Some(x) => match x.as_str() {
                Some(s) => Some(s.clone()),
                None => None,
            },
            None => None,
        }
    }

    pub fn opt_u64(&self, key: &str) -> (r: Option<u64>)
        ensures
            r == opt_u64(*self, key@),
    {
        match self.get(key) {
            Some(x) => x.as_u64(),
            None => None,
        }
    }

    pub fn bool_or(&self, key: &str, default: bool) -> (r: bool)
        ensures
            r == bool_or(*self, key@, default),
    {
        match self.get(key) {
            Some(x) => match x.as_bool() {
                Some(b) => b,
                None => default,
            },
            None => default,
        }
    }

    pub fn is_object(&self) -> (r: bool)
        ensures
            r == self is Object,
    {
        matches!(self, JsonValue::Object(_))
    }

    pub fn is_null(&self) -> (r: bool)
        ensures
            r == self is Null,
    {
        matches!(self, JsonValue::Null)
    }
}

/// A member found under a key is one of the members.
pub proof fn lemma_member_found(members: Seq<(String, JsonValue)>, key: Seq<char>) -> (i: int)
    requires
        member(members, key) is Some,
    ensures
        0 <= i < members.len(),
        member(members, key) == Some(members[i].1),
    decreases members.len(),
{
    if members[0].0@ == key {
        0
    } else {
        let j = lemma_member_found(members.drop_first(), key);
        j + 1
    }
}

/// A member of an object is smaller than the object.
pub proof fn lemma_field_smaller(v: JsonValue, key: Seq<char>)
    ensures
        v.field(key) matches Some(c) ==> decreases_to!(v => c),
{
    if let JsonValue::Object(members) = v {
        if member(members@, key) is Some {
            let i = lemma_member_found(members@, key);
            assert(decreases_to!(v => members));
            assert(decreases_to!(members => members@));
            assert(decreases_to!(members@ => members@[i]));
            assert(decreases_to!(members@[i] => members@[i].1));
        }
    }
}

/// The text under `key`, or `default` when there is none or it is no string.
pub open spec fn text_or(v: JsonValue, key: Seq<char>, default: Seq<char>) -> Seq<char> {
    match v.field(key) {
        Some(x) => match x.str_view() {
            Some(s) => s,
            None => default,
        },
        None => default,
    }
}

/// The text under `key`, if there is a string there.
pub open spec fn opt_text(v: JsonValue, key: Seq<char>) -> Option<Seq<char>> {
    match v.field(key) {
        Some(x) => x.str_view(),
        None => None,
    }
}

/// The unsigned integer under `key`, if there is one.
pub open spec fn opt_u64(v: JsonValue, key: Seq<char>) -> Option<u64> {
    match v.field(key) {
        Some(x) => x.u64_view(),
        None => None,
    }
}

/// The boolean under `key`, or `default`.
pub open spec fn bool_or(v: JsonValue, key: Seq<char>, default: bool) -> bool {
    match v.field(key) {
        Some(x) => match x.bool_view() {
            Some(b) => b,
            None => default,
        },
        None => default,
    }
}

/// Reads each item of a JSON array in order: `f` gives nothing for an item
/// that makes the whole list fail, and `Some(None)` for one that is skipped.
pub open spec fn parse_each<T>(
    items: Seq<JsonValue>,
    f: spec_fn(JsonValue) -> Option<Option<T>>,
) -> Option<Seq<T>>
    decreases items.len(),
{
    if items.len() == 0 {
        Some(Seq::empty())
    } else {
        match f(items[0]) {
            None => None,
            Some(head) => match parse_each(items.drop_first(), f) {
                None => None,
                Some(rest) => Some(
                    match head {
                        Some(h) => seq![h] + rest,
                        None => rest,
                    },
                ),
            },
        }
    }
}

/// `done` followed by what is left to read, if that is readable.
pub open spec fn glue<T>(done: Seq<T>, rest: Option<Seq<T>>) -> Option<Seq<T>> {
    match rest {
        Some(r) => Some(done + r),
        None => None,
    }
}

/// One step of `parse_each`: after the item at `i`, the result read so far
/// grows by what the item gave.
pub proof fn lemma_parse_each_step<T>(
    items: Seq<JsonValue>,
    f: spec_fn(JsonValue) -> Option<Option<T>>,
    i: int,
    done: Seq<T>,
)
    requires
        0 <= i < items.len(),
    ensures
        f(items[i]) is None ==> glue(done, parse_each(items.skip(i), f)) is None,
        f(items[i]) matches Some(Some(h)) ==> glue(done, parse_each(items.skip(i), f)) == glue(
            done.push(h),
            parse_each(items.skip(i + 1), f),
        ),
        f(items[i]) matches Some(None) ==> glue(done, parse_each(items.skip(i), f)) == glue(
            done,
            parse_each(items.skip(i + 1), f),
        ),
{
    assert(items.skip(i).drop_first() =~= items.skip(i + 1));
    assert(items.skip(i)[0] == items[i]);
    if let Some(Some(h)) = f(items[i]) {
        if let Some(r) = parse_each(items.skip(i + 1), f) {
            assert(done + (seq![h] + r) =~= done.push(h) + r);
        }
    }
}

/// When every item is read (none fails, none is skipped), the list has one
/// entry per item, in order.
pub proof fn lemma_parse_each_all<T>(items: Seq<JsonValue>, f: spec_fn(JsonValue) -> Option<Option<T>>)
    requires
        forall|i: int| 0 <= i < items.len() ==> (#[trigger] f(items[i])) matches Some(Some(_)),
    ensures
        parse_each(items, f) matches Some(r) && r.len() == items.len() && forall|i: int|
            0 <= i < items.len() ==> f(items[i]) == Some(Some(#[trigger] r[i])),
    decreases items.len(),
{
    if items.len() > 0 {
        let rest = items.drop_first();
        assert forall|i: int| 0 <= i < rest.len() implies (#[trigger] f(rest[i])) matches Some(Some(_)) by {
            assert(rest[i] == items[i + 1]);
        }
        lemma_parse_each_all(rest, f);
        let r = parse_each(rest, f).unwrap();
        assert(f(items[0]) matches Some(Some(_)));
        let h = f(items[0]).unwrap().unwrap();
        let all = seq![h] + r;
        assert forall|i: int| 0 <= i < items.len() implies f(items[i]) == Some(Some(#[trigger] all[i])) by {
            if i > 0 {
                assert(items[i] == rest[i - 1]);
            }
        }
    }
}

/// Before the first item: nothing read, everything left.
pub proof fn lemma_parse_each_start<T>(items: Seq<JsonValue>, f: spec_fn(JsonValue) -> Option<Option<T>>)
    ensures
        glue(Seq::<T>::empty(), parse_each(items.skip(0), f)) == parse_each(items, f),
        parse_each(items.skip(items.len() as int), f) == Some(Seq::<T>::empty()),
{
    assert(items.skip(0) =~= items);
    assert(items.skip(items.len() as int) =~= Seq::<JsonValue>::empty());
    if let Some(r) = parse_each(items, f) {
        assert(Seq::<T>::empty() + r =~= r);
    }
}

/// Relies on `==` on `str`: true exactly when the two texts are the same.
#[verifier::external_body]
fn str_eq(a: &str, b: &str) -> (r: bool)
    ensures
        r == (a@ == b@),
{
    a == b
}

#[verifier::external_type_specification]
#[verifier::external_body]
pub struct ExJsonError(serde_json::Error);

#[verifier::external_type_specification]
#[verifier::external_body]
pub struct ExJsonTree(serde_json::Value);

/// The document that serde_json reads from a text, if the text is one; it
/// depends on the text alone.
pub uninterp spec fn json_document(text: Seq<char>) -> Option<JsonValue>;

/// Relies on serde_json::from_str into serde_json::Value: it fails exactly
/// when the text is not one JSON document, and otherwise yields that document.
#[verifier::external_body]
pub(crate) fn parse_json(text: &str) -> (r: Result<JsonValue, serde_json::Error>)
    ensures
        r is Ok == json_document(text@) is Some,
        r matches Ok(v) ==> json_document(text@) == Some(v),
{
    serde_json::from_str::<serde_json::Value>(text).map(from_serde)
}

/// Moves a serde_json tree into the plain form above, node for node.
#[verifier::external_body]
fn from_serde(v: serde_json::Value) -> JsonValue {
    match v {
        serde_json::Value::Null => JsonValue::Null,
        serde_json::Value::Bool(b) => JsonValue::Bool(b),
        serde_json::Value::Number(n) => JsonValue::Number(
            JsonNumber { as_u64: n.as_u64(), as_i64: n.as_i64(), text: n.to_string() },
        ),
        serde_json::Value::String(s) => JsonValue::Str(s),
        serde_json::Value::Array(a) => JsonValue::Array(a.into_iter().map(from_serde).collect()),
        serde_json::Value::Object(m) => JsonValue::Object(
            m.into_iter().map(|(k, x)| (k, from_serde(x))).collect(),
        ),
    }
}

} // verus!
