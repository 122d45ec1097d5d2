//! JSON documents as values of this library.
//!
//! The text is parsed by the `serde_json` crate; what it yields is carried
//! over into `JsonValue`, on which everything else here works. A number
//! with a fraction or an exponent is kept as the bits of the
//! double-precision number that the parser made of it.

use vstd::prelude::*;
use crate::model::opt_ref_text;
use crate::seqs::{first_where, first_where_absent, first_where_found};
use crate::text::str_eq;

verus! {

/// A JSON number.
#[derive(Clone, Copy, Debug, PartialEq, Eq, Structural)]
pub enum JsonNumber {
    /// A whole number that is not negative.
    PosInt(u64),
    /// A negative whole number.
    NegInt(i64),
    /// Any other number, as the bits of a double-precision number.
    Float(u64),
}

/// A JSON document. The members of an object are in the order of their
/// keys, and no key occurs twice.
#[derive(Debug)]
pub enum JsonValue {
    Null,
    Bool(bool),
    Number(JsonNumber),
    String(String),
    Array(Vec<JsonValue>),
    Object(Vec<(String, JsonValue)>),
}

/// The document that a `JsonValue` holds, with lists in place of vectors and
/// sequences of characters in place of strings.
pub enum JsonView {
    Null,
    Bool(bool),
    Number(JsonNumber),
    String(Seq<char>),
    Array(Seq<JsonView>),
    Object(Seq<(Seq<char>, JsonView)>),
}

/// The document that a `JsonValue` stands for.
pub open spec fn json_view(v: JsonValue) -> JsonView
    decreases v,
{
    match v {
        JsonValue::Null => JsonView::Null,
        JsonValue::Bool(b) => JsonView::Bool(b),
        JsonValue::Number(n) => JsonView::Number(n),
        JsonValue::String(s) => JsonView::String(s@),
        JsonValue::Array(items) => JsonView::Array(
            Seq::new(
                items@.len(),
                |i: int|
                    if 0 <= i < items@.len() {
                        json_view(items@[i])
                    } else {
                        JsonView::Null
                    },
            ),
        ),
        JsonValue::Object(members) => JsonView::Object(
            Seq::new(
                members@.len(),
                |i: int|
                    if 0 <= i < members@.len() {
                        (members@[i].0@, json_view(members@[i].1))
                    } else {
                        (Seq::empty(), JsonView::Null)
                    },
            ),
        ),
    }
}

impl View for JsonValue {
    type V = JsonView;

    open spec fn view(&self) -> JsonView {
        json_view(*self)
    }
}

/// The documents of a list of values.
pub open spec fn items_view(items: Seq<JsonValue>) -> Seq<JsonView> {
    Seq::new(items.len(), |i: int| items[i]@)
}

/// The members of a list of keys and values.
pub open spec fn members_view(members: Seq<(String, JsonValue)>) -> Seq<(Seq<char>, JsonView)> {
    Seq::new(members.len(), |i: int| (members[i].0@, members[i].1@))
}

/// The view of an array is the list of its items' views.
pub proof fn array_is(items: Vec<JsonValue>)
    ensures
        JsonValue::Array(items)@ == JsonView::Array(items_view(items@)),
{
    assert(json_view(JsonValue::Array(items))->Array_0 =~= items_view(items@));
}

/// The view of an object is the list of its members' views.
pub proof fn object_is(members: Vec<(String, JsonValue)>)
    ensures
        JsonValue::Object(members)@ == JsonView::Object(members_view(members@)),
{
    assert(json_view(JsonValue::Object(members))->Object_0 =~= members_view(members@));
}

// ---------------------------------------------------------------------------
// Parsing
// ---------------------------------------------------------------------------

/// `serde_json::Value`, a parsed JSON document. Nothing is said of what is
/// inside one; it is only carried over into a `JsonValue`.
#[verifier::external_type_specification]
#[verifier::external_body]
pub struct ExSerdeValue(serde_json::Value);

/// `serde_json::Number`, a parsed JSON number. Nothing is said of what is
/// inside one; it is only carried over into a `JsonNumber`.
#[verifier::external_type_specification]
#[verifier::external_body]
pub struct ExSerdeNumber(serde_json::Number);

/// What `serde_json` makes of a text: the document, or the description of
/// what is wrong with the text.
pub uninterp spec fn json_of(bytes: Seq<u8>) -> Result<JsonView, Seq<char>>;

/// Carries a `serde_json::Number` over: `as_u64` gives a whole number that
/// is not negative, `as_i64` a negative one, `as_f64` any other.
#[verifier::external_body]
fn carry_number(n: &serde_json::Number) -> JsonNumber {
    match (n.as_u64(), n.as_i64(), n.as_f64()) {
        (Some(u), _, _) => JsonNumber::PosInt(u),
        (None, Some(i), _) => JsonNumber::NegInt(i),
        (None, None, Some(x)) => JsonNumber::Float(x.to_bits()),
        (None, None, None) => JsonNumber::Float(0),
    }
}

/// Carries a `serde_json::Value` over, variant by variant. An object's
/// members come in the order in which its map hands them out.
#[verifier::external_body]
fn carry_value(v: serde_json::Value) -> JsonValue {
    match v {
        serde_json::Value::Null => JsonValue::Null,
        serde_json::Value::Bool(b) => JsonValue::Bool(b),
        serde_json::Value::Number(n) => JsonValue::Number(carry_number(&n)),
        serde_json::Value::String(s) => JsonValue::String(s),
        serde_json::Value::Array(a) => JsonValue::Array(a.into_iter().map(carry_value).collect()),
        serde_json::Value::Object(o) => JsonValue::Object(
            o.into_iter().map(|(k, x)| (k, carry_value(x))).collect(),
        ),
    }
}

/// `serde_json::from_slice`: the document that the bytes hold, or the
/// error's own description.
#[verifier::external_body]
pub(crate) fn parse_json(bytes: &[u8]) -> (r: Result<JsonValue, String>)
    ensures
        match r {
            Ok(v) => json_of(bytes@) == Ok::<JsonView, Seq<char>>(v@),
            Err(msg) => json_of(bytes@) == Err::<JsonView, Seq<char>>(msg@),
        },
{
    match serde_json::from_slice::<serde_json::Value>(bytes) {
        Ok(v) => Ok(carry_value(v)),
        Err(e) => Err(e.to_string()),
    }
}

// ---------------------------------------------------------------------------
// Reading a document
// ---------------------------------------------------------------------------

/// The member of an object under `key`; `None` for a missing member and
/// for a document that is no object.
pub open spec fn json_get(v: JsonView, key: Seq<char>) -> Option<JsonView> {
    match v {
        JsonView::Object(members) => match first_where(
            members,
            |m: (Seq<char>, JsonView)| m.0 == key,
        ) {
            Some(i) => Some(members[i].1),
            None => None,
        },
        _ => None,
    }
}

/// The text of a string.
pub open spec fn json_str(v: JsonView) -> Option<Seq<char>> {
    match v {
        JsonView::String(s) => Some(s),
        _ => None,
    }
}

/// A whole number that is not negative.
pub open spec fn json_u64(v: JsonView) -> Option<u64> {
    match v {
        JsonView::Number(JsonNumber::PosInt(n)) => Some(n),
        _ => None,
    }
}

/// A truth value.
pub open spec fn json_bool(v: JsonView) -> Option<bool> {
    match v {
        JsonView::Bool(b) => Some(b),
        _ => None,
    }
}

/// The items of an array.
pub open spec fn json_array(v: JsonView) -> Option<Seq<JsonView>> {
    match v {
        JsonView::Array(items) => Some(items),
        _ => None,
    }
}

/// The members of an object.
pub open spec fn json_object(v: JsonView) -> Option<Seq<(Seq<char>, JsonView)>> {
    match v {
        JsonView::Object(members) => Some(members),
        _ => None,
    }
}

/// The text of the string under `key`.
pub open spec fn json_get_str(v: JsonView, key: Seq<char>) -> Option<Seq<char>> {
    match json_get(v, key) {
        Some(x) => json_str(x),
        None => None,
    }
}

/// The number under `key`.
pub open spec fn json_get_u64(v: JsonView, key: Seq<char>) -> Option<u64> {
    match json_get(v, key) {
        Some(x) => json_u64(x),
        None => None,
    }
}

/// The view of an optional borrowed document.
pub open spec fn opt_json(o: Option<&JsonValue>) -> Option<JsonView> {
    match o {
        Some(v) => Some(v@),
        None => None,
    }
}

impl JsonValue {
    /// The member under `key`.
    pub fn get(&self, key: &str) -> (r: Option<&JsonValue>)
        ensures
            opt_json(r) == json_get(self@, key@),
    {
        match self {
            JsonValue::Object(members) => {
                proof {
                    object_is(*members);
                }
                let ghost list = members_view(members@);
                let ghost p = |m: (Seq<char>, JsonView)| m.0 == key@;
                let mut i: usize = 0;
                while i < members.len()
                    invariant
                        i <= members.len(),
                        list == members_view(members@),
                        self@ == JsonView::Object(list),
                        p == (|m: (Seq<char>, JsonView)| m.0 == key@),
                        forall|j: int| 0 <= j < i ==> !p(#[trigger] list[j]),
                    decreases members.len() - i,
                {
                    if str_eq(members[i].0.as_str(), key) {
                        proof {
                            assert(p(list[i as int]));
                            first_where_found(list, p, i as int);
                            assert(list[i as int].1 == members@[i as int].1@);
                        }
                        return Some(&members[i].1);
                    }
                    i = i + 1;
                }
                proof {
                    first_where_absent(list, p);
                }
                None
            },
            _ => None,
        }
    }

    /// The text of a string.
    pub fn as_str(&self) -> (r: Option<&String>)
        ensures
            opt_ref_text(r) == json_str(self@),
    {
        match self {
            JsonValue::String(s) => Some(s),
            _ => None,
        }
    }

    /// A whole number that is not negative.
    pub fn as_u64(&self) -> (r: Option<u64>)
        ensures
            r == json_u64(self@),
    {
        match self {
            JsonValue::Number(JsonNumber::PosInt(n)) => Some(*n),
            _ => None,
        }
    }

    /// A truth value.
    pub fn as_bool(&self) -> (r: Option<bool>)
        ensures
            r == json_bool(self@),
    {
        match self {
            JsonValue::Bool(b) => Some(*b),
            _ => None,
        }
    }

    /// The items of an array.
    pub fn as_array(&self) -> (r: Option<&Vec<JsonValue>>)
        ensures
            match r {
                Some(items) => json_array(self@) == Some(items_view(items@)),
                None => json_array(self@) is None,
            },
    {
        match self {
            JsonValue::Array(items) => {
                proof {
                    array_is(*items);
                }
                Some(items)
            },
            _ => None,
        }
    }

    /// The members of an object.
    pub fn as_object(&self) -> (r: Option<&Vec<(String, JsonValue)>>)
        ensures
            match r {
                Some(members) => json_object(self@) == Some(members_view(members@)),
                None => json_object(self@) is None,
            },
    {
        match self {
            JsonValue::Object(members) => {
                proof {
                    object_is(*members);
                }
                Some(members)
            },
            _ => None,
        }
    }

    /// The text of the string under `key`.
    pub fn get_str(&self, key: &str) -> (r: Option<&String>)
        ensures
            opt_ref_text(r) == json_get_str(self@, key@),
    {
        match self.get(key) {
            Some(x) => x.as_str(),
            None => None,
        }
    }

    /// The number under `key`.
    pub fn get_u64(&self, key: &str) -> (r: Option<u64>)
        ensures
            r == json_get_u64(self@, key@),
    {
        match self.get(key) {
            Some(x) => x.as_u64(),
            None => None,
        }
    }
}

} // verus!
