//! A JSON document as a tree of plain values.

use crate::sorting::str_eq;
use crate::text::{decimal, i64_to_string, signed_decimal, u64_to_string};
use vstd::prelude::*;

verus! {

/// A JSON number. Integers are held exactly; any other number is held as its decimal text.
#[derive(Debug, PartialEq, Eq)]
pub enum JsonNumber {
    /// A non-negative integer.
    PosInt(u64),
    /// A negative integer.
    NegInt(i64),
    /// A number with a fraction or an exponent, as written.
    Float(String),
}

/// A JSON value. The members of an object keep the order in which they were given.
#[derive(Debug, PartialEq, Eq)]
pub enum JsonValue {
    Null,
    Bool(bool),
    Number(JsonNumber),
    String(String),
    Array(Vec<JsonValue>),
    Object(Vec<(String, JsonValue)>),
}

/// The mathematical value of a [`JsonNumber`].
pub enum Number {
    PosInt(u64),
    NegInt(i64),
    Float(Seq<char>),
}

/// The mathematical value of a [`JsonValue`].
#[verifier::ext_equal]
pub enum Json {
    Null,
    Bool(bool),
    Number(Number),
    String(Seq<char>),
    Array(Seq<Json>),
    Object(Seq<(Seq<char>, Json)>),
}

impl Number {
    /// The number as it is written.
    pub open spec fn text(self) -> Seq<char> {
        match self {
            Number::PosInt(n) => decimal(n as nat),
            Number::NegInt(i) => signed_decimal(i as int),
            Number::Float(text) => text,
        }
    }
}

impl JsonNumber {
    /// The number as it is written.
    pub fn to_text(&self) -> (text: String)
        ensures
            text@ == self@.text(),
    {
        match self {
            JsonNumber::PosInt(n) => u64_to_string(*n),
            JsonNumber::NegInt(i) => i64_to_string(*i),
            JsonNumber::Float(text) => text.clone(),
        }
    }
}

impl View for JsonNumber {
    type V = Number;

    open spec fn view(&self) -> Number {
        match self {
            JsonNumber::PosInt(n) => Number::PosInt(*n),
            JsonNumber::NegInt(i) => Number::NegInt(*i),
            JsonNumber::Float(text) => Number::Float(text@),
        }
    }
}

impl DeepView for JsonNumber {
    type V = Number;

    open spec fn deep_view(&self) -> Number {
        self@
    }
}

/// The value that a [`JsonValue`] stands for.
pub open spec fn json_of(value: JsonValue) -> Json
    decreases value,
{
    match value {
        JsonValue::Null => Json::Null,
        JsonValue::Bool(b) => Json::Bool(b),
        JsonValue::Number(n) => Json::Number(n@),
        JsonValue::String(s) => Json::String(s@),
        JsonValue::Array(items) => Json::Array(
            Seq::new(
                items.len() as nat,
                |i: int|
                    if 0 <= i < items.len() {
                        json_of(items[i])
                    } else {
                        Json::Null
                    },
            ),
        ),
        JsonValue::Object(members) => Json::Object(
            Seq::new(
                members.len() as nat,
                |i: int|
                    if 0 <= i < members.len() {
                        (members[i].0@, json_of(members[i].1))
                    } else {
                        (Seq::empty(), Json::Null)
                    },
            ),
        ),
    }
}

impl View for JsonValue {
    type V = Json;

    open spec fn view(&self) -> Json {
        json_of(*self)
    }
}

impl DeepView for JsonValue {
    type V = Json;

    open spec fn deep_view(&self) -> Json {
        self@
    }
}

/// The view of an array is the sequence of its items' views.
pub proof fn lemma_array_view(items: Vec<JsonValue>)
    ensures
        JsonValue::Array(items)@ == Json::Array(items.deep_view()),
{
    assert(JsonValue::Array(items)@->Array_0 =~= items.deep_view());
}

/// The view of an object is the sequence of its members' views.
pub proof fn lemma_object_view(members: Vec<(String, JsonValue)>)
    ensures
        JsonValue::Object(members)@ == Json::Object(members.deep_view()),
{
    assert(JsonValue::Object(members)@->Object_0 =~= members.deep_view());
}

impl Clone for JsonNumber {
    fn clone(&self) -> (copy: Self)
        ensures
            copy@ == self@,
    {
        match self {
            JsonNumber::PosInt(n) => JsonNumber::PosInt(*n),
            JsonNumber::NegInt(i) => JsonNumber::NegInt(*i),
            JsonNumber::Float(text) => JsonNumber::Float(text.clone()),
        }
    }
}

impl Clone for JsonValue {
    fn clone(&self) -> (copy: Self)
        ensures
            copy@ == self@,
        decreases self,
    {
        match self {
            JsonValue::Null => JsonValue::Null,
            JsonValue::Bool(b) => JsonValue::Bool(*b),
            JsonValue::Number(n) => JsonValue::Number(n.clone()),
            JsonValue::String(s) => JsonValue::String(s.clone()),
            JsonValue::Array(items) => {
                let mut out: Vec<JsonValue> = Vec::new();
                let mut i: usize = 0;
                while i < items.len()
                    invariant
                        self matches JsonValue::Array(v) && v == items,
                        i <= items.len(),
                        out.len() == i,
                        forall|j: int| 0 <= j < i ==> out[j]@ == items[j]@,
                    decreases items.len() - i,
                {
                    out.push(items[i].clone());
                    i = i + 1;
                }
                proof {
                    assert(out.deep_view() =~= items.deep_view());
                    lemma_array_view(out);
                    lemma_array_view(*items);
                }
                JsonValue::Array(out)
            },
            JsonValue::Object(members) => {
                let mut out: Vec<(String, JsonValue)> = Vec::new();
                let mut i: usize = 0;
                while i < members.len()
                    invariant
                        self matches JsonValue::Object(v) && v == members,
                        i <= members.len(),
                        out.len() == i,
                        forall|j: int|
                            0 <= j < i ==> out[j].0@ == members[j].0@ && out[j].1@ == members[j].1@,
                    decreases members.len() - i,
                {
                    out.push((members[i].0.clone(), members[i].1.clone()));
                    i = i + 1;
                }
                proof {
                    assert(out.deep_view() =~= members.deep_view());
                    lemma_object_view(out);
                    lemma_object_view(*members);
                }
                JsonValue::Object(out)
            },
        }
    }
}

/// The index of the first member named `key`, or the number of members if none is.
pub open spec fn member_index(members: Seq<(Seq<char>, Json)>, key: Seq<char>) -> int
    decreases members.len(),
{
    if members.len() == 0 {
        0
    } else if members[0].0 == key {
        0
    } else {
        1 + member_index(members.drop_first(), key)
    }
}

/// The member index lies in `0..=len`, no member before it is named `key`, and the member at
/// it is.
pub proof fn lemma_member_index(members: Seq<(Seq<char>, Json)>, key: Seq<char>)
    ensures
        0 <= member_index(members, key) <= members.len(),
        forall|j: int| 0 <= j < member_index(members, key) ==> (#[trigger] members[j]).0 != key,
        member_index(members, key) < members.len() ==> members[member_index(members, key)].0
            == key,
    decreases members.len(),
{
    if members.len() > 0 && members[0].0 != key {
        let tail = members.drop_first();
        lemma_member_index(tail, key);
        assert forall|j: int| 0 <= j < member_index(members, key) implies (
        #[trigger] members[j]).0 != key by {
            if j > 0 {
                assert(members[j] == tail[j - 1]);
            }
        }
    }
}

/// An index with the two properties of the member index is the member index.
pub proof fn lemma_member_index_unique(members: Seq<(Seq<char>, Json)>, key: Seq<char>, at: int)
    requires
        0 <= at <= members.len(),
        forall|j: int| 0 <= j < at ==> (#[trigger] members[j]).0 != key,
        at < members.len() ==> members[at].0 == key,
    ensures
        member_index(members, key) == at,
{
    lemma_member_index(members, key);
}

impl Json {
    /// The number as a signed integer, if this is an integer that fits in 64 bits.
    pub open spec fn integer(self) -> Option<i64> {
        match self {
            Json::Number(Number::PosInt(n)) => if n <= i64::MAX {
                Some(n as i64)
            } else {
                None
            },
            Json::Number(Number::NegInt(i)) => Some(i),
            _ => None,
        }
    }

    /// The value of the first member named `key`, if this is an object that has one.
    pub open spec fn member(self, key: Seq<char>) -> Option<Json> {
        match self {
            Json::Object(members) => if member_index(members, key) < members.len() {
                Some(members[member_index(members, key)].1)
            } else {
                None
            },
            _ => None,
        }
    }
}

impl JsonValue {
    /// The value of the first member named `key`, if this is an object that has one.
    pub fn get(&self, key: &str) -> (found: Option<&JsonValue>)
        ensures
            match found {
                Some(value) => self@.member(key@) == Some(value@),
                None => self@.member(key@) is None,
            },
    {
        match self {
            JsonValue::Object(members) => {
                proof {
                    lemma_object_view(*members);
                }
                let ghost views = members.deep_view();
                let mut i: usize = 0;
                while i < members.len()
                    invariant
                        views == members.deep_view(),
                        self@ == Json::Object(views),
                        i <= members.len(),
                        forall|j: int| 0 <= j < i ==> (#[trigger] views[j]).0 != key@,
                    decreases members.len() - i,
                {
                    if str_eq(members[i].0.as_str(), key) {
                        proof {
                            lemma_member_index_unique(views, key@, i as int);
                        }
                        return Some(&members[i].1);
                    }
                    i = i + 1;
                }
                proof {
                    lemma_member_index_unique(views, key@, i as int);
                }
                None
            },
            _ => None,
        }
    }

    /// The text, if this is a string.
    pub fn as_str(&self) -> (text: Option<&str>)
        ensures
            match text {
                Some(text) => self@ == Json::String(text@),
                None => !(self@ is String),
            },
    {
        match self {
            JsonValue::String(s) => Some(s.as_str()),
            _ => None,
        }
    }

    /// The number, if this is a non-negative integer.
    pub fn as_u64(&self) -> (number: Option<u64>)
        ensures
            match number {
                Some(n) => self@ == Json::Number(Number::PosInt(n)),
                None => !(self@ matches Json::Number(Number::PosInt(_))),
            },
    {
        match self {
            JsonValue::Number(JsonNumber::PosInt(n)) => Some(*n),
            _ => None,
        }
    }

    /// The number, if this is an integer that fits.
    pub fn as_i64(&self) -> (number: Option<i64>)
        ensures
            number == self@.integer(),
    {
        match self {
            JsonValue::Number(JsonNumber::PosInt(n)) => if *n <= 0x7fff_ffff_ffff_ffff {
                Some(*n as i64)
            } else {
                None
            },
            JsonValue::Number(JsonNumber::NegInt(i)) => Some(*i),
            _ => None,
        }
    }

    /// The items, if this is an array.
    pub fn as_array(&self) -> (items: Option<&Vec<JsonValue>>)
        ensures
            match items {
                Some(items) => self@ == Json::Array(items.deep_view()),
                None => !(self@ is Array),
            },
    {
        match self {
            JsonValue::Array(items) => {
                proof {
                    lemma_array_view(*items);
                }
                Some(items)
            },
            _ => None,
        }
    }

    /// The members, if this is an object.
    pub fn as_object(&self) -> (members: Option<&Vec<(String, JsonValue)>>)
        ensures
            match members {
                Some(members) => self@ == Json::Object(members.deep_view()),
                None => !(self@ is Object),
            },
    {
        match self {
            JsonValue::Object(members) => {
                proof {
                    lemma_object_view(*members);
                }
                Some(members)
            },
            _ => None,
        }
    }
}

} // verus!
