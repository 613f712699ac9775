//! A JSON document model: the values that tool parameters, service
//! responses and protocol messages carry. Numbers keep the three shapes a
//! JSON number can take: a non-negative integer, a negative integer, or a
//! number with a fraction or exponent, kept as its decimal text. Object
//! members keep the order in which they were given.
use vstd::prelude::*;
use crate::text::{string_of, str_eq};

verus! {

broadcast use vstd::string::group_string_axioms;

#[derive(Debug, Clone)]
pub enum JsonNumber {
    Unsigned(u64),
    Negative(i64),
    Fraction(String),
}

#[derive(Debug)]
pub enum JsonValue {
    Null,
    Bool(bool),
    Number(JsonNumber),
    Str(String),
    Array(Vec<JsonValue>),
    Object(Vec<(String, JsonValue)>),
}

pub ghost enum NumberView {
    Unsigned(u64),
    Negative(i64),
    Fraction(Seq<char>),
}

pub ghost enum JsonView {
    Null,
    Bool(bool),
    Number(NumberView),
    Str(Seq<char>),
    Array(Seq<JsonView>),
    Object(Seq<(Seq<char>, JsonView)>),
}

impl JsonNumber {
    pub open spec fn view_number(self) -> NumberView {
        match self {
            JsonNumber::Unsigned(n) => NumberView::Unsigned(n),
            JsonNumber::Negative(n) => NumberView::Negative(n),
            JsonNumber::Fraction(t) => NumberView::Fraction(t@),
        }
    }
}

impl JsonValue {
    /// The value as a mathematical JSON tree.
    pub open spec fn deep(self) -> JsonView
        decreases self,
    {
        match self {
            JsonValue::Null => JsonView::Null,
            JsonValue::Bool(b) => JsonView::Bool(b),
            JsonValue::Number(n) => JsonView::Number(n.view_number()),
            JsonValue::Str(s) => JsonView::Str(s@),
            JsonValue::Array(items) => JsonView::Array(
                Seq::new(
                    items@.len(),
                    |i: int|
                        if 0 <= i < items@.len() {
                            items@[i].deep()
                        } else {
                            JsonView::Null
                        },
                ),
            ),
            JsonValue::Object(members) => JsonView::Object(
                Seq::new(
                    members@.len(),
                    |i: int|
                        if 0 <= i < members@.len() {
                            (members@[i].0@, members@[i].1.deep())
                        } else {
                            (Seq::empty(), JsonView::Null)
                        },
                ),
            ),
        }
    }
}

impl View for JsonValue {
    type V = JsonView;

    open spec fn view(&self) -> JsonView {
        self.deep()
    }
}

/// The first member of an object with the given key.
pub open spec fn member_lookup(members: Seq<(Seq<char>, JsonView)>, key: Seq<char>) -> Option<JsonView>
    decreases members.len(),
{
    if members.len() == 0 {
        None
    } else if members[0].0 == key {
        Some(members[0].1)
    } else {
        member_lookup(members.drop_first(), key)
    }
}

impl JsonView {
    /// `Value::get(key)`: the member of an object; nothing for other values.
    pub open spec fn lookup(self, key: Seq<char>) -> Option<JsonView> {
        match self {
            JsonView::Object(members) => member_lookup(members, key),
            _ => None,
        }
    }

    pub open spec fn str_value(self) -> Option<Seq<char>> {
        match self {
            JsonView::Str(s) => Some(s),
            _ => None,
        }
    }

    pub open spec fn bool_value(self) -> Option<bool> {
        match self {
            JsonView::Bool(b) => Some(b),
            _ => None,
        }
    }

    /// `Value::as_u64`: only a non-negative integer has one.
    pub open spec fn u64_value(self) -> Option<u64> {
        match self {
            JsonView::Number(NumberView::Unsigned(n)) => Some(n),
            _ => None,
        }
    }

    pub open spec fn array_value(self) -> Option<Seq<JsonView>> {
        match self {
            JsonView::Array(items) => Some(items),
            _ => None,
        }
    }

    /// `get(key).and_then(as_str)`.
    pub open spec fn str_at(self, key: Seq<char>) -> Option<Seq<char>> {
        match self.lookup(key) {
            Some(v) => v.str_value(),
            None => None,
        }
    }

    /// `get(key).and_then(as_bool)`.
    pub open spec fn bool_at(self, key: Seq<char>) -> Option<bool> {
        match self.lookup(key) {
            Some(v) => v.bool_value(),
            None => None,
        }
    }

    /// `get(key).and_then(as_u64)`.
    pub open spec fn u64_at(self, key: Seq<char>) -> Option<u64> {
        match self.lookup(key) {
            Some(v) => v.u64_value(),
            None => None,
        }
    }

    /// `get(key).and_then(as_array)`.
    pub open spec fn array_at(self, key: Seq<char>) -> Option<Seq<JsonView>> {
        match self.lookup(key) {
            Some(v) => v.array_value(),
            None => None,
        }
    }

    /// `get(key).and_then(as_str).unwrap_or(default)`.
    pub open spec fn str_or(self, key: Seq<char>, default: Seq<char>) -> Seq<char> {
        match self.str_at(key) {
            Some(s) => s,
            None => default,
        }
    }
}

/// The JSON type names that error messages use.
pub open spec fn kind_name(v: JsonView) -> Seq<char> {
    match v {
        JsonView::Null => "null"@,
        JsonView::Bool(_) => "boolean"@,
        JsonView::Number(_) => "number"@,
        JsonView::Str(_) => "string"@,
        JsonView::Array(_) => "array"@,
        JsonView::Object(_) => "object"@,
    }
}

impl JsonValue {
    /// `Value::get`: the member with key `key` of an object.
    pub fn get(&self, key: &str) -> (r: Option<&JsonValue>)
        ensures
            match r {
                Some(v) => self@.lookup(key@) == Some(v@),
                None => self@.lookup(key@) is None,
            },
    {
        match self {
            JsonValue::Object(members) => {
                let ghost ms = self@->Object_0;
                assert(ms.len() == members@.len());
                assert(ms.subrange(0, ms.len() as int) =~= ms);
                let mut i: usize = 0;
                while i < members.len()
                    invariant
                        i <= members@.len(),
                        ms.len() == members@.len(),
                        ms == self@->Object_0,
                        self == JsonValue::Object(*members),
                        forall|j: int| 0 <= j < members@.len() ==> #[trigger] ms[j] == (members@[j].0@, members@[j].1@),
                        member_lookup(ms, key@) == member_lookup(ms.subrange(i as int, ms.len() as int), key@),
                    decreases members.len() - i,
                {
                    let ghost rest = ms.subrange(i as int, ms.len() as int);
                    assert(rest[0] == ms[i as int]);
                    if str_eq(members[i].0.as_str(), key) {
                        return Some(&members[i].1);
                    }
                    assert(rest.drop_first() =~= ms.subrange(i + 1, ms.len() as int));
                    i = i + 1;
                }
                assert(ms.subrange(i as int, ms.len() as int).len() == 0);
                None
            },
            _ => None,
        }
    }

    pub fn as_str(&self) -> (r: Option<&str>)
        ensures
            match r {
                Some(s) => self@.str_value() == Some(s@),
                None => self@.str_value() is None,
            },
    {
        match self {
            JsonValue::Str(s) => Some(s.as_str()),
            _ => None,
        }
    }

    pub fn as_bool(&self) -> (r: Option<bool>)
        ensures
            r == self@.bool_value(),
    {
        match self {
            JsonValue::Bool(b) => Some(*b),
            _ => None,
        }
    }

    pub fn as_u64(&self) -> (r: Option<u64>)
        ensures
            r == self@.u64_value(),
    {
        match self {
            JsonValue::Number(JsonNumber::Unsigned(n)) => Some(*n),
            _ => None,
        }
    }

    pub fn as_array(&self) -> (r: Option<&Vec<JsonValue>>)
        ensures
            match r {
                Some(items) => self@.array_value() == Some(items@.map_values(|x: JsonValue| x@)),
                None => self@.array_value() is None,
            },
    {
        match self {
            JsonValue::Array(items) => {
                assert(self@->Array_0 =~= items@.map_values(|x: JsonValue| x@));
                Some(items)
            },
            _ => None,
        }
    }

    pub fn is_object(&self) -> (r: bool)
        ensures
            r == (self@ is Object),
    {
        match self {
            JsonValue::Object(_) => true,
            _ => false,
        }
    }

    /// The JSON type name of the value.
    pub fn kind_name(&self) -> (r: &'static str)
        ensures
            r@ == kind_name(self@),
    {
        match self {
            JsonValue::Null => "null",
            JsonValue::Bool(_) => "boolean",
            JsonValue::Number(_) => "number",
            JsonValue::Str(_) => "string",
            JsonValue::Array(_) => "array",
            JsonValue::Object(_) => "object",
        }
    }

    /// `get(key).and_then(as_str)`.
    pub fn str_field(&self, key: &str) -> (r: Option<&str>)
        ensures
            match r {
                Some(s) => self@.str_at(key@) == Some(s@),
                None => self@.str_at(key@) is None,
            },
    {
        match self.get(key) {
            Some(v) => v.as_str(),
            None => None,
        }
    }

    /// `get(key).and_then(as_str).unwrap_or(default)`, owned.
    pub fn str_field_or(&self, key: &str, default: &str) -> (r: String)
        ensures
            r@ == self@.str_or(key@, default@),
    {
        match self.str_field(key) {
            Some(s) => string_of(s),
            None => string_of(default),
        }
    }

    /// `get(key).and_then(as_bool)`.
    pub fn bool_field(&self, key: &str) -> (r: Option<bool>)
        ensures
            r == self@.bool_at(key@),
    {
        match self.get(key) {
            Some(v) => v.as_bool(),
            None => None,
        }
    }

    /// `get(key).and_then(as_u64)`.
    pub fn u64_field(&self, key: &str) -> (r: Option<u64>)
        ensures
            r == self@.u64_at(key@),
    {
        match self.get(key) {
            Some(v) => v.as_u64(),
            None => None,
        }
    }

    /// `get(key).and_then(as_array)`.
    pub fn array_field(&self, key: &str) -> (r: Option<&Vec<JsonValue>>)
        ensures
            match r {
                Some(items) => self@.array_at(key@) == Some(items@.map_values(|x: JsonValue| x@)),
                None => self@.array_at(key@) is None,
            },
    {
        match self.get(key) {
            Some(v) => v.as_array(),
            None => None,
        }
    }
}

impl JsonNumber {
    pub fn duplicate(&self) -> (r: JsonNumber)
        ensures
            r.view_number() == self.view_number(),
    {
        match self {
            JsonNumber::Unsigned(n) => JsonNumber::Unsigned(*n),
            JsonNumber::Negative(n) => JsonNumber::Negative(*n),
            JsonNumber::Fraction(t) => JsonNumber::Fraction(string_of(t.as_str())),
        }
    }
}

impl JsonValue {
    /// A deep copy.
    pub fn duplicate(&self) -> (r: JsonValue)
        ensures
            r@ == self@,
        decreases self,
    {
        match self {
            JsonValue::Null => JsonValue::Null,
            JsonValue::Bool(b) => JsonValue::Bool(*b),
            JsonValue::Number(n) => JsonValue::Number(n.duplicate()),
            JsonValue::Str(s) => JsonValue::Str(string_of(s.as_str())),
            JsonValue::Array(items) => {
                let mut out: Vec<JsonValue> = Vec::new();
                let mut i: usize = 0;
                while i < items.len()
                    invariant
                        i <= items@.len(),
                        out@.len() == i,
                        forall|j: int| 0 <= j < i ==> (#[trigger] out@[j])@ == items@[j]@,
                        *self == JsonValue::Array(*items),
                    decreases items.len() - i,
                {
                    proof {
                        assert(decreases_to!(*self => self->Array_0));
                        assert(decreases_to!(*items => items@));
                        assert(decreases_to!(items@ => items@[i as int]));
                    }
                    let c = items[i].duplicate();
                    out.push(c);
                    i = i + 1;
                }
                let r = JsonValue::Array(out);
                assert(r@->Array_0 =~= self@->Array_0);
                r
            },
            JsonValue::Object(members) => {
                let mut out: Vec<(String, JsonValue)> = Vec::new();
                let mut i: usize = 0;
                while i < members.len()
                    invariant
                        i <= members@.len(),
                        out@.len() == i,
                        forall|j: int|
                            0 <= j < i ==> (#[trigger] out@[j]).0@ == members@[j].0@ && out@[j].1@
                                == members@[j].1@,
                        *self == JsonValue::Object(*members),
                    decreases members.len() - i,
                {
                    proof {
                        assert(decreases_to!(*self => self->Object_0));
                        assert(decreases_to!(*members => members@));
                        assert(decreases_to!(members@ => members@[i as int]));
                        assert(decreases_to!(members@[i as int] => members@[i as int].1));
                    }
                    let k = string_of(members[i].0.as_str());
                    let c = members[i].1.duplicate();
                    out.push((k, c));
                    i = i + 1;
                }
                let r = JsonValue::Object(out);
                assert(r@->Object_0 =~= self@->Object_0);
                r
            },
        }
    }

    /// A JSON string.
    pub fn string(s: &str) -> (r: JsonValue)
        ensures
            r@ == JsonView::Str(s@),
    {
        JsonValue::Str(string_of(s))
    }

    /// A JSON array of strings.
    pub fn strings(items: &Vec<String>) -> (r: JsonValue)
        ensures
            r@ == JsonView::Array(items@.map_values(|x: String| JsonView::Str(x@))),
    {
        let mut out: Vec<JsonValue> = Vec::new();
        let mut i: usize = 0;
        while i < items.len()
            invariant
                i <= items@.len(),
                out@.len() == i,
                forall|j: int| 0 <= j < i ==> (#[trigger] out@[j])@ == JsonView::Str(items@[j]@),
            decreases items.len() - i,
        {
            out.push(JsonValue::string(items[i].as_str()));
            i = i + 1;
        }
        let r = JsonValue::Array(out);
        assert(r@->Array_0 =~= items@.map_values(|x: String| JsonView::Str(x@)));
        r
    }
}

/// Appends a member to an object under construction.
pub fn put(members: &mut Vec<(String, JsonValue)>, key: &str, value: JsonValue)
    ensures
        final(members)@.len() == old(members)@.len() + 1,
        forall|j: int| 0 <= j < old(members)@.len() ==> #[trigger] final(members)@[j] == old(members)@[j],
        final(members)@.last().0@ == key@,
        final(members)@.last().1@ == value@,
{
    members.push((string_of(key), value));
}

/// The view of an object given its members' views.
pub open spec fn members_view(members: Seq<(String, JsonValue)>) -> Seq<(Seq<char>, JsonView)> {
    members.map_values(|m: (String, JsonValue)| (m.0@, m.1@))
}

pub proof fn lemma_object_view(members: Vec<(String, JsonValue)>)
    ensures
        JsonValue::Object(members)@ == JsonView::Object(members_view(members@)),
{
    assert(JsonValue::Object(members)@->Object_0 =~= members_view(members@));
}

pub proof fn lemma_array_view(items: Vec<JsonValue>)
    ensures
        JsonValue::Array(items)@ == JsonView::Array(items@.map_values(|x: JsonValue| x@)),
{
    assert(JsonValue::Array(items)@->Array_0 =~= items@.map_values(|x: JsonValue| x@));
}

} // verus!
