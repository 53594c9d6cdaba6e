//! A plain model of a decoded JSON document, as the Reddit API answers it.
//! The HTTP layer decodes the body and hands the value over in this form.
use vstd::prelude::*;
use vstd::string::*;

verus! {

/// A JSON number, kept as far as the library reads it: integers exactly,
/// other numbers only as being such.
#[derive(Clone, Debug)]
pub enum JsonNumber {
    PosInt(u64),
    NegInt(i64),
    Float,
}

/// A JSON value. An object keeps its members in order, one per key.
pub enum Json {
    Null,
    Bool(bool),
    Number(JsonNumber),
    Str(String),
    Array(Vec<Json>),
    Object(Vec<(String, Json)>),
}

/// The value of the first member named `key`, if any.
pub open spec fn member(pairs: Seq<(String, Json)>, key: Seq<char>) -> Option<Json>
    decreases pairs.len(),
{
    if pairs.len() == 0 {
        None
    } else if pairs[0].0@ == key {
        Some(pairs[0].1)
    } else {
        member(pairs.drop_first(), key)
    }
}

impl Json {
    /// `self[key]`: the member named `key` of an object, `Null` otherwise.
    pub open spec fn field(self, key: Seq<char>) -> Json {
        match self {
            Json::Object(pairs) => match member(pairs@, key) {
                Some(v) => v,
                None => Json::Null,
            },
            _ => Json::Null,
        }
    }

    /// `self[i]`: the element `i` of an array, `Null` otherwise.
    pub open spec fn at(self, i: int) -> Json {
        match self {
            Json::Array(items) => if 0 <= i < items@.len() {
                items@[i]
            } else {
                Json::Null
            },
            _ => Json::Null,
        }
    }

    pub open spec fn str_view(self) -> Option<Seq<char>> {
        match self {
            Json::Str(s) => Some(s@),
            _ => None,
        }
    }

    pub open spec fn bool_view(self) -> Option<bool> {
        match self {
            Json::Bool(b) => Some(b),
            _ => None,
        }
    }

    pub open spec fn u64_view(self) -> Option<u64> {
        match self {
            Json::Number(JsonNumber::PosInt(n)) => Some(n),
            _ => None,
        }
    }

    pub open spec fn i64_view(self) -> Option<int> {
        match self {
            Json::Number(JsonNumber::PosInt(n)) => if n <= i64::MAX {
                Some(n as int)
            } else {
                None
            },
            Json::Number(JsonNumber::NegInt(n)) => Some(n as int),
            _ => None,
        }
    }

    pub open spec fn array_view(self) -> Option<Seq<Json>> {
        match self {
            Json::Array(items) => Some(items@),
            _ => None,
        }
    }

    /// The member named `key`, when `self` is an object that has one.
    pub fn get(&self, key: &str) -> (r: Option<&Json>)
        ensures
            r is Some ==> *r.unwrap() == self.field(key@),
            r is None ==> self.field(key@) == Json::Null,
    {
        match self {
            Json::Object(pairs) => {
                let k = String::from_str(key);
                let mut i: usize = 0;
                assert(pairs@.subrange(0, pairs@.len() as int) =~= pairs@);
                while i < pairs.len()
                    invariant
                        i <= pairs@.len(),
                        k@ == key@,
                        *self == Json::Object(*pairs),
                        member(pairs@, key@) == member(pairs@.subrange(i as int, pairs@.len() as int), key@),
                    decreases pairs@.len() - i,
                {
                    let ghost rest = pairs@.subrange(i as int, pairs@.len() as int);
                    assert(rest[0] == pairs@[i as int]);
                    if pairs[i].0 == k {
                        assert(member(rest, key@) == Some(rest[0].1));
                        return Some(&pairs[i].1);
                    }
                    assert(rest.drop_first() =~= pairs@.subrange(i + 1, pairs@.len() as int));
                    i = i + 1;
                }
                None
            },
            _ => None,
        }
    }

    /// `self[key]`, read as a string.
    pub fn str_field(&self, key: &str) -> (r: Option<&String>)
        ensures
            r is Some <==> self.field(key@).str_view() is Some,
            r is Some ==> r.unwrap()@ == self.field(key@).str_view().unwrap(),
    {
        match self.get(key) {
            Some(v) => v.as_str(),
            None => None,
        }
    }

    pub fn as_str(&self) -> (r: Option<&String>)
        ensures
            r is Some <==> self.str_view() is Some,
            r is Some ==> r.unwrap()@ == self.str_view().unwrap(),
    {
        match self {
            Json::Str(s) => Some(s),
            _ => None,
        }
    }

    pub fn as_bool(&self) -> (r: Option<bool>)
        ensures
            r == self.bool_view(),
    {
        match self {
            Json::Bool(b) => Some(*b),
            _ => None,
        }
    }

    pub fn as_u64(&self) -> (r: Option<u64>)
        ensures
            r == self.u64_view(),
    {
        match self {
            Json::Number(JsonNumber::PosInt(n)) => Some(*n),
            _ => None,
        }
    }

    pub fn as_i64(&self) -> (r: Option<i64>)
        ensures
            r is Some <==> self.i64_view() is Some,
            r is Some ==> r.unwrap() as int == self.i64_view().unwrap(),
    {
        match self {
            Json::Number(JsonNumber::PosInt(n)) => if *n <= i64::MAX as u64 {
                Some(*n as i64)
            } else {
                None
            },
            Json::Number(JsonNumber::NegInt(n)) => Some(*n),
            _ => None,
        }
    }

    pub fn as_array(&self) -> (r: Option<&Vec<Json>>)
        ensures
            r is Some <==> self.array_view() is Some,
            r is Some ==> r.unwrap()@ == self.array_view().unwrap(),
    {
        match self {
            Json::Array(items) => Some(items),
            _ => None,
        }
    }

    /// Element `i` of an array.
    pub fn index(&self, i: usize) -> (r: Option<&Json>)
        ensures
            r is Some ==> *r.unwrap() == self.at(i as int),
            r is None ==> self.at(i as int) == Json::Null,
    {
        match self {
            Json::Array(items) => if i < items.len() {
                Some(&items[i])
            } else {
                None
            },
            _ => None,
        }
    }
}

} // verus!
