//! A JSON document model holding, as plain values, what the server reads
//! from request and reply payloads.
use vstd::prelude::*;
use crate::text::same_text;

verus! {

/// A JSON value. Numbers keep the three forms a JSON number takes once
/// read: a non-negative integer, a negative integer, or a floating-point
/// number, which is held by the bits of its `f64` so that it is carried
/// through unchanged. Objects keep their members in order.
#[derive(Debug)]
pub enum Json {
    Null,
    Bool(bool),
    PosInt(u64),
    NegInt(i64),
    Float(u64),
    Str(String),
    Array(Vec<Json>),
    Object(Vec<(String, Json)>),
}

/// The value of the first member named `key`, if any.
pub open spec fn member_of(entries: Seq<(String, Json)>, key: Seq<char>) -> Option<Json>
    decreases entries.len(),
{
    if entries.len() == 0 {
        None
    } else if entries[0].0@ == key {
        Some(entries[0].1)
    } else {
        member_of(entries.drop_first(), key)
    }
}

/// The integer a JSON integer stands for.
pub open spec fn int_json(n: int) -> Json {
    if n >= 0 {
        Json::PosInt(n as u64)
    } else {
        Json::NegInt(n as i64)
    }
}

/// Reading a JSON number as an `i64`: integers in range read as
/// themselves; other values read as nothing.
pub open spec fn json_as_i64(v: Json) -> Option<i64> {
    match v {
        Json::PosInt(n) => if n <= i64::MAX { Some(n as i64) } else { None },
        Json::NegInt(n) => Some(n),
        _ => None,
    }
}

/// Reading a JSON value as text.
pub open spec fn json_as_text(v: Json) -> Option<Seq<char>> {
    match v {
        Json::Str(s) => Some(s@),
        _ => None,
    }
}

/// The member `key` of an object; other values have no members.
pub open spec fn json_get(v: Json, key: Seq<char>) -> Option<Json> {
    match v {
        Json::Object(entries) => member_of(entries@, key),
        _ => None,
    }
}

/// The integer stored under `key` in an optional payload.
pub open spec fn field_i64(data: Option<Json>, key: Seq<char>) -> Option<i64> {
    match data {
        Some(v) => match json_get(v, key) {
            Some(f) => json_as_i64(f),
            None => None,
        },
        None => None,
    }
}

/// The text stored under `key` in an optional payload.
pub open spec fn field_text(data: Option<Json>, key: Seq<char>) -> Option<Seq<char>> {
    match data {
        Some(v) => match json_get(v, key) {
            Some(f) => json_as_text(f),
            None => None,
        },
        None => None,
    }
}

proof fn lemma_member_of_skip(entries: Seq<(String, Json)>, key: Seq<char>, i: int)
    requires
        0 <= i < entries.len(),
        entries[i].0@ != key,
    ensures
        member_of(entries.subrange(i, entries.len() as int), key) == member_of(
            entries.subrange(i + 1, entries.len() as int),
            key,
        ),
{
    let s = entries.subrange(i, entries.len() as int);
    assert(s.drop_first() =~= entries.subrange(i + 1, entries.len() as int));
}

impl Json {
    /// An integer as a JSON number.
    pub fn from_i64(n: i64) -> (r: Json)
        ensures
            r == int_json(n as int),
    {
        if n >= 0 {
            Json::PosInt(n as u64)
        } else {
            Json::NegInt(n)
        }
    }

    /// An object with a single member.
    pub fn single(key: &str, value: Json) -> (r: Json)
        ensures
            r matches Json::Object(e) && e@.len() == 1 && e@[0].0@ == key@ && e@[0].1 == value,
            json_get(r, key@) == Some(value),
    {
        let mut entries: Vec<(String, Json)> = Vec::new();
        entries.push((String::from_str(key), value));
        let r = Json::Object(entries);
        proof {
            let e = entries@;
            assert(member_of(e, key@) == Some(value));
        }
        r
    }

    /// The member named `key` of an object.
    pub fn get(&self, key: &str) -> (r: Option<&Json>)
        ensures
            match r {
                Some(v) => json_get(*self, key@) == Some(*v),
                None => json_get(*self, key@) is None,
            },
    {
        match self {
            Json::Object(entries) => {
                let n = entries.len();
                let mut i: usize = 0;
                assert(entries@.subrange(0, n as int) =~= entries@);
                while i < n
                    invariant
                        n == entries@.len(),
                        json_get(*self, key@) == member_of(entries@, key@),
                        i <= n,
                        member_of(entries@, key@) == member_of(
                            entries@.subrange(i as int, n as int),
                            key@,
                        ),
                    decreases n - i,
                {
                    if same_text(entries[i].0.as_str(), key) {
                        proof {
                            let s = entries@.subrange(i as int, n as int);
                            assert(s[0] == entries@[i as int]);
                            assert(s[0].0@ == key@);
                            assert(member_of(s, key@) == Some(s[0].1));
                        }
                        return Some(&entries[i].1);
                    }
                    proof {
                        lemma_member_of_skip(entries@, key@, i as int);
                    }
                    i = i + 1;
                }
                None
            },
            _ => None,
        }
    }

    /// The value as an `i64`, when it is an integer in range.
    pub fn as_i64(&self) -> (r: Option<i64>)
        ensures
            r == json_as_i64(*self),
    {
        match self {
            Json::PosInt(n) => if *n <= 9223372036854775807u64 { Some(*n as i64) } else { None },
            Json::NegInt(n) => Some(*n),
            _ => None,
        }
    }

    /// The value as text, when it is a string.
    pub fn as_str(&self) -> (r: Option<&str>)
        ensures
            match r {
                Some(s) => json_as_text(*self) == Some(s@),
                None => json_as_text(*self) is None,
            },
    {
        match self {
            Json::Str(s) => Some(s.as_str()),
            _ => None,
        }
    }

    /// Moves the member `key` out of an object; any other value, or an
    /// object without that member, gives `Null`.
    pub fn take_member(self, key: &str) -> (r: Json)
        ensures
            r == match json_get(self, key@) {
                Some(v) => v,
                None => Json::Null,
            },
    {
        match self {
            Json::Object(mut entries) => {
                let ghost orig = entries@;
                let n = entries.len();
                let mut i: usize = 0;
                assert(orig.subrange(0, n as int) =~= orig);
                while i < n
                    invariant
                        entries@ == orig,
                        json_get(self, key@) == member_of(orig, key@),
                        n == orig.len(),
                        i <= n,
                        member_of(orig, key@) == member_of(orig.subrange(i as int, n as int), key@),
                    decreases n - i,
                {
                    if same_text(entries[i].0.as_str(), key) {
                        proof {
                            let s = orig.subrange(i as int, n as int);
                            assert(s[0] == orig[i as int]);
                            assert(s[0].0@ == key@);
                            assert(member_of(s, key@) == Some(s[0].1));
                        }
                        let (_, v) = entries.remove(i);
                        return v;
                    }
                    proof {
                        lemma_member_of_skip(orig, key@, i as int);
                    }
                    i = i + 1;
                }
                Json::Null
            },
            _ => Json::Null,
        }
    }
}

/// The integer stored under `key` in an optional payload.
pub fn get_i64(data: &Option<Json>, key: &str) -> (r: Option<i64>)
    ensures
        r == field_i64(*data, key@),
{
    match data {
        Some(v) => match v.get(key) {
            Some(f) => f.as_i64(),
            None => None,
        },
        None => None,
    }
}

/// The text stored under `key` in an optional payload.
pub fn get_text(data: &Option<Json>, key: &str) -> (r: Option<String>)
    ensures
        match r {
            Some(s) => field_text(*data, key@) == Some(s@),
            None => field_text(*data, key@) is None,
        },
{
    match data {
        Some(v) => match v.get(key) {
            Some(f) => match f.as_str() {
                Some(s) => Some(String::from_str(s)),
                None => None,
            },
            None => None,
        },
        None => None,
    }
}

} // verus!
