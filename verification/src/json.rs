//! A plain-value model of JSON documents, as the backend reads them.
use vstd::prelude::*;
use vstd::string::*;
use crate::text::str_eq;

verus! {

/// One member of a JSON object.
pub struct JsonEntry {
    pub key: String,
    pub value: JsonValue,
}

/// A JSON value. Numbers that fit an `i64` are `Int`; every other number
/// (fractional, or an integer beyond `i64`) is kept as its text in `Number`.
pub enum JsonValue {
    Null,
    Bool(bool),
    Int(i64),
    Number(String),
    Str(String),
    Array(Vec<JsonValue>),
    Object(Vec<JsonEntry>),
}

/// Index of the first member named `key`; `entries.len()` when there is none.
pub open spec fn first_match(entries: Seq<JsonEntry>, key: Seq<char>) -> int
    decreases entries.len(),
{
    if entries.len() == 0 {
        0
    } else if entries[0].key@ == key {
        0
    } else {
        1 + first_match(entries.drop_first(), key)
    }
}

/// The value of the first member named `key`, if any.
pub open spec fn lookup(entries: Seq<JsonEntry>, key: Seq<char>) -> Option<JsonValue> {
    let i = first_match(entries, key);
    if i < entries.len() {
        Some(entries[i].value)
    } else {
        None
    }
}

/// `first_match` is the one index `i` such that no member before `i` is named
/// `key`, and member `i` is named `key` unless `i` is past the end.
pub proof fn lemma_first_match(entries: Seq<JsonEntry>, key: Seq<char>, i: int)
    requires
        0 <= i <= entries.len(),
        forall|j: int| 0 <= j < i ==> entries[j].key@ != key,
        i == entries.len() || entries[i].key@ == key,
    ensures
        first_match(entries, key) == i,
    decreases entries.len(),
{
    if entries.len() > 0 && i > 0 {
        assert(entries[0].key@ != key);
        let rest = entries.drop_first();
        assert forall|j: int| 0 <= j < i - 1 implies rest[j].key@ != key by {
            assert(rest[j] == entries[j + 1]);
        }
        if i < entries.len() {
            assert(rest[i - 1] == entries[i]);
        }
        lemma_first_match(rest, key, i - 1);
    }
}

/// The facts that define `first_match`.
pub proof fn lemma_first_match_bounds(entries: Seq<JsonEntry>, key: Seq<char>)
    ensures
        0 <= first_match(entries, key) <= entries.len(),
        forall|j: int| 0 <= j < first_match(entries, key) ==> entries[j].key@ != key,
        first_match(entries, key) < entries.len() ==> entries[first_match(entries, key)].key@ == key,
    decreases entries.len(),
{
    if entries.len() > 0 && entries[0].key@ != key {
        let rest = entries.drop_first();
        lemma_first_match_bounds(rest, key);
        assert forall|j: int| 0 <= j < first_match(entries, key) implies entries[j].key@ != key by {
            if j > 0 {
                assert(entries[j] == rest[j - 1]);
            }
        }
    }
}

impl JsonValue {
    /// Member lookup: only objects have members.
    pub open spec fn spec_get(self, key: Seq<char>) -> Option<JsonValue> {
        match self {
            JsonValue::Object(entries) => lookup(entries@, key),
            _ => None,
        }
    }

    /// The text of a string value.
    pub open spec fn spec_as_str(self) -> Option<Seq<char>> {
        match self {
            JsonValue::Str(s) => Some(s@),
            _ => None,
        }
    }

    /// The integer of a number that fits an `i64`.
    pub open spec fn spec_as_i64(self) -> Option<i64> {
        match self {
            JsonValue::Int(n) => Some(n),
            _ => None,
        }
    }

    /// The text of member `key` when that member is a string.
    pub open spec fn str_field(self, key: Seq<char>) -> Option<Seq<char>> {
        match self.spec_get(key) {
            Some(v) => v.spec_as_str(),
            None => None,
        }
    }

    /// The integer of member `key` when that member is an `i64` number.
    pub open spec fn i64_field(self, key: Seq<char>) -> Option<i64> {
        match self.spec_get(key) {
            Some(v) => v.spec_as_i64(),
            None => None,
        }
    }

    pub fn is_object(&self) -> (r: bool)
        ensures
            r == (self is Object),
    {
        match self {
            JsonValue::Object(_) => true,
            _ => false,
        }
    }

    pub fn is_null(&self) -> (r: bool)
        ensures
            r == (self is Null),
    {
        match self {
            JsonValue::Null => true,
            _ => false,
        }
    }

    /// The value of member `key`, for an object that has it.
    pub fn get(&self, key: &str) -> (r: Option<&JsonValue>)
        ensures
            match r {
                Some(v) => self.spec_get(key@) == Some(*v),
                None => self.spec_get(key@) is None,
            },
    {
        match self {
            JsonValue::Object(entries) => {
                let mut i: usize = 0;
                while i < entries.len()
                    invariant
                        0 <= i <= entries@.len(),
                        forall|j: int| 0 <= j < i ==> entries@[j].key@ != key@,
                        self.spec_get(key@) == lookup(entries@, key@),
                    decreases entries@.len() - i,
                {
                    if str_eq(entries[i].key.as_str(), key) {
                        proof {
                            lemma_first_match(entries@, key@, i as int);
                        }
                        return Some(&entries[i].value);
                    }
                    i = i + 1;
                }
                proof {
                    lemma_first_match(entries@, key@, i as int);
                }
                None
            },
            _ => None,
        }
    }

    pub fn as_str(&self) -> (r: Option<&str>)
        ensures
            match r {
                Some(s) => self.spec_as_str() == Some(s@),
                None => self.spec_as_str() is None,
            },
    {
        match self {
            JsonValue::Str(s) => Some(s.as_str()),
            _ => None,
        }
    }

    pub fn as_i64(&self) -> (r: Option<i64>)
        ensures
            r == self.spec_as_i64(),
    {
        match self {
            JsonValue::Int(n) => Some(*n),
            _ => None,
        }
    }

    /// Member `key` as a string, when it is one.
    pub fn get_str(&self, key: &str) -> (r: Option<&str>)
        ensures
            match r {
                Some(s) => self.str_field(key@) == Some(s@),
                None => self.str_field(key@) is None,
            },
    {
        match self.get(key) {
            Some(v) => v.as_str(),
            None => None,
        }
    }

    /// Member `key` as an `i64`, when it is one.
    pub fn get_i64(&self, key: &str) -> (r: Option<i64>)
        ensures
            r == self.i64_field(key@),
    {
        match self.get(key) {
            Some(v) => v.as_i64(),
            None => None,
        }
    }
}

} // verus!
