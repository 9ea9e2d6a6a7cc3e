//! Per-user metadata blob rules.
use vstd::prelude::*;
use vstd::string::*;
use vstd::utf8::encode_utf8;
use crate::json::{JsonEntry, JsonValue, first_match, lookup, lemma_first_match, lemma_first_match_bounds};
use crate::text::str_eq;
use crate::status::Rejection;

verus! {

/// Largest serialized size of a user's metadata blob, in bytes.
pub const MAX_BLOB_BYTES: usize = 65536;

/// A byte allowed in a metadata key: lowercase ASCII letter, digit or `_`.
pub open spec fn key_byte_allowed(b: u8) -> bool {
    (97 <= b && b <= 122) || (48 <= b && b <= 57) || b == 95
}

/// A key is 1 to 64 bytes long and made only of allowed bytes.
pub open spec fn spec_valid_key(bytes: Seq<u8>) -> bool {
    &&& 0 < bytes.len() <= 64
    &&& forall|i: int| 0 <= i < bytes.len() ==> key_byte_allowed(#[trigger] bytes[i])
}

/// Allowed key shape: lowercase letters, digits and underscores, 1 to 64 bytes.
pub fn is_valid_key(key: &str) -> (r: bool)
    ensures
        r == spec_valid_key(key.spec_bytes()),
{
    let bytes = key.as_bytes();
    let n = bytes.len();
    if n == 0 || n > 64 {
        return false;
    }
    let mut i: usize = 0;
    while i < n
        invariant
            n == bytes@.len(),
            bytes@ == key.spec_bytes(),
            0 <= i <= n,
            forall|j: int| 0 <= j < i ==> key_byte_allowed(#[trigger] bytes@[j]),
        decreases n - i,
    {
        let b = bytes[i];
        if !((97 <= b && b <= 122) || (48 <= b && b <= 57) || b == 95) {
            return false;
        }
        i = i + 1;
    }
    true
}

} // verus!

verus! {

/// The blob a user without a stored row sees: `{}`.
pub fn blob_or_empty(stored: Option<JsonValue>) -> (r: JsonValue)
    ensures
        match stored {
            Some(v) => r == v,
            None => r matches JsonValue::Object(e) && e@.len() == 0,
        },
{
    match stored {
        Some(v) => v,
        None => JsonValue::Object(Vec::new()),
    }
}

/// Checks a whole-blob replacement: the root must be an object, and its
/// serialized form (`serialized_len` bytes) must fit `MAX_BLOB_BYTES`.
pub fn check_blob(payload: &JsonValue, serialized_len: usize) -> (r: Result<(), Rejection>)
    ensures
        !(payload is Object) ==> r == Err::<(), Rejection>(Rejection::BadRequest),
        payload is Object && serialized_len > MAX_BLOB_BYTES ==> r == Err::<(), Rejection>(Rejection::PayloadTooLarge),
        payload is Object && serialized_len <= MAX_BLOB_BYTES ==> r is Ok,
{
    if !payload.is_object() {
        return Err(Rejection::BadRequest);
    }
    if serialized_len > MAX_BLOB_BYTES {
        return Err(Rejection::PayloadTooLarge);
    }
    Ok(())
}

/// The answer to a single-key read, as a function of the key and the row.
pub open spec fn spec_key_read(key: Seq<u8>, stored: Option<Option<JsonValue>>) -> Result<JsonValue, Rejection> {
    if !spec_valid_key(key) {
        Err(Rejection::BadRequest)
    } else {
        match stored {
            Some(Some(v)) => if v is Null {
                Err(Rejection::NotFound)
            } else {
                Ok(v)
            },
            _ => Err(Rejection::NotFound),
        }
    }
}

/// The answer to a single-key read. `stored` is the row found for the user
/// (`None` when there is none), holding the key's value or `None` when the
/// key is missing.
pub fn key_read_result(key: &str, stored: Option<Option<JsonValue>>) -> (r: Result<JsonValue, Rejection>)
    ensures
        r == spec_key_read(key.spec_bytes(), stored),
{
    if !is_valid_key(key) {
        return Err(Rejection::BadRequest);
    }
    let value = match stored {
        Some(Some(v)) => v,
        _ => JsonValue::Null,
    };
    if value.is_null() {
        return Err(Rejection::NotFound);
    }
    Ok(value)
}

/// The answer to a single-key delete, given how many rows the update touched.
pub fn key_delete_result(key: &str, rows_affected: u64) -> (r: Result<(), Rejection>)
    ensures
        !spec_valid_key(key.spec_bytes()) ==> r == Err::<(), Rejection>(Rejection::BadRequest),
        spec_valid_key(key.spec_bytes()) && rows_affected == 0 ==> r == Err::<(), Rejection>(Rejection::NotFound),
        spec_valid_key(key.spec_bytes()) && rows_affected > 0 ==> r is Ok,
{
    if !is_valid_key(key) {
        return Err(Rejection::BadRequest);
    }
    if rows_affected == 0 {
        return Err(Rejection::NotFound);
    }
    Ok(())
}

/// The members of a stored blob; a missing blob, or one whose root is not
/// an object, counts as `{}`.
pub open spec fn base_entries(existing: Option<JsonValue>) -> Seq<JsonEntry> {
    match existing {
        Some(JsonValue::Object(e)) => e@,
        _ => Seq::empty(),
    }
}

/// `entries` with member `key` set to `value`: the first member of that name
/// takes the new value, or a member is appended when there is none.
pub open spec fn set_member(entries: Seq<JsonEntry>, key: String, value: JsonValue) -> Seq<JsonEntry> {
    let i = first_match(entries, key@);
    if i < entries.len() {
        entries.update(i, JsonEntry { key, value })
    } else {
        entries.push(JsonEntry { key, value })
    }
}

/// The blob written by a single-key put: the stored blob (or `{}`) with
/// member `key` set to `value`. Reading `key` back gives `value`, and every
/// other member reads as before.
pub fn merge_key(existing: Option<JsonValue>, key: String, value: JsonValue) -> (r: JsonValue)
    ensures
        r matches JsonValue::Object(e) && e@ == set_member(base_entries(existing), key, value),
        r.spec_get(key@) == Some(value),
        forall|other: Seq<char>| other != key@ ==> r.spec_get(other) == lookup(base_entries(existing), other),
{
    let ghost base = base_entries(existing);
    let mut entries: Vec<JsonEntry> = match existing {
        Some(JsonValue::Object(e)) => e,
        _ => Vec::new(),
    };
    assert(entries@ == base);
    let mut i: usize = 0;
    let mut found = false;
    while i < entries.len()
        invariant
            entries@ == base,
            0 <= i <= entries@.len(),
            forall|j: int| 0 <= j < i ==> entries@[j].key@ != key@,
            found ==> i < entries@.len() && entries@[i as int].key@ == key@,
        ensures
            found ==> i < entries@.len() && entries@[i as int].key@ == key@,
            !found ==> i == entries@.len(),
            forall|j: int| 0 <= j < i ==> entries@[j].key@ != key@,
        decreases entries@.len() - i,
    {
        if str_eq(entries[i].key.as_str(), key.as_str()) {
            found = true;
            break;
        }
        i = i + 1;
    }
    proof {
        lemma_first_match(base, key@, i as int);
        lemma_first_match_bounds(base, key@);
    }
    let ghost k = key;
    let ghost v = value;
    if found {
        entries.set(i, JsonEntry { key, value });
    } else {
        entries.push(JsonEntry { key, value });
    }
    proof {
        assert(entries@ == set_member(base, k, v));
        lemma_set_member(base, k, v);
    }
    JsonValue::Object(entries)
}

/// Setting a member: the member then reads as the new value, and every
/// other member reads as before.
pub proof fn lemma_set_member(base: Seq<JsonEntry>, key: String, value: JsonValue)
    ensures
        lookup(set_member(base, key, value), key@) == Some(value),
        forall|other: Seq<char>| other != key@ ==> #[trigger] lookup(set_member(base, key, value), other) == lookup(base, other),
{
    lemma_first_match_bounds(base, key@);
    let i = first_match(base, key@);
    let r_e = set_member(base, key, value);
    assert forall|j: int| 0 <= j < base.len() implies #[trigger] r_e[j].key@ == base[j].key@ by {}
    if i < base.len() {
        lemma_first_match(r_e, key@, i);
    } else {
        lemma_first_match(r_e, key@, base.len() as int);
    }
    assert forall|other: Seq<char>| other != key@ implies #[trigger] lookup(r_e, other) == lookup(base, other) by {
        lemma_first_match_bounds(base, other);
        let m = first_match(base, other);
        assert forall|j: int| 0 <= j < m implies r_e[j].key@ != other by {
            assert(r_e[j].key@ == base[j].key@);
        }
        if m < base.len() {
            assert(r_e[m].key@ == base[m].key@);
            lemma_first_match(r_e, other, m);
        } else if i < base.len() {
            lemma_first_match(r_e, other, m);
        } else {
            lemma_first_match(r_e, other, m + 1);
        }
    }
}

/// Read-your-write: after a single-key put of `value` under a valid key,
/// reading that key back gives `value` (unless `value` is `null`, which
/// reads as missing); reading any other key gives what it gave before.
pub proof fn law_read_after_put(existing: Option<JsonValue>, key: String, value: JsonValue, other: Seq<char>)
    requires
        spec_valid_key(encode_utf8(key@)),
    ensures
        !(value is Null) ==> spec_key_read(
            encode_utf8(key@),
            Some(lookup(set_member(base_entries(existing), key, value), key@)),
        ) == Ok::<JsonValue, Rejection>(value),
        value is Null ==> spec_key_read(
            encode_utf8(key@),
            Some(lookup(set_member(base_entries(existing), key, value), key@)),
        ) == Err::<JsonValue, Rejection>(Rejection::NotFound),
        other != key@ ==> lookup(set_member(base_entries(existing), key, value), other) == lookup(
            base_entries(existing),
            other,
        ),
{
    lemma_set_member(base_entries(existing), key, value);
}


/// Which keys may be used, and what reading one answers, in terms of the
/// key's bytes and the stored row: a key is 1 to 64 bytes of `a`-`z`,
/// `0`-`9` and `_`; any other key is refused with 400; a valid key reads as
/// its stored value, and as 404 when the row or the member is missing or the
/// value is `null`.
pub proof fn law_key_rules(key: Seq<u8>, v: JsonValue)
    ensures
        (key.len() == 0 || key.len() > 64) ==> !spec_valid_key(key),
        (exists|i: int| 0 <= i < key.len() && !((97 <= #[trigger] key[i] <= 122) || (48 <= key[i] <= 57) || key[i] == 95))
            ==> !spec_valid_key(key),
        (0 < key.len() <= 64 && forall|i: int| 0 <= i < key.len() ==> ((97 <= #[trigger] key[i] <= 122) || (48 <= key[i] <= 57) || key[i] == 95))
            ==> spec_valid_key(key),
        !spec_valid_key(key) ==> spec_key_read(key, Some(Some(v))) == Err::<JsonValue, Rejection>(Rejection::BadRequest),
        spec_valid_key(key) && !(v is Null) ==> spec_key_read(key, Some(Some(v))) == Ok::<JsonValue, Rejection>(v),
        spec_valid_key(key) ==> spec_key_read(key, None) == Err::<JsonValue, Rejection>(Rejection::NotFound),
        spec_valid_key(key) ==> spec_key_read(key, Some(None)) == Err::<JsonValue, Rejection>(Rejection::NotFound),
        spec_valid_key(key) ==> spec_key_read(key, Some(Some(JsonValue::Null))) == Err::<JsonValue, Rejection>(Rejection::NotFound),
{
    if exists|i: int| 0 <= i < key.len() && !((97 <= #[trigger] key[i] <= 122) || (48 <= key[i] <= 57) || key[i] == 95) {
        let i = choose|i: int| 0 <= i < key.len() && !((97 <= #[trigger] key[i] <= 122) || (48 <= key[i] <= 57) || key[i] == 95);
        assert(!key_byte_allowed(key[i]));
    }
}

} // verus!
