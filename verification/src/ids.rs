//! Identifiers: UUIDs held as their 128-bit value, and their text form.
use vstd::prelude::*;
use vstd::string::*;
use vstd::arithmetic::power2::{lemma2_to64, lemma_pow2_adds, lemma_pow2_pos, pow2};
use vstd::arithmetic::div_mod::{lemma_div_denominator, lemma_fundamental_div_mod, lemma_multiply_divide_lt};

verus! {

/// The lowercase hexadecimal digit for `d` (0 to 15).
pub open spec fn hex_digit(d: int) -> char {
    if d < 10 {
        (48 + d) as char
    } else {
        (87 + d) as char
    }
}

/// The `k`-th hexadecimal digit of `id`, counting from the most significant.
pub open spec fn nibble(id: u128, k: int) -> int {
    ((id as int) / (pow2((4 * (31 - k)) as nat) as int)) % 16
}

/// How many of the hyphens come before text position `j`.
pub open spec fn hyphens_before(j: int) -> int {
    if j < 8 {
        0
    } else if j < 13 {
        1
    } else if j < 18 {
        2
    } else if j < 23 {
        3
    } else {
        4
    }
}

/// The hyphenated lowercase form of a UUID: 32 hex digits grouped 8-4-4-4-12.
pub open spec fn uuid_text(id: u128) -> Seq<char> {
    Seq::new(
        36,
        |j: int|
            if j == 8 || j == 13 || j == 18 || j == 23 {
                '-'
            } else {
                hex_digit(nibble(id, j - hyphens_before(j)))
            },
    )
}

/// Calls `Uuid::from_u128` then `to_string`: the `Display` form of a UUID is
/// its hyphenated lowercase text.
#[verifier::external_body]
pub(crate) fn uuid_to_text(id: u128) -> (r: String)
    ensures
        r@ == uuid_text(id),
{
    uuid::Uuid::from_u128(id).to_string()
}

/// What `Uuid::parse_str` accepts and yields, as a 128-bit value.
pub uninterp spec fn uuid_parse(s: Seq<char>) -> Option<u128>;

/// Calls `Uuid::parse_str` (which `Uuid::from_str` calls too); a failed parse
/// is `None`. Its documentation has it accept every format the crate writes,
/// the hyphenated text among them, so that text parses back to its UUID.
/// Its parser refuses at once any input whose length in bytes is not that of
/// one of its four formats (32, 36, 38 or 45), the empty text among them.
#[verifier::external_body]
pub(crate) fn parse_uuid(s: &str) -> (r: Option<u128>)
    ensures
        r == uuid_parse(s@),
        forall|u: u128| #[trigger] uuid_text(u) == s@ ==> r == Some(u),
        s@.len() == 0 ==> r is None,
        s.spec_bytes().len() != 32 && s.spec_bytes().len() != 36 && s.spec_bytes().len() != 38
            && s.spec_bytes().len() != 45 ==> r is None,
{
    match uuid::Uuid::parse_str(s) {
        Ok(u) => Some(u.as_u128()),
        Err(_) => None,
    }
}

/// Calls `Uuid::new_v4`, a random UUID. Nothing is stated of its value.
#[verifier::external_body]
pub(crate) fn new_uuid_v4() -> (r: u128) {
    uuid::Uuid::new_v4().as_u128()
}

/// A fresh random token: the text of a new version-4 UUID.
pub fn new_token() -> (r: String)
    ensures
        exists|id: u128| r@ == uuid_text(id),
{
    let id = new_uuid_v4();
    uuid_to_text(id)
}

/// The text of a UUID is 36 characters, with hyphens exactly at positions
/// 8, 13, 18 and 23 and lowercase hexadecimal digits elsewhere.
pub proof fn law_uuid_text_shape(id: u128, j: int)
    requires
        0 <= j < 36,
    ensures
        uuid_text(id).len() == 36,
        (j == 8 || j == 13 || j == 18 || j == 23) ==> uuid_text(id)[j] == '-',
        !(j == 8 || j == 13 || j == 18 || j == 23) ==> ({
            let c = uuid_text(id)[j];
            ('0' <= c && c <= '9') || ('a' <= c && c <= 'f')
        }),
{
    let k = j - hyphens_before(j);
    let p = pow2((4 * (31 - k)) as nat) as int;
    vstd::arithmetic::power2::lemma_pow2_pos((4 * (31 - k)) as nat);
    let d = ((id as int) / p) % 16;
    assert(0 <= d < 16);
}

/// The position in the text of hexadecimal digit `k` (0 to 31).
pub open spec fn digit_position(k: int) -> int {
    if k < 8 {
        k
    } else if k < 12 {
        k + 1
    } else if k < 16 {
        k + 2
    } else if k < 20 {
        k + 3
    } else {
        k + 4
    }
}

/// Hexadecimal digit `j` of `x`, counting from the least significant.
pub open spec fn low_digit(x: nat, j: nat) -> int {
    (x / pow2(4 * j)) as int % 16
}

/// Two numbers below `16^n` whose `n` lowest hexadecimal digits agree are
/// equal.
proof fn lemma_same_digits(x: nat, y: nat, n: nat)
    requires
        x < pow2(4 * n),
        y < pow2(4 * n),
        forall|j: nat| j < n ==> #[trigger] low_digit(x, j) == low_digit(y, j),
    ensures
        x == y,
    decreases n,
{
    lemma2_to64();
    if n > 0 {
        let m = (n - 1) as nat;
        lemma_pow2_adds(4, 4 * m);
        assert(4 * n == 4 + 4 * m);
        lemma_pow2_pos(4 * m);
        lemma_multiply_divide_lt(x as int, 16, pow2(4 * m) as int);
        lemma_multiply_divide_lt(y as int, 16, pow2(4 * m) as int);
        assert forall|j: nat| j < m implies #[trigger] low_digit(x / 16, j) == low_digit(y / 16, j) by {
            lemma_pow2_pos(4 * j);
            lemma_pow2_adds(4, 4 * j);
            assert(4 * (j + 1) == 4 + 4 * j);
            lemma_div_denominator(x as int, 16, pow2(4 * j) as int);
            lemma_div_denominator(y as int, 16, pow2(4 * j) as int);
            assert(low_digit(x, j + 1) == low_digit(y, j + 1));
        }
        lemma_same_digits(x / 16, y / 16, m);
        assert(pow2(4 * 0nat) == 1);
        assert(low_digit(x, 0) == low_digit(y, 0));
        assert(x / pow2(4 * 0nat) == x);
        assert(y / pow2(4 * 0nat) == y);
        assert(x % 16 == y % 16);
        lemma_fundamental_div_mod(x as int, 16);
        lemma_fundamental_div_mod(y as int, 16);
    } else {
        assert(pow2(4 * n) == 1);
    }
}

/// Two UUIDs with the same text are the same UUID.
pub proof fn law_uuid_text_injective(a: u128, b: u128)
    requires
        uuid_text(a) == uuid_text(b),
    ensures
        a == b,
{
    assert forall|k: int| 0 <= k < 32 implies #[trigger] nibble(a, k) == nibble(b, k) by {
        let j = digit_position(k);
        assert(j - hyphens_before(j) == k);
        assert(0 <= j < 36 && !(j == 8 || j == 13 || j == 18 || j == 23));
        assert(uuid_text(a)[j] == hex_digit(nibble(a, k)));
        assert(uuid_text(b)[j] == hex_digit(nibble(b, k)));
        let da = nibble(a, k);
        let db = nibble(b, k);
        assert(hex_digit(da) as int == if da < 10 { 48 + da } else { 87 + da });
        assert(hex_digit(db) as int == if db < 10 { 48 + db } else { 87 + db });
    }
    assert forall|j: nat| j < 32 implies #[trigger] low_digit(a as nat, j) == low_digit(b as nat, j) by {
        assert(nibble(a, 31 - j) == nibble(b, 31 - j));
        assert(4 * (31 - (31 - j)) == 4 * j);
    }
    lemma2_to64();
    lemma_pow2_adds(64, 64);
    assert(4 * 32nat == 128nat);
    lemma_same_digits(a as nat, b as nat, 32);
}

/// Keys made of a fixed prefix and a UUID's text are distinct for distinct
/// UUIDs.
pub proof fn law_prefixed_ids_distinct(prefix: Seq<char>, a: u128, b: u128)
    requires
        a != b,
    ensures
        prefix + uuid_text(a) != prefix + uuid_text(b),
{
    if prefix + uuid_text(a) == prefix + uuid_text(b) {
        let ka = prefix + uuid_text(a);
        let kb = prefix + uuid_text(b);
        assert(ka.subrange(prefix.len() as int, ka.len() as int) == uuid_text(a));
        assert(kb.subrange(prefix.len() as int, kb.len() as int) == uuid_text(b));
        law_uuid_text_injective(a, b);
    }
}

} // verus!
