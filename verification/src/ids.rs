//! Record identifiers: 128-bit UUIDs, their text form, parsing and creation.
//! The work is done by the `uuid` crate; this module states what the library
//! relies on of it.

use vstd::prelude::*;
use vstd::arithmetic::div_mod::{lemma_div_denominator, lemma_fundamental_div_mod};
use vstd::arithmetic::power2::{lemma2_to64, lemma2_to64_rest, lemma_pow2_adds, lemma_pow2_pos, pow2};

verus! {

/// The lower-case hexadecimal digit for a value below 16.
pub open spec fn hex_digit(n: nat) -> char {
    seq!['0', '1', '2', '3', '4', '5', '6', '7', '8', '9', 'a', 'b', 'c', 'd', 'e', 'f'][n as int]
}

/// The `i`-th hexadecimal digit (0 is the most significant of 32) of `u`.
pub open spec fn nibble(u: u128, i: int) -> nat {
    ((u as nat) / pow2((124 - 4 * i) as nat)) % 16
}

/// Whether position `j` of the hyphenated text holds a hyphen.
pub open spec fn is_hyphen_position(j: int) -> bool {
    j == 8 || j == 13 || j == 18 || j == 23
}

/// Which of the 32 digits stands at position `j` of the hyphenated text.
pub open spec fn digit_index(j: int) -> int {
    if j < 8 {
        j
    } else if j < 13 {
        j - 1
    } else if j < 18 {
        j - 2
    } else if j < 23 {
        j - 3
    } else {
        j - 4
    }
}

/// The hyphenated lower-case text of a UUID, such as
/// `67e55044-10b1-426f-9247-bb680e5fe0c8`: 32 hexadecimal digits, most
/// significant first, in groups of 8, 4, 4, 4 and 12.
pub open spec fn uuid_hyphenated(u: u128) -> Seq<char> {
    Seq::new(
        36,
        |j: int|
            if is_hyphen_position(j) {
                '-'
            } else {
                hex_digit(nibble(u, digit_index(j)))
            },
    )
}

/// The number that the first `k` of the 32 hexadecimal digits of `u`
/// spell.
pub open spec fn leading_digits(u: u128, k: nat) -> nat {
    (u as nat) / pow2((128 - 4 * k) as nat)
}

/// The digits of a hexadecimal text are told apart.
proof fn lemma_hex_digit_injective(n: nat, m: nat)
    requires
        n < 16,
        m < 16,
        hex_digit(n) == hex_digit(m),
    ensures
        n == m,
{
    let digits = seq!['0', '1', '2', '3', '4', '5', '6', '7', '8', '9', 'a', 'b', 'c', 'd', 'e', 'f'];
    assert(forall|i: int, j: int| 0 <= i < j < 16 ==> #[trigger] digits[i] != #[trigger] digits[j]);
}

/// One more digit: the first `k + 1` digits are the first `k`, shifted
/// by one digit, plus digit `k`.
proof fn lemma_leading_digits_step(u: u128, k: nat)
    requires
        k < 32,
    ensures
        leading_digits(u, k + 1) == leading_digits(u, k) * 16 + nibble(u, k as int),
{
    let x = u as int;
    let e = (124 - 4 * k) as nat;
    let d = pow2(e) as int;
    lemma2_to64();
    lemma_pow2_pos(e);
    lemma_pow2_adds(e, 4);
    assert(pow2((128 - 4 * k) as nat) == d * 16);
    lemma_div_denominator(x, d, 16);
    lemma_fundamental_div_mod(x / d, 16);
    assert((x / d) == 16 * ((x / d) / 16) + (x / d) % 16);
}

/// Values whose first `k` digits agree spell the same number with them.
proof fn lemma_leading_digits_agree(a: u128, b: u128, k: nat)
    requires
        k <= 32,
        forall|i: int| 0 <= i < k ==> nibble(a, i) == nibble(b, i),
    ensures
        leading_digits(a, k) == leading_digits(b, k),
    decreases k,
{
    if k == 0 {
        lemma2_to64();
        lemma2_to64_rest();
        lemma_pow2_adds(64, 64);
        assert(pow2(128) == 0x1_0000_0000_0000_0000 * 0x1_0000_0000_0000_0000);
        assert((a as nat) / pow2(128) == 0);
        assert((b as nat) / pow2(128) == 0);
    } else {
        let j = (k - 1) as nat;
        lemma_leading_digits_agree(a, b, j);
        lemma_leading_digits_step(a, j);
        lemma_leading_digits_step(b, j);
    }
}

/// The hyphenated text of a UUID determines it: distinct UUIDs have
/// distinct texts.
pub proof fn lemma_uuid_hyphenated_injective(a: u128, b: u128)
    requires
        uuid_hyphenated(a) == uuid_hyphenated(b),
    ensures
        a == b,
{
    assert forall|i: int| 0 <= i < 32 implies nibble(a, i) == nibble(b, i) by {
        let j = if i < 8 {
            i
        } else if i < 12 {
            i + 1
        } else if i < 16 {
            i + 2
        } else if i < 20 {
            i + 3
        } else {
            i + 4
        };
        assert(!is_hyphen_position(j) && digit_index(j) == i);
        assert(0 <= j < 36);
        assert(uuid_hyphenated(a)[j] == hex_digit(nibble(a, i)));
        assert(uuid_hyphenated(b)[j] == hex_digit(nibble(b, i)));
        lemma_hex_digit_injective(nibble(a, i), nibble(b, i));
    }
    lemma_leading_digits_agree(a, b, 32);
    lemma2_to64();
    assert(leading_digits(a, 32) == (a as nat) / 1);
    assert(leading_digits(b, 32) == (b as nat) / 1);
}

/// What `uuid::Uuid::parse_str` gives for a text, as a 128-bit value.
pub uninterp spec fn uuid_parse(s: Seq<char>) -> Option<u128>;

/// Whether `u` carries the version (4, random) and the variant (RFC 4122)
/// that `uuid::Uuid::new_v4` sets.
pub open spec fn is_random_uuid(u: u128) -> bool {
    u & 0xF000_C000_0000_0000_0000u128 == 0x4000_8000_0000_0000_0000u128
}

/// The text of a UUID, through `uuid::Uuid::from_u128` and its `Display`
/// impl, which writes the hyphenated lower-case form (`LowerHex` of the
/// `Hyphenated` adapter). Claimed: the text is `uuid_hyphenated(id)`, and
/// `Uuid::parse_str` reads it back as `id` (the crate documents that it
/// parses every form it writes).
#[verifier::external_body]
pub(crate) fn uuid_to_string(id: u128) -> (s: String)
    ensures
        s@ == uuid_hyphenated(id),
        uuid_parse(s@) == Some(id),
{
    uuid::Uuid::from_u128(id).to_string()
}

/// Parses a UUID through `uuid::Uuid::from_str` (which is
/// `Uuid::parse_str`), as a 128-bit value (`Uuid::as_u128`). Claimed: the
/// result is `uuid_parse` of the text, and a text in the hyphenated form
/// that the crate writes gives back the value it was written from. The
/// other accepted forms (simple, braced, URN, upper case) are left to the
/// name.
#[verifier::external_body]
pub(crate) fn parse_uuid(s: &str) -> (r: Option<u128>)
    ensures
        r == uuid_parse(s@),
        forall|u: u128| #[trigger] uuid_hyphenated(u) == s@ ==> r == Some(u),
{
    match <uuid::Uuid as std::str::FromStr>::from_str(s) {
        Ok(u) => Some(u.as_u128()),
        Err(_) => None,
    }
}

/// A fresh random UUID from `uuid::Uuid::new_v4`, as a 128-bit value.
/// Claimed: its version and variant bits are those of a random UUID; the
/// other bits come from the system's random source and are not stated.
#[verifier::external_body]
pub(crate) fn new_random_uuid() -> (u: u128)
    ensures
        is_random_uuid(u),
{
    uuid::Uuid::new_v4().as_u128()
}

} // verus!
