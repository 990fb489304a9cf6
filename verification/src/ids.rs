//! Issue identifiers: 128-bit UUIDs, generated and parsed by the `uuid` crate and
//! printed in its hyphenated form.

use vstd::prelude::*;
use crate::text::{copy_str, substring};

verus! {

/// Issue identifier: the 128 bits of a UUID.
pub type IssueId = u128;

/// Draws a random version-4 UUID with `uuid::Uuid::new_v4` and returns its bits. The
/// value is random; only the fixed bits are stated: the version nibble is 4 and the
/// variant bits are `10`.
#[verifier::external_body]
pub(crate) fn random_id() -> (id: u128)
    ensures
        (id >> 76u128) & 0xfu128 == 4,
        (id >> 62u128) & 0x3u128 == 2,
{
    uuid::Uuid::new_v4().as_u128()
}

/// What `uuid::Uuid::parse_str` accepts of a text, as the bits of the UUID it reads.
pub uninterp spec fn uuid_parsed(text: Seq<char>) -> Option<u128>;

/// The lower-case hexadecimal digit of a value below 16.
pub open spec fn hex_digit(n: int) -> char {
    "0123456789abcdef"@[n]
}

/// The `i`-th group of four bits of an id, counting from the most significant.
pub open spec fn nibble(id: u128, i: int) -> int {
    ((id >> ((124 - 4 * i) as u128)) & 0xfu128) as int
}

/// The 32 lower-case hexadecimal digits of the 128 bits of an id, most significant first.
pub open spec fn hex_digits(id: u128) -> Seq<char> {
    Seq::new(32, |i: int| hex_digit(nibble(id, i)))
}

/// The text `Uuid::to_string` prints for a UUID: its hexadecimal digits in lower case,
/// in groups of 8, 4, 4, 4 and 12 joined by hyphens.
#[verifier::opaque]
pub open spec fn uuid_text(id: u128) -> Seq<char> {
    let d = hex_digits(id);
    d.subrange(0, 8) + seq!['-'] + d.subrange(8, 12) + seq!['-'] + d.subrange(12, 16) + seq!['-']
        + d.subrange(16, 20) + seq!['-'] + d.subrange(20, 32)
}

/// Calls `uuid::Uuid::parse_str`; the result is the named parse of `text`.
#[verifier::external_body]
pub(crate) fn parse_issue_id(text: &str) -> (r: Option<u128>)
    ensures
        r == uuid_parsed(text@),
{
    match uuid::Uuid::parse_str(text) {
        Ok(u) => Some(u.as_u128()),
        Err(_) => None,
    }
}

/// The text of an issue id: the hyphenated lower-case form that `Uuid::to_string`
/// prints, 36 characters long.
pub(crate) fn issue_id_text(id: u128) -> (s: String)
    ensures
        s@ == uuid_text(id),
        s@.len() == 36,
{
    let table = "0123456789abcdef";
    proof {
        reveal_strlit("0123456789abcdef");
        reveal_strlit("");
        reveal_strlit("-");
    }
    let mut d = copy_str("");
    let mut i: usize = 0;
    while i < 32
        invariant
            i <= 32,
            table@ == "0123456789abcdef"@,
            table@.len() == 16,
            d@ == hex_digits(id).take(i as int),
        decreases 32 - i,
    {
        let shift: u128 = 124 - 4 * (i as u128);
        let bits: u128 = (id >> shift) & 0xfu128;
        assert(bits < 16u128) by (bit_vector)
            requires
                bits == (id >> shift) & 0xfu128,
        ;
        let k = bits as usize;
        let digit = substring(table, k, k + 1);
        assert(nibble(id, i as int) == k as int);
        assert(digit@ =~= seq![hex_digit(nibble(id, i as int))]);
        d.append(digit.as_str());
        assert(d@ =~= hex_digits(id).take(i + 1));
        i = i + 1;
    }
    let mut s = substring(d.as_str(), 0, 8);
    s.append("-");
    let part = substring(d.as_str(), 8, 12);
    s.append(part.as_str());
    s.append("-");
    let part = substring(d.as_str(), 12, 16);
    s.append(part.as_str());
    s.append("-");
    let part = substring(d.as_str(), 16, 20);
    s.append(part.as_str());
    s.append("-");
    let part = substring(d.as_str(), 20, 32);
    s.append(part.as_str());
    proof {
        reveal(uuid_text);
        assert(d@ =~= hex_digits(id));
    }
    assert(s@ =~= uuid_text(id));
    s
}

} // verus!
