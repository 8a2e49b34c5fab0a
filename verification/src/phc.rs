//! Password verifiers: PHC strings of Argon2, tested before they are handed
//! to the hasher.
//!
//! A verifier comes from storage, so it may hold anything. The hasher reads
//! its degree of parallelism from the parameter `p` and multiplies it by
//! eight in 32 bits, so a verifier whose `p` is out of range is refused here
//! and never reaches the hasher.

use crate::primitives::{argon2_password_check, check_password, fresh_verifier};
use crate::text::to_chars;
use vstd::prelude::*;

verus! {

/// The greatest degree of parallelism that Argon2 admits.
pub const MAX_LANES: u32 = 0x00FF_FFFF;

/// Whether a character is one of `0` to `9`.
pub open spec fn is_digit(c: char) -> bool {
    48 <= c as u32 <= 57
}

/// The number that the digits from position `i` on stand for, up to the first
/// character that is no digit, written behind the number `acc`.
pub open spec fn numeral_from(s: Seq<char>, i: int, acc: nat) -> nat
    decreases s.len() - i,
{
    if 0 <= i < s.len() && is_digit(s[i]) {
        numeral_from(s, i + 1, acc * 10 + (s[i] as u32 - 48) as nat)
    } else {
        acc
    }
}

/// Whether the parameter name `p` with its `=` stands at position `i`.
pub open spec fn lanes_named_at(s: Seq<char>, i: int) -> bool {
    0 <= i && i + 2 <= s.len() && s[i] == 'p' && s[i + 1] == '='
}

/// Whether every degree of parallelism that the text names is in range:
/// wherever `p=` stands, the number behind it is at most [`MAX_LANES`]. In a
/// PHC string the parameter `p` stands as `p=` with its digits behind it.
pub open spec fn lanes_in_range(s: Seq<char>) -> bool {
    forall|i: int| #[trigger] lanes_named_at(s, i) ==> numeral_from(s, i + 2, 0) <= MAX_LANES
}

/// What testing `password` against `verifier` gives: `None` where the
/// verifier names a degree of parallelism out of range or is no PHC string,
/// else whether the password verifies.
pub open spec fn verifier_check(verifier: Seq<char>, password: Seq<char>) -> Option<bool> {
    if lanes_in_range(verifier) {
        argon2_password_check(verifier, password)
    } else {
        None
    }
}

/// Digits written behind a number never make it smaller.
pub proof fn lemma_numeral_grows(s: Seq<char>, i: int, acc: nat)
    ensures
        numeral_from(s, i, acc) >= acc,
    decreases s.len() - i,
{
    if 0 <= i < s.len() && is_digit(s[i]) {
        lemma_numeral_grows(s, i + 1, acc * 10 + (s[i] as u32 - 48) as nat);
    }
}

fn numeral_in_range(chars: &Vec<char>, start: usize) -> (r: bool)
    requires
        start <= chars@.len(),
    ensures
        r == (numeral_from(chars@, start as int, 0) <= MAX_LANES),
{
    let mut acc: u64 = 0;
    let mut j: usize = start;
    while j < chars.len() && (chars[j] as u32) >= 48 && (chars[j] as u32) <= 57
        invariant
            start <= j <= chars@.len(),
            acc <= MAX_LANES,
            numeral_from(chars@, start as int, 0) == numeral_from(chars@, j as int, acc as nat),
        decreases chars@.len() - j,
    {
        let digit: u64 = (chars[j] as u32 - 48) as u64;
        let next: u64 = acc * 10 + digit;
        if next > MAX_LANES as u64 {
            proof {
                lemma_numeral_grows(chars@, j + 1, next as nat);
            }
            return false;
        }
        acc = next;
        j += 1;
    }
    true
}

/// Tests whether every degree of parallelism that the verifier names is in
/// range.
pub fn has_lanes_in_range(verifier: &str) -> (r: bool)
    ensures
        r == lanes_in_range(verifier@),
{
    let chars = to_chars(verifier);
    if chars.len() < 2 {
        return true;
    }
    let last: usize = chars.len() - 1;
    let mut i: usize = 0;
    while i < last
        invariant
            chars@ == verifier@,
            i <= last,
            last + 1 == chars@.len(),
            forall|k: int|
                0 <= k < i && #[trigger] lanes_named_at(verifier@, k) ==> numeral_from(
                    verifier@,
                    k + 2,
                    0,
                ) <= MAX_LANES,
        decreases last - i,
    {
        if chars[i] == 'p' && chars[i + 1] == '=' {
            if !numeral_in_range(&chars, i + 2) {
                assert(lanes_named_at(verifier@, i as int));
                return false;
            }
        }
        i += 1;
    }
    true
}

/// Tests `password` against `verifier`. A verifier that names a degree of
/// parallelism out of range is not handed to the hasher.
pub fn test_password(verifier: &str, password: &str) -> (r: Option<bool>)
    ensures
        r == verifier_check(verifier@, password@),
{
    if has_lanes_in_range(verifier) {
        check_password(verifier, password)
    } else {
        None
    }
}

/// Makes a verifier for `password` under a fresh random salt and gives it
/// with the salt; `None` where the hashing fails. The password verifies
/// against a verifier that is given.
pub fn make_verifier(password: &str) -> (r: Option<(String, String)>)
    ensures
        r matches Some(pair) ==> verifier_check(pair.0@, password@) == Some(true),
{
    match fresh_verifier(password) {
        None => None,
        Some(pair) => {
            if has_lanes_in_range(pair.0.as_str()) {
                Some(pair)
            } else {
                None
            }
        },
    }
}

} // verus!
