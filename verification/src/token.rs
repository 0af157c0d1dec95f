//! Token identifiers and their validity rules.
//!
//! A token identifier names an asset class on the platform: a ticker of
//! 3 to 10 upper-case alphanumeric bytes, a dash, and a 6-byte lower-case
//! alphanumeric random suffix (for example `EDU-abcdef`).  The empty byte
//! string stands for "no identifier set".

use vstd::prelude::*;

verus! {

/// ASCII `A`.
pub const UPPER_A: u8 = 65;
/// ASCII `Z`.
pub const UPPER_Z: u8 = 90;
/// ASCII `a`.
pub const LOWER_A: u8 = 97;
/// ASCII `z`.
pub const LOWER_Z: u8 = 122;
/// ASCII `0`.
pub const DIGIT_0: u8 = 48;
/// ASCII `9`.
pub const DIGIT_9: u8 = 57;
/// ASCII `-`.
pub const DASH: u8 = 45;

/// A byte of the ticker part of a token identifier: an upper-case
/// letter or a digit.
pub open spec fn is_ticker_byte(b: u8) -> bool {
    (UPPER_A <= b && b <= UPPER_Z) || (DIGIT_0 <= b && b <= DIGIT_9)
}

/// A byte of the random suffix of a token identifier: a lower-case
/// letter or a digit.
pub open spec fn is_random_byte(b: u8) -> bool {
    (LOWER_A <= b && b <= LOWER_Z) || (DIGIT_0 <= b && b <= DIGIT_9)
}

/// The platform's token-identifier format: a ticker of 3 to 10
/// upper-case alphanumeric bytes, a dash, and a 6-byte lower-case
/// alphanumeric random suffix.
pub open spec fn valid_token_id(s: Seq<u8>) -> bool {
    &&& 10 <= s.len() <= 17
    &&& s[s.len() - 7] == DASH
    &&& forall|i: int| 0 <= i < s.len() - 7 ==> is_ticker_byte(#[trigger] s[i])
    &&& forall|i: int| s.len() - 6 <= i < s.len() ==> is_random_byte(#[trigger] s[i])
}

/// Decides whether `bytes` is a well-formed token identifier.
pub fn is_valid_esdt_identifier(bytes: &Vec<u8>) -> (r: bool)
    ensures
        r == valid_token_id(bytes@),
{
    let n = bytes.len();
    if n < 10 || n > 17 {
        return false;
    }
    if bytes[n - 7] != DASH {
        return false;
    }
    let ticker_len = n - 7;
    let mut i: usize = 0;
    while i < ticker_len
        invariant
            ticker_len == n - 7,
            n == bytes@.len(),
            10 <= n <= 17,
            i <= ticker_len,
            forall|j: int| 0 <= j < i ==> is_ticker_byte(#[trigger] bytes@[j]),
        decreases ticker_len - i,
    {
        let b = bytes[i];
        if !((UPPER_A <= b && b <= UPPER_Z) || (DIGIT_0 <= b && b <= DIGIT_9)) {
            return false;
        }
        i = i + 1;
    }
    let mut k: usize = n - 6;
    while k < n
        invariant
            n == bytes@.len(),
            10 <= n <= 17,
            n - 6 <= k <= n,
            forall|j: int| n - 6 <= j < k ==> is_random_byte(#[trigger] bytes@[j]),
        decreases n - k,
    {
        let b = bytes[k];
        if !((LOWER_A <= b && b <= LOWER_Z) || (DIGIT_0 <= b && b <= DIGIT_9)) {
            return false;
        }
        k = k + 1;
    }
    true
}

} // verus!
