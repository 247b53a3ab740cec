//! Game-specific human-player front halves: prompt text and move
//! parsing for the bundled games, plus the decimal-number parsing they
//! share.

use vstd::prelude::*;
use vstd::string::StringSliceAdditionalSpecFns;

pub mod nim_player;

verus! {

/// True for the ASCII code of a decimal digit.
pub open spec fn decimal_digit(b: u8) -> bool {
    48 <= b <= 57
}

/// True when every byte is the ASCII code of a decimal digit.
pub open spec fn all_decimal_digits(bytes: Seq<u8>) -> bool {
    forall|i: int| 0 <= i < bytes.len() ==> decimal_digit(#[trigger] bytes[i])
}

/// The number the first `j` bytes spell in decimal, most significant
/// digit first; meaningful when those bytes are all decimal digits.
pub open spec fn decimal_prefix_value(bytes: Seq<u8>, j: int) -> int
    decreases j,
{
    if j <= 0 {
        0
    } else {
        decimal_prefix_value(bytes, j - 1) * 10 + (bytes[j - 1] - 48)
    }
}

/// The number the byte sequence spells in decimal.
pub open spec fn decimal_value(bytes: Seq<u8>) -> int {
    decimal_prefix_value(bytes, bytes.len() as int)
}

proof fn lemma_decimal_prefix_value_nonneg(b: Seq<u8>, j: int)
    requires
        j <= b.len(),
        forall|k: int| 0 <= k < j ==> decimal_digit(#[trigger] b[k]),
    ensures
        decimal_prefix_value(b, j) >= 0,
    decreases j,
{
    if j > 0 {
        lemma_decimal_prefix_value_nonneg(b, j - 1);
    }
}

/// A decimal number only grows as digits are appended, so the value of
/// any prefix bounds the value of the whole from below.
proof fn lemma_decimal_prefix_value_le(b: Seq<u8>, j: int)
    requires
        0 <= j <= b.len(),
        all_decimal_digits(b),
    ensures
        decimal_prefix_value(b, j) <= decimal_value(b),
    decreases b.len() - j,
{
    if j < b.len() {
        lemma_decimal_prefix_value_nonneg(b, j);
        lemma_decimal_prefix_value_le(b, j + 1);
    }
}

/// What parsing an unsigned number from these bytes yields: the decimal
/// value of the digits after an optional leading plus sign, if there is
/// at least one digit, nothing else follows, and the value fits.
pub open spec fn spec_parse_u32(bytes: Seq<u8>) -> Option<u32> {
    let digits = if bytes.len() > 0 && bytes[0] == 43 {
        bytes.drop_first()
    } else {
        bytes
    };
    if digits.len() > 0 && all_decimal_digits(digits) && decimal_value(digits) <= u32::MAX {
        Some(decimal_value(digits) as u32)
    } else {
        None
    }
}

/// Parses an unsigned decimal number, with an optional leading plus
/// sign, from the whole of `s`; `None` if anything else appears or the
/// value does not fit in a `u32`.
pub fn parse_decimal_u32(s: &str) -> (r: Option<u32>)
    ensures
        r == spec_parse_u32(s.spec_bytes()),
{
    let bytes = s.as_bytes();
    let n = bytes.len();
    let start: usize = if n > 0 && bytes[0] == 43 {
        1
    } else {
        0
    };
    let ghost digits: Seq<u8> = if bytes@.len() > 0 && bytes@[0] == 43 {
        bytes@.drop_first()
    } else {
        bytes@
    };
    proof {
        assert(digits =~= bytes@.subrange(start as int, n as int));
    }
    if n == start {
        return None;
    }
    let mut acc: u64 = 0;
    let mut i: usize = start;
    while i < n
        invariant
            start <= i <= n,
            n == bytes@.len(),
            bytes@ == s.spec_bytes(),
            digits == (if bytes@.len() > 0 && bytes@[0] == 43 {
                bytes@.drop_first()
            } else {
                bytes@
            }),
            digits == bytes@.subrange(start as int, n as int),
            forall|k: int| 0 <= k < i - start ==> decimal_digit(#[trigger] digits[k]),
            acc == decimal_prefix_value(digits, i - start),
            acc <= u32::MAX,
        decreases n - i,
    {
        let b = bytes[i];
        proof {
            assert(digits[i - start] == b);
        }
        if b < 48 || b > 57 {
            assert(!all_decimal_digits(digits));
            return None;
        }
        let d: u64 = (b - 48) as u64;
        acc = acc * 10 + d;
        if acc > 0xffff_ffff {
            proof {
                if all_decimal_digits(digits) {
                    lemma_decimal_prefix_value_le(digits, i + 1 - start);
                }
            }
            return None;
        }
        i = i + 1;
    }
    Some(acc as u32)
}

} // verus!
