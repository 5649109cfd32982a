//! Parsing of hexadecimal text as the chain RPC returns it: block
//! heights and timestamps as hex integers, hashes and roots as 64 hex
//! digits.

use vstd::prelude::*;
use crate::hashing::{zero_bytes32, make_zero_bytes32};

verus! {

/// An ASCII hexadecimal digit: `0-9`, `a-f` or `A-F`.
pub open spec fn is_hex_digit(b: u8) -> bool {
    (48 <= b <= 57) || (97 <= b <= 102) || (65 <= b <= 70)
}

/// The value of an ASCII hexadecimal digit; zero for any other byte.
pub open spec fn hex_digit_val(b: u8) -> int {
    if 48 <= b <= 57 {
        b - 48
    } else if 97 <= b <= 102 {
        b - 87
    } else if 65 <= b <= 70 {
        b - 55
    } else {
        0
    }
}

/// Every byte of the sequence is a hexadecimal digit.
pub open spec fn all_hex_digits(s: Seq<u8>) -> bool {
    forall|i: int| 0 <= i < s.len() ==> is_hex_digit(#[trigger] s[i])
}

/// The number a sequence of hexadecimal digits denotes, most significant
/// digit first.
pub open spec fn hex_value(s: Seq<u8>) -> int
    decreases s.len(),
{
    if s.len() == 0 {
        0
    } else {
        hex_value(s.drop_last()) * 16 + hex_digit_val(s.last())
    }
}

/// Decodes one hexadecimal digit.
pub fn hex_digit_value(b: u8) -> (r: Option<u8>)
    ensures
        is_hex_digit(b) ==> (r matches Some(v) && v == hex_digit_val(b) && v <= 15),
        !is_hex_digit(b) ==> r is None,
{
    if b >= 48 && b <= 57 {
        Some(b - 48)
    } else if b >= 97 && b <= 102 {
        Some(b - 87)
    } else if b >= 65 && b <= 70 {
        Some(b - 55)
    } else {
        None
    }
}

proof fn lemma_hex_value_nonneg(s: Seq<u8>)
    ensures
        hex_value(s) >= 0,
    decreases s.len(),
{
    if s.len() > 0 {
        lemma_hex_value_nonneg(s.drop_last());
    }
}

proof fn lemma_hex_value_prefix(s: Seq<u8>, k: int)
    requires
        0 <= k <= s.len(),
    ensures
        hex_value(s.take(k)) <= hex_value(s),
    decreases s.len(),
{
    if k == s.len() {
        assert(s.take(k) =~= s);
    } else {
        lemma_hex_value_nonneg(s.drop_last());
        assert(s.take(k) =~= s.drop_last().take(k));
        lemma_hex_value_prefix(s.drop_last(), k);
    }
}

/// Parses a hexadecimal integer, as the RPC's `0x`-stripped quantity
/// fields are read: nothing for an empty string, a byte that is no
/// digit, or a value that does not fit in 64 bits.
pub fn parse_hex_u64(digits: &[u8]) -> (r: Option<u64>)
    ensures
        r is Some <==> (digits@.len() > 0 && all_hex_digits(digits@) && hex_value(digits@)
            <= u64::MAX),
        r matches Some(v) ==> v == hex_value(digits@),
{
    let n = digits.len();
    if n == 0 {
        return None;
    }
    let mut acc: u64 = 0;
    let mut i: usize = 0;
    proof {
        assert(digits@.take(0) =~= Seq::<u8>::empty());
    }
    while i < n
        invariant
            i <= n,
            n == digits@.len(),
            all_hex_digits(digits@.take(i as int)),
            acc == hex_value(digits@.take(i as int)),
        decreases n - i,
    {
        let b = digits[i];
        let d = match hex_digit_value(b) {
            Some(d) => d,
            None => {
                assert(!is_hex_digit(digits@[i as int]));
                return None;
            },
        };
        proof {
            assert(digits@.take(i as int + 1).drop_last() =~= digits@.take(i as int));
            assert(digits@.take(i as int + 1).last() == digits@[i as int]);
        }
        if acc > (u64::MAX - (d as u64)) / 16 {
            proof {
                assert(acc * 16 + d > u64::MAX) by (nonlinear_arith)
                    requires
                        acc > (u64::MAX - (d as u64)) / 16,
                        0 <= d <= 15,
                        acc >= 0,
                ;
                if all_hex_digits(digits@) {
                    lemma_hex_value_prefix(digits@, i as int + 1);
                }
            }
            return None;
        }
        proof {
            assert(acc * 16 + d <= u64::MAX) by (nonlinear_arith)
                requires
                    acc <= (u64::MAX - (d as u64)) / 16,
                    0 <= d <= 15,
                    acc >= 0,
            ;
        }
        acc = acc * 16 + (d as u64);
        i = i + 1;
    }
    assert(digits@.take(n as int) =~= digits@);
    Some(acc)
}

/// The byte a pair of hexadecimal digits denotes.
pub open spec fn spec_hex_pair(s: Seq<u8>, i: int) -> int {
    hex_digit_val(s[2 * i]) * 16 + hex_digit_val(s[2 * i + 1])
}

/// Parses a 32-byte value from hexadecimal text, as hash fields are
/// read: the first 64 digits become the 32 bytes; shorter input yields
/// the all-zero value; a byte among the first 64 that is no digit yields
/// nothing.
pub fn parse_hex_bytes32(digits: &[u8]) -> (r: Option<[u8; 32]>)
    ensures
        digits@.len() < 64 ==> (r matches Some(b) && b@ == zero_bytes32()),
        digits@.len() >= 64 ==> (r is Some <==> all_hex_digits(digits@.take(64))),
        digits@.len() >= 64 ==> (r matches Some(b) ==> forall|i: int|
            0 <= i < 32 ==> b@[i] == spec_hex_pair(digits@, i)),
{
    let mut out = make_zero_bytes32();
    if digits.len() < 64 {
        return Some(out);
    }
    let mut i: usize = 0;
    while i < 32
        invariant
            i <= 32,
            digits@.len() >= 64,
            forall|j: int| 0 <= j < 2 * i ==> is_hex_digit(#[trigger] digits@[j]),
            forall|j: int| 0 <= j < i ==> out@[j] == spec_hex_pair(digits@, j),
        decreases 32 - i,
    {
        let hi = match hex_digit_value(digits[2 * i]) {
            Some(v) => v,
            None => {
                assert(!is_hex_digit(digits@.take(64)[2 * i as int]));
                return None;
            },
        };
        let lo = match hex_digit_value(digits[2 * i + 1]) {
            Some(v) => v,
            None => {
                assert(!is_hex_digit(digits@.take(64)[2 * i as int + 1]));
                return None;
            },
        };
        out[i] = hi * 16 + lo;
        i = i + 1;
    }
    proof {
        assert forall|j: int| 0 <= j < 64 implies is_hex_digit(#[trigger] digits@.take(64)[j]) by {
            assert(digits@.take(64)[j] == digits@[j]);
        }
    }
    Some(out)
}

} // verus!
