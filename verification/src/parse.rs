//! Numeric parsing for the `break` command's argument.
//!
//! A breakpoint target can name a raw hexadecimal address or a decimal
//! source line. Both parsers work over the ASCII bytes of the token and
//! state exactly which byte strings they accept and which value they
//! yield; a value that does not fit the address width is rejected, not
//! truncated.

use vstd::prelude::*;

verus! {

/// ASCII `0`..`9`.
pub open spec fn is_dec_digit(b: u8) -> bool {
    0x30 <= b <= 0x39
}

/// ASCII `0`..`9`, `a`..`f` or `A`..`F`.
pub open spec fn is_hex_digit(b: u8) -> bool {
    is_dec_digit(b) || (0x61 <= b <= 0x66) || (0x41 <= b <= 0x46)
}

pub open spec fn dec_digit_val(b: u8) -> nat {
    (b - 0x30) as nat
}

pub open spec fn hex_digit_val(b: u8) -> nat {
    if is_dec_digit(b) {
        (b - 0x30) as nat
    } else if 0x61 <= b <= 0x66 {
        (b - 0x61 + 10) as nat
    } else {
        (b - 0x41 + 10) as nat
    }
}

pub open spec fn all_dec_digits(s: Seq<u8>) -> bool {
    forall|i: int| 0 <= i < s.len() ==> is_dec_digit(#[trigger] s[i])
}

pub open spec fn all_hex_digits(s: Seq<u8>) -> bool {
    forall|i: int| 0 <= i < s.len() ==> is_hex_digit(#[trigger] s[i])
}

/// The number written in decimal as `s`, most significant digit first.
pub open spec fn dec_value(s: Seq<u8>) -> nat
    decreases s.len(),
{
    if s.len() == 0 {
        0
    } else {
        dec_value(s.drop_last()) * 10 + dec_digit_val(s.last())
    }
}

/// The number written in hexadecimal as `s`, most significant digit first.
pub open spec fn hex_value(s: Seq<u8>) -> nat
    decreases s.len(),
{
    if s.len() == 0 {
        0
    } else {
        hex_value(s.drop_last()) * 16 + hex_digit_val(s.last())
    }
}

/// A non-empty, all-decimal token whose value fits an address word.
pub open spec fn dec_parses(s: Seq<u8>) -> bool {
    s.len() > 0 && all_dec_digits(s) && dec_value(s) <= usize::MAX
}

/// A non-empty, all-hexadecimal token whose value fits an address word.
pub open spec fn hex_parses(s: Seq<u8>) -> bool {
    s.len() > 0 && all_hex_digits(s) && hex_value(s) <= usize::MAX
}

/// Extending a digit string multiplies its value up: no prefix is ever
/// worth more than the whole.
proof fn lemma_hex_prefix_le(s: Seq<u8>, i: int)
    requires
        0 <= i <= s.len(),
    ensures
        hex_value(s.take(i)) <= hex_value(s),
    decreases s.len() - i,
{
    if i < s.len() {
        assert(s.take(i + 1).drop_last() =~= s.take(i));
        lemma_hex_prefix_le(s, i + 1);
    } else {
        assert(s.take(i) =~= s);
    }
}

proof fn lemma_dec_prefix_le(s: Seq<u8>, i: int)
    requires
        0 <= i <= s.len(),
    ensures
        dec_value(s.take(i)) <= dec_value(s),
    decreases s.len() - i,
{
    if i < s.len() {
        assert(s.take(i + 1).drop_last() =~= s.take(i));
        lemma_dec_prefix_le(s, i + 1);
    } else {
        assert(s.take(i) =~= s);
    }
}

/// Parse `bytes[from..]` as a hexadecimal address. Yields the written
/// value exactly when that tail is non-empty, all hex digits, and its
/// value fits; yields nothing otherwise.
pub fn parse_hex_usize(bytes: &[u8], from: usize) -> (r: Option<usize>)
    ensures
        match r {
            Some(v) => {
                &&& from <= bytes@.len()
                &&& hex_parses(bytes@.skip(from as int))
                &&& v == hex_value(bytes@.skip(from as int))
            },
            None => from >= bytes@.len() || !hex_parses(bytes@.skip(from as int)),
        },
{
    let n = bytes.len();
    if from >= n {
        return None;
    }
    let ghost tail = bytes@.skip(from as int);
    let mut acc: usize = 0;
    let mut i: usize = from;
    while i < n
        invariant
            from <= i <= n,
            n == bytes@.len(),
            tail == bytes@.skip(from as int),
            all_hex_digits(tail.take(i - from)),
            acc == hex_value(tail.take(i - from)),
        decreases n - i,
    {
        let b = bytes[i];
        let d: usize = if 0x30 <= b && b <= 0x39 {
            (b - 0x30) as usize
        } else if 0x61 <= b && b <= 0x66 {
            (b - 0x61) as usize + 10
        } else if 0x41 <= b && b <= 0x46 {
            (b - 0x41) as usize + 10
        } else {
            assert(!is_hex_digit(tail[i - from]));
            return None;
        };
        assert(is_hex_digit(tail[i - from]) && d == hex_digit_val(tail[i - from]));
        let wide: u128 = (acc as u128) * 16 + (d as u128);
        if wide > usize::MAX as u128 {
            proof {
                assert(tail.take(i - from + 1).drop_last() =~= tail.take(i - from));
                assert(hex_value(tail.take(i - from + 1)) > usize::MAX);
                lemma_hex_prefix_le(tail, i - from + 1);
            }
            return None;
        }
        assert(tail.take(i - from + 1).drop_last() =~= tail.take(i - from));
        acc = wide as usize;
        i += 1;
    }
    assert(tail.take(n - from) =~= tail);
    Some(acc)
}

/// Parse all of `bytes` as a decimal number. Yields the written value
/// exactly when the token is non-empty, all decimal digits, and its
/// value fits; yields nothing otherwise.
pub fn parse_dec_usize(bytes: &[u8]) -> (r: Option<usize>)
    ensures
        match r {
            Some(v) => dec_parses(bytes@) && v == dec_value(bytes@),
            None => !dec_parses(bytes@),
        },
{
    let n = bytes.len();
    if n == 0 {
        return None;
    }
    let mut acc: usize = 0;
    let mut i: usize = 0;
    while i < n
        invariant
            i <= n,
            n == bytes@.len(),
            all_dec_digits(bytes@.take(i as int)),
            acc == dec_value(bytes@.take(i as int)),
        decreases n - i,
    {
        let b = bytes[i];
        if !(0x30 <= b && b <= 0x39) {
            assert(!is_dec_digit(bytes@[i as int]));
            return None;
        }
        let d: usize = (b - 0x30) as usize;
        let wide: u128 = (acc as u128) * 10 + (d as u128);
        if wide > usize::MAX as u128 {
            proof {
                assert(bytes@.take(i + 1).drop_last() =~= bytes@.take(i as int));
                assert(dec_value(bytes@.take(i + 1)) > usize::MAX);
                lemma_dec_prefix_le(bytes@, i + 1);
            }
            return None;
        }
        assert(bytes@.take(i + 1).drop_last() =~= bytes@.take(i as int));
        acc = wide as usize;
        i += 1;
    }
    assert(bytes@.take(n as int) =~= bytes@);
    Some(acc)
}

} // verus!
