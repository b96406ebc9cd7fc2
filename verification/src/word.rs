//! Byte-level surgery on machine words.
//!
//! A breakpoint overwrites exactly one byte of the traced process's
//! instruction stream. Process memory is read and written a whole word
//! at a time, so the word holding the target address must be edited
//! with every other byte preserved exactly.

use vstd::prelude::*;

verus! {

/// The byte at position `k` of `w`, counting from the least significant end.
pub open spec fn byte_of(w: u64, k: u64) -> u8 {
    ((w >> (8 * k)) & 0xff) as u8
}

/// `w` with the byte at position `k` replaced by `b` and every other byte kept.
pub open spec fn with_byte(w: u64, k: u64, b: u8) -> u64 {
    (w & !(0xffu64 << (8 * k))) | ((b as u64) << (8 * k))
}

/// Round `addr` down to the start of the word that contains it.
pub fn align_addr_to_word(addr: usize) -> (r: usize)
    ensures
        r == addr - (addr % 8),
        r % 8 == 0,
        r <= addr < r + 8,
{
    proof {
        assert(addr & !7 == addr - (addr % 8) && (addr & !7) % 8 == 0
            && addr & !7 <= addr) by (bit_vector);
    }
    addr & !7
}

/// Replace the byte at position `k` of `word` with `val`; return the new
/// word together with the byte that was there before.
pub fn patch_word(word: u64, k: usize, val: u8) -> (r: (u64, u8))
    requires
        k < 8,
    ensures
        r.0 == with_byte(word, k as u64, val),
        r.1 == byte_of(word, k as u64),
{
    let shift: u64 = 8 * (k as u64);
    let orig: u8 = ((word >> shift) & 0xff) as u8;
    let masked: u64 = word & !(0xffu64 << shift);
    let updated: u64 = masked | ((val as u64) << shift);
    proof {
        let kk = k as u64;
        assert(((word >> (8 * kk)) & 0xff) as u8 == byte_of(word, kk)
            && (word & !(0xffu64 << (8 * kk))) | ((val as u64) << (8 * kk))
                == with_byte(word, kk, val)) by (bit_vector);
    }
    (updated, orig)
}

/// Reading the patched position yields exactly the byte written.
pub proof fn lemma_patched_byte_reads_back(w: u64, k: u64, b: u8)
    by (bit_vector)
    requires
        k < 8,
    ensures
        byte_of(with_byte(w, k, b), k) == b,
{
}

/// Patching one byte leaves every other byte of the word bit-identical.
pub proof fn lemma_patch_preserves_other_bytes(w: u64, k: u64, j: u64, b: u8)
    by (bit_vector)
    requires
        k < 8,
        j < 8,
        j != k,
    ensures
        byte_of(with_byte(w, k, b), j) == byte_of(w, j),
{
}

/// Writing back the recorded original byte restores the whole word exactly.
pub proof fn lemma_patch_restore_round_trip(w: u64, k: u64, b: u8)
    by (bit_vector)
    requires
        k < 8,
    ensures
        with_byte(with_byte(w, k, b), k, byte_of(w, k)) == w,
{
}

} // verus!
