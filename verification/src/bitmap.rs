//! A fixed-capacity bit vector over 32-bit words, tracking which resources of
//! a pool are allocated: bit `i` set means resource `i` is in use.

use crate::kernel_types::{Error, ERANGE};
use vstd::prelude::*;

verus! {

/// Bit `k` of the word `w`.
pub open spec fn word_bit(w: u32, k: u32) -> bool
    recommends
        k < 32,
{
    (w >> k) & 1 == 1
}

/// A packed array of bits; capacity is 32 bits per word and is fixed at
/// construction. Viewed as the sequence of its bits, lowest index first:
/// bit `i` lives in word `i / 32` at offset `i % 32`.
pub struct Bitmap {
    words: Vec<u32>,
}

impl View for Bitmap {
    type V = Seq<bool>;

    closed spec fn view(&self) -> Seq<bool> {
        Seq::new(
            self.words@.len() * 32,
            |i: int| word_bit(self.words@[i / 32], (i % 32) as u32),
        )
    }
}

proof fn lemma_or_bit(w: u32, k: u32, m: u32)
    requires
        k < 32,
        m < 32,
    ensures
        word_bit(w | (1u32 << k), m) == (m == k || word_bit(w, m)),
{
    assert(((w | (1u32 << k)) >> m) & 1 == (if m == k {
        1u32
    } else {
        (w >> m) & 1
    })) by (bit_vector)
        requires
            k < 32,
            m < 32,
    ;
}

proof fn lemma_and_not_bit(w: u32, k: u32, m: u32)
    requires
        k < 32,
        m < 32,
    ensures
        word_bit(w & !(1u32 << k), m) == (m != k && word_bit(w, m)),
{
    assert(((w & !(1u32 << k)) >> m) & 1 == (if m == k {
        0u32
    } else {
        (w >> m) & 1
    })) by (bit_vector)
        requires
            k < 32,
            m < 32,
    ;
}

proof fn lemma_test_bit(w: u32, k: u32)
    requires
        k < 32,
    ensures
        ((w & (1u32 << k)) != 0) == word_bit(w, k),
{
    assert(((w & (1u32 << k)) != 0) == ((w >> k) & 1 == 1)) by (bit_vector)
        requires
            k < 32,
    ;
}

/// An index below the capacity names a word strictly inside the array, and
/// conversely.
proof fn lemma_index_word(i: u64, words: int)
    requires
        0 <= words,
    ensures
        (i / 32 < words) == ((i as int) < 32 * words),
        i / 32 < words ==> i as int / 32 == i / 32 && i as int % 32 == i % 32,
{
    assert(i == 32 * (i / 32) + i % 32) by (nonlinear_arith);
    assert(i / 32 < words ==> (i as int) < 32 * words) by (nonlinear_arith)
        requires
            i == 32 * (i / 32) + i % 32 && i % 32 < 32,
    ;
    assert((i as int) < 32 * words ==> i / 32 < words) by (nonlinear_arith)
        requires
            i == 32 * (i / 32) + i % 32 && 0 <= i % 32,
    ;
}

/// Whether `bits` is exactly the bit sequence packed in `words`.
pub open spec fn bits_match_words(bits: Seq<bool>, words: Seq<u32>) -> bool {
    bits.len() == 32 * words.len() && forall|i: int|
        0 <= i < bits.len() ==> bits[i] == word_bit(words[i / 32], (i % 32) as u32)
}

impl Bitmap {
    /// Wraps an array of words as a bitmap of `32 * words.len()` bits.
    pub fn new(words: Vec<u32>) -> (r: Bitmap)
        ensures
            bits_match_words(r@, words@),
            r@.len() == 32 * words@.len(),
    {
        Bitmap { words }
    }

    /// Whether bit `block_num` is set; an out-of-range error beyond the
    /// capacity. Bounds are checked explicitly, so no input can panic.
    pub fn is_set(&self, block_num: u64) -> (r: Result<bool, Error>)
        ensures
            block_num < self@.len() ==> r == Ok::<bool, Error>(self@[block_num as int]),
            block_num >= self@.len() ==> r == Err::<bool, Error>(Error(ERANGE)),
    {
        let wlen = self.words.len();
        proof {
            lemma_index_word(block_num, wlen as int);
        }
        if block_num / 32 >= wlen as u64 {
            return Err(Error(ERANGE));
        }
        let idx = (block_num / 32) as usize;
        let k = (block_num % 32) as u32;
        let w = self.words[idx];
        proof {
            lemma_test_bit(w, k);
        }
        Ok((w & (1u32 << k)) != 0)
    }

    /// Sets bit `block_num`, leaving every other bit unchanged; setting an
    /// already-set bit succeeds and is a no-op. An out-of-range index is
    /// rejected and the bitmap is untouched.
    pub fn set_bit(&mut self, block_num: u64) -> (r: Result<(), Error>)
        ensures
            block_num < old(self)@.len() ==> r == Ok::<(), Error>(())
                && final(self)@ == old(self)@.update(block_num as int, true),
            block_num >= old(self)@.len() ==> r == Err::<(), Error>(Error(ERANGE))
                && final(self)@ == old(self)@,
    {
        let wlen = self.words.len();
        proof {
            lemma_index_word(block_num, wlen as int);
        }
        if block_num / 32 >= wlen as u64 {
            return Err(Error(ERANGE));
        }
        let idx = (block_num / 32) as usize;
        let k = (block_num % 32) as u32;
        let w = self.words[idx];
        self.words.set(idx, w | (1u32 << k));
        proof {
            self.lemma_one_word_changed(*old(self), idx as int, block_num as int, true);
        }
        Ok(())
    }

    /// Clears bit `block_num`, leaving every other bit unchanged; clearing an
    /// already-clear bit succeeds and is a no-op. An out-of-range index is
    /// rejected and the bitmap is untouched.
    pub fn clear_bit(&mut self, block_num: u64) -> (r: Result<(), Error>)
        ensures
            block_num < old(self)@.len() ==> r == Ok::<(), Error>(())
                && final(self)@ == old(self)@.update(block_num as int, false),
            block_num >= old(self)@.len() ==> r == Err::<(), Error>(Error(ERANGE))
                && final(self)@ == old(self)@,
    {
        let wlen = self.words.len();
        proof {
            lemma_index_word(block_num, wlen as int);
        }
        if block_num / 32 >= wlen as u64 {
            return Err(Error(ERANGE));
        }
        let idx = (block_num / 32) as usize;
        let k = (block_num % 32) as u32;
        let w = self.words[idx];
        self.words.set(idx, w & !(1u32 << k));
        proof {
            self.lemma_one_word_changed(*old(self), idx as int, block_num as int, false);
        }
        Ok(())
    }

    /// After rewriting the one word holding bit `i` so that only that bit may
    /// differ, the whole bit sequence is the old one updated at `i`.
    proof fn lemma_one_word_changed(&self, prev: Bitmap, idx: int, i: int, v: bool)
        requires
            self.words@.len() == prev.words@.len(),
            0 <= i < prev@.len(),
            idx == i / 32,
            forall|j: int|
                0 <= j < self.words@.len() && j != idx ==> self.words@[j] == prev.words@[j],
            self.words@[idx] == (if v {
                prev.words@[idx] | (1u32 << ((i % 32) as u32))
            } else {
                prev.words@[idx] & !(1u32 << ((i % 32) as u32))
            }),
        ensures
            self@ == prev@.update(i, v),
    {
        let k = (i % 32) as u32;
        assert forall|j: int| 0 <= j < prev@.len() implies self@[j] == prev@.update(i, v)[j] by {
            let m = (j % 32) as u32;
            if v {
                lemma_or_bit(prev.words@[idx], k, m);
            } else {
                lemma_and_not_bit(prev.words@[idx], k, m);
            }
            if j / 32 == idx && j != i {
                assert(j == 32 * (j / 32) + j % 32) by (nonlinear_arith);
                assert(i == 32 * (i / 32) + i % 32) by (nonlinear_arith);
                assert(m != k);
            }
        }
        assert(self@ =~= prev@.update(i, v));
    }
}

/// Updating one position of a bit sequence twice with the same value gives
/// exactly the state after updating it once: `clear_bit`, whose contract
/// leaves `update(i, false)`, is idempotent, and `set_bit` likewise.
pub proof fn lemma_bit_update_idempotent(bits: Seq<bool>, i: int, v: bool)
    requires
        0 <= i < bits.len(),
    ensures
        bits.update(i, v).update(i, v) == bits.update(i, v),
{
    assert(bits.update(i, v).update(i, v) =~= bits.update(i, v));
}

} // verus!
