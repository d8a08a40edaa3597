//! The seeded ChaCha12 word stream and the two draws that the engine reads
//! from it.
use rand::{RngCore, SeedableRng};
use rand_chacha::ChaCha12Rng;
use vstd::prelude::*;

verus! {

/// A replacement chance of one: every 24-bit draw lies below it.
pub const CHANCE_ONE: u32 = 16777216;

/// Word `index` (counted from zero) of the output of `ChaCha12Rng::seed_from_u64(seed)`.
pub uninterp spec fn chacha12_word(seed: u64, index: nat) -> u32;

/// Relies on rand_chacha's `ChaCha12Rng`: `seed_from_u64` fixes the stream,
/// `set_word_pos` moves to a word offset and `next_u32` returns the word there.
/// The stream is a function of the seed alone, so the word is too.
#[verifier::external_body]
pub(crate) fn word_at(seed: u64, index: u128) -> (w: u32)
    ensures
        w == chacha12_word(seed, index as nat),
{
    let mut rng = ChaCha12Rng::seed_from_u64(seed);
    rng.set_word_pos(index);
    rng.next_u32()
}

/// The replacement draw: rand's uniform `f32` in `[0, 1)` is the top 24 bits
/// of a word times 2^-24, so it lies below `chance / 2^24` exactly when those
/// bits lie below `chance`.
pub open spec fn replaces(word: u32, chance: u32) -> bool {
    (word >> 8u32) < chance
}

/// The case draw: rand's uniform `bool` is the top bit of a word.
pub open spec fn upper_case(word: u32) -> bool {
    (word >> 31u32) == 1
}

/// Executes the replacement draw.
pub fn draw_replaces(word: u32, chance: u32) -> (r: bool)
    ensures
        r == replaces(word, chance),
{
    (word >> 8u32) < chance
}

/// Executes the case draw.
pub fn draw_upper_case(word: u32) -> (r: bool)
    ensures
        r == upper_case(word),
{
    (word >> 31u32) == 1
}

/// A chance of at least one replaces on every word.
pub proof fn lemma_full_chance_replaces(word: u32, chance: u32)
    requires
        chance >= CHANCE_ONE,
    ensures
        replaces(word, chance),
{
    assert((word >> 8u32) < 16777216u32) by (bit_vector);
}

} // verus!
