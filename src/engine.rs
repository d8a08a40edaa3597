//! The wobble engine: one replacement draw per character and, unless the
//! character is replaced, one case draw.
use crate::stream::{
    chacha12_word, draw_replaces, draw_upper_case, replaces, upper_case, word_at, CHANCE_ONE,
};
use vstd::prelude::*;
use vstd::string::{StrSliceExecFns, StringExecFns};

verus! {

/// What drives one transformation.
#[derive(Clone, Copy, Debug)]
pub struct WobbleOptions {
    /// Seeds the ChaCha12 generator.
    pub seed: u64,
    /// The chance that a character is replaced, in units of 2^-24
    /// (`CHANCE_ONE` and above: always).
    pub repl_char_chance: u32,
    /// What a replaced character becomes.
    pub repl_char: char,
}

/// The replacement chance of the default options, 0.05 as an `f32` in 2^-24
/// units rounded up: a draw `k * 2^-24` lies below that `f32` exactly when `k`
/// lies below this count.
pub const DEFAULT_CHANCE: u32 = 838861;

impl Default for WobbleOptions {
    fn default() -> (o: Self)
        ensures
            o.seed == 32,
            o.repl_char_chance == DEFAULT_CHANCE,
            o.repl_char == '_',
    {
        WobbleOptions { seed: 32, repl_char_chance: DEFAULT_CHANCE, repl_char: '_' }
    }
}

/// The full upper-case mapping of `c`.
pub uninterp spec fn upper_of(c: char) -> Seq<char>;

/// The full lower-case mapping of `c`.
pub uninterp spec fn lower_of(c: char) -> Seq<char>;

/// Relies on `char::to_uppercase`: the mapping depends on `c` alone.
#[verifier::external_body]
fn to_upper(c: char) -> (r: String)
    ensures
        r@ == upper_of(c),
{
    c.to_uppercase().collect()
}

/// Relies on `char::to_lowercase`: the mapping depends on `c` alone.
#[verifier::external_body]
fn to_lower(c: char) -> (r: String)
    ensures
        r@ == lower_of(c),
{
    c.to_lowercase().collect()
}

/// Relies on `String::push`: appends one character.
#[verifier::external_body]
fn push_char(s: &mut String, c: char)
    ensures
        final(s)@ == old(s)@.push(c),
{
    s.push(c)
}

/// What character `c` becomes when the stream stands at word `pos`, and how
/// many words it takes.
pub open spec fn char_step(c: char, o: WobbleOptions, pos: nat) -> (Seq<char>, nat) {
    if replaces(chacha12_word(o.seed, pos), o.repl_char_chance) {
        (seq![o.repl_char], 1)
    } else if upper_case(chacha12_word(o.seed, pos + 1)) {
        (upper_of(c), 2)
    } else {
        (lower_of(c), 2)
    }
}

/// The output for `s` and the number of words drawn, characters taken from
/// left to right starting at word zero.
pub open spec fn wobble_run(s: Seq<char>, o: WobbleOptions) -> (Seq<char>, nat)
    decreases s.len(),
{
    if s.len() == 0 {
        (seq![], 0)
    } else {
        let prev = wobble_run(s.drop_last(), o);
        let step = char_step(s.last(), o, prev.1);
        (prev.0 + step.0, prev.1 + step.1)
    }
}

/// The output of `wobble` on `s`.
pub open spec fn wobble_output(s: Seq<char>, o: WobbleOptions) -> Seq<char> {
    wobble_run(s, o).0
}

/// The number of words `wobble` draws on `s`.
pub open spec fn wobble_draws(s: Seq<char>, o: WobbleOptions) -> nat {
    wobble_run(s, o).1
}

proof fn lemma_draws_bounded(s: Seq<char>, o: WobbleOptions)
    ensures
        wobble_draws(s, o) <= 2 * s.len(),
    decreases s.len(),
{
    if s.len() > 0 {
        lemma_draws_bounded(s.drop_last(), o);
    }
}

/// Transforms `s` character by character: a character is replaced by
/// `options.repl_char` when its replacement draw falls below the chance, and
/// otherwise upper- or lower-cased as the next draw says. The result is a
/// function of `s` and `options` alone.
pub fn wobble(s: &str, options: &WobbleOptions) -> (r: String)
    ensures
        r@ == wobble_output(s@, *options),
        s@.len() == 0 ==> r@.len() == 0,
        options.repl_char_chance >= CHANCE_ONE ==> r@ == Seq::new(s@.len(), |i: int| options.repl_char),
{
    let o = *options;
    // The character count fits in a `usize`, so the word position below,
    // at most twice that count, fits in a `u128`.
    let _char_count: usize = s.unicode_len();
    let mut acc = String::new();
    let mut pos: u128 = 0;
    for c in it: s.chars()
        invariant
            it.seq() == s@,
            it.index() <= s@.len() <= usize::MAX,
            (acc@, pos as nat) == wobble_run(s@.take(it.index() as int), o),
    {
        let ghost i = it.index() as int;
        proof {
            assert(s@.take(i + 1).drop_last() =~= s@.take(i));
            lemma_draws_bounded(s@.take(i), o);
        }
        let w = word_at(o.seed, pos);
        if draw_replaces(w, o.repl_char_chance) {
            push_char(&mut acc, o.repl_char);
            pos = pos + 1;
        } else {
            let w2 = word_at(o.seed, pos + 1);
            let piece = if draw_upper_case(w2) { to_upper(c) } else { to_lower(c) };
            acc.append(piece.as_str());
            pos = pos + 2;
        }
    }
    proof {
        assert(s@.take(s@.len() as int) =~= s@);
        lemma_empty(o);
        if o.repl_char_chance >= CHANCE_ONE {
            lemma_full_replacement(s@, o);
        }
    }
    acc
}

/// Wobbling the empty string gives the empty string.
pub proof fn lemma_empty(o: WobbleOptions)
    ensures
        wobble_output(seq![], o) == Seq::<char>::empty(),
{
}

/// With a chance of one, every character becomes `repl_char` and draws one word.
pub proof fn lemma_full_replacement(s: Seq<char>, o: WobbleOptions)
    requires
        o.repl_char_chance >= CHANCE_ONE,
    ensures
        wobble_output(s, o) == Seq::new(s.len(), |i: int| o.repl_char),
        wobble_draws(s, o) == s.len(),
    decreases s.len(),
{
    if s.len() > 0 {
        lemma_full_replacement(s.drop_last(), o);
        crate::stream::lemma_full_chance_replaces(
            chacha12_word(o.seed, wobble_draws(s.drop_last(), o)),
            o.repl_char_chance,
        );
        assert(wobble_output(s, o) =~= Seq::new(s.len(), |i: int| o.repl_char));
    }
}

/// The case mapping of each character of `s`, the one at index `k` upper-cased
/// when word `2k + 1` of the stream says so.
pub open spec fn case_mapped(s: Seq<char>, seed: u64) -> Seq<char>
    decreases s.len(),
{
    if s.len() == 0 {
        seq![]
    } else {
        let k = (s.len() - 1) as nat;
        let piece = if upper_case(chacha12_word(seed, 2 * k + 1)) {
            upper_of(s.last())
        } else {
            lower_of(s.last())
        };
        case_mapped(s.drop_last(), seed) + piece
    }
}

/// With a chance of zero no character is replaced: each one takes exactly one
/// replacement draw and one case draw, and comes out case-mapped.
pub proof fn lemma_no_replacement(s: Seq<char>, o: WobbleOptions)
    requires
        o.repl_char_chance == 0,
    ensures
        wobble_draws(s, o) == 2 * s.len(),
        wobble_output(s, o) == case_mapped(s, o.seed),
    decreases s.len(),
{
    if s.len() > 0 {
        lemma_no_replacement(s.drop_last(), o);
    }
}

} // verus!
