//! The generator's randomness: SplitMix64, and nothing else.
//!
//! The exact sequence is part of the save format. A puzzle is restored from
//! its stored grid, but the next puzzle comes from the stream's position, so
//! the algorithm is pinned here rather than left to a dependency.

use vstd::prelude::*;

verus! {

/// Where a stream stands after one more draw.
pub open spec fn advance(state: u64) -> u64 {
    state.wrapping_add(0x9E37_79B9_7F4A_7C15)
}

/// The sixty-four bits drawn at `state`: SplitMix64's finaliser.
pub open spec fn mix(state: u64) -> u64 {
    let first = (state ^ (state >> 30)).wrapping_mul(0xBF58_476D_1CE4_E5B9);
    let second = (first ^ (first >> 27)).wrapping_mul(0x94D0_49BB_1331_11EB);
    second ^ (second >> 31)
}

/// The number below `bound` that `draw` stands for: the draw, read as a
/// fraction of the whole range, scaled to the bound.
pub open spec fn scale(draw: u64, bound: int) -> int {
    (draw * bound) / 0x1_0000_0000_0000_0000
}

/// `items` with the items at `i` and `j` exchanged.
pub open spec fn exchanged<T>(items: Seq<T>, i: int, j: int) -> Seq<T> {
    items.update(i, items[j]).update(j, items[i])
}

/// What a stream at `state` makes of the first `n` items, and where it stands
/// afterwards: from the last of them down, each changes places with one drawn
/// from those up to and with itself.
pub open spec fn shuffled<T>(items: Seq<T>, n: int, state: u64) -> (Seq<T>, u64)
    decreases n,
{
    if n <= 1 {
        (items, state)
    } else {
        let next = advance(state);
        shuffled(exchanged(items, n - 1, scale(mix(next), n)), n - 1, next)
    }
}

/// A scaled draw stays below its bound.
pub proof fn lemma_scale_below(draw: u64, bound: int)
    requires
        bound > 0,
    ensures
        0 <= scale(draw, bound) < bound,
{
    let whole: int = 0x1_0000_0000_0000_0000;
    assert(0 <= draw * bound < whole * bound) by (nonlinear_arith)
        requires
            0 <= draw < whole,
            bound > 0,
    ;
    assert((draw * bound) / whole < bound) by (nonlinear_arith)
        requires
            0 <= draw * bound < whole * bound,
            whole == 0x1_0000_0000_0000_0000,
    ;
    assert((draw * bound) / whole >= 0) by (nonlinear_arith)
        requires
            0 <= draw * bound,
            whole == 0x1_0000_0000_0000_0000,
    ;
}

/// A shuffle permutes rather than replaces: every item is still there, as
/// often as before.
pub proof fn lemma_shuffle_permutes<T>(items: Seq<T>, n: int, state: u64)
    requires
        n <= items.len(),
    ensures
        shuffled(items, n, state).0.len() == items.len(),
        shuffled(items, n, state).0.to_multiset() == items.to_multiset(),
    decreases n,
{
    if n > 1 {
        let next = advance(state);
        let other = scale(mix(next), n);
        lemma_scale_below(mix(next), n);
        let swapped = exchanged(items, n - 1, other);
        lemma_exchange_permutes(items, n - 1, other);
        lemma_shuffle_permutes(swapped, n - 1, next);
    }
}

proof fn lemma_exchange_permutes<T>(items: Seq<T>, i: int, j: int)
    requires
        0 <= i < items.len(),
        0 <= j < items.len(),
    ensures
        exchanged(items, i, j).len() == items.len(),
        exchanged(items, i, j).to_multiset() == items.to_multiset(),
{
    broadcast use vstd::seq_lib::group_to_multiset_ensures;

    let first = items.update(i, items[j]);
    assert(first.to_multiset() =~= items.to_multiset().remove(items[i]).insert(items[j]));
    assert(first[j] == items[j]);
    let second = first.update(j, items[i]);
    assert(second.to_multiset() =~= first.to_multiset().remove(items[j]).insert(items[i]));
    assert(items.to_multiset().count(items[i]) > 0) by {
        assert(items.contains(items[i]));
    }
    assert(second.to_multiset() =~= items.to_multiset());
}

/// A shuffle moves items without looking at them: shuffling what they stand for
/// gives what the shuffled items stand for.
pub proof fn lemma_shuffle_map<T, U>(items: Seq<T>, f: spec_fn(T) -> U, n: int, state: u64)
    requires
        n <= items.len(),
    ensures
        shuffled(items.map_values(f), n, state) == (
            shuffled(items, n, state).0.map_values(f),
            shuffled(items, n, state).1,
        ),
    decreases n,
{
    if n > 1 {
        let next = advance(state);
        let other = scale(mix(next), n);
        lemma_scale_below(mix(next), n);
        let swapped = exchanged(items, n - 1, other);
        assert(exchanged(items.map_values(f), n - 1, other) =~= swapped.map_values(f));
        lemma_shuffle_map(swapped, f, n - 1, next);
    }
}

/// `[T]::swap` exchanges the items at the two indices and leaves the rest. It
/// panics on an index past the end, which the bounds leave out.
#[verifier::external_body]
fn swap_items<T>(items: &mut [T], a: usize, b: usize)
    requires
        a < old(items)@.len(),
        b < old(items)@.len(),
    ensures
        final(items)@ == exchanged(old(items)@, a as int, b as int),
{
    items.swap(a, b);
}

/// A seeded SplitMix64 stream.
#[derive(Debug, Clone, Copy, PartialEq, Eq, Structural)]
pub struct Rng {
    state: u64,
}

impl Rng {
    /// Where the stream has got to.
    pub closed spec fn view(&self) -> u64 {
        self.state
    }

    /// A stream at `seed`.
    pub fn new(seed: u64) -> (rng: Self)
        ensures
            rng@ == seed,
    {
        Self { state: seed }
    }

    /// Where the stream has got to, for the save format.
    pub fn state(self) -> (state: u64)
        ensures
            state == self@,
    {
        self.state
    }

    /// The next 64 bits.
    pub fn next_u64(&mut self) -> (draw: u64)
        ensures
            final(self)@ == advance(old(self)@),
            draw == mix(final(self)@),
    {
        self.state = self.state.wrapping_add(0x9E37_79B9_7F4A_7C15);
        let mut z: u64 = self.state;
        z = (z ^ (z >> 30)).wrapping_mul(0xBF58_476D_1CE4_E5B9);
        z = (z ^ (z >> 27)).wrapping_mul(0x94D0_49BB_1331_11EB);
        z ^ (z >> 31)
    }

    /// A number below `bound`, or `0` if `bound` is `0`.
    ///
    /// Lemire's multiply-shift rather than a modulo, which would leave a bias.
    pub fn below(&mut self, bound: usize) -> (number: usize)
        ensures
            bound == 0 ==> number == 0 && final(self)@ == old(self)@,
            bound > 0 ==> final(self)@ == advance(old(self)@) && number == scale(
                mix(final(self)@),
                bound as int,
            ) && number < bound,
    {
        if bound == 0 {
            return 0;
        }
        let bits: u64 = self.next_u64();
        proof {
            lemma_scale_below(bits, bound as int);
            assert(0 <= bits * bound <= 0xffff_ffff_ffff_ffff * 0xffff_ffff_ffff_ffff)
                by (nonlinear_arith)
                requires
                    0 <= bits <= 0xffff_ffff_ffff_ffff,
                    0 <= bound <= 0xffff_ffff_ffff_ffff,
            ;
        }
        let draw: u128 = bits as u128 * bound as u128;
        proof {
            assert(draw >> 64 == draw / 0x1_0000_0000_0000_0000) by (bit_vector);
        }
        (draw >> 64) as usize
    }

    /// Fisher-Yates, in place.
    pub fn shuffle<T>(&mut self, items: &mut [T])
        ensures
            (final(items)@, final(self)@) == shuffled(
                old(items)@,
                old(items)@.len() as int,
                old(self)@,
            ),
            final(items)@.len() == old(items)@.len(),
            final(items)@.to_multiset() == old(items)@.to_multiset(),
    {
        proof {
            lemma_shuffle_permutes(items@, items@.len() as int, self@);
        }
        let ghost before = items@;
        let ghost start = self@;
        let mut left: usize = items.len();
        while left > 1
            invariant
                left <= items@.len(),
                shuffled(items@, left as int, self@) == shuffled(
                    before,
                    before.len() as int,
                    start,
                ),
            decreases left,
        {
            let other: usize = self.below(left);
            swap_items(items, left - 1, other);
            left = left - 1;
        }
    }
}

/// Where a stream at `state` stands after `n` draws.
pub open spec fn state_after(state: u64, n: nat) -> u64
    decreases n,
{
    if n == 0 {
        state
    } else {
        advance(state_after(state, (n - 1) as nat))
    }
}

/// The first `n` draws of a stream at `state`.
pub open spec fn draws(state: u64, n: nat) -> Seq<u64> {
    Seq::new(n, |k: int| mix(state_after(state, (k + 1) as nat)))
}

proof fn lemma_state_after_sum(state: u64, m: nat, n: nat)
    ensures
        state_after(state, m + n) == state_after(state_after(state, m), n),
    decreases n,
{
    if n > 0 {
        lemma_state_after_sum(state, m, (n - 1) as nat);
    }
}

/// A stream can be resumed from its recorded state: the draws of one that ran
/// on are those up to the record, followed by those of a new stream at it.
pub proof fn law_stream_resumes(seed: u64, m: nat, n: nat)
    ensures
        draws(seed, m + n) == draws(seed, m) + draws(state_after(seed, m), n),
{
    assert forall|k: int| 0 <= k < m + n implies draws(seed, m + n)[k] == (draws(seed, m) + draws(
        state_after(seed, m),
        n,
    ))[k] by {
        if k >= m {
            lemma_state_after_sum(seed, m, (k - m + 1) as nat);
        }
    }
    assert(draws(seed, m + n) =~= draws(seed, m) + draws(state_after(seed, m), n));
}

} // verus!
