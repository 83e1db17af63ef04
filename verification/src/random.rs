//! Sources of randomness for the game.
//!
//! The game asks for two things: a number in a small range and a reordering
//! of a list of rooms. `OsRandom` takes them from the `rand` crate; `WasmRandom`
//! takes them from a host function such as the browser's random number source.

use std::ops::Range;
use rand::Rng;
use rand::seq::SliceRandom;
use vstd::prelude::*;

verus! {

broadcast use vstd::seq_lib::group_to_multiset_ensures;

/// What the game needs from a source of random numbers: a number of a
/// half-open range, and a reordering of a list.
///
/// Each source says on which ranges and lengths it can serve, and which
/// numbers and orders it may give; unless it says otherwise, it serves every
/// range that is not empty and every length, may give any number of the
/// range and any reordering.
pub trait Random {
    /// `get_random(start..end)` can be served: it neither fails nor strays
    /// outside `start..end`.
    open spec fn draws_in(&self, start: u8, end: u8) -> bool {
        start < end
    }

    /// `r` is a number that `get_random(start..end)` may give.
    open spec fn may_draw(&self, start: u8, end: u8, r: u8) -> bool {
        start <= r < end
    }

    /// A list of `len` elements can be shuffled.
    open spec fn shuffles(&self, len: nat) -> bool {
        true
    }

    /// `output` is an order that `shuffle` may give to `input`.
    open spec fn may_shuffle(&self, input: Seq<u8>, output: Seq<u8>) -> bool {
        output.to_multiset() == input.to_multiset()
    }

    /// A number from `range.start` up to `range.end`, the end excluded.
    fn get_random(&self, range: Range<u8>) -> (r: u8)
        requires
            self.draws_in(range.start, range.end),
        ensures
            range.start <= r < range.end,
            self.may_draw(range.start, range.end, r),
    ;

    /// The elements of `vector` in some order: every element comes out as
    /// often as it went in.
    fn shuffle(&self, vector: Vec<u8>) -> (r: Vec<u8>)
        requires
            self.shuffles(vector.len() as nat),
        ensures
            r.len() == vector.len(),
            r@.to_multiset() == vector@.to_multiset(),
            forall|i: int| 0 <= i < r.len() ==> vector@.contains(#[trigger] r@[i]),
            self.may_shuffle(vector@, r@),
    ;
}

/// `rand::Rng::gen_range` on the thread-local generator of `rand::thread_rng`.
/// The crate documents that the value lies in the half-open range and that an
/// empty range panics; which value comes is left to chance.
#[verifier::external_body]
fn thread_gen_range(range: Range<u8>) -> (r: u8)
    requires
        range.start < range.end,
    ensures
        range.start <= r < range.end,
{
    let mut rng = rand::thread_rng();
    rng.gen_range(range)
}

/// `rand::seq::SliceRandom::shuffle` on the thread-local generator: it swaps
/// elements in place, so the result holds the same elements as often as the
/// input did. Their order is left to chance.
#[verifier::external_body]
fn thread_shuffle(vector: Vec<u8>) -> (r: Vec<u8>)
    ensures
        r@.to_multiset() == vector@.to_multiset(),
{
    let mut shuffled = vector;
    let mut rng = rand::thread_rng();
    shuffled.shuffle(&mut rng);
    shuffled
}

/// Randomness from the operating system, through the `rand` crate.
#[derive(Clone, Copy)]
pub struct OsRandom;

impl OsRandom {
    pub fn new() -> Self {
        OsRandom
    }
}

impl Random for OsRandom {
    /// `gen_range` serves any range that is not empty.
    open spec fn draws_in(&self, start: u8, end: u8) -> bool {
        start < end
    }

    /// Any number of the half-open range.
    open spec fn may_draw(&self, start: u8, end: u8, r: u8) -> bool {
        start <= r < end
    }

    open spec fn shuffles(&self, len: nat) -> bool {
        true
    }

    /// Any reordering.
    open spec fn may_shuffle(&self, input: Seq<u8>, output: Seq<u8>) -> bool {
        output.to_multiset() == input.to_multiset()
    }

    fn get_random(&self, range: Range<u8>) -> (r: u8) {
        thread_gen_range(range)
    }

    fn shuffle(&self, vector: Vec<u8>) -> (r: Vec<u8>) {
        let ghost before = vector@;
        let shuffled = thread_shuffle(vector);
        assert(shuffled@.to_multiset().len() == shuffled@.len());
        assert(before.to_multiset().len() == before.len());
        assert forall|i: int| 0 <= i < shuffled.len() implies before.contains(#[trigger] shuffled@[i]) by {
            assert(shuffled@.contains(shuffled@[i]));
            assert(shuffled@.to_multiset().count(shuffled@[i]) > 0);
            assert(before.to_multiset().count(shuffled@[i]) > 0);
        }
        shuffled
    }
}

/// The host function `f`, asked for a number below `n`, may be called and
/// answers below `n`.
pub open spec fn draws_below<F: Fn(u8) -> u8>(f: F, n: u8) -> bool {
    &&& call_requires(f, (n,))
    &&& forall|r: u8| #[trigger] call_ensures(f, (n,), r) ==> r < n
}

/// The draw function a `WasmRandom` starts from where the host offers none: always 0.
pub fn empty_random(_n: u8) -> (r: u8)
    ensures
        r == 0,
{
    0
}

/// Randomness from a function of the host, which is asked for a number below
/// a bound.
pub struct WasmRandom<F: Fn(u8) -> u8> {
    random_function: F,
}

impl<F: Fn(u8) -> u8> WasmRandom<F> {
    /// The host function this source draws from.
    pub closed spec fn random_function(self) -> F {
        self.random_function
    }

    pub fn new(rf: F) -> (r: Self)
        ensures
            r.random_function() == rf,
    {
        WasmRandom { random_function: rf }
    }

    pub fn set_random_function(&mut self, rf: F)
        ensures
            final(self).random_function() == rf,
    {
        self.random_function = rf;
    }
}

impl<F: Fn(u8) -> u8> Random for WasmRandom<F> {
    /// The host is asked for a number below `end - start`, and answers below it.
    open spec fn draws_in(&self, start: u8, end: u8) -> bool {
        start < end && draws_below(self.random_function(), (end - start) as u8)
    }

    /// What the host answers, raised by `start`.
    open spec fn may_draw(&self, start: u8, end: u8, r: u8) -> bool {
        start <= r && call_ensures(self.random_function(), ((end - start) as u8,), (r - start) as u8)
    }

    /// The walk from the last position down to the second, with the
    /// host's answers as draws.
    open spec fn may_shuffle(&self, input: Seq<u8>, output: Seq<u8>) -> bool {
        exists|draws: Seq<u8>| {
            &&& draws.len() == input.len() - 1
            &&& forall|k: int| 0 <= k < draws.len() ==> {
                &&& #[trigger] draws[k] < input.len() - k
                &&& call_ensures(self.random_function(), ((input.len() - k) as u8,), draws[k])
            }
            &&& output == wasm_swept(input, draws)
        }
    }

    /// The walk asks the host for numbers below `len`, `len - 1`, ..., 2; the
    /// length must be at least one and fit in a byte.
    open spec fn shuffles(&self, len: nat) -> bool {
        &&& 0 < len < 256
        &&& forall|n: u8| 2 <= n <= len ==> #[trigger] draws_below(self.random_function(), n)
    }

    /// The host's draw below `range.end - range.start`, raised by `range.start`.
    fn get_random(&self, range: Range<u8>) -> (r: u8)
    {
        let r = range.end - range.start;
        assert(draws_below(self.random_function(), r));
        let drawn = (self.random_function)(r);
        drawn + range.start
    }

    /// Walks from the last position down to the second, swapping the
    /// element at each position `i` with the one at a drawn position `r <= i`.
    fn shuffle(&self, vector: Vec<u8>) -> (r: Vec<u8>)
    {
        assert(self.shuffles(vector.len() as nat));
        let mut shuffled_vector = vector.clone();
        assert(shuffled_vector@ =~= vector@);
        let ghost mut draws: Seq<u8> = Seq::empty();
        let mut i: usize = vector.len() - 1;
        while i > 0
            invariant
                forall|n: u8| 2 <= n <= vector.len() ==> #[trigger] draws_below(self.random_function(), n),
                i < vector.len() < 256,
                shuffled_vector.len() == vector.len(),
                shuffled_vector@.to_multiset() == vector@.to_multiset(),
                draws.len() == vector.len() - 1 - i,
                forall|k: int| 0 <= k < draws.len() ==> {
                    &&& #[trigger] draws[k] < vector.len() - k
                    &&& call_ensures(self.random_function, ((vector.len() - k) as u8,), draws[k])
                },
                shuffled_vector@ == wasm_swept(vector@, draws),
            decreases i,
        {
            let ix = i as u8;
            assert(draws_below(self.random_function(), (ix + 1) as u8));
            let r = (self.random_function)(ix + 1);
            let ru = r as usize;
            let ghost before = shuffled_vector@;
            let temp = shuffled_vector[i];
            let drawn = shuffled_vector[ru];
            shuffled_vector.set(i, drawn);
            shuffled_vector.set(ru, temp);
            proof {
                lemma_swap_keeps_elements(before, i as int, ru as int);
                let ghost old_draws = draws;
                draws = draws.push(r);
                assert(draws.drop_last() =~= old_draws);
                assert(shuffled_vector@ =~= before.update(i as int, before[ru as int]).update(ru as int, before[i as int]));
            }
            i = i - 1;
        }
        proof {
            let m = shuffled_vector@.to_multiset();
            assert forall|k: int| 0 <= k < shuffled_vector.len() implies vector@.contains(#[trigger] shuffled_vector@[k]) by {
                assert(shuffled_vector@.contains(shuffled_vector@[k]));
                assert(m.count(shuffled_vector@[k]) > 0);
            }
        }
        shuffled_vector
    }
}

/// Swapping two elements keeps every element as often as before.
proof fn lemma_swap_keeps_elements(s: Seq<u8>, i: int, j: int)
    requires
        0 <= i < s.len(),
        0 <= j < s.len(),
    ensures
        s.update(i, s[j]).update(j, s[i]).to_multiset() == s.to_multiset(),
{
    let s1 = s.update(i, s[j]);
    assert(s1.to_multiset() == s.to_multiset().insert(s[j]).remove(s[i]));
    assert(s1.update(j, s[i]).to_multiset() == s1.to_multiset().insert(s[i]).remove(s1[j]));
    if i == j {
        assert(s1.update(j, s[i]) =~= s);
    } else {
        assert(s1[j] == s[j]);
        assert(s.to_multiset().insert(s[j]).remove(s[i]).insert(s[i]).remove(s[j]) =~= s.to_multiset());
    }
}

/// What the walk of `WasmRandom::shuffle` makes of `input` with the host's
/// draws so far: the `k`-th draw (counted from 1) is the position swapped
/// with position `input.len() - k`.
pub open spec fn wasm_swept(input: Seq<u8>, draws: Seq<u8>) -> Seq<u8>
    decreases draws.len(),
{
    if draws.len() == 0 {
        input
    } else {
        let prev = wasm_swept(input, draws.drop_last());
        let p = input.len() - draws.len();
        let r = draws.last() as int;
        prev.update(p, prev[r]).update(r, prev[p])
    }
}

} // verus!
