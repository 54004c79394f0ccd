//! The permutation: a run of rounds over the tail of the round-constant
//! schedule.

use vstd::prelude::*;
use crate::round::{round, round_of};

verus! {

/// The maximum number of rounds possible for Xoodoo.
pub const MAX_ROUNDS: usize = 12;

/// The round constants, in the order in which the full permutation uses them.
pub const ROUND_KEYS: [u32; 12] = [
    0x00000058, 0x00000038, 0x000003C0, 0x000000D0, 0x00000120, 0x00000014, 0x00000060, 0x0000002C,
    0x00000380, 0x000000F0, 0x000001A0, 0x00000012,
];

/// The round constant at index `i` of the schedule.
pub open spec fn round_key(i: int) -> u32
    recommends
        0 <= i < 12,
{
    ROUND_KEYS@[i]
}

/// The state after the rounds with the constants at indices `lo` up to, and
/// not including, `hi` of the schedule, applied to `s` in that order.
pub open spec fn rounds_between(s: Seq<u32>, lo: int, hi: int) -> Seq<u32>
    recommends
        s.len() == 12,
        0 <= lo <= hi <= 12,
    decreases hi - lo,
{
    if lo >= hi {
        s
    } else {
        round_of(rounds_between(s, lo, hi - 1), round_key(hi - 1))
    }
}

/// The Xoodoo permutation with `r` rounds: the last `r` rounds of the
/// schedule.
pub open spec fn permutation(s: Seq<u32>, r: int) -> Seq<u32>
    recommends
        s.len() == 12,
        0 <= r <= 12,
{
    rounds_between(s, 12 - r, 12)
}

/// Run the Xoodoo permutation with `R` rounds on the given state.
///
/// `R` is at most [`MAX_ROUNDS`]. The rounds run with the last `R` constants
/// of the schedule, in the schedule's order, so that a run with fewer rounds
/// is the end of a run with more; with `R = 0` the state is left as it is.
/// The state is read and written in place, and nothing else is: how long the
/// call takes depends on `R` alone.
pub fn xoodoo<const R: usize>(st: &mut [u32; 12])
    requires
        R <= MAX_ROUNDS,
    ensures
        final(st)@ == permutation(old(st)@, R as int),
        R == 0 ==> final(st)@ == old(st)@,
{
    let mut i: usize = MAX_ROUNDS - R;
    while i < MAX_ROUNDS
        invariant
            R <= MAX_ROUNDS,
            MAX_ROUNDS - R <= i <= MAX_ROUNDS,
            st@ == rounds_between(old(st)@, MAX_ROUNDS - R, i as int),
        decreases MAX_ROUNDS - i,
    {
        round(st, ROUND_KEYS[i]);
        i += 1;
    }
}

} // verus!
