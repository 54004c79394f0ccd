//! What holds of the permutation for every state and every number of rounds.

use vstd::prelude::*;
use crate::permutation::{permutation, round_key, rounds_between};
use crate::round::{chi, expansion, mixed, round_of};

verus! {

/// A round makes a state of twelve lanes, whatever it is given.
pub proof fn lemma_round_len(s: Seq<u32>, rc: u32)
    ensures
        round_of(s, rc).len() == 12,
{
}

/// A run of rounds keeps a state of twelve lanes at twelve lanes.
pub proof fn lemma_rounds_len(s: Seq<u32>, lo: int, hi: int)
    requires
        s.len() == 12,
    ensures
        rounds_between(s, lo, hi).len() == 12,
    decreases hi - lo,
{
    if lo < hi {
        lemma_rounds_len(s, lo, hi - 1);
    }
}

/// The permutation with zero rounds leaves every state as it is.
pub proof fn lemma_zero_rounds_identity(s: Seq<u32>)
    ensures
        permutation(s, 0) == s,
{
}

/// A round reads nothing but the twelve lanes and the round constant: two
/// states that agree lane by lane are taken to the same state.
pub proof fn lemma_round_deterministic(s1: Seq<u32>, s2: Seq<u32>, rc: u32)
    requires
        forall|j: int| 0 <= j < 12 ==> s1[j] == s2[j],
    ensures
        round_of(s1, rc) == round_of(s2, rc),
{
    assert(round_of(s1, rc) =~= round_of(s2, rc));
}

/// The permutation is a function of the twelve lanes and the number of
/// rounds alone: two states of twelve lanes that agree lane by lane are taken
/// to the same state by the same number of rounds.
pub proof fn lemma_permutation_deterministic(s1: Seq<u32>, s2: Seq<u32>, r: int)
    requires
        s1.len() == 12,
        s2.len() == 12,
        forall|j: int| 0 <= j < 12 ==> s1[j] == s2[j],
    ensures
        permutation(s1, r) == permutation(s2, r),
{
    assert(s1 =~= s2);
}

/// A run of rounds over the schedule from `lo` to `hi` is the run from `lo`
/// to `mid` followed by the run from `mid` to `hi`.
pub proof fn lemma_rounds_split(s: Seq<u32>, lo: int, mid: int, hi: int)
    requires
        lo <= mid <= hi,
    ensures
        rounds_between(s, lo, hi) == rounds_between(rounds_between(s, lo, mid), mid, hi),
    decreases hi - mid,
{
    if mid < hi {
        lemma_rounds_split(s, lo, mid, hi - 1);
    }
}

/// The permutation with `r` rounds begins with the round constant at index
/// `12 - r` of the schedule, and goes on as the permutation with `r - 1`
/// rounds: it uses the last `r` constants, not the first.
pub proof fn lemma_first_round(s: Seq<u32>, r: int)
    requires
        0 < r <= 12,
    ensures
        permutation(s, r) == permutation(round_of(s, round_key(12 - r)), r - 1),
{
    lemma_rounds_split(s, 12 - r, 12 - r + 1, 12);
    assert(rounds_between(s, 12 - r, 12 - r + 1) == round_of(
        rounds_between(s, 12 - r, 12 - r),
        round_key(12 - r),
    ));
}

/// A lane that takes in different round constants comes out different.
proof fn lemma_constant_shows(x: u32, y: u32, a: u32, rc1: u32, rc2: u32)
    by (bit_vector)
    requires
        rc1 != rc2,
    ensures
        chi(x, y, a ^ rc1) != chi(x, y, a ^ rc2),
{
}

/// The round constant matters on every state: rounds with different
/// constants take a state to different states, which differ in lane 0.
pub proof fn lemma_round_constant_matters(s: Seq<u32>, rc1: u32, rc2: u32)
    requires
        rc1 != rc2,
    ensures
        round_of(s, rc1)[0] != round_of(s, rc2)[0],
        round_of(s, rc1) != round_of(s, rc2),
{
    let t1 = mixed(s, rc1);
    let t2 = mixed(s, rc2);
    let a = expansion(s, 0) ^ s[0];
    assert(t1[0] == a ^ rc1 && t2[0] == a ^ rc2);
    assert(t1[4] == t2[4] && t1[8] == t2[8]);
    lemma_constant_shows(t1[4], t1[8], a, rc1, rc2);
}

/// No constant stands twice in the schedule.
pub proof fn lemma_round_keys_distinct(i: int, j: int)
    requires
        0 <= i < j < 12,
    ensures
        round_key(i) != round_key(j),
{
}

/// The permutation with one round is the round with the last constant of the
/// schedule, and on no state does the round with another of its constants
/// give the same.
pub proof fn lemma_one_round_is_the_last(s: Seq<u32>, i: int)
    requires
        0 <= i < 11,
    ensures
        permutation(s, 1) == round_of(s, round_key(11)),
        permutation(s, 1) != round_of(s, round_key(i)),
{
    lemma_first_round(s, 1);
    lemma_round_keys_distinct(i, 11);
    lemma_round_constant_matters(s, round_key(i), round_key(11));
}

/// The schedules of any two round counts are aligned at their end: the
/// permutation with `r2` rounds is the first `r2 - r1` of its rounds followed
/// by the permutation with `r1` rounds.
pub proof fn lemma_schedule_alignment(s: Seq<u32>, r1: int, r2: int)
    requires
        0 <= r1 <= r2 <= 12,
    ensures
        permutation(s, r2) == permutation(rounds_between(s, 12 - r2, 12 - r1), r1),
{
    lemma_rounds_split(s, 12 - r2, 12 - r1, 12);
}

} // verus!
