//! The permutation deserves its name: no two states of twelve lanes are taken
//! to the same state.

use vstd::prelude::*;
use crate::bits::lemma_rotl_injective;
use crate::laws::lemma_rounds_len;
use crate::permutation::{permutation, round_key, rounds_between};
use crate::round::{chi, combined, fold, mixed, parity, round_of};

verus! {

/// Whether two states hold the same three lanes in column `i`.
pub open spec fn same_column(s1: Seq<u32>, s2: Seq<u32>, i: int) -> bool
    recommends
        s1.len() == 12,
        s2.len() == 12,
        0 <= i < 4,
{
    &&& s1[i] == s2[i]
    &&& s1[4 + i] == s2[4 + i]
    &&& s1[8 + i] == s2[8 + i]
}

/// Two states of twelve lanes that hold the same four columns are the same
/// state.
pub proof fn lemma_same_columns(s1: Seq<u32>, s2: Seq<u32>)
    requires
        s1.len() == 12,
        s2.len() == 12,
        forall|i: int| 0 <= i < 4 ==> same_column(s1, s2, i),
    ensures
        s1 == s2,
{
    assert forall|j: int| 0 <= j < 12 implies s1[j] == s2[j] by {
        let i = j % 4;
        assert(same_column(s1, s2, i));
        assert(j == i || j == 4 + i || j == 8 + i);
    }
    assert(s1 =~= s2);
}

/// The nonlinear step on a column of three lanes loses nothing: columns with
/// the same image are the same column.
pub proof fn lemma_chi_injective(a: u32, b: u32, c: u32, a2: u32, b2: u32, c2: u32)
    by (bit_vector)
    requires
        chi(b, c, a) == chi(b2, c2, a2),
        chi(c, a, b) == chi(c2, a2, b2),
        chi(a, b, c) == chi(a2, b2, c2),
    ensures
        a == a2,
        b == b2,
        c == c2,
{
}

/// Adding to each parity lane the fold of its left neighbour loses nothing:
/// parity planes with the same image are the same plane.
pub proof fn lemma_fold_injective(
    p0: u32,
    p1: u32,
    p2: u32,
    p3: u32,
    q0: u32,
    q1: u32,
    q2: u32,
    q3: u32,
)
    by (bit_vector)
    requires
        p0 ^ fold(p3) == q0 ^ fold(q3),
        p1 ^ fold(p0) == q1 ^ fold(q0),
        p2 ^ fold(p1) == q2 ^ fold(q1),
        p3 ^ fold(p2) == q3 ^ fold(q2),
    ensures
        p0 == q0,
        p1 == q1,
        p2 == q2,
        p3 == q3,
{
}

/// Where the three lanes of two columns agree after the same word was added
/// to each, the columns' parities agree after that word was added.
proof fn lemma_column_parity(e: u32, a: u32, b: u32, c: u32, e2: u32, a2: u32, b2: u32, c2: u32)
    by (bit_vector)
    requires
        e ^ a == e2 ^ a2,
        e ^ b == e2 ^ b2,
        e ^ c == e2 ^ c2,
    ensures
        (a ^ b ^ c) ^ e == (a2 ^ b2 ^ c2) ^ e2,
{
}

/// A word added to both of two lanes can be taken away again.
proof fn lemma_xor_cancel(e: u32, a: u32, a2: u32)
    by (bit_vector)
    requires
        e ^ a == e ^ a2,
    ensures
        a == a2,
{
}

/// A round constant added to both of two lanes can be taken away again.
proof fn lemma_xor_cancel_right(x: u32, y: u32, rc: u32)
    by (bit_vector)
    requires
        x ^ rc == y ^ rc,
    ensures
        x == y,
{
}

/// The nonlinear half of a round is one-to-one on states of twelve lanes.
pub proof fn lemma_combined_injective(t1: Seq<u32>, t2: Seq<u32>)
    requires
        t1.len() == 12,
        t2.len() == 12,
        combined(t1) == combined(t2),
    ensures
        t1 == t2,
{
    let o1 = combined(t1);
    let o2 = combined(t2);
    assert forall|i: int| 0 <= i < 4 implies same_column(t1, t2, i) by {
        let m = (i + 2) % 4;
        assert(o1[i] == o2[i]);
        assert(o1[4 + i] == o2[4 + i]);
        assert(o1[8 + m] == o2[8 + m]);
        assert((m + 2) % 4 == i);
        lemma_rotl_injective(
            chi(t1[8 + i], t1[i], t1[4 + i]),
            chi(t2[8 + i], t2[i], t2[4 + i]),
            1,
        );
        lemma_rotl_injective(
            chi(t1[i], t1[4 + i], t1[8 + i]),
            chi(t2[i], t2[4 + i], t2[8 + i]),
            8,
        );
        lemma_chi_injective(t1[i], t1[4 + i], t1[8 + i], t2[i], t2[4 + i], t2[8 + i]);
    }
    lemma_same_columns(t1, t2);
}

/// What the linear half of a round says of column `i` of two states that it
/// takes to the same state: with the fold of the left neighbour's parity
/// added, the column's lanes agree, and so does its parity.
proof fn lemma_mixed_column(s1: Seq<u32>, s2: Seq<u32>, rc: u32, i: int)
    requires
        s1.len() == 12,
        s2.len() == 12,
        mixed(s1, rc) == mixed(s2, rc),
        0 <= i < 4,
    ensures
        ({
            let e1 = fold(parity(s1, (i + 3) % 4));
            let e2 = fold(parity(s2, (i + 3) % 4));
            &&& e1 ^ s1[i] == e2 ^ s2[i]
            &&& e1 ^ s1[4 + i] == e2 ^ s2[4 + i]
            &&& e1 ^ s1[8 + i] == e2 ^ s2[8 + i]
            &&& parity(s1, i) ^ e1 == parity(s2, i) ^ e2
        }),
{
    let t1 = mixed(s1, rc);
    let t2 = mixed(s2, rc);
    let e1 = fold(parity(s1, (i + 3) % 4));
    let e2 = fold(parity(s2, (i + 3) % 4));
    let m = (i + 1) % 4;
    assert(t1[i] == t2[i]);
    assert(t1[4 + m] == t2[4 + m]);
    assert(t1[8 + i] == t2[8 + i]);
    assert((m + 3) % 4 == i);
    if i == 0 {
        lemma_xor_cancel_right(e1 ^ s1[0], e2 ^ s2[0], rc);
    }
    lemma_rotl_injective(e1 ^ s1[8 + i], e2 ^ s2[8 + i], 11);
    lemma_column_parity(e1, s1[i], s1[4 + i], s1[8 + i], e2, s2[i], s2[4 + i], s2[8 + i]);
}

/// The linear half of a round is one-to-one on states of twelve lanes.
pub proof fn lemma_mixed_injective(s1: Seq<u32>, s2: Seq<u32>, rc: u32)
    requires
        s1.len() == 12,
        s2.len() == 12,
        mixed(s1, rc) == mixed(s2, rc),
    ensures
        s1 == s2,
{
    lemma_mixed_column(s1, s2, rc, 0);
    lemma_mixed_column(s1, s2, rc, 1);
    lemma_mixed_column(s1, s2, rc, 2);
    lemma_mixed_column(s1, s2, rc, 3);
    lemma_fold_injective(
        parity(s1, 0),
        parity(s1, 1),
        parity(s1, 2),
        parity(s1, 3),
        parity(s2, 0),
        parity(s2, 1),
        parity(s2, 2),
        parity(s2, 3),
    );
    assert forall|i: int| 0 <= i < 4 implies same_column(s1, s2, i) by {
        let e = fold(parity(s1, (i + 3) % 4));
        lemma_mixed_column(s1, s2, rc, i);
        lemma_xor_cancel(e, s1[i], s2[i]);
        lemma_xor_cancel(e, s1[4 + i], s2[4 + i]);
        lemma_xor_cancel(e, s1[8 + i], s2[8 + i]);
    }
    lemma_same_columns(s1, s2);
}

/// A round is one-to-one: two states of twelve lanes that a round with the
/// same constant takes to the same state are the same state.
pub proof fn lemma_round_injective(s1: Seq<u32>, s2: Seq<u32>, rc: u32)
    requires
        s1.len() == 12,
        s2.len() == 12,
        round_of(s1, rc) == round_of(s2, rc),
    ensures
        s1 == s2,
{
    lemma_combined_injective(mixed(s1, rc), mixed(s2, rc));
    lemma_mixed_injective(s1, s2, rc);
}

/// A run of rounds over the schedule is one-to-one.
pub proof fn lemma_rounds_injective(s1: Seq<u32>, s2: Seq<u32>, lo: int, hi: int)
    requires
        s1.len() == 12,
        s2.len() == 12,
        rounds_between(s1, lo, hi) == rounds_between(s2, lo, hi),
    ensures
        s1 == s2,
    decreases hi - lo,
{
    if lo < hi {
        lemma_rounds_len(s1, lo, hi - 1);
        lemma_rounds_len(s2, lo, hi - 1);
        lemma_round_injective(
            rounds_between(s1, lo, hi - 1),
            rounds_between(s2, lo, hi - 1),
            round_key(hi - 1),
        );
        lemma_rounds_injective(s1, s2, lo, hi - 1);
    }
}

/// The permutation is one-to-one, with any number of rounds: two states of
/// twelve lanes that it takes to the same state are the same state.
pub proof fn lemma_permutation_injective(s1: Seq<u32>, s2: Seq<u32>, r: int)
    requires
        s1.len() == 12,
        s2.len() == 12,
        permutation(s1, r) == permutation(s2, r),
    ensures
        s1 == s2,
{
    lemma_rounds_injective(s1, s2, 12 - r, 12);
}

} // verus!
