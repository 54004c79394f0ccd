//! One round of Xoodoo: its definition lane by lane, and the code that
//! computes it.
//!
//! The state is twelve 32-bit lanes in three planes of four: plane A is lanes
//! 0 to 3, plane B lanes 4 to 7, plane C lanes 8 to 11. A state is modelled as
//! a `Seq<u32>` of length 12.

use vstd::prelude::*;
use crate::bits::{rotl, rotate_left};

verus! {

/// Parity of column `i`: the XOR of the three lanes that stand at position
/// `i` of their planes.
pub open spec fn parity(s: Seq<u32>, i: int) -> u32
    recommends
        s.len() == 12,
        0 <= i < 4,
{
    s[i] ^ s[4 + i] ^ s[8 + i]
}

/// A parity lane folded by two rotations.
pub open spec fn fold(p: u32) -> u32 {
    rotl(p, 5) ^ rotl(p, 14)
}

/// What the mixing layer adds to column `i`: the folded parity of the column
/// one position to the left.
pub open spec fn expansion(s: Seq<u32>, i: int) -> u32
    recommends
        s.len() == 12,
        0 <= i < 4,
{
    fold(parity(s, (i + 3) % 4))
}

/// Lane `j` after the linear half of a round: the mixing layer, the shift of
/// plane B by one lane, the rotation of plane C by 11 bits, and the round
/// constant `rc` added to lane 0 alone.
pub open spec fn mixed_lane(s: Seq<u32>, rc: u32, j: int) -> u32
    recommends
        s.len() == 12,
        0 <= j < 12,
{
    if j == 0 {
        expansion(s, 0) ^ s[0] ^ rc
    } else if j < 4 {
        expansion(s, j) ^ s[j]
    } else if j < 8 {
        let k = (j - 4 + 3) % 4;
        expansion(s, k) ^ s[4 + k]
    } else {
        rotl(expansion(s, j - 8) ^ s[j], 11)
    }
}

/// The linear half of a round applied to the whole state.
pub open spec fn mixed(s: Seq<u32>, rc: u32) -> Seq<u32>
    recommends
        s.len() == 12,
{
    Seq::new(12, |j: int| mixed_lane(s, rc, j))
}

/// The nonlinear step on one lane: `z` with those bits flipped that are set
/// in `y` and clear in `x`.
pub open spec fn chi(x: u32, y: u32, z: u32) -> u32 {
    (!x & y) ^ z
}

/// Lane `j` after the nonlinear half of a round, applied to the lanes `t`
/// that the linear half produced. Each lane is `chi` over the three lanes of
/// one column; plane B is then rotated by 1 bit, and plane C by 8 bits and by
/// two lane positions.
pub open spec fn combined_lane(t: Seq<u32>, j: int) -> u32
    recommends
        t.len() == 12,
        0 <= j < 12,
{
    if j < 4 {
        chi(t[4 + j], t[8 + j], t[j])
    } else if j < 8 {
        let i = j - 4;
        rotl(chi(t[8 + i], t[i], t[4 + i]), 1)
    } else {
        let i = (j - 8 + 2) % 4;
        rotl(chi(t[i], t[4 + i], t[8 + i]), 8)
    }
}

/// The nonlinear half of a round applied to the whole state.
pub open spec fn combined(t: Seq<u32>) -> Seq<u32>
    recommends
        t.len() == 12,
{
    Seq::new(12, |j: int| combined_lane(t, j))
}

/// The state that one round with round constant `rc` makes of the state `s`.
pub open spec fn round_of(s: Seq<u32>, rc: u32) -> Seq<u32>
    recommends
        s.len() == 12,
{
    combined(mixed(s, rc))
}

/// Applies one round with round constant `rc` to the state, in place.
///
/// The lanes are computed without any branch or index that depends on their
/// values.
#[inline]
pub fn round(st: &mut [u32; 12], rc: u32)
    ensures
        final(st)@ == round_of(old(st)@, rc),
{
    let st00: u32 = st[0];
    let st01: u32 = st[1];
    let st02: u32 = st[2];
    let st03: u32 = st[3];
    let st04: u32 = st[4];
    let st05: u32 = st[5];
    let st06: u32 = st[6];
    let st07: u32 = st[7];
    let st08: u32 = st[8];
    let st09: u32 = st[9];
    let st10: u32 = st[10];
    let st11: u32 = st[11];

    let p0: u32 = st00 ^ st04 ^ st08;
    let p1: u32 = st01 ^ st05 ^ st09;
    let p2: u32 = st02 ^ st06 ^ st10;
    let p3: u32 = st03 ^ st07 ^ st11;

    let e0: u32 = rotate_left(p3, 5) ^ rotate_left(p3, 14);
    let e1: u32 = rotate_left(p0, 5) ^ rotate_left(p0, 14);
    let e2: u32 = rotate_left(p1, 5) ^ rotate_left(p1, 14);
    let e3: u32 = rotate_left(p2, 5) ^ rotate_left(p2, 14);

    let t0: u32 = e0 ^ st00 ^ rc;
    let t1: u32 = e1 ^ st01;
    let t2: u32 = e2 ^ st02;
    let t3: u32 = e3 ^ st03;
    let t4: u32 = e3 ^ st07;
    let t5: u32 = e0 ^ st04;
    let t6: u32 = e1 ^ st05;
    let t7: u32 = e2 ^ st06;
    let t8: u32 = rotate_left(e0 ^ st08, 11);
    let t9: u32 = rotate_left(e1 ^ st09, 11);
    let t10: u32 = rotate_left(e2 ^ st10, 11);
    let t11: u32 = rotate_left(e3 ^ st11, 11);

    proof {
        let s = old(st)@;
        let t = mixed(s, rc);
        assert(t0 == t[0] && t1 == t[1] && t2 == t[2] && t3 == t[3]);
        assert(t4 == t[4] && t5 == t[5] && t6 == t[6] && t7 == t[7]);
        assert(t8 == t[8] && t9 == t[9] && t10 == t[10] && t11 == t[11]);
    }

    st[0] = (!t4 & t8) ^ t0;
    st[1] = (!t5 & t9) ^ t1;
    st[2] = (!t6 & t10) ^ t2;
    st[3] = (!t7 & t11) ^ t3;

    st[4] = rotate_left((!t8 & t0) ^ t4, 1);
    st[5] = rotate_left((!t9 & t1) ^ t5, 1);
    st[6] = rotate_left((!t10 & t2) ^ t6, 1);
    st[7] = rotate_left((!t11 & t3) ^ t7, 1);

    st[8] = rotate_left((!t2 & t6) ^ t10, 8);
    st[9] = rotate_left((!t3 & t7) ^ t11, 8);
    st[10] = rotate_left((!t0 & t4) ^ t8, 8);
    st[11] = rotate_left((!t1 & t5) ^ t9, 8);

    assert(st@ =~= round_of(old(st)@, rc));
}

} // verus!
