//! Cyclic rotation of 32-bit lanes.

use vstd::prelude::*;

verus! {

/// The word `x` rotated cyclically to the left by `n` bit positions. Only
/// `n mod 32` matters, and a rotation by a multiple of 32 is the word itself.
pub open spec fn rotl(x: u32, n: u32) -> u32 {
    let k = n % 32;
    (x << k) | (x >> ((32 - k) as u32 % 32))
}

/// Whether bit `i` of `x` is set.
pub open spec fn bit(x: u32, i: u32) -> bool
    recommends
        i < 32,
{
    (x >> i) & 1 == 1
}

/// Rotating left by `n` moves bit `i` to position `(i + n) mod 32`: every bit
/// of the word is kept, and none is invented.
pub proof fn lemma_rotl_moves_bits(x: u32, n: u32, i: u32)
    by (bit_vector)
    requires
        i < 32,
    ensures
        bit(rotl(x, n), (i + n % 32) as u32 % 32) == bit(x, i),
{
}

/// Two words whose rotations by the same amount agree are the same word.
pub proof fn lemma_rotl_injective(x: u32, y: u32, n: u32)
    by (bit_vector)
    requires
        rotl(x, n) == rotl(y, n),
    ensures
        x == y,
{
}

/// Rotates `x` cyclically to the left by `n` bit positions.
#[inline]
pub fn rotate_left(x: u32, n: u32) -> (r: u32)
    ensures
        r == rotl(x, n),
{
    let k: u32 = n % 32;
    (x << k) | (x >> ((32 - k) % 32))
}

} // verus!
