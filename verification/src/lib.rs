//! The Xoodoo-_p_ permutation on a 384-bit state, with a proof that the
//! executable code computes the permutation's mathematical definition.
//!
//! - [`bits`]: rotation of a 32-bit lane.
//! - [`round`]: one round, as a definition on sequences of lanes and as code.
//! - [`permutation`]: the round constants and [`xoodoo`], the permutation
//!   itself.
//! - [`laws`]: what holds for every state and round count.
//! - [`injective`]: the proof that the permutation is one-to-one.

pub mod bits;
pub mod round;
pub mod permutation;
pub mod laws;
pub mod injective;

pub use permutation::{xoodoo, MAX_ROUNDS, ROUND_KEYS};
