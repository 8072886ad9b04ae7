//! The core's view of the external randomness oracle.
//!
//! The oracle itself is an external collaborator: the host requests a random
//! value under a round's seed and later observes either "still pending" or
//! the fulfilled bytes. The core only consumes that observation, modeled
//! here as plain values.

use vstd::prelude::*;

verus! {

/// One observation of the randomness oracle for a round's seed: `None`
/// while the request is still being fulfilled, `Some(bytes)` once it is.
#[derive(Clone, Debug)]
pub struct RandomnessState {
    /// The fulfilled random bytes, absent while the oracle is still working.
    pub fulfilled_randomness: Option<Vec<u8>>,
}

impl RandomnessState {
    /// Fulfilled randomness always carries at least the eight bytes the
    /// core reads.
    pub open spec fn well_formed(self) -> bool {
        self.fulfilled_randomness matches Some(bytes) ==> bytes@.len() >= 8
    }
}

/// The unsigned 64-bit value encoded little-endian in the first eight bytes
/// of `s`.
pub open spec fn u64_le_bytes(s: Seq<u8>) -> int {
    (s[0] as int) + (s[1] as int) * 0x100 + (s[2] as int) * 0x1_0000 + (s[3] as int) * 0x100_0000
        + (s[4] as int) * 0x1_0000_0000 + (s[5] as int) * 0x100_0000_0000 + (s[6] as int)
        * 0x1_0000_0000_0000 + (s[7] as int) * 0x100_0000_0000_0000
}

/// Reads the oracle's current value: the little-endian 64-bit integer in
/// the first eight fulfilled bytes, or zero while the oracle is still
/// working.
pub fn current_state(randomness: &RandomnessState) -> (r: u64)
    requires
        randomness.well_formed(),
    ensures
        r as int == match randomness.fulfilled_randomness {
            Some(bytes) => u64_le_bytes(bytes@),
            None => 0,
        },
{
    match &randomness.fulfilled_randomness {
        Some(bytes) => {
            let b0 = bytes[0] as u64;
            let b1 = bytes[1] as u64;
            let b2 = bytes[2] as u64;
            let b3 = bytes[3] as u64;
            let b4 = bytes[4] as u64;
            let b5 = bytes[5] as u64;
            let b6 = bytes[6] as u64;
            let b7 = bytes[7] as u64;
            b0 + b1 * 0x100 + b2 * 0x1_0000 + b3 * 0x100_0000 + b4 * 0x1_0000_0000 + b5
                * 0x100_0000_0000 + b6 * 0x1_0000_0000_0000 + b7 * 0x100_0000_0000_0000
        },
        None => 0,
    }
}

} // verus!
