//! 256-bit unsigned integers as contract calls return them, and their
//! narrowing to a byte.

use vstd::prelude::*;

verus! {

/// A 256-bit unsigned integer, held as four 64-bit limbs, least significant
/// first.
#[derive(Clone, Copy, Debug, PartialEq, Eq)]
pub struct U256(pub [u64; 4]);

impl View for U256 {
    type V = nat;

    /// The number that the limbs stand for.
    open spec fn view(&self) -> nat {
        (self.0[0] as nat) + (self.0[1] as nat) * 0x1_0000_0000_0000_0000 + (self.0[2] as nat)
            * 0x1_0000_0000_0000_0000_0000_0000_0000_0000 + (self.0[3] as nat)
            * 0x1_0000_0000_0000_0000_0000_0000_0000_0000_0000_0000_0000_0000
    }
}

impl U256 {
    /// The integer whose value is `low`.
    pub fn from_u64(low: u64) -> (word: U256)
        ensures
            word@ == low,
            word.0@ == seq![low, 0u64, 0u64, 0u64],
    {
        U256([low, 0, 0, 0])
    }
}

/// What narrowing the limbs to a byte gives: the lowest limb where it is at
/// most 255 and the other limbs are zero, nothing otherwise.
pub open spec fn narrowed(limbs: Seq<u64>) -> Option<u8> {
    if limbs[0] <= 255 && limbs[1] == 0 && limbs[2] == 0 && limbs[3] == 0 {
        Some(limbs[0] as u8)
    } else {
        None
    }
}

/// `u8::try_from` on an `ethers_core::types::U256` built from `limbs`, with
/// the error dropped. Trusted: the conversion succeeds exactly when every
/// limb but the lowest is zero and the lowest is at most `u8::MAX`, and then
/// gives the lowest limb.
#[verifier::external_body]
fn narrow(limbs: [u64; 4]) -> (byte: Option<u8>)
    ensures
        byte == narrowed(limbs@),
{
    u8::try_from(ethers_core::types::U256(limbs)).ok()
}

/// Narrows an optional 256-bit value to a byte. A value above 255 gives
/// `None`, as an absent value does.
pub fn convert_u256_to_u8(value: Option<U256>) -> (byte: Option<u8>)
    ensures
        byte == match value {
            Some(word) => if word@ <= 255 {
                Some(word@ as u8)
            } else {
                None
            },
            None => None,
        },
{
    match value {
        Some(word) => narrow(word.0),
        None => None,
    }
}

} // verus!
