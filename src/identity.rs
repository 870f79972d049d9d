use vstd::prelude::*;

verus! {

/// The 256-bit address of a party or an asset, as verified by the host,
/// held as its upper and lower 128 bits (big-endian halves of the 32 bytes).
#[derive(Debug, Clone, Copy, PartialEq, Eq, Structural)]
pub struct AccountId {
    pub high: u128,
    pub low: u128,
}

} // verus!
