//! Account addresses, held as plain 256-bit values.
use vstd::prelude::*;

verus! {

/// A 32-byte account address, stored as its big-endian high and low halves.
/// The all-zero address is the "default" key that marks an empty slot.
#[derive(Debug, Clone, Copy, PartialEq, Eq, Structural, Hash)]
pub struct Pubkey {
    pub high: u128,
    pub low: u128,
}

impl Pubkey {
    /// The all-zero address.
    pub open spec fn zero() -> Pubkey {
        Pubkey { high: 0, low: 0 }
    }

    /// Whether this is the all-zero address that marks an empty slot.
    pub open spec fn is_zero(self) -> bool {
        self == Pubkey::zero()
    }

    /// Builds an address from its two halves.
    pub fn new(high: u128, low: u128) -> (k: Pubkey)
        ensures
            k.high == high,
            k.low == low,
    {
        Pubkey { high, low }
    }
}

impl Default for Pubkey {
    fn default() -> (k: Pubkey)
        ensures
            k == Pubkey::zero(),
    {
        Pubkey { high: 0, low: 0 }
    }
}

} // verus!
