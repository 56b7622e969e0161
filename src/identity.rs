use vstd::prelude::*;

verus! {

/// A principal on the ledger: a 32-byte public key held as two 128-bit
/// halves (big-endian, `high` first).
#[derive(Clone, Copy, Debug, PartialEq, Eq, Structural)]
pub struct Identity {
    pub high: u128,
    pub low: u128,
}

impl Identity {
    pub fn new(high: u128, low: u128) -> (r: Identity)
        ensures
            r.high == high,
            r.low == low,
    {
        Identity { high, low }
    }
}

} // verus!
