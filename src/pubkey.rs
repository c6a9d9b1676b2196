use vstd::prelude::*;

verus! {

/// A 32-byte account or program address, held as four little-endian 64-bit words.
#[derive(Clone, Copy, Debug, PartialEq, Eq, Structural)]
pub struct Pubkey {
    pub w0: u64,
    pub w1: u64,
    pub w2: u64,
    pub w3: u64,
}

impl Pubkey {
    /// Builds an address from its four words, lowest first.
    pub fn new(w0: u64, w1: u64, w2: u64, w3: u64) -> (r: Pubkey)
        ensures
            r.w0 == w0 && r.w1 == w1 && r.w2 == w2 && r.w3 == w3,
    {
        Pubkey { w0, w1, w2, w3 }
    }
}

} // verus!
