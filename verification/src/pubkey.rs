use vstd::prelude::*;

verus! {

/// A 256-bit account address, held as four 64-bit words.
///
/// The staking logic never looks inside an address; it only compares addresses
/// for equality, scoping receipts, farmers and whitelist records to one
/// another. A host that works with 32-byte addresses packs them into the four
/// words in any fixed order it likes.
#[derive(Clone, Copy, Debug, PartialEq, Eq, Hash, Structural)]
pub struct Pubkey {
    pub w0: u64,
    pub w1: u64,
    pub w2: u64,
    pub w3: u64,
}

} // verus!
