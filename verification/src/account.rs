//! Account identifiers of the ledger.

use vstd::prelude::*;

verus! {

/// A 32-byte account identifier: a signer, an origin, or the address that
/// the ledger assigned to a contract.
#[derive(Clone, Copy, Debug, PartialEq, Eq)]
pub struct AccountId32 {
    pub bytes: [u8; 32],
}

impl View for AccountId32 {
    type V = Seq<u8>;

    open spec fn view(&self) -> Seq<u8> {
        self.bytes@
    }
}

impl AccountId32 {
    /// The identifier with the given bytes.
    pub fn new(bytes: [u8; 32]) -> (id: AccountId32)
        ensures
            id.bytes == bytes,
    {
        AccountId32 { bytes }
    }
}

} // verus!
