//! The keys under which the registry stores its data.

use vstd::prelude::*;

use crate::address::Address;
use crate::bytes::{copy_bytes, same_bytes};
use crate::table::TableKey;

verus! {

/// The key of a certificate: the account that owns it and the identifier
/// that the account gave it.
pub struct ProofKey {
    pub owner: Address,
    pub proof_id: Vec<u8>,
}

impl ProofKey {
    /// The key made of the owner and a copy of the identifier.
    pub fn new(owner: &Address, proof_id: &Vec<u8>) -> (key: ProofKey)
        ensures
            key@ == (*owner, proof_id@),
    {
        ProofKey { owner: *owner, proof_id: copy_bytes(proof_id) }
    }
}

impl View for ProofKey {
    type V = (Address, Seq<u8>);

    open spec fn view(&self) -> (Address, Seq<u8>) {
        (self.owner, self.proof_id@)
    }
}

impl TableKey for ProofKey {
    fn matches(&self, other: &ProofKey) -> (same: bool) {
        self.owner == other.owner && same_bytes(&self.proof_id, &other.proof_id)
    }
}

impl View for Address {
    type V = Address;

    open spec fn view(&self) -> Address {
        *self
    }
}

impl TableKey for Address {
    fn matches(&self, other: &Address) -> (same: bool) {
        *self == *other
    }
}

impl TableKey for Vec<u8> {
    fn matches(&self, other: &Vec<u8>) -> (same: bool) {
        same_bytes(self, other)
    }
}

} // verus!
