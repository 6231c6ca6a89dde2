//! The ways in which an operation of the registry is rejected.

use vstd::prelude::*;

verus! {

/// Why an operation was rejected. A rejected operation changes nothing.
#[derive(Clone, Copy, PartialEq, Eq, Debug, Structural)]
pub enum ContractError {
    /// The claim text is shorter than 10 or longer than 1000 bytes.
    InvalidProofText,
    /// The claim identifier is shorter than 5 or longer than 100 bytes.
    InvalidProofId,
    /// The caller has already submitted a claim under this identifier.
    DuplicateProofId,
    /// No claim is stored under the owner and identifier given.
    NotFound,
    /// The caller is not the party that may perform the operation.
    Unauthorized,
}

} // verus!
