//! Why an operation is rejected.

use vstd::prelude::*;

verus! {

/// The reasons for which an operation on the registry is rejected. A rejected
/// operation changes nothing.
#[derive(Clone, Copy, Debug, PartialEq, Eq, Structural)]
pub enum Error {
    /// The fingerprint is already claimed.
    ProofAlreadyClaimed,
    /// The fingerprint is not claimed.
    NoSuchProof,
    /// The fingerprint is claimed by another account.
    NotProofOwner,
}

} // verus!
