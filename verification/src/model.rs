//! The registry and its event log as mathematical values, and the two
//! operations as functions on them. The contracts of the running code are
//! stated over these functions.

use vstd::prelude::*;
use crate::error::Error;
use crate::registry::ClaimRecordView;
use crate::types::Height;

verus! {

/// An event as contracts speak of it.
pub ghost enum EventView {
    /// `who` claimed `claim`.
    ClaimCreated { who: Seq<u8>, claim: Seq<u8> },
    /// `who` revoked its claim on `claim`.
    ClaimRevoked { who: Seq<u8>, claim: Seq<u8> },
}

/// A request to the registry, with the signer that the caller authenticated
/// and, for a new claim, the height that the caller's clock gave.
pub ghost enum Operation {
    CreateClaim { signer: Seq<u8>, fingerprint: Seq<u8>, height: Height },
    RevokeClaim { signer: Seq<u8>, fingerprint: Seq<u8> },
}

impl Operation {
    /// The fingerprint that the request is about.
    pub open spec fn subject(self) -> Seq<u8> {
        match self {
            Operation::CreateClaim { fingerprint, .. } => fingerprint,
            Operation::RevokeClaim { fingerprint, .. } => fingerprint,
        }
    }

    /// The event that the request leaves in the log where it is applied.
    pub open spec fn event(self) -> EventView {
        match self {
            Operation::CreateClaim { signer, fingerprint, .. } => EventView::ClaimCreated {
                who: signer,
                claim: fingerprint,
            },
            Operation::RevokeClaim { signer, fingerprint } => EventView::ClaimRevoked {
                who: signer,
                claim: fingerprint,
            },
        }
    }
}

/// The claims and the log of events, oldest first.
pub ghost struct State {
    pub claims: Map<Seq<u8>, ClaimRecordView>,
    pub events: Seq<EventView>,
}

impl State {
    /// The state before anything happened.
    pub open spec fn empty() -> State {
        State { claims: Map::empty(), events: Seq::empty() }
    }

    /// Whether a claim on `fingerprint` is accepted: only where it has none.
    pub open spec fn create_claim_outcome(self, fingerprint: Seq<u8>) -> Result<(), Error> {
        if self.claims.contains_key(fingerprint) {
            Err(Error::ProofAlreadyClaimed)
        } else {
            Ok(())
        }
    }

    /// The state after `signer` asked to claim `fingerprint` at `height`.
    pub open spec fn create_claim(
        self,
        signer: Seq<u8>,
        fingerprint: Seq<u8>,
        height: Height,
    ) -> State {
        if self.claims.contains_key(fingerprint) {
            self
        } else {
            State {
                claims: self.claims.insert(fingerprint, ClaimRecordView { owner: signer, height }),
                events: self.events.push(
                    EventView::ClaimCreated { who: signer, claim: fingerprint },
                ),
            }
        }
    }

    /// Whether `signer` may revoke the claim on `fingerprint`: only where
    /// there is one and `signer` owns it.
    pub open spec fn revoke_claim_outcome(self, signer: Seq<u8>, fingerprint: Seq<u8>) -> Result<
        (),
        Error,
    > {
        if !self.claims.contains_key(fingerprint) {
            Err(Error::NoSuchProof)
        } else if self.claims[fingerprint].owner != signer {
            Err(Error::NotProofOwner)
        } else {
            Ok(())
        }
    }

    /// The state after `signer` asked to revoke the claim on `fingerprint`.
    pub open spec fn revoke_claim(self, signer: Seq<u8>, fingerprint: Seq<u8>) -> State {
        if self.claims.contains_key(fingerprint) && self.claims[fingerprint].owner == signer {
            State {
                claims: self.claims.remove(fingerprint),
                events: self.events.push(
                    EventView::ClaimRevoked { who: signer, claim: fingerprint },
                ),
            }
        } else {
            self
        }
    }

    /// Whether `operation` is accepted in this state, and if not, why.
    pub open spec fn outcome(self, operation: Operation) -> Result<(), Error> {
        match operation {
            Operation::CreateClaim { fingerprint, .. } => self.create_claim_outcome(fingerprint),
            Operation::RevokeClaim { signer, fingerprint } => self.revoke_claim_outcome(
                signer,
                fingerprint,
            ),
        }
    }

    /// The state after `operation` was requested.
    pub open spec fn apply(self, operation: Operation) -> State {
        match operation {
            Operation::CreateClaim { signer, fingerprint, height } => self.create_claim(
                signer,
                fingerprint,
                height,
            ),
            Operation::RevokeClaim { signer, fingerprint } => self.revoke_claim(
                signer,
                fingerprint,
            ),
        }
    }

    /// The state after the requests of `operations` were made one at a time,
    /// first to last.
    pub open spec fn apply_all(self, operations: Seq<Operation>) -> State
        decreases operations.len(),
    {
        if operations.len() == 0 {
            self
        } else {
            self.apply_all(operations.drop_last()).apply(operations.last())
        }
    }

    /// The events of those requests of `operations` that are accepted when
    /// they are made one at a time from this state, in the order of the
    /// requests.
    pub open spec fn accepted_events(self, operations: Seq<Operation>) -> Seq<EventView>
        decreases operations.len(),
    {
        if operations.len() == 0 {
            Seq::empty()
        } else {
            let before = self.accepted_events(operations.drop_last());
            if self.apply_all(operations.drop_last()).outcome(operations.last()) is Ok {
                before.push(operations.last().event())
            } else {
                before
            }
        }
    }
}

} // verus!
