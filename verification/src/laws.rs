//! What holds of the two operations whatever the state and the inputs,
//! proved from their definitions.

use vstd::prelude::*;
use crate::error::Error;
use crate::model::{EventView, Operation, State};
use crate::registry::ClaimRecordView;
use crate::types::Height;

verus! {

/// No request of `operations` that revokes the claim on `fingerprint` is
/// accepted when the requests are made one at a time from `state`.
pub open spec fn no_revocation_applies(
    state: State,
    fingerprint: Seq<u8>,
    operations: Seq<Operation>,
) -> bool {
    forall|i: int|
        0 <= i < operations.len() && #[trigger] operations[i] is RevokeClaim
            && operations[i].subject() == fingerprint ==> state.apply_all(
            operations.take(i),
        ).outcome(operations[i]) is Err
}

/// A claimed fingerprint stays claimed until a revocation of it is accepted.
proof fn lemma_claim_stands(state: State, fingerprint: Seq<u8>, operations: Seq<Operation>)
    requires
        state.claims.contains_key(fingerprint),
        no_revocation_applies(state, fingerprint, operations),
    ensures
        state.apply_all(operations).claims.contains_key(fingerprint),
    decreases operations.len(),
{
    if operations.len() > 0 {
        let front = operations.drop_last();
        assert forall|i: int|
            0 <= i < front.len() && #[trigger] front[i] is RevokeClaim && front[i].subject()
                == fingerprint implies state.apply_all(front.take(i)).outcome(front[i]) is Err by {
            assert(front.take(i) =~= operations.take(i));
        }
        lemma_claim_stands(state, fingerprint, front);
    }
}

/// A rejected request changes nothing, neither the claims nor the log; an
/// accepted one appends its event, and only that, to the log.
pub proof fn law_all_or_nothing(state: State, operation: Operation)
    ensures
        state.outcome(operation) is Err ==> state.apply(operation) == state,
        state.outcome(operation) is Ok ==> state.apply(operation).events == state.events.push(
            operation.event(),
        ),
{
}

/// A request touches no fingerprint but its own, and never alters a record:
/// a claim that stands before and after the request is the same claim.
pub proof fn law_claims_are_not_altered(state: State, operation: Operation, fingerprint: Seq<u8>)
    ensures
        fingerprint != operation.subject() ==> (state.apply(operation).claims.contains_key(
            fingerprint,
        ) <==> state.claims.contains_key(fingerprint)),
        state.claims.contains_key(fingerprint) && state.apply(operation).claims.contains_key(
            fingerprint,
        ) ==> state.apply(operation).claims[fingerprint] == state.claims[fingerprint],
{
}

/// Uniqueness: once a claim on `fingerprint` was accepted, every further
/// claim on it, by whatever account and at whatever height, is rejected with
/// `ProofAlreadyClaimed` and changes nothing, for as long as no revocation of
/// it was accepted in between.
pub proof fn law_uniqueness(
    state: State,
    first_signer: Seq<u8>,
    first_height: Height,
    fingerprint: Seq<u8>,
    between: Seq<Operation>,
    second_signer: Seq<u8>,
    second_height: Height,
)
    requires
        state.create_claim_outcome(fingerprint) is Ok,
        no_revocation_applies(
            state.create_claim(first_signer, fingerprint, first_height),
            fingerprint,
            between,
        ),
    ensures
        ({
            let later = state.create_claim(first_signer, fingerprint, first_height).apply_all(
                between,
            );
            &&& later.create_claim_outcome(fingerprint) == Err::<(), Error>(
                Error::ProofAlreadyClaimed,
            )
            &&& later.create_claim(second_signer, fingerprint, second_height) == later
        }),
{
    lemma_claim_stands(
        state.create_claim(first_signer, fingerprint, first_height),
        fingerprint,
        between,
    );
}

/// Ownership exclusivity: the revocation of a claim by an account that does
/// not own it is rejected with `NotProofOwner` and changes nothing.
pub proof fn law_ownership_exclusivity(state: State, fingerprint: Seq<u8>, other: Seq<u8>)
    requires
        state.claims.contains_key(fingerprint),
        state.claims[fingerprint].owner != other,
    ensures
        state.revoke_claim_outcome(other, fingerprint) == Err::<(), Error>(Error::NotProofOwner),
        state.revoke_claim(other, fingerprint) == state,
{
}

/// Absence rejection: the revocation of a claim that does not exist is
/// rejected with `NoSuchProof`, whoever asks, and changes nothing.
pub proof fn law_absence_rejection(state: State, signer: Seq<u8>, fingerprint: Seq<u8>)
    requires
        !state.claims.contains_key(fingerprint),
    ensures
        state.revoke_claim_outcome(signer, fingerprint) == Err::<(), Error>(Error::NoSuchProof),
        state.revoke_claim(signer, fingerprint) == state,
{
}

/// Round trip: where a claim is accepted, its owner's revocation right after
/// is accepted too, and the claims are then what they were before the claim,
/// with the fingerprint unclaimed. The log has grown by the two events.
pub proof fn law_round_trip(state: State, signer: Seq<u8>, fingerprint: Seq<u8>, height: Height)
    requires
        state.create_claim_outcome(fingerprint) is Ok,
    ensures
        ({
            let claimed = state.create_claim(signer, fingerprint, height);
            let revoked = claimed.revoke_claim(signer, fingerprint);
            &&& claimed.revoke_claim_outcome(signer, fingerprint) is Ok
            &&& revoked.claims == state.claims
            &&& !revoked.claims.contains_key(fingerprint)
            &&& revoked.events == state.events.push(
                EventView::ClaimCreated { who: signer, claim: fingerprint },
            ).push(EventView::ClaimRevoked { who: signer, claim: fingerprint })
        }),
{
}

/// Claiming again after a revocation: once a claim was made and revoked, a
/// claim on the same fingerprint by any account at any height is accepted,
/// and the record is that of the new claim alone.
pub proof fn law_reclaim_after_revoke(
    state: State,
    first_signer: Seq<u8>,
    first_height: Height,
    fingerprint: Seq<u8>,
    second_signer: Seq<u8>,
    second_height: Height,
)
    requires
        state.create_claim_outcome(fingerprint) is Ok,
    ensures
        ({
            let revoked = state.create_claim(first_signer, fingerprint, first_height).revoke_claim(
                first_signer,
                fingerprint,
            );
            let reclaimed = revoked.create_claim(second_signer, fingerprint, second_height);
            &&& revoked.create_claim_outcome(fingerprint) is Ok
            &&& reclaimed.claims == state.claims.insert(
                fingerprint,
                ClaimRecordView { owner: second_signer, height: second_height },
            )
            &&& reclaimed.claims == state.create_claim(
                second_signer,
                fingerprint,
                second_height,
            ).claims
        }),
{
}

/// Event correspondence: after any run of requests the log is the log from
/// before, followed by one event for each request that was accepted, in the
/// order in which they were accepted, and by nothing for the rejected ones.
pub proof fn law_event_correspondence(state: State, operations: Seq<Operation>)
    ensures
        state.apply_all(operations).events == state.events + state.accepted_events(operations),
    decreases operations.len(),
{
    if operations.len() > 0 {
        let front = operations.drop_last();
        law_event_correspondence(state, front);
        law_all_or_nothing(state.apply_all(front), operations.last());
        assert(state.apply_all(operations).events =~= state.events + state.accepted_events(
            operations,
        ));
    }
}

} // verus!
