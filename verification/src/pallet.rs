//! The module that a runtime drives: the registry, the log of events, and the
//! two operations with their rules.

use vstd::prelude::*;
use crate::config::Config;
use crate::error::Error;
use crate::model::{EventView, Operation, State};
use crate::registry::{ClaimRecord, ClaimRegistry};
use crate::types::{AccountId, Fingerprint, Height};

verus! {

/// What the module reports of an operation that it applied.
#[derive(Debug)]
pub enum Event<T: Config> {
    /// An account claimed a fingerprint: the account, then the fingerprint.
    ClaimCreated(AccountId, Fingerprint<T>),
    /// An owner revoked its claim: the account, then the fingerprint.
    ClaimRevoked(AccountId, Fingerprint<T>),
}

impl<T: Config> View for Event<T> {
    type V = EventView;

    open spec fn view(&self) -> EventView {
        match self {
            Event::ClaimCreated(who, claim) => EventView::ClaimCreated {
                who: who@,
                claim: claim@,
            },
            Event::ClaimRevoked(who, claim) => EventView::ClaimRevoked {
                who: who@,
                claim: claim@,
            },
        }
    }
}

impl<T: Config> Event<T> {
    /// The account that acted.
    pub fn who(&self) -> (account: &AccountId)
        ensures
            account@ == match self@ {
                EventView::ClaimCreated { who, .. } => who,
                EventView::ClaimRevoked { who, .. } => who,
            },
    {
        match self {
            Event::ClaimCreated(who, _) => who,
            Event::ClaimRevoked(who, _) => who,
        }
    }

    /// The fingerprint that was claimed or released.
    pub fn claim(&self) -> (fingerprint: &Fingerprint<T>)
        ensures
            fingerprint@ == match self@ {
                EventView::ClaimCreated { claim, .. } => claim,
                EventView::ClaimRevoked { claim, .. } => claim,
            },
    {
        match self {
            Event::ClaimCreated(_, claim) => claim,
            Event::ClaimRevoked(_, claim) => claim,
        }
    }
}

impl<T: Config> Clone for Event<T> {
    fn clone(&self) -> (copy: Self)
        ensures
            copy@ == self@,
    {
        match self {
            Event::ClaimCreated(who, claim) => Event::ClaimCreated(who.clone(), claim.clone()),
            Event::ClaimRevoked(who, claim) => Event::ClaimRevoked(who.clone(), claim.clone()),
        }
    }
}

/// The operations that the module offers, each with what the caller submits
/// for it. The signer and the height come from the caller's context.
#[derive(Debug)]
pub enum Call<T: Config> {
    /// Claim the fingerprint for the signer.
    CreateClaim { claim: Fingerprint<T> },
    /// Give up the signer's claim on the fingerprint.
    RevokeClaim { claim: Fingerprint<T> },
}

impl<T: Config> Call<T> {
    /// The request that this call makes when `signer` submits it at `height`.
    pub open spec fn operation(self, signer: Seq<u8>, height: Height) -> Operation {
        match self {
            Call::CreateClaim { claim } => Operation::CreateClaim {
                signer,
                fingerprint: claim@,
                height,
            },
            Call::RevokeClaim { claim } => Operation::RevokeClaim { signer, fingerprint: claim@ },
        }
    }
}

/// The events of a log as contracts speak of them.
pub open spec fn log_view<T: Config>(log: Seq<Event<T>>) -> Seq<EventView> {
    log.map_values(|event: Event<T>| event@)
}

/// The registry of claims together with the log of what was applied to it.
///
/// Its view is the [`State`] that the operations are defined on. The log only
/// grows: one event for each operation that was applied, none for one that
/// was rejected.
pub struct Pallet<T: Config> {
    proofs: ClaimRegistry<T>,
    events: Vec<Event<T>>,
}

impl<T: Config> View for Pallet<T> {
    type V = State;

    closed spec fn view(&self) -> State {
        State { claims: self.proofs@, events: log_view(self.events@) }
    }
}

impl<T: Config> Pallet<T> {
    /// The module with no claim and an empty log.
    pub fn new() -> (pallet: Self)
        ensures
            pallet@ == State::empty(),
    {
        let pallet = Pallet { proofs: ClaimRegistry::new(), events: Vec::new() };
        assert(log_view(pallet.events@) =~= Seq::<EventView>::empty());
        pallet
    }

    /// The module that starts from the claims of `proofs`, with an empty log.
    pub fn with_claims(proofs: ClaimRegistry<T>) -> (pallet: Self)
        ensures
            pallet@ == (State { claims: proofs@, events: Seq::empty() }),
    {
        let pallet = Pallet { proofs, events: Vec::new() };
        assert(log_view(pallet.events@) =~= Seq::<EventView>::empty());
        pallet
    }

    /// The claims as they stand.
    pub fn proofs(&self) -> (registry: &ClaimRegistry<T>)
        ensures
            registry@ == self@.claims,
    {
        &self.proofs
    }

    /// The log of events, oldest first.
    pub fn events(&self) -> (log: &Vec<Event<T>>)
        ensures
            log_view(log@) == self@.events,
    {
        &self.events
    }

    /// Claims `claim` for `sender` at height `current_block`.
    ///
    /// Rejected with `ProofAlreadyClaimed` where `claim` is already claimed, by
    /// whatever account. Otherwise the claim is recorded and `ClaimCreated` is
    /// appended to the log.
    pub fn create_claim(
        &mut self,
        sender: AccountId,
        claim: Fingerprint<T>,
        current_block: Height,
    ) -> (result: Result<(), Error>)
        ensures
            result == old(self)@.create_claim_outcome(claim@),
            final(self)@ == old(self)@.create_claim(sender@, claim@, current_block),
    {
        if self.proofs.contains(&claim) {
            return Err(Error::ProofAlreadyClaimed);
        }
        let record = ClaimRecord { owner: sender.clone(), height: current_block };
        self.proofs.insert(claim.clone(), record);
        let event = Event::ClaimCreated(sender, claim);
        proof {
            assert(log_view(self.events@.push(event)) =~= log_view(self.events@).push(event@));
        }
        self.events.push(event);
        Ok(())
    }

    /// Revokes the claim of `sender` on `claim`.
    ///
    /// Rejected with `NoSuchProof` where `claim` is not claimed, and with
    /// `NotProofOwner` where another account owns it. Otherwise the claim is
    /// forgotten and `ClaimRevoked` is appended to the log.
    pub fn revoke_claim(&mut self, sender: AccountId, claim: Fingerprint<T>) -> (result: Result<
        (),
        Error,
    >)
        ensures
            result == old(self)@.revoke_claim_outcome(sender@, claim@),
            final(self)@ == old(self)@.revoke_claim(sender@, claim@),
    {
        let owned = match self.proofs.get(&claim) {
            None => {
                return Err(Error::NoSuchProof);
            },
            Some(record) => sender == record.owner,
        };
        if !owned {
            return Err(Error::NotProofOwner);
        }
        self.proofs.remove(&claim);
        let event = Event::ClaimRevoked(sender, claim);
        proof {
            assert(log_view(self.events@.push(event)) =~= log_view(self.events@).push(event@));
        }
        self.events.push(event);
        Ok(())
    }

    /// Runs `call` for `sender`, with `current_block` as the height of the
    /// block in which it runs.
    pub fn dispatch(&mut self, sender: AccountId, call: Call<T>, current_block: Height) -> (result:
        Result<(), Error>)
        ensures
            result == old(self)@.outcome(call.operation(sender@, current_block)),
            final(self)@ == old(self)@.apply(call.operation(sender@, current_block)),
    {
        match call {
            Call::CreateClaim { claim } => self.create_claim(sender, claim, current_block),
            Call::RevokeClaim { claim } => self.revoke_claim(sender, claim),
        }
    }
}

} // verus!
