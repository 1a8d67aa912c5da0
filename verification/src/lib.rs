//! An authorization-gated, append-only log of satellite conjunction data
//! messages (CDMs).
//!
//! One owner identity, fixed at construction, controls a whitelist of
//! "provider" identities; only whitelisted providers may append CDMs to the
//! shared log. The host environment that dispatches calls, supplies caller
//! identities and persists the state is outside this crate: every operation
//! takes the caller's identity as an explicit argument, so the guards are
//! pure functions of the state and the caller.

use vstd::prelude::*;

verus! {

/// An opaque, equality-comparable caller identity (an account or address).
/// The core never fabricates one; it only compares and stores identities
/// handed in by the host environment.
#[derive(Clone, Copy, PartialEq, Eq, Structural, Debug)]
pub struct AccountId {
    pub id: u64,
}

/// A conjunction data message: a collision warning between two tracked
/// objects. Field values are not validated; records are immutable once
/// submitted.
#[derive(Clone, Copy, PartialEq, Eq, Structural, Debug)]
pub struct ConjunctionDataMessage {
    pub object1_id: i32,
    pub object2_id: i32,
    pub collision_probability: i32,
    pub time_of_closest_pass: i32,
}

/// The failure a mutating operation can report.
#[derive(Clone, Copy, PartialEq, Eq, Structural, Debug)]
pub enum Error {
    /// The caller of `add_ca_provider` is not the owner.
    Unauthorized,
}

/// The contract state: the owner, the providers whitelisted so far (in
/// grant order, duplicates permitted) and the log of submitted CDMs (in
/// submission order). Both sequences only ever grow, and the owner never
/// changes after construction.
pub struct Negotiate {
    owner: AccountId,
    ca_providers: Vec<AccountId>,
    cdms: Vec<ConjunctionDataMessage>,
}

impl Negotiate {
    /// The owner identity fixed at construction.
    pub closed spec fn spec_owner(self) -> AccountId {
        self.owner
    }

    /// The whitelist as a sequence, in the order providers were granted.
    pub closed spec fn providers(self) -> Seq<AccountId> {
        self.ca_providers@
    }

    /// The message log as a sequence, in submission order.
    pub closed spec fn log(self) -> Seq<ConjunctionDataMessage> {
        self.cdms@
    }

    /// Guard: may this identity administer the whitelist?
    pub open spec fn spec_is_owner(&self, id: AccountId) -> bool {
        id == self.spec_owner()
    }

    /// Guard: may this identity submit messages?
    pub open spec fn spec_is_provider(&self, id: AccountId) -> bool {
        self.providers().contains(id)
    }

    /// Creates the contract state for the given constructing caller: that
    /// caller becomes the owner, and both the whitelist and the log start
    /// empty.
    pub fn new(caller: AccountId) -> (s: Self)
        ensures
            s.spec_owner() == caller,
            s.providers().len() == 0,
            s.log().len() == 0,
    {
        Negotiate { owner: caller, ca_providers: Vec::new(), cdms: Vec::new() }
    }

    /// Guard check, evaluated against the state as it stands.
    #[verifier::when_used_as_spec(spec_is_owner)]
    pub fn is_owner(&self, id: AccountId) -> (r: bool)
        ensures
            r == self.spec_is_owner(id),
    {
        id == self.owner
    }

    /// Guard check: a linear membership scan of the whitelist, order
    /// insensitive.
    #[verifier::when_used_as_spec(spec_is_provider)]
    pub fn is_provider(&self, id: AccountId) -> (r: bool)
        ensures
            r == self.spec_is_provider(id),
    {
        let mut i: usize = 0;
        while i < self.ca_providers.len()
            invariant
                i <= self.ca_providers@.len(),
                forall|j: int| 0 <= j < i ==> self.ca_providers@[j] != id,
            decreases self.ca_providers@.len() - i,
        {
            if self.ca_providers[i] == id {
                return true;
            }
            i += 1;
        }
        false
    }

    /// Whitelists an identity. Only the owner may call this: any other
    /// caller is turned away with `Unauthorized` and the state is left
    /// untouched. The owner's call appends the identity to the whitelist,
    /// even if it is already present (a repeated grant is kept as a
    /// duplicate). The owner and the log never change here, and the
    /// whitelist never shrinks.
    pub fn add_ca_provider(&mut self, caller: AccountId, provider_account: AccountId) -> (r: Result<
        (),
        Error,
    >)
        ensures
            old(self).spec_is_owner(caller) ==> r is Ok,
            old(self).spec_is_owner(caller) ==> final(self).providers() == old(
                self,
            ).providers().push(provider_account),
            !old(self).spec_is_owner(caller) ==> r == Err::<(), Error>(Error::Unauthorized),
            !old(self).spec_is_owner(caller) ==> final(self).providers() == old(self).providers(),
            final(self).spec_owner() == old(self).spec_owner(),
            final(self).log() == old(self).log(),
            old(self).providers().len() <= final(self).providers().len(),
    {
        if !self.is_owner(caller) {
            return Err(Error::Unauthorized);
        }
        self.ca_providers.push(provider_account);
        Ok(())
    }

    /// Submits a CDM. A whitelisted caller's record is appended to the log;
    /// any other caller's submission is silently dropped — the call
    /// completes without error and without touching the state, in contrast
    /// to `add_ca_provider`'s hard failure. The owner and the whitelist
    /// never change here, and the log never shrinks.
    pub fn submit_cdm(&mut self, caller: AccountId, cdm: ConjunctionDataMessage)
        ensures
            old(self).spec_is_provider(caller) ==> final(self).log() == old(self).log().push(cdm),
            !old(self).spec_is_provider(caller) ==> final(self).log() == old(self).log(),
            final(self).spec_owner() == old(self).spec_owner(),
            final(self).providers() == old(self).providers(),
            old(self).log().len() <= final(self).log().len(),
    {
        if self.is_provider(caller) {
            self.cdms.push(cdm);
        }
    }

    /// Read accessor for the host: the owner identity.
    pub fn owner(&self) -> (r: AccountId)
        ensures
            r == self.spec_owner(),
    {
        self.owner
    }

    /// Read accessor for the host: how many provider grants stand.
    pub fn num_providers(&self) -> (n: usize)
        ensures
            n == self.providers().len(),
    {
        self.ca_providers.len()
    }

    /// Read accessor for the host: how many CDMs the log holds.
    pub fn num_cdms(&self) -> (n: usize)
        ensures
            n == self.log().len(),
    {
        self.cdms.len()
    }

    /// Read accessor for the host: the provider at a whitelist position.
    pub fn provider_at(&self, i: usize) -> (r: AccountId)
        requires
            i < self.providers().len(),
        ensures
            r == self.providers()[i as int],
    {
        self.ca_providers[i]
    }

    /// Read accessor for the host: the CDM at a log position.
    pub fn cdm_at(&self, i: usize) -> (r: ConjunctionDataMessage)
        requires
            i < self.log().len(),
        ensures
            r == self.log()[i as int],
    {
        self.cdms[i]
    }
}

} // verus!
