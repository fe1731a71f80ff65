//! Ownership: who may call the owner-gated operations.

use vstd::prelude::*;

use crate::AccountId;
use crate::contract::{Contract, ContractModel, ContractState};
use crate::error::AmlError;

verus! {

/// The owner gate every owner-gated operation applies: the current owner
/// passes, anyone else is refused as `Unauthorized`.
pub open spec fn owner_gate(state: ContractState, caller: Seq<char>) -> Result<(), AmlError> {
    if caller == state.owner {
        Ok(())
    } else {
        Err(AmlError::Unauthorized)
    }
}

/// Reading and transferring ownership.
pub trait Ownable: ContractModel + Sized {
    /// The current owner.
    fn owner(&self) -> (r: &AccountId)
        ensures
            r@ == self.model().owner,
    ;

    /// Applies the owner gate for `caller`.
    fn assert_owner(&self, caller: &AccountId) -> (r: Result<(), AmlError>)
        ensures
            r == owner_gate(self.model(), caller@),
    ;

    /// Replaces the owner. Only the current owner may; afterwards the new
    /// owner alone passes the owner check, and the old owner is refused at once.
    fn transfer_ownership(&mut self, caller: &AccountId, owner: AccountId) -> (r: Result<
        (),
        AmlError,
    >)
        requires
            old(self).inv(),
        ensures
            final(self).inv(),
            r == owner_gate(old(self).model(), caller@),
            r is Ok ==> final(self).model() == (ContractState {
                owner: owner@,
                ..old(self).model()
            }),
            r is Err ==> *final(self) == *old(self),
    ;
}

impl Ownable for Contract {
    fn owner(&self) -> (r: &AccountId) {
        &self.owner_id
    }

    fn assert_owner(&self, caller: &AccountId) -> (r: Result<(), AmlError>) {
        if *caller == self.owner_id {
            Ok(())
        } else {
            Err(AmlError::Unauthorized)
        }
    }

    fn transfer_ownership(&mut self, caller: &AccountId, owner: AccountId) -> (r: Result<
        (),
        AmlError,
    >) {
        match self.assert_owner(caller) {
            Ok(_) => {
                self.owner_id = owner;
                Ok(())
            },
            Err(e) => Err(e),
        }
    }
}

/// Once ownership stands with anyone else, the previous owner is refused by
/// the owner gate — so immediately after a successful `transfer_ownership`
/// to a different account, every owner-gated call by the old owner fails
/// with `Unauthorized`.
pub proof fn lemma_ownership_transfer_revokes(after: ContractState, previous: Seq<char>)
    requires
        after.owner != previous,
    ensures
        owner_gate(after, previous) == Err::<(), AmlError>(AmlError::Unauthorized),
{
}

} // verus!
