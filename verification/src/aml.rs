//! Owner-gated maintenance of the risk registry, and its read path.

use vstd::prelude::*;

use crate::AccountId;
use crate::category::{Category, INITIAL_MAX_RISK_LEVEL, RiskScore, valid_risk_score};
use crate::contract::{Contract, ContractModel, ContractState};
use crate::error::AmlError;
use crate::kv::{pairs_map, pairs_unique};
use crate::owner::Ownable;

verus! {

/// Maintenance of the category thresholds.
pub trait CategoryManagment: ContractModel + Sized {
    /// Writes or overwrites the threshold for `category`. Only the owner
    /// may, and only with a score in `1 ..= 10`; a refused call changes
    /// nothing.
    fn update_category(&mut self, caller: &AccountId, category: Category, risk_score: RiskScore) -> (r: Result<(), AmlError>)
        requires
            old(self).inv(),
        ensures
            final(self).inv(),
            caller@ != old(self).model().owner ==> r == Err::<(), AmlError>(
                AmlError::Unauthorized,
            ) && *final(self) == *old(self),
            caller@ == old(self).model().owner && !valid_risk_score(risk_score) ==> r == Err::<
                (),
                AmlError,
            >(AmlError::InvalidRiskScore) && *final(self) == *old(self),
            caller@ == old(self).model().owner && valid_risk_score(risk_score) ==> r == Ok::<
                (),
                AmlError,
            >(()) && final(self).model() == (ContractState {
                conditions: old(self).model().conditions.insert(category, risk_score),
                ..old(self).model()
            }),
    ;

    /// Deletes the threshold for `category`; deleting an absent key is a
    /// no-op. Only the owner may; a refused call changes nothing.
    fn remove_category(&mut self, caller: &AccountId, category: Category) -> (r: Result<
        (),
        AmlError,
    >)
        requires
            old(self).inv(),
        ensures
            final(self).inv(),
            caller@ != old(self).model().owner ==> r == Err::<(), AmlError>(
                AmlError::Unauthorized,
            ) && *final(self) == *old(self),
            caller@ == old(self).model().owner ==> r == Ok::<(), AmlError>(()) && final(self).model() == (ContractState {
                conditions: old(self).model().conditions.remove(category),
                ..old(self).model()
            }),
    ;
}

impl CategoryManagment for Contract {
    fn update_category(&mut self, caller: &AccountId, category: Category, risk_score: RiskScore) -> (r: Result<(), AmlError>) {
        match self.assert_owner(caller) {
            Ok(_) => {
                if 1 <= risk_score && risk_score <= INITIAL_MAX_RISK_LEVEL {
                    self.aml.set_category(category, risk_score);
                    Ok(())
                } else {
                    Err(AmlError::InvalidRiskScore)
                }
            },
            Err(e) => Err(e),
        }
    }

    fn remove_category(&mut self, caller: &AccountId, category: Category) -> (r: Result<
        (),
        AmlError,
    >) {
        match self.assert_owner(caller) {
            Ok(_) => {
                self.aml.remove_category(category);
                Ok(())
            },
            Err(e) => Err(e),
        }
    }
}

/// The registry's full interface: the read path and the owner-gated writes,
/// oracle account included.
pub trait AMl: ContractModel + Sized {
    /// The oracle's account and every `(category, threshold)` entry. The
    /// order of the entries is the registry's own and is not promised.
    fn get_aml(&self) -> (r: (&AccountId, Vec<(Category, RiskScore)>))
        requires
            self.inv(),
        ensures
            r.0@ == self.model().oracle,
            pairs_unique(r.1@),
            pairs_map(r.1@) == self.model().conditions,
    ;

    /// Replaces the oracle's account. Only the owner may; a refused call
    /// changes nothing.
    fn update_aml_account_id(&mut self, caller: &AccountId, aml_account_id: AccountId) -> (r:
        Result<(), AmlError>)
        requires
            old(self).inv(),
        ensures
            final(self).inv(),
            caller@ != old(self).model().owner ==> r == Err::<(), AmlError>(
                AmlError::Unauthorized,
            ) && *final(self) == *old(self),
            caller@ == old(self).model().owner ==> r == Ok::<(), AmlError>(()) && final(self).model() == (ContractState { oracle: aml_account_id@, ..old(self).model() }),
    ;

    /// As `CategoryManagment::update_category`.
    fn update_aml_category(
        &mut self,
        caller: &AccountId,
        category: Category,
        accepted_risk_score: RiskScore,
    ) -> (r: Result<(), AmlError>)
        requires
            old(self).inv(),
        ensures
            final(self).inv(),
            caller@ != old(self).model().owner ==> r == Err::<(), AmlError>(
                AmlError::Unauthorized,
            ) && *final(self) == *old(self),
            caller@ == old(self).model().owner && !valid_risk_score(accepted_risk_score) ==> r
                == Err::<(), AmlError>(AmlError::InvalidRiskScore) && *final(self) == *old(self),
            caller@ == old(self).model().owner && valid_risk_score(accepted_risk_score) ==> r
                == Ok::<(), AmlError>(()) && final(self).model() == (ContractState {
                conditions: old(self).model().conditions.insert(category, accepted_risk_score),
                ..old(self).model()
            }),
    ;

    /// As `CategoryManagment::remove_category`.
    fn remove_aml_category(&mut self, caller: &AccountId, category: Category) -> (r: Result<
        (),
        AmlError,
    >)
        requires
            old(self).inv(),
        ensures
            final(self).inv(),
            caller@ != old(self).model().owner ==> r == Err::<(), AmlError>(
                AmlError::Unauthorized,
            ) && *final(self) == *old(self),
            caller@ == old(self).model().owner ==> r == Ok::<(), AmlError>(()) && final(self).model() == (ContractState {
                conditions: old(self).model().conditions.remove(category),
                ..old(self).model()
            }),
    ;
}

impl AMl for Contract {
    fn get_aml(&self) -> (r: (&AccountId, Vec<(Category, RiskScore)>)) {
        let n = self.aml.aml_conditions.len();
        let mut pairs: Vec<(Category, RiskScore)> = Vec::new();
        let mut i: usize = 0;
        while i < n
            invariant
                n == self.aml.aml_conditions@.len(),
                i <= n,
                pairs@ == self.aml.aml_conditions@.subrange(0, i as int),
            decreases n - i,
        {
            let p = self.aml.aml_conditions[i];
            pairs.push(p);
            i += 1;
            proof {
                assert(pairs@ =~= self.aml.aml_conditions@.subrange(0, i as int));
            }
        }
        proof {
            assert(pairs@ =~= self.aml.aml_conditions@);
        }
        (&self.aml.account_id, pairs)
    }

    fn update_aml_account_id(&mut self, caller: &AccountId, aml_account_id: AccountId) -> (r:
        Result<(), AmlError>) {
        match self.assert_owner(caller) {
            Ok(_) => {
                self.aml.set_account_id(aml_account_id);
                Ok(())
            },
            Err(e) => Err(e),
        }
    }

    fn update_aml_category(
        &mut self,
        caller: &AccountId,
        category: Category,
        accepted_risk_score: RiskScore,
    ) -> (r: Result<(), AmlError>) {
        self.update_category(caller, category, accepted_risk_score)
    }

    fn remove_aml_category(&mut self, caller: &AccountId, category: Category) -> (r: Result<
        (),
        AmlError,
    >) {
        CategoryManagment::remove_category(self, caller, category)
    }
}

} // verus!
