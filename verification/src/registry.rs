//! The risk registry: the oracle's account and the per-category thresholds.

use vstd::prelude::*;

use crate::AccountId;
use crate::category::{Category, CategoryRisk, RiskScore, valid_risk_score};
use crate::error::AmlError;
use crate::kv::{
    lemma_pairs_push, lemma_pairs_remove, lemma_pairs_update, lemma_pairs_value_at, pairs_has_key,
    pairs_map, pairs_unique,
};

verus! {

/// The registry: which account answers classification queries, and the
/// largest risk score accepted for each category.
pub struct AML {
    /// The oracle's account.
    pub account_id: AccountId,
    /// The accepted threshold per category; keys are pairwise distinct.
    pub aml_conditions: Vec<(Category, RiskScore)>,
}

/// The threshold that governs `category`: its own entry where one exists,
/// otherwise the `All` entry, otherwise nothing — and then no transfer of a
/// party in that category can be authorized.
pub open spec fn lookup_threshold(conditions: Map<Category, RiskScore>, category: Category) -> Option<
    RiskScore,
> {
    if conditions.contains_key(category) {
        Some(conditions[category])
    } else if conditions.contains_key(Category::All) {
        Some(conditions[Category::All])
    } else {
        None
    }
}

/// Whether a party classified as `(category, risk)` may transfer: an exempt
/// party always may; any other party only when a governing threshold exists
/// and the reported risk does not exceed it.
pub open spec fn risk_allowed(
    conditions: Map<Category, RiskScore>,
    category: Category,
    risk: RiskScore,
) -> bool {
    category == Category::Exempt || match lookup_threshold(conditions, category) {
        Some(threshold) => risk <= threshold,
        None => false,
    }
}

/// Whether `(category, risk)` must abort as a configuration error: the
/// category is checked, yet neither it nor `All` carries a threshold.
pub open spec fn risk_unconfigured(
    conditions: Map<Category, RiskScore>,
    category: Category,
) -> bool {
    category != Category::Exempt && lookup_threshold(conditions, category) is None
}

/// The outcome authorization owes for a classification, given the registry.
pub open spec fn risk_outcome(
    conditions: Map<Category, RiskScore>,
    category_risk: CategoryRisk,
) -> Result<(), AmlError> {
    if risk_allowed(conditions, category_risk.0, category_risk.1) {
        Ok(())
    } else if risk_unconfigured(conditions, category_risk.0) {
        Err(AmlError::ConfigurationError)
    } else {
        Err(AmlError::AmlRejected)
    }
}

impl AML {
    /// The map the condition entries denote.
    pub open spec fn conditions(&self) -> Map<Category, RiskScore> {
        pairs_map(self.aml_conditions@)
    }

    /// Entry keys are pairwise distinct and every stored threshold is valid.
    pub open spec fn wf(&self) -> bool {
        &&& pairs_unique(self.aml_conditions@)
        &&& forall|i: int|
            0 <= i < self.aml_conditions@.len() ==> valid_risk_score(
                #[trigger] self.aml_conditions@[i].1,
            )
    }

    /// A fresh registry holding the oracle's account and one threshold.
    pub fn new(account_id: AccountId, category: Category, accepted_risk_score: RiskScore) -> (r:
        AML)
        requires
            valid_risk_score(accepted_risk_score),
        ensures
            r.wf(),
            r.account_id@ == account_id@,
            r.conditions() == Map::<Category, RiskScore>::empty().insert(
                category,
                accepted_risk_score,
            ),
    {
        let mut aml_conditions: Vec<(Category, RiskScore)> = Vec::new();
        proof {
            lemma_pairs_push(aml_conditions@, category, accepted_risk_score);
        }
        aml_conditions.push((category, accepted_risk_score));
        AML { account_id, aml_conditions }
    }

    /// The oracle's account.
    pub fn get_account(&self) -> (r: &AccountId)
        ensures
            r@ == self.account_id@,
    {
        &self.account_id
    }

    /// Replaces the oracle's account.
    pub fn set_account_id(&mut self, account_id: AccountId)
        ensures
            final(self).account_id@ == account_id@,
            final(self).aml_conditions == old(self).aml_conditions,
    {
        self.account_id = account_id;
    }

    /// Where `category` stands among the entries, if anywhere.
    fn find_category(&self, category: Category) -> (r: Option<usize>)
        ensures
            match r {
                Some(i) => i < self.aml_conditions@.len() && self.aml_conditions@[i as int].0
                    == category,
                None => !pairs_has_key(self.aml_conditions@, category),
            },
    {
        let n = self.aml_conditions.len();
        let mut i: usize = 0;
        while i < n
            invariant
                n == self.aml_conditions@.len(),
                i <= n,
                forall|j: int| 0 <= j < i ==> self.aml_conditions@[j].0 != category,
            decreases n - i,
        {
            if self.aml_conditions[i].0 == category {
                return Some(i);
            }
            i += 1;
        }
        None
    }

    /// The threshold stored for `category` itself, without the `All` fallback.
    pub fn get_category(&self, category: Category) -> (r: Option<RiskScore>)
        requires
            self.wf(),
        ensures
            r == (if self.conditions().contains_key(category) {
                Some(self.conditions()[category])
            } else {
                None::<RiskScore>
            }),
    {
        match self.find_category(category) {
            Some(i) => {
                proof {
                    lemma_pairs_value_at(self.aml_conditions@, i as int);
                }
                Some(self.aml_conditions[i].1)
            },
            None => None,
        }
    }

    /// The threshold that governs `category`, with the `All` fallback.
    pub fn get_threshold(&self, category: Category) -> (r: Option<RiskScore>)
        requires
            self.wf(),
        ensures
            r == lookup_threshold(self.conditions(), category),
    {
        match self.get_category(category) {
            Some(threshold) => Some(threshold),
            None => self.get_category(Category::All),
        }
    }

    /// Writes or overwrites the threshold for `category`.
    pub fn set_category(&mut self, category: Category, accepted_risk_score: RiskScore)
        requires
            old(self).wf(),
            valid_risk_score(accepted_risk_score),
        ensures
            final(self).wf(),
            final(self).account_id@ == old(self).account_id@,
            final(self).conditions() == old(self).conditions().insert(
                category,
                accepted_risk_score,
            ),
    {
        match self.find_category(category) {
            Some(i) => {
                proof {
                    lemma_pairs_update(
                        self.aml_conditions@,
                        i as int,
                        category,
                        accepted_risk_score,
                    );
                }
                self.aml_conditions[i] = (category, accepted_risk_score);
            },
            None => {
                proof {
                    lemma_pairs_push(self.aml_conditions@, category, accepted_risk_score);
                }
                self.aml_conditions.push((category, accepted_risk_score));
            },
        }
    }

    /// Deletes the threshold for `category`; doing so for an absent key
    /// changes nothing.
    pub fn remove_category(&mut self, category: Category)
        requires
            old(self).wf(),
        ensures
            final(self).wf(),
            final(self).account_id@ == old(self).account_id@,
            final(self).conditions() == old(self).conditions().remove(category),
    {
        match self.find_category(category) {
            Some(i) => {
                proof {
                    lemma_pairs_remove(self.aml_conditions@, i as int);
                }
                self.aml_conditions.remove(i);
            },
            None => {
                proof {
                    assert(self.conditions() =~= self.conditions().remove(category));
                }
            },
        }
    }

    /// The authorization decision for one classification, against this registry.
    pub fn check_risk(&self, category_risk: CategoryRisk) -> (r: Result<(), AmlError>)
        requires
            self.wf(),
        ensures
            r == risk_outcome(self.conditions(), category_risk),
            r is Ok <==> risk_allowed(self.conditions(), category_risk.0, category_risk.1),
    {
        let (category, risk) = category_risk;
        if category == Category::Exempt {
            Ok(())
        } else {
            match self.get_threshold(category) {
                Some(accepted_risk) => {
                    if risk <= accepted_risk {
                        Ok(())
                    } else {
                        Err(AmlError::AmlRejected)
                    }
                },
                None => Err(AmlError::ConfigurationError),
            }
        }
    }
}

/// The decision for a checked category, in one sentence: such a party is
/// approved exactly when a governing threshold exists — its own entry, or
/// `All`'s where it has none — and the reported risk does not exceed it.
pub proof fn lemma_checked_category_decision(
    conditions: Map<Category, RiskScore>,
    category: Category,
    risk: RiskScore,
)
    requires
        category != Category::Exempt,
    ensures
        risk_outcome(conditions, (category, risk)) is Ok <==> (match lookup_threshold(
            conditions,
            category,
        ) {
            Some(threshold) => risk <= threshold,
            None => false,
        }),
{
}

/// An exempt party is allowed whatever the registry holds — even an empty
/// registry approves it.
pub proof fn lemma_exempt_always_allowed(conditions: Map<Category, RiskScore>, risk: RiskScore)
    ensures
        risk_allowed(conditions, Category::Exempt, risk),
{
}

/// A checked category that neither carries its own threshold nor finds one
/// under `All` aborts as a configuration error, whatever the score.
pub proof fn lemma_unconfigured_is_fatal(
    conditions: Map<Category, RiskScore>,
    category: Category,
    risk: RiskScore,
)
    requires
        category != Category::Exempt,
        !conditions.contains_key(category),
        !conditions.contains_key(Category::All),
    ensures
        risk_outcome(conditions, (category, risk)) == Err::<(), AmlError>(
            AmlError::ConfigurationError,
        ),
{
}

/// Once a category's own entry is deleted, a lookup for it is governed by
/// the `All` bucket alone: it returns `All`'s threshold where one exists and
/// nothing otherwise.
pub proof fn lemma_removed_category_falls_back(
    conditions: Map<Category, RiskScore>,
    category: Category,
)
    requires
        category != Category::All,
    ensures
        lookup_threshold(conditions.remove(category), category) == (
        if conditions.contains_key(Category::All) {
            Some(conditions[Category::All])
        } else {
            None::<RiskScore>
        }),
{
}

} // verus!
