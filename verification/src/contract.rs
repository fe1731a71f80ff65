//! The contract: the owner, the risk registry, and the ledger, with the
//! two-phase transfer protocol over them.
//!
//! A transfer runs in two phases. The synchronous phase (`ft_transfer`,
//! `ft_transfer_call`) checks the confirmation deposit and suspends into a
//! pending value naming the oracle query; nothing is mutated. The
//! asynchronous phase (`cb_ft_transfer`, `cb_ft_transfer_call`) receives
//! what the oracle call produced, decides, and only on approval moves the
//! balances. A notify-variant transfer is afterwards settled by
//! `ft_resolve_transfer` from the used amount the receiver declared.

use vstd::prelude::*;

use crate::AccountId;
use crate::category::{Category, CategoryRisk, RiskScore};
use crate::error::AmlError;
use crate::gate::{
    BurnEvent, CONFIRMATION_DEPOSIT, OracleQuery, PendingTransfer, PendingTransferCall,
    ReceiverNotification, gate_approves, gate_outcome,
};
use crate::registry::{AML, risk_outcome};
use crate::token::{
    Token, TokenModel, can_resolve, can_transfer, clamp_used, resolve_burned, resolve_effect,
    transfer_effect,
};
use crate::category::valid_risk_score;

verus! {

/// Everything the contract's contracts speak of: the owner, the oracle, the
/// per-category thresholds, and the ledger.
pub struct ContractState {
    /// The account that may call owner-gated operations.
    pub owner: Seq<char>,
    /// The oracle's account.
    pub oracle: Seq<char>,
    /// The accepted threshold per category.
    pub conditions: Map<Category, RiskScore>,
    /// The ledger: balances and supply.
    pub token: TokenModel,
}

/// A view of a contract as its mathematical state, with its well-formedness
/// condition. The owner-gate, registry and transfer traits are stated over
/// this view.
pub trait ContractModel {
    /// The contract's state, mathematically.
    spec fn model(&self) -> ContractState;

    /// Well-formedness: registry and ledger keys are distinct, thresholds
    /// are valid, and the supply equals the sum of the balances.
    spec fn inv(&self) -> bool;
}

/// The contract.
pub struct Contract {
    /// The account that may call owner-gated operations.
    pub owner_id: AccountId,
    /// The risk registry.
    pub aml: AML,
    /// The ledger.
    pub token: Token,
}

impl ContractModel for Contract {
    open spec fn model(&self) -> ContractState {
        ContractState {
            owner: self.owner_id@,
            oracle: self.aml.account_id@,
            conditions: self.aml.conditions(),
            token: self.token.model(),
        }
    }

    open spec fn inv(&self) -> bool {
        &&& self.aml.wf()
        &&& self.token.wf()
        &&& self.token.balanced()
    }
}

impl Contract {
    /// A fresh contract: the owner holds the whole supply, and the registry
    /// holds the oracle's account and one threshold.
    pub fn new(
        owner_id: AccountId,
        aml_account_id: AccountId,
        category: Category,
        aml_accepted_risk_score: RiskScore,
        total_supply: u128,
    ) -> (r: Contract)
        requires
            valid_risk_score(aml_accepted_risk_score),
        ensures
            r.inv(),
            r.model() == (ContractState {
                owner: owner_id@,
                oracle: aml_account_id@,
                conditions: Map::<Category, RiskScore>::empty().insert(
                    category,
                    aml_accepted_risk_score,
                ),
                token: TokenModel {
                    balances: Map::<Seq<char>, u128>::empty().insert(owner_id@, total_supply),
                    total_supply: total_supply as int,
                },
            }),
    {
        let token_owner = owner_id.clone();
        Contract {
            owner_id,
            aml: AML::new(aml_account_id, category, aml_accepted_risk_score),
            token: Token::new(token_owner, total_supply),
        }
    }

    /// The authorization decision for one delivered classification: approval
    /// exactly when the classification is exempt or within the governing
    /// threshold, `ConfigurationError` where no threshold governs, and
    /// `AmlRejected` where the score exceeds it. Nothing is mutated.
    pub fn assert_risk(&self, category_risk: CategoryRisk) -> (r: Result<(), AmlError>)
        requires
            self.inv(),
        ensures
            r == risk_outcome(self.model().conditions, category_risk),
    {
        self.aml.check_risk(category_risk)
    }

    /// The current total supply.
    pub fn ft_total_supply(&self) -> (r: u128)
        ensures
            r == self.model().token.total_supply,
    {
        self.token.ft_total_supply()
    }

    /// The balance of `account_id`; an unregistered account holds nothing.
    pub fn ft_balance_of(&self, account_id: &AccountId) -> (r: u128)
        requires
            self.inv(),
        ensures
            r == self.model().token.balance_of(account_id@),
    {
        self.token.ft_balance_of(account_id)
    }

    /// Registers `account_id` with an empty balance; registering it twice
    /// changes nothing.
    pub fn register_account(&mut self, account_id: AccountId) -> (fresh: bool)
        requires
            old(self).inv(),
        ensures
            final(self).inv(),
            fresh == !old(self).model().token.registered(account_id@),
            final(self).model() == (ContractState {
                token: TokenModel {
                    balances: old(self).model().token.balances.insert(
                        account_id@,
                        old(self).model().token.balance_of(account_id@),
                    ),
                    ..old(self).model().token
                },
                ..old(self).model()
            }),
    {
        self.token.register_account(account_id)
    }

    /// Unregisters `account_id`, burning whatever it still holds, and says
    /// how much that was; unregistering an absent account changes nothing.
    pub fn unregister_account(&mut self, account_id: &AccountId) -> (burned: Option<u128>)
        requires
            old(self).inv(),
        ensures
            final(self).inv(),
            burned == (if old(self).model().token.registered(account_id@) {
                Some(old(self).model().token.balance_of(account_id@))
            } else {
                None::<u128>
            }),
            final(self).model() == (ContractState {
                token: if old(self).model().token.registered(account_id@) {
                    TokenModel {
                        balances: old(self).model().token.balances.remove(account_id@),
                        total_supply: old(self).model().token.total_supply - old(self).model().token.balance_of(account_id@),
                    }
                } else {
                    old(self).model().token
                },
                ..old(self).model()
            }),
    {
        self.token.unregister_account(account_id)
    }

    /// The synchronous phase of a plain transfer: checks the confirmation
    /// deposit and suspends into the oracle query; no balance moves here.
    pub fn ft_transfer(
        &self,
        sender_id: AccountId,
        attached_deposit: u128,
        receiver_id: AccountId,
        amount: u128,
        memo: Option<String>,
    ) -> (r: Result<PendingTransfer, AmlError>)
        ensures
            r is Ok <==> attached_deposit == CONFIRMATION_DEPOSIT,
            r is Err ==> r == Err::<PendingTransfer, AmlError>(AmlError::TransferPrecheckFailure),
            r matches Ok(p) ==> {
                &&& p.query.oracle_id@ == self.model().oracle
                &&& p.query.subject@ == sender_id@
                &&& p.sender_id == sender_id
                &&& p.receiver_id == receiver_id
                &&& p.amount == amount
                &&& p.memo == memo
            },
    {
        if attached_deposit != CONFIRMATION_DEPOSIT {
            return Err(AmlError::TransferPrecheckFailure);
        }
        let subject = sender_id.clone();
        Ok(
            PendingTransfer {
                query: OracleQuery { oracle_id: self.aml.get_account().clone(), subject },
                sender_id,
                receiver_id,
                amount,
                memo,
            },
        )
    }

    /// The synchronous phase of a notify-variant transfer.
    pub fn ft_transfer_call(
        &self,
        sender_id: AccountId,
        attached_deposit: u128,
        receiver_id: AccountId,
        amount: u128,
        memo: Option<String>,
        msg: String,
    ) -> (r: Result<PendingTransferCall, AmlError>)
        ensures
            r is Ok <==> attached_deposit == CONFIRMATION_DEPOSIT,
            r is Err ==> r == Err::<PendingTransferCall, AmlError>(
                AmlError::TransferPrecheckFailure,
            ),
            r matches Ok(p) ==> {
                &&& p.query.oracle_id@ == self.model().oracle
                &&& p.query.subject@ == sender_id@
                &&& p.sender_id == sender_id
                &&& p.receiver_id == receiver_id
                &&& p.amount == amount
                &&& p.memo == memo
                &&& p.msg == msg
            },
    {
        if attached_deposit != CONFIRMATION_DEPOSIT {
            return Err(AmlError::TransferPrecheckFailure);
        }
        let subject = sender_id.clone();
        Ok(
            PendingTransferCall {
                query: OracleQuery { oracle_id: self.aml.get_account().clone(), subject },
                sender_id,
                receiver_id,
                amount,
                memo,
                msg,
            },
        )
    }

    /// The callback of a plain transfer: judges what the oracle call
    /// produced and, only on approval, moves the balances. Every abort
    /// leaves the contract exactly as it stood.
    pub fn cb_ft_transfer(
        &mut self,
        sender_id: &AccountId,
        category_risk: Option<CategoryRisk>,
        receiver_id: &AccountId,
        amount: u128,
    ) -> (r: Result<(), AmlError>)
        requires
            old(self).inv(),
            gate_approves(old(self).model().conditions, category_risk) ==> can_transfer(
                old(self).model().token,
                sender_id@,
                receiver_id@,
                amount,
            ),
        ensures
            final(self).inv(),
            r == gate_outcome(old(self).model().conditions, category_risk),
            r is Ok ==> final(self).model() == (ContractState {
                token: transfer_effect(old(self).model().token, sender_id@, receiver_id@, amount),
                ..old(self).model()
            }),
            r is Err ==> *final(self) == *old(self),
    {
        let outcome = match category_risk {
            Some(cr) => self.assert_risk(cr),
            None => Err(AmlError::OracleCallFailure),
        };
        match outcome {
            Ok(_) => {
                self.token.internal_transfer(sender_id, receiver_id, amount);
                Ok(())
            },
            Err(e) => Err(e),
        }
    }

    /// The callback of a notify-variant transfer: as `cb_ft_transfer`, and
    /// on approval it also hands out the receiver notification the host must
    /// deliver; the resolution follows from what that delivery brings back.
    pub fn cb_ft_transfer_call(
        &mut self,
        sender_id: &AccountId,
        category_risk: Option<CategoryRisk>,
        receiver_id: &AccountId,
        amount: u128,
        msg: String,
    ) -> (r: Result<ReceiverNotification, AmlError>)
        requires
            old(self).inv(),
            gate_approves(old(self).model().conditions, category_risk) ==> can_transfer(
                old(self).model().token,
                sender_id@,
                receiver_id@,
                amount,
            ),
        ensures
            final(self).inv(),
            r is Ok <==> gate_outcome(old(self).model().conditions, category_risk) is Ok,
            r matches Err(e) ==> Err::<(), AmlError>(e) == gate_outcome(
                old(self).model().conditions,
                category_risk,
            ) && *final(self) == *old(self),
            r matches Ok(n) ==> {
                &&& final(self).model() == (ContractState {
                    token: transfer_effect(
                        old(self).model().token,
                        sender_id@,
                        receiver_id@,
                        amount,
                    ),
                    ..old(self).model()
                })
                &&& n.receiver_id@ == receiver_id@
                &&& n.sender_id@ == sender_id@
                &&& n.amount == amount
                &&& n.msg == msg
            },
    {
        let outcome = match category_risk {
            Some(cr) => self.assert_risk(cr),
            None => Err(AmlError::OracleCallFailure),
        };
        match outcome {
            Ok(_) => {
                self.token.internal_transfer(sender_id, receiver_id, amount);
                Ok(
                    ReceiverNotification {
                        receiver_id: receiver_id.clone(),
                        sender_id: sender_id.clone(),
                        amount,
                        msg,
                    },
                )
            },
            Err(e) => Err(e),
        }
    }

    /// Settles a notify-variant transfer from the used amount the receiver
    /// declared — a failed hook declares nothing. The declaration is clamped
    /// to the transferred amount; the receiver keeps only the used amount;
    /// the remainder returns to a still registered sender and is burned
    /// otherwise, with exactly one burn notification handed out for exactly
    /// the burned amount.
    pub fn ft_resolve_transfer(
        &mut self,
        sender_id: &AccountId,
        receiver_id: &AccountId,
        amount: u128,
        used_raw: Option<u128>,
    ) -> (r: (u128, Option<BurnEvent>))
        requires
            old(self).inv(),
            can_resolve(old(self).model().token, sender_id@, receiver_id@, amount, used_raw),
        ensures
            final(self).inv(),
            final(self).model() == (ContractState {
                token: resolve_effect(
                    old(self).model().token,
                    sender_id@,
                    receiver_id@,
                    amount,
                    used_raw,
                ),
                ..old(self).model()
            }),
            r.0 == clamp_used(amount, used_raw),
            r.1 is Some <==> resolve_burned(old(self).model().token, sender_id@, amount, used_raw)
                > 0,
            r.1 matches Some(e) ==> e.account_id@ == sender_id@ && e.amount == resolve_burned(
                old(self).model().token,
                sender_id@,
                amount,
                used_raw,
            ),
    {
        let (used_amount, burned_amount) = self.token.internal_ft_resolve_transfer(
            sender_id,
            receiver_id,
            amount,
            used_raw,
        );
        if burned_amount > 0 {
            (
                used_amount,
                Some(BurnEvent { account_id: sender_id.clone(), amount: burned_amount }),
            )
        } else {
            (used_amount, None)
        }
    }
}

} // verus!
