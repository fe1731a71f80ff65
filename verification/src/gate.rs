//! The authorization gate: what a transfer waits for, and how the oracle's
//! answer decides it.
//!
//! A transfer suspends exactly once, at the oracle call. Its parameters
//! travel as an owned [`PendingTransfer`] or [`PendingTransferCall`] value
//! attached to that call — never as shared state — so independent transfers
//! in flight cannot interfere. The host performs the query a pending value
//! names and hands the answer, or the fact that the call failed, to the
//! matching callback; authorization fails closed on any uncertainty.

use vstd::prelude::*;

use crate::AccountId;
use crate::category::{Category, CategoryRisk, RiskScore};
use crate::error::AmlError;
use crate::registry::{risk_allowed, risk_outcome};

verus! {

/// The confirmation deposit a caller must attach to a transfer entry point:
/// a minimal amount whose presence proves deliberate intent.
pub const CONFIRMATION_DEPOSIT: u128 = 1;

/// The classification interface the oracle serves: the risk category of an
/// address and the severity of the association. The oracle is an external
/// collaborator; nothing is promised of its answers, and the decision must hold
/// whatever comes back.
pub trait ExtAmlContract {
    /// Classifies `address`.
    fn get_address(&self, address: AccountId) -> CategoryRisk;
}

/// The one external call a pending transfer waits for: ask the oracle
/// account to classify the subject.
pub struct OracleQuery {
    /// The account that answers classification queries.
    pub oracle_id: AccountId,
    /// The party to classify: the transfer's sender.
    pub subject: AccountId,
}

/// A plain transfer, suspended at its oracle call. The host performs the
/// query and hands the answer to `cb_ft_transfer` together with these
/// fields; the value is consumed by that one callback and never stored.
pub struct PendingTransfer {
    /// The classification call to perform.
    pub query: OracleQuery,
    /// The sender: the account the classification is about.
    pub sender_id: AccountId,
    /// The receiver.
    pub receiver_id: AccountId,
    /// The amount to move.
    pub amount: u128,
    /// An optional note carried with the transfer.
    pub memo: Option<String>,
}

/// A notify-variant transfer, suspended at its oracle call; consumed by
/// `cb_ft_transfer_call`.
pub struct PendingTransferCall {
    /// The classification call to perform.
    pub query: OracleQuery,
    /// The sender: the account the classification is about.
    pub sender_id: AccountId,
    /// The receiver.
    pub receiver_id: AccountId,
    /// The amount to move.
    pub amount: u128,
    /// An optional note carried with the transfer.
    pub memo: Option<String>,
    /// The message handed to the receiver's reaction hook.
    pub msg: String,
}

/// The receiver's reaction hook to invoke after a notify-variant transfer
/// settled its ledger move: the host delivers it and brings back the used
/// amount the receiver declares, or the fact that the hook failed.
pub struct ReceiverNotification {
    /// The account whose hook is invoked.
    pub receiver_id: AccountId,
    /// The transfer's sender, as the hook learns it.
    pub sender_id: AccountId,
    /// The transferred amount the hook may use.
    pub amount: u128,
    /// The message the transfer carried for the hook.
    pub msg: String,
}

/// One bookkeeping notification per burn: the resolver hands it out exactly
/// when a resolution burned value, and the host delivers it exactly once.
pub struct BurnEvent {
    /// The sender whose refund could not be returned.
    pub account_id: AccountId,
    /// The burned amount.
    pub amount: u128,
}

/// Whether a transfer is approved, given the registry's conditions and
/// what came back from the oracle call: only a delivered classification that
/// the registry allows approves; a failed call never does.
pub open spec fn gate_approves(
    conditions: Map<Category, RiskScore>,
    category_risk: Option<CategoryRisk>,
) -> bool {
    match category_risk {
        Some(cr) => risk_allowed(conditions, cr.0, cr.1),
        None => false,
    }
}

/// The exact authorization outcome: a failed oracle call aborts as
/// `OracleCallFailure` (authorization fails closed), and a delivered
/// classification is judged against the registry.
pub open spec fn gate_outcome(
    conditions: Map<Category, RiskScore>,
    category_risk: Option<CategoryRisk>,
) -> Result<(), AmlError> {
    match category_risk {
        Some(cr) => risk_outcome(conditions, cr),
        None => Err(AmlError::OracleCallFailure),
    }
}

} // verus!
