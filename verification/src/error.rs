//! The error taxonomy of the transfer protocol.

use vstd::prelude::*;
use vstd::string::StringExecFns;

verus! {

/// Every way an operation of this library can refuse to act.
///
/// The synchronous errors (`Unauthorized`, `InvalidRiskScore`,
/// `TransferPrecheckFailure`) are raised before any asynchronous step; the
/// asynchronous-phase errors (`ConfigurationError`, `AmlRejected`,
/// `OracleCallFailure`) are raised by the authorization callback. Either way
/// the operation that fails leaves every balance untouched.
#[derive(Clone, Copy, Debug, PartialEq, Eq, Structural)]
pub enum AmlError {
    /// A non-owner called an owner-gated operation.
    Unauthorized,
    /// A threshold outside `1 ..= 10` was offered to the registry.
    InvalidRiskScore,
    /// The caller did not supply the explicit confirmation deposit.
    TransferPrecheckFailure,
    /// The oracle named a category with no threshold, and `All` has none either.
    ConfigurationError,
    /// The reported risk score exceeds the accepted threshold.
    AmlRejected,
    /// The oracle call failed or timed out; authorization fails closed.
    OracleCallFailure,
}

impl AmlError {
    /// A short stable name for the error, for callers that report it.
    pub fn name(&self) -> (r: String)
        ensures
            r@ == self.spec_name(),
    {
        match self {
            AmlError::Unauthorized => String::from_str("ERR_MUST_BE_OWNER"),
            AmlError::InvalidRiskScore => String::from_str("ERR_RISK_SCORE_IS_INVALID"),
            AmlError::TransferPrecheckFailure => String::from_str("ERR_REQUIRES_CONFIRMATION_DEPOSIT"),
            AmlError::ConfigurationError => String::from_str("ERR_NO_DEFAULT_CATEGORY"),
            AmlError::AmlRejected => String::from_str("ERR_AML_NOT_ALLOWED"),
            AmlError::OracleCallFailure => String::from_str("ERR_ORACLE_CALL_FAILED"),
        }
    }

    /// What `name` returns for each variant.
    pub open spec fn spec_name(&self) -> Seq<char> {
        match self {
            AmlError::Unauthorized => "ERR_MUST_BE_OWNER"@,
            AmlError::InvalidRiskScore => "ERR_RISK_SCORE_IS_INVALID"@,
            AmlError::TransferPrecheckFailure => "ERR_REQUIRES_CONFIRMATION_DEPOSIT"@,
            AmlError::ConfigurationError => "ERR_NO_DEFAULT_CATEGORY"@,
            AmlError::AmlRejected => "ERR_AML_NOT_ALLOWED"@,
            AmlError::OracleCallFailure => "ERR_ORACLE_CALL_FAILED"@,
        }
    }
}

} // verus!
