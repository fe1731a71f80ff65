//! Risk categories and risk scores.

use vstd::prelude::*;

verus! {

/// A counterparty risk class.
///
/// The set of categories is a closed enumeration; an open string identifier
/// would admit classes unknown to the registry, and the `All` bucket already
/// covers every class that carries no explicit threshold. Two values are
/// reserved: `All` is the default bucket that lookups fall back to, and
/// `Exempt` is a sentinel meaning the party carries no category and the
/// check is skipped entirely.
#[derive(Clone, Copy, Debug, PartialEq, Eq, Structural)]
pub enum Category {
    /// Default bucket for all categories without an explicit threshold.
    All,
    /// Sentinel: the party carries no category; no check is performed.
    Exempt,
    /// Wallet service - custodial or mixed wallets.
    WalletService,
    /// Merchant service.
    MerchantService,
    /// Mining pool.
    MiningPool,
    /// Exchange with high KYC standards.
    LowRiskExchange,
    /// Exchange with medium KYC standards.
    MediumRiskExchange,
    /// DeFi application.
    DeFi,
    /// OTC broker.
    OTCBroker,
    /// Cryptocurrency ATM.
    ATM,
    /// Gambling.
    Gambling,
    /// Illicit organization.
    IllicitOrganization,
    /// Mixer.
    Mixer,
    /// Darknet market or service.
    DarknetService,
    /// Scam.
    Scam,
    /// Ransomware.
    Ransomware,
    /// Stolen funds.
    Theft,
    /// Fake assets.
    Counterfeit,
    /// Terrorist financing.
    TerroristFinancing,
    /// Sanctions.
    Sanctions,
    /// Child abuse materials.
    ChildAbuse,
}

/// Classification severity; higher is riskier.
pub type RiskScore = u8;

/// The largest risk score a threshold may take.
pub const INITIAL_MAX_RISK_LEVEL: RiskScore = 10;

/// A classification as the oracle reports it: the party's category and the
/// severity of its association with that category.
pub type CategoryRisk = (Category, RiskScore);

/// A threshold may be written to the registry only in `1 ..= 10`.
pub open spec fn valid_risk_score(score: RiskScore) -> bool {
    1 <= score <= INITIAL_MAX_RISK_LEVEL
}

} // verus!
