//! Error codes surfaced by the ledger's operations.
//!
//! Every operation fails synchronously with one of these codes and zero
//! side effects: no currency moves and no record is mutated on an error.

use vstd::prelude::*;

verus! {

/// Errors of the crowdfunding campaign ledger.
#[derive(Clone, Copy, Debug, PartialEq, Eq, Structural)]
pub enum CrowdfundingError {
    /// The caller is not the required creator, admin or record owner.
    Unauthorized,
    /// The creator's wallet is not on the allow-list.
    NotWhitelisted,
    /// The property identifier exceeds 64 bytes.
    PropertyIdTooLong,
    /// The funding goal is zero.
    InvalidFundingGoal,
    /// The platform equity exceeds the 5000 bps (50%) cap.
    PlatformEquityTooHigh,
    /// The funding deadline is not in the future.
    InvalidDeadline,
    /// The token price is zero.
    InvalidTokenPrice,
    /// The total token supply is zero.
    InvalidTokenCount,
    /// A checked arithmetic step would overflow.
    Overflow,
    /// The campaign is not in the Active state.
    CampaignNotActive,
    /// The campaign's funding deadline has passed.
    CampaignExpired,
    /// The investment amount is zero.
    InvalidAmount,
    /// The investment amount buys less than one token.
    AmountBelowMinimum,
    /// The purchase exceeds the tokens still available.
    InsufficientTokensAvailable,
    /// Neither the goal is reached nor has the deadline passed with funds.
    CannotFinalizeYet,
    /// The named platform wallet is not the registered one.
    InvalidPlatformWallet,
    /// The campaign is not in the Cancelled state.
    CampaignNotCancelled,
    /// The investor's refund was already paid.
    AlreadyRefunded,
    /// The investor has no recorded investment to refund.
    NothingToRefund,
    /// The campaign is not in the Funded state.
    CampaignNotFunded,
    /// The investor's tokens were already minted.
    TokensAlreadyClaimed,
    /// The investor has no purchased tokens to claim.
    NoTokensToClaim,
    /// The named token account is not owned by the caller.
    InvalidTokenOwner,
    /// The named token mint is not the campaign's property mint.
    InvalidMint,
}

/// Errors of the dividend distribution engine.
#[derive(Clone, Copy, Debug, PartialEq, Eq, Structural)]
pub enum DividendError {
    /// The caller is not the pool's authority.
    Unauthorized,
    /// The property identifier exceeds 64 bytes.
    PropertyIdTooLong,
    /// The distribution frequency is zero.
    InvalidFrequency,
    /// The deposit amount is zero.
    InvalidAmount,
    /// A checked arithmetic step would overflow.
    Overflow,
    /// No deposits have accrued in the current epoch.
    NoDividendsToDistribute,
    /// The token supply is zero, so no pro-rata share exists.
    NoTokensInCirculation,
    /// The user already claimed this epoch's distribution.
    AlreadyClaimed,
    /// The user holds no tokens of the property.
    NoTokensHeld,
    /// The user's pro-rata amount rounds down to zero.
    NoDividendsToClaim,
    /// No distribution was opened for the named epoch.
    DistributionNotFound,
    /// The vault does not hold enough to pay the claim.
    InsufficientVaultBalance,
}

} // verus!
