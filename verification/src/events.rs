//! Structured events emitted by every state-mutating operation.
//!
//! These are the system's audit log and the interface for off-core
//! observers: each operation returns the event that describes it, carrying
//! the operation's key identifiers and resulting amounts. Account
//! addresses are carried as plain [`AccountId`] values.

use vstd::prelude::*;

verus! {

/// An account address: campaign, escrow vault, wallet, mint or pool.
pub type AccountId = u64;

/// The platform configuration was created.
#[derive(Clone, Copy, Debug, PartialEq, Eq, Structural)]
pub struct PlatformInitialized {
    pub admin: AccountId,
    pub platform_wallet: AccountId,
}

/// A wallet was added to the allow-list.
#[derive(Clone, Copy, Debug, PartialEq, Eq, Structural)]
pub struct WalletWhitelisted {
    pub wallet: AccountId,
    pub whitelisted_by: AccountId,
}

/// A wallet's allow-list entry was deactivated.
#[derive(Clone, Copy, Debug, PartialEq, Eq, Structural)]
pub struct WalletRemovedFromWhitelist {
    pub wallet: AccountId,
}

/// A campaign was created in the Active state.
///
/// `platform_tokens` and `tokens_available` are computed for observers
/// and are not persisted on the campaign: availability accounting
/// recomputes the same formula.
#[derive(Clone, Debug, PartialEq, Eq)]
pub struct CampaignCreated {
    pub campaign: AccountId,
    pub creator: AccountId,
    pub property_id: Vec<u8>,
    pub funding_goal: u64,
    pub platform_equity_bps: u16,
    pub platform_tokens: u64,
    pub tokens_available: u64,
    pub deadline: i64,
}

/// An investment was accepted and escrowed.
#[derive(Clone, Copy, Debug, PartialEq, Eq, Structural)]
pub struct InvestmentMade {
    pub campaign: AccountId,
    pub investor: AccountId,
    pub amount: u64,
    pub tokens_purchased: u64,
    pub total_invested: u64,
}

/// A campaign settled: escrow was split between platform and creator.
#[derive(Clone, Copy, Debug, PartialEq, Eq, Structural)]
pub struct CampaignFinalized {
    pub campaign: AccountId,
    pub total_raised: u64,
    pub platform_share: u64,
    pub creator_share: u64,
    pub investors: u32,
}

/// A campaign was cancelled; refunds are investor-initiated afterward.
#[derive(Clone, Copy, Debug, PartialEq, Eq, Structural)]
pub struct CampaignCancelled {
    pub campaign: AccountId,
    pub total_raised: u64,
    pub investors_to_refund: u32,
}

/// An investor's full accumulated investment was refunded.
#[derive(Clone, Copy, Debug, PartialEq, Eq, Structural)]
pub struct RefundClaimed {
    pub campaign: AccountId,
    pub investor: AccountId,
    pub amount: u64,
}

/// An investor's purchased tokens were minted to them.
#[derive(Clone, Copy, Debug, PartialEq, Eq, Structural)]
pub struct TokensClaimed {
    pub campaign: AccountId,
    pub investor: AccountId,
    pub tokens: u64,
}

/// The registered platform wallet was changed.
#[derive(Clone, Copy, Debug, PartialEq, Eq, Structural)]
pub struct PlatformWalletUpdated {
    pub old_wallet: AccountId,
    pub new_wallet: AccountId,
}

/// A dividend pool was created for one token supply.
#[derive(Clone, Copy, Debug, PartialEq, Eq, Structural)]
pub struct PoolInitialized {
    pub pool: AccountId,
    pub property_mint: AccountId,
    pub authority: AccountId,
}

/// Income was deposited into the pool's vault for the current epoch.
#[derive(Clone, Copy, Debug, PartialEq, Eq, Structural)]
pub struct DividendDeposited {
    pub pool: AccountId,
    pub amount: u64,
    pub epoch: u64,
    pub depositor: AccountId,
}

/// A distribution epoch was opened against a token-supply snapshot.
#[derive(Clone, Copy, Debug, PartialEq, Eq, Structural)]
pub struct DistributionStarted {
    pub pool: AccountId,
    pub epoch: u64,
    pub total_amount: u64,
    pub amount_per_token: u64,
}

/// A user's pro-rata dividend for one epoch was paid out.
#[derive(Clone, Copy, Debug, PartialEq, Eq, Structural)]
pub struct DividendClaimed {
    pub pool: AccountId,
    pub user: AccountId,
    pub epoch: u64,
    pub amount: u64,
}

/// The pool's authority was rebound; both values for auditability.
#[derive(Clone, Copy, Debug, PartialEq, Eq, Structural)]
pub struct AuthorityUpdated {
    pub pool: AccountId,
    pub old_authority: AccountId,
    pub new_authority: AccountId,
}

} // verus!
