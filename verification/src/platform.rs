//! Platform configuration and the allow-list that gates campaign
//! creation.
//!
//! The platform is administered by one admin wallet: only the admin may
//! manage the allow-list or change the wallet that receives the
//! platform's settlement share. The allow-list is consulted once, at
//! campaign creation, and never rechecked afterward.

use vstd::prelude::*;

verus! {

use crate::errors::CrowdfundingError;
use crate::events::AccountId;
use crate::events::PlatformInitialized;
use crate::events::PlatformWalletUpdated;
use crate::events::WalletRemovedFromWhitelist;
use crate::events::WalletWhitelisted;

/// The platform-wide configuration: admin, settlement wallet, and the
/// global campaign counter.
#[derive(Clone, Copy, Debug, PartialEq, Eq, Structural)]
pub struct PlatformConfig {
    pub admin: AccountId,
    pub platform_wallet: AccountId,
    pub total_campaigns: u64,
}

/// One wallet's allow-list entry. A deactivated entry stays on record;
/// only `is_active` decides eligibility.
#[derive(Clone, Copy, Debug, PartialEq, Eq, Structural)]
pub struct WhitelistEntry {
    pub wallet: AccountId,
    pub whitelisted_by: AccountId,
    pub whitelisted_at: i64,
    pub is_active: bool,
}

/// Creates the platform configuration, called once by the platform admin.
/// The campaign counter starts at zero.
pub fn initialize_platform(admin: AccountId, platform_wallet: AccountId) -> (r: (
    PlatformConfig,
    PlatformInitialized,
))
    ensures
        r.0 == (PlatformConfig { admin, platform_wallet, total_campaigns: 0 }),
        r.1 == (PlatformInitialized { admin, platform_wallet }),
{
    let config = PlatformConfig { admin, platform_wallet, total_campaigns: 0 };
    let event = PlatformInitialized { admin, platform_wallet };
    (config, event)
}

/// Adds `wallet` to the allow-list. Only the admin may do so; anyone
/// else gets `Unauthorized` and nothing is created.
pub fn add_to_whitelist(config: &PlatformConfig, caller: AccountId, wallet: AccountId, now: i64) -> (r:
    Result<(WhitelistEntry, WalletWhitelisted), CrowdfundingError>)
    ensures
        caller != config.admin ==> r == Err::<
            (WhitelistEntry, WalletWhitelisted),
            CrowdfundingError,
        >(CrowdfundingError::Unauthorized),
        caller == config.admin ==> r == Ok::<(WhitelistEntry, WalletWhitelisted), CrowdfundingError>(
            (
                WhitelistEntry { wallet, whitelisted_by: caller, whitelisted_at: now, is_active: true },
                WalletWhitelisted { wallet, whitelisted_by: caller },
            ),
        ),
{
    if caller != config.admin {
        return Err(CrowdfundingError::Unauthorized);
    }
    let entry = WhitelistEntry {
        wallet,
        whitelisted_by: caller,
        whitelisted_at: now,
        is_active: true,
    };
    let event = WalletWhitelisted { wallet, whitelisted_by: caller };
    Ok((entry, event))
}

/// Deactivates an allow-list entry. Only the admin may do so; on an
/// error the entry is unchanged.
pub fn remove_from_whitelist(config: &PlatformConfig, caller: AccountId, entry: &mut WhitelistEntry) -> (r:
    Result<WalletRemovedFromWhitelist, CrowdfundingError>)
    ensures
        caller != config.admin ==> {
            &&& r == Err::<WalletRemovedFromWhitelist, CrowdfundingError>(
                CrowdfundingError::Unauthorized,
            )
            &&& *final(entry) == *old(entry)
        },
        caller == config.admin ==> {
            &&& r == Ok::<WalletRemovedFromWhitelist, CrowdfundingError>(
                WalletRemovedFromWhitelist { wallet: old(entry).wallet },
            )
            &&& *final(entry) == (WhitelistEntry { is_active: false, ..*old(entry) })
        },
{
    if caller != config.admin {
        return Err(CrowdfundingError::Unauthorized);
    }
    entry.is_active = false;
    Ok(WalletRemovedFromWhitelist { wallet: entry.wallet })
}

/// Rebinds the wallet that receives the platform's settlement share.
/// Only the admin may do so; on an error the configuration is unchanged.
pub fn update_platform_wallet(config: &mut PlatformConfig, caller: AccountId, new_wallet: AccountId) -> (r:
    Result<PlatformWalletUpdated, CrowdfundingError>)
    ensures
        caller != old(config).admin ==> {
            &&& r == Err::<PlatformWalletUpdated, CrowdfundingError>(CrowdfundingError::Unauthorized)
            &&& *final(config) == *old(config)
        },
        caller == old(config).admin ==> {
            &&& r == Ok::<PlatformWalletUpdated, CrowdfundingError>(
                PlatformWalletUpdated {
                    old_wallet: old(config).platform_wallet,
                    new_wallet,
                },
            )
            &&& *final(config) == (PlatformConfig { platform_wallet: new_wallet, ..*old(config) })
        },
{
    if caller != config.admin {
        return Err(CrowdfundingError::Unauthorized);
    }
    let old_wallet = config.platform_wallet;
    config.platform_wallet = new_wallet;
    Ok(PlatformWalletUpdated { old_wallet, new_wallet })
}

} // verus!
