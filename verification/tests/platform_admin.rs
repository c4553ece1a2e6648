use crowdfunding::campaign::create_campaign;
use crowdfunding::errors::CrowdfundingError;
use crowdfunding::platform::add_to_whitelist;
use crowdfunding::platform::initialize_platform;
use crowdfunding::platform::remove_from_whitelist;
use crowdfunding::platform::update_platform_wallet;

const ADMIN: u64 = 1;
const PLATFORM_WALLET: u64 = 2;
const CREATOR: u64 = 10;
const INTRUDER: u64 = 66;

const NOW: i64 = 100;

#[test]
fn initialize_platform_starts_with_no_campaigns() {
    let (config, event) = initialize_platform(ADMIN, PLATFORM_WALLET);
    assert_eq!(config.admin, ADMIN);
    assert_eq!(config.platform_wallet, PLATFORM_WALLET);
    assert_eq!(config.total_campaigns, 0);
    assert_eq!(event.admin, ADMIN);
    assert_eq!(event.platform_wallet, PLATFORM_WALLET);
}

#[test]
fn only_the_admin_manages_the_whitelist() {
    let (config, _) = initialize_platform(ADMIN, PLATFORM_WALLET);

    assert_eq!(
        add_to_whitelist(&config, INTRUDER, CREATOR, NOW).unwrap_err(),
        CrowdfundingError::Unauthorized
    );

    let (mut entry, event) = add_to_whitelist(&config, ADMIN, CREATOR, NOW).unwrap();
    assert_eq!(entry.wallet, CREATOR);
    assert_eq!(entry.whitelisted_by, ADMIN);
    assert_eq!(entry.whitelisted_at, NOW);
    assert!(entry.is_active);
    assert_eq!(event.wallet, CREATOR);
    assert_eq!(event.whitelisted_by, ADMIN);

    assert_eq!(
        remove_from_whitelist(&config, INTRUDER, &mut entry).unwrap_err(),
        CrowdfundingError::Unauthorized
    );
    assert!(entry.is_active);

    let event = remove_from_whitelist(&config, ADMIN, &mut entry).unwrap();
    assert_eq!(event.wallet, CREATOR);
    assert!(!entry.is_active);
}

#[test]
fn a_removed_wallet_cannot_create_campaigns() {
    let (mut config, _) = initialize_platform(ADMIN, PLATFORM_WALLET);
    let (mut entry, _) = add_to_whitelist(&config, ADMIN, CREATOR, NOW).unwrap();
    remove_from_whitelist(&config, ADMIN, &mut entry).unwrap();
    let err = create_campaign(
        &mut config,
        &entry,
        CREATOR,
        100,
        101,
        102,
        b"prop-1".to_vec(),
        1_000,
        1_000,
        NOW + 100,
        10,
        100,
        NOW,
    )
    .unwrap_err();
    assert_eq!(err, CrowdfundingError::NotWhitelisted);
    assert_eq!(config.total_campaigns, 0);
}

#[test]
fn only_the_admin_updates_the_platform_wallet() {
    let (mut config, _) = initialize_platform(ADMIN, PLATFORM_WALLET);
    assert_eq!(
        update_platform_wallet(&mut config, INTRUDER, 9).unwrap_err(),
        CrowdfundingError::Unauthorized
    );
    assert_eq!(config.platform_wallet, PLATFORM_WALLET);
    let event = update_platform_wallet(&mut config, ADMIN, 9).unwrap();
    assert_eq!(event.old_wallet, PLATFORM_WALLET);
    assert_eq!(event.new_wallet, 9);
    assert_eq!(config.platform_wallet, 9);
}
