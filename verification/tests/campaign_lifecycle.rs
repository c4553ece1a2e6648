use crowdfunding::campaign::create_campaign;
use crowdfunding::campaign::CampaignLedger;
use crowdfunding::campaign::CampaignStatus;
use crowdfunding::errors::CrowdfundingError;
use crowdfunding::platform::add_to_whitelist;
use crowdfunding::platform::initialize_platform;
use crowdfunding::platform::PlatformConfig;
use crowdfunding::platform::WhitelistEntry;

const ADMIN: u64 = 1;
const PLATFORM_WALLET: u64 = 2;
const CREATOR: u64 = 10;
const CAMPAIGN_ADDR: u64 = 100;
const ESCROW_ADDR: u64 = 101;
const MINT_ADDR: u64 = 102;
const ALICE: u64 = 21;
const BOB: u64 = 22;

const NOW: i64 = 100;
const DEADLINE: i64 = 1_000;

fn setup_platform() -> (PlatformConfig, WhitelistEntry) {
    let (config, _) = initialize_platform(ADMIN, PLATFORM_WALLET);
    let (entry, _) = add_to_whitelist(&config, ADMIN, CREATOR, NOW).unwrap();
    (config, entry)
}

fn active_campaign(
    funding_goal: u64,
    platform_equity_bps: u16,
    token_price: u64,
    total_tokens: u64,
) -> (PlatformConfig, CampaignLedger) {
    let (mut config, entry) = setup_platform();
    let (ledger, _) = create_campaign(
        &mut config,
        &entry,
        CREATOR,
        CAMPAIGN_ADDR,
        ESCROW_ADDR,
        MINT_ADDR,
        b"prop-1".to_vec(),
        funding_goal,
        platform_equity_bps,
        DEADLINE,
        token_price,
        total_tokens,
        NOW,
    )
    .unwrap();
    (config, ledger)
}

#[test]
fn create_campaign_reserves_platform_tokens() {
    let (mut config, entry) = setup_platform();
    let (ledger, event) = create_campaign(
        &mut config,
        &entry,
        CREATOR,
        CAMPAIGN_ADDR,
        ESCROW_ADDR,
        MINT_ADDR,
        b"prop-1".to_vec(),
        1_000,
        1_000,
        DEADLINE,
        10,
        100,
        NOW,
    )
    .unwrap();
    assert_eq!(event.platform_tokens, 10);
    assert_eq!(event.tokens_available, 90);
    assert_eq!(event.campaign, CAMPAIGN_ADDR);
    assert_eq!(event.deadline, DEADLINE);
    assert_eq!(config.total_campaigns, 1);
    assert_eq!(ledger.campaign.status, CampaignStatus::Active);
    assert_eq!(ledger.campaign.total_raised, 0);
    assert_eq!(ledger.campaign.tokens_sold, 0);
    assert_eq!(ledger.campaign.investor_count, 0);
    assert_eq!(ledger.escrow.balance, 0);
    assert_eq!(ledger.escrow.owner, CAMPAIGN_ADDR);
    assert_eq!(ledger.escrow.address, ESCROW_ADDR);
}

#[test]
fn create_campaign_rounds_reservation_down() {
    let (mut config, entry) = setup_platform();
    let (_, event) = create_campaign(
        &mut config,
        &entry,
        CREATOR,
        CAMPAIGN_ADDR,
        ESCROW_ADDR,
        MINT_ADDR,
        b"prop-1".to_vec(),
        1_000,
        250,
        DEADLINE,
        10,
        999,
        NOW,
    )
    .unwrap();
    // floor(999 * 250 / 10000) = floor(24.975)
    assert_eq!(event.platform_tokens, 24);
    assert_eq!(event.tokens_available, 975);
}

#[test]
fn create_campaign_rejects_bad_requests() {
    let (mut config, entry) = setup_platform();
    let create = |config: &mut PlatformConfig,
                  entry: &WhitelistEntry,
                  creator: u64,
                  property_id: Vec<u8>,
                  goal: u64,
                  bps: u16,
                  deadline: i64,
                  price: u64,
                  tokens: u64| {
        create_campaign(
            config,
            entry,
            creator,
            CAMPAIGN_ADDR,
            ESCROW_ADDR,
            MINT_ADDR,
            property_id,
            goal,
            bps,
            deadline,
            price,
            tokens,
            NOW,
        )
    };

    // A whitelist entry for someone else's wallet.
    let err = create(&mut config, &entry, ALICE, b"p".to_vec(), 1, 0, DEADLINE, 1, 1)
        .unwrap_err();
    assert_eq!(err, CrowdfundingError::Unauthorized);

    let mut inactive = entry;
    inactive.is_active = false;
    let err = create(&mut config, &inactive, CREATOR, b"p".to_vec(), 1, 0, DEADLINE, 1, 1)
        .unwrap_err();
    assert_eq!(err, CrowdfundingError::NotWhitelisted);

    let err = create(&mut config, &entry, CREATOR, vec![b'x'; 65], 1, 0, DEADLINE, 1, 1)
        .unwrap_err();
    assert_eq!(err, CrowdfundingError::PropertyIdTooLong);

    let err = create(&mut config, &entry, CREATOR, b"p".to_vec(), 0, 0, DEADLINE, 1, 1)
        .unwrap_err();
    assert_eq!(err, CrowdfundingError::InvalidFundingGoal);

    let err = create(&mut config, &entry, CREATOR, b"p".to_vec(), 1, 5_001, DEADLINE, 1, 1)
        .unwrap_err();
    assert_eq!(err, CrowdfundingError::PlatformEquityTooHigh);

    let err = create(&mut config, &entry, CREATOR, b"p".to_vec(), 1, 0, NOW, 1, 1).unwrap_err();
    assert_eq!(err, CrowdfundingError::InvalidDeadline);

    let err = create(&mut config, &entry, CREATOR, b"p".to_vec(), 1, 0, DEADLINE, 0, 1)
        .unwrap_err();
    assert_eq!(err, CrowdfundingError::InvalidTokenPrice);

    let err = create(&mut config, &entry, CREATOR, b"p".to_vec(), 1, 0, DEADLINE, 1, 0)
        .unwrap_err();
    assert_eq!(err, CrowdfundingError::InvalidTokenCount);

    // No campaign was counted by any rejected request.
    assert_eq!(config.total_campaigns, 0);
}

#[test]
fn invest_accumulates_totals_and_records() {
    let (_, mut ledger) = active_campaign(1_000, 1_000, 10, 100);

    let (event, payment) = ledger.invest(ALICE, 500, NOW + 1).unwrap();
    assert_eq!(event.tokens_purchased, 50);
    assert_eq!(event.total_invested, 500);
    assert_eq!(payment.from, ALICE);
    assert_eq!(payment.to, ESCROW_ADDR);
    assert_eq!(payment.amount, 500);
    assert_eq!(ledger.campaign.investor_count, 1);

    let (event, _) = ledger.invest(BOB, 300, NOW + 2).unwrap();
    assert_eq!(event.tokens_purchased, 30);
    assert_eq!(ledger.campaign.investor_count, 2);

    // A repeat investment accumulates onto the same record.
    let (event, _) = ledger.invest(ALICE, 100, NOW + 3).unwrap();
    assert_eq!(event.total_invested, 600);
    assert_eq!(ledger.campaign.investor_count, 2);

    assert_eq!(ledger.campaign.total_raised, 900);
    assert_eq!(ledger.campaign.tokens_sold, 90);
    assert_eq!(ledger.escrow.balance, 900);

    let record = ledger.investor_record(ALICE).unwrap();
    assert_eq!(record.amount_invested, 600);
    assert_eq!(record.tokens_purchased, 60);
    assert!(!record.refunded);
    assert!(!record.tokens_claimed);

    // The raised total is exactly the sum over the records.
    let sum: u64 = [ALICE, BOB]
        .iter()
        .map(|w| ledger.investor_record(*w).unwrap().amount_invested)
        .sum();
    assert_eq!(ledger.campaign.total_raised, sum);
}

#[test]
fn invest_remainder_buys_no_tokens() {
    let (_, mut ledger) = active_campaign(1_000, 0, 10, 100);
    let (event, _) = ledger.invest(ALICE, 25, NOW + 1).unwrap();
    assert_eq!(event.tokens_purchased, 2);
    assert_eq!(event.amount, 25);
    let record = ledger.investor_record(ALICE).unwrap();
    assert_eq!(record.amount_invested, 25);
    assert_eq!(record.tokens_purchased, 2);
}

#[test]
fn invest_rejects_bad_requests() {
    let (_, mut ledger) = active_campaign(1_000, 1_000, 10, 100);

    assert_eq!(
        ledger.invest(ALICE, 500, DEADLINE).unwrap_err(),
        CrowdfundingError::CampaignExpired
    );
    assert_eq!(ledger.invest(ALICE, 0, NOW + 1).unwrap_err(), CrowdfundingError::InvalidAmount);
    assert_eq!(
        ledger.invest(ALICE, 9, NOW + 1).unwrap_err(),
        CrowdfundingError::AmountBelowMinimum
    );
    // Only 90 tokens are available after the platform's reservation.
    assert_eq!(
        ledger.invest(ALICE, 910, NOW + 1).unwrap_err(),
        CrowdfundingError::InsufficientTokensAvailable
    );
    // Nothing changed along the way.
    assert_eq!(ledger.campaign.total_raised, 0);
    assert_eq!(ledger.campaign.investor_count, 0);
    assert_eq!(ledger.escrow.balance, 0);

    ledger.cancel_campaign(CREATOR).unwrap();
    assert_eq!(
        ledger.invest(ALICE, 500, NOW + 1).unwrap_err(),
        CrowdfundingError::CampaignNotActive
    );
}

#[test]
fn tokens_sold_never_cut_into_the_reserve() {
    // 100 tokens, 10% reserved: exactly 90 can ever be sold.
    let (_, mut ledger) = active_campaign(10_000, 1_000, 10, 100);
    ledger.invest(ALICE, 900, NOW + 1).unwrap();
    assert_eq!(ledger.campaign.tokens_sold, 90);
    assert_eq!(
        ledger.invest(BOB, 10, NOW + 2).unwrap_err(),
        CrowdfundingError::InsufficientTokensAvailable
    );
    assert_eq!(ledger.campaign.tokens_sold, 90);
}

#[test]
fn invest_rejects_overflowing_totals() {
    let half: u64 = 1 << 63;
    let (_, mut ledger) = active_campaign(1_000, 0, half, 4);
    ledger.invest(ALICE, half, NOW + 1).unwrap();
    assert_eq!(ledger.campaign.total_raised, half);
    let before = ledger.clone();
    assert_eq!(ledger.invest(BOB, half, NOW + 2).unwrap_err(), CrowdfundingError::Overflow);
    assert_eq!(ledger, before);
}

#[test]
fn finalize_splits_escrow_exactly() {
    // 200 tokens, 10% reserved: 180 are available, enough for the 110
    // bought below.
    let (config, mut ledger) = active_campaign(1_000, 1_000, 10, 200);
    ledger.invest(ALICE, 500, NOW + 1).unwrap();
    ledger.invest(BOB, 600, NOW + 2).unwrap();
    assert_eq!(ledger.campaign.total_raised, 1_100);

    let (event, payments) = ledger
        .finalize_campaign(&config, CREATOR, PLATFORM_WALLET, NOW + 3)
        .unwrap();
    assert_eq!(event.total_raised, 1_100);
    assert_eq!(event.platform_share, 110);
    assert_eq!(event.creator_share, 990);
    assert_eq!(event.platform_share + event.creator_share, event.total_raised);
    assert_eq!(event.investors, 2);

    assert_eq!(payments.len(), 2);
    assert_eq!(payments[0].from, ESCROW_ADDR);
    assert_eq!(payments[0].to, PLATFORM_WALLET);
    assert_eq!(payments[0].amount, 110);
    assert_eq!(payments[1].from, ESCROW_ADDR);
    assert_eq!(payments[1].to, CREATOR);
    assert_eq!(payments[1].amount, 990);

    assert_eq!(ledger.campaign.status, CampaignStatus::Funded);
    assert_eq!(ledger.escrow.balance, 0);

    // Each investor claims exactly floor(amount / token_price) tokens.
    let (event, mint) = ledger.claim_tokens(ALICE).unwrap();
    assert_eq!(event.tokens, 50);
    assert_eq!(mint.mint, MINT_ADDR);
    assert_eq!(mint.to, ALICE);
    assert_eq!(mint.amount, 50);
    assert_eq!(mint.authority, CAMPAIGN_ADDR);
    let (event, mint) = ledger.claim_tokens(BOB).unwrap();
    assert_eq!(event.tokens, 60);
    assert_eq!(mint.amount, 60);

    // A second claim fails and mints nothing.
    let before = ledger.clone();
    assert_eq!(
        ledger.claim_tokens(ALICE).unwrap_err(),
        CrowdfundingError::TokensAlreadyClaimed
    );
    assert_eq!(ledger, before);
}

#[test]
fn finalize_skips_zero_platform_share() {
    let (config, mut ledger) = active_campaign(100, 0, 10, 100);
    ledger.invest(ALICE, 100, NOW + 1).unwrap();
    let (event, payments) = ledger
        .finalize_campaign(&config, CREATOR, PLATFORM_WALLET, NOW + 2)
        .unwrap();
    assert_eq!(event.platform_share, 0);
    assert_eq!(event.creator_share, 100);
    assert_eq!(payments.len(), 1);
    assert_eq!(payments[0].to, CREATOR);
    assert_eq!(payments[0].amount, 100);
}

#[test]
fn finalize_requires_goal_or_deadline_with_funds() {
    let (config, mut ledger) = active_campaign(1_000, 1_000, 10, 100);

    // Nothing raised: not even a passed deadline allows settlement.
    assert_eq!(
        ledger
            .finalize_campaign(&config, CREATOR, PLATFORM_WALLET, DEADLINE + 1)
            .unwrap_err(),
        CrowdfundingError::CannotFinalizeYet
    );

    // Underfunded before the deadline: not yet.
    ledger.invest(ALICE, 500, NOW + 1).unwrap();
    assert_eq!(
        ledger
            .finalize_campaign(&config, CREATOR, PLATFORM_WALLET, NOW + 2)
            .unwrap_err(),
        CrowdfundingError::CannotFinalizeYet
    );

    // Underfunded after the deadline with something raised: allowed.
    let (event, _) = ledger
        .finalize_campaign(&config, CREATOR, PLATFORM_WALLET, DEADLINE + 1)
        .unwrap();
    assert_eq!(event.total_raised, 500);
}

#[test]
fn finalize_rejects_wrong_caller_or_wallet() {
    let (config, mut ledger) = active_campaign(100, 1_000, 10, 100);
    ledger.invest(ALICE, 100, NOW + 1).unwrap();
    assert_eq!(
        ledger
            .finalize_campaign(&config, ALICE, PLATFORM_WALLET, NOW + 2)
            .unwrap_err(),
        CrowdfundingError::Unauthorized
    );
    assert_eq!(
        ledger.finalize_campaign(&config, CREATOR, ALICE, NOW + 2).unwrap_err(),
        CrowdfundingError::InvalidPlatformWallet
    );
    ledger.finalize_campaign(&config, CREATOR, PLATFORM_WALLET, NOW + 2).unwrap();
    // Funded is terminal: settlement cannot run twice.
    assert_eq!(
        ledger
            .finalize_campaign(&config, CREATOR, PLATFORM_WALLET, NOW + 3)
            .unwrap_err(),
        CrowdfundingError::CampaignNotActive
    );
}

#[test]
fn cancel_then_refund_each_investor_once() {
    let (_, mut ledger) = active_campaign(1_000, 1_000, 10, 100);
    ledger.invest(ALICE, 500, NOW + 1).unwrap();
    ledger.invest(BOB, 300, NOW + 2).unwrap();

    // Refunds are only for cancelled campaigns.
    assert_eq!(
        ledger.claim_refund(ALICE).unwrap_err(),
        CrowdfundingError::CampaignNotCancelled
    );

    assert_eq!(
        ledger.cancel_campaign(ALICE).unwrap_err(),
        CrowdfundingError::Unauthorized
    );
    let event = ledger.cancel_campaign(CREATOR).unwrap();
    assert_eq!(event.total_raised, 800);
    assert_eq!(event.investors_to_refund, 2);
    assert_eq!(ledger.campaign.status, CampaignStatus::Cancelled);
    // Cancelled is terminal.
    assert_eq!(
        ledger.cancel_campaign(CREATOR).unwrap_err(),
        CrowdfundingError::CampaignNotActive
    );

    let (event, payment) = ledger.claim_refund(ALICE).unwrap();
    assert_eq!(event.amount, 500);
    assert_eq!(payment.from, ESCROW_ADDR);
    assert_eq!(payment.to, ALICE);
    assert_eq!(payment.amount, 500);
    assert_eq!(ledger.escrow.balance, 300);
    assert!(ledger.investor_record(ALICE).unwrap().refunded);

    // A second refund fails and moves nothing.
    let before = ledger.clone();
    assert_eq!(ledger.claim_refund(ALICE).unwrap_err(), CrowdfundingError::AlreadyRefunded);
    assert_eq!(ledger, before);

    // Someone who never invested has nothing to refund.
    assert_eq!(ledger.claim_refund(77).unwrap_err(), CrowdfundingError::NothingToRefund);

    let (event, _) = ledger.claim_refund(BOB).unwrap();
    assert_eq!(event.amount, 300);
    assert_eq!(ledger.escrow.balance, 0);
}

#[test]
fn claim_tokens_requires_funded_campaign() {
    let (config, mut ledger) = active_campaign(100, 1_000, 10, 100);
    ledger.invest(ALICE, 100, NOW + 1).unwrap();
    assert_eq!(ledger.claim_tokens(ALICE).unwrap_err(), CrowdfundingError::CampaignNotFunded);
    ledger.finalize_campaign(&config, CREATOR, PLATFORM_WALLET, NOW + 2).unwrap();
    assert_eq!(ledger.claim_tokens(BOB).unwrap_err(), CrowdfundingError::NoTokensToClaim);
    let (event, _) = ledger.claim_tokens(ALICE).unwrap();
    assert_eq!(event.tokens, 10);
}
