//! The campaign ledger: one fund-raise for one property.
//!
//! A [`CampaignLedger`] owns the campaign record, its escrow vault and
//! the investor records, and drives the `Active -> {Funded, Cancelled}`
//! state machine: create, invest, finalize or cancel, then claim tokens
//! or refunds. Its well-formedness invariant [`CampaignLedger::wf`] ties
//! the aggregate together: the raised total is the sum of the investor
//! records, tokens sold never cut into the platform's reserved equity,
//! and the escrow balance always covers what is still owed.

use vstd::prelude::*;

verus! {

use vstd::arithmetic::div_mod::lemma_div_by_self;
use vstd::arithmetic::div_mod::lemma_div_is_ordered;

use crate::errors::CrowdfundingError;
use crate::escrow::EscrowVault;
use crate::escrow::MintInstruction;
use crate::escrow::Payment;
use crate::events::AccountId;
use crate::events::CampaignCancelled;
use crate::events::CampaignCreated;
use crate::events::CampaignFinalized;
use crate::events::InvestmentMade;
use crate::events::RefundClaimed;
use crate::events::TokensClaimed;
use crate::math::bps_share;
use crate::math::bps_share_u64;
use crate::math::lemma_bps_share_bounds;
use crate::platform::PlatformConfig;
use crate::platform::WhitelistEntry;

/// Lifecycle of a campaign. `Active` is the only state that accepts
/// investments; `Funded` and `Cancelled` are terminal.
#[derive(Clone, Copy, Debug, PartialEq, Eq, Structural)]
pub enum CampaignStatus {
    Active,
    Funded,
    Cancelled,
}

/// The admissible status transitions: stay put, or leave `Active` for
/// one of the two terminal states. Nothing leaves `Funded` or
/// `Cancelled`.
pub open spec fn status_step_allowed(pre: CampaignStatus, post: CampaignStatus) -> bool {
    ||| post == pre
    ||| (pre is Active && (post is Funded || post is Cancelled))
}

/// One fund-raise for one property.
#[derive(Clone, Debug, PartialEq, Eq)]
pub struct Campaign {
    pub creator: AccountId,
    pub property_mint: AccountId,
    pub escrow_vault: AccountId,
    pub property_id: Vec<u8>,
    pub funding_goal: u64,
    pub total_raised: u64,
    pub platform_equity_bps: u16,
    pub funding_deadline: i64,
    pub token_price: u64,
    pub total_tokens: u64,
    pub tokens_sold: u64,
    pub investor_count: u32,
    pub status: CampaignStatus,
    pub created_at: i64,
}

/// One investor's position in one campaign: cumulative accumulators
/// across repeated investments, and the two exactly-once claim flags.
#[derive(Clone, Copy, Debug, PartialEq, Eq, Structural)]
pub struct InvestorRecord {
    pub investor: AccountId,
    pub campaign: AccountId,
    pub amount_invested: u64,
    pub tokens_purchased: u64,
    pub invested_at: i64,
    pub refunded: bool,
    pub tokens_claimed: bool,
}

/// The sum of the records' invested amounts.
pub open spec fn sum_invested(s: Seq<InvestorRecord>) -> int
    decreases s.len(),
{
    if s.len() == 0 {
        0
    } else {
        sum_invested(s.drop_last()) + s.last().amount_invested
    }
}

/// The sum of the records' purchased tokens.
pub open spec fn sum_tokens(s: Seq<InvestorRecord>) -> int
    decreases s.len(),
{
    if s.len() == 0 {
        0
    } else {
        sum_tokens(s.drop_last()) + s.last().tokens_purchased
    }
}

/// What one record is still owed on cancellation: its full amount if
/// not yet refunded, nothing afterwards.
pub open spec fn refund_due(r: InvestorRecord) -> int {
    if r.refunded {
        0
    } else {
        r.amount_invested as int
    }
}

/// The total still owed to investors who have not been refunded.
pub open spec fn sum_unrefunded(s: Seq<InvestorRecord>) -> int
    decreases s.len(),
{
    if s.len() == 0 {
        0
    } else {
        sum_unrefunded(s.drop_last()) + refund_due(s.last())
    }
}

/// Appending a record grows each sum by that record's contribution.
pub proof fn lemma_sums_push(s: Seq<InvestorRecord>, r: InvestorRecord)
    ensures
        sum_invested(s.push(r)) == sum_invested(s) + r.amount_invested,
        sum_tokens(s.push(r)) == sum_tokens(s) + r.tokens_purchased,
        sum_unrefunded(s.push(r)) == sum_unrefunded(s) + refund_due(r),
{
    assert(s.push(r).drop_last() =~= s);
    assert(s.push(r).last() == r);
}

/// Replacing one record shifts each sum by the difference between the
/// new and the old record's contribution.
pub proof fn lemma_sums_update(s: Seq<InvestorRecord>, i: int, r: InvestorRecord)
    requires
        0 <= i < s.len(),
    ensures
        sum_invested(s.update(i, r)) == sum_invested(s) - s[i].amount_invested
            + r.amount_invested,
        sum_tokens(s.update(i, r)) == sum_tokens(s) - s[i].tokens_purchased + r.tokens_purchased,
        sum_unrefunded(s.update(i, r)) == sum_unrefunded(s) - refund_due(s[i]) + refund_due(r),
    decreases s.len(),
{
    if i == s.len() - 1 {
        assert(s.update(i, r).drop_last() =~= s.drop_last());
        assert(s.update(i, r).last() == r);
    } else {
        assert(s.update(i, r).drop_last() =~= s.drop_last().update(i, r));
        assert(s.update(i, r).last() == s.last());
        lemma_sums_update(s.drop_last(), i, r);
    }
}

/// All three sums are non-negative, and the refunds still owed never
/// exceed the total ever invested.
pub proof fn lemma_sums_nonneg(s: Seq<InvestorRecord>)
    ensures
        0 <= sum_tokens(s),
        0 <= sum_unrefunded(s) <= sum_invested(s),
    decreases s.len(),
{
    if s.len() > 0 {
        lemma_sums_nonneg(s.drop_last());
    }
}

/// Each record contributes no more than the whole of each sum.
pub proof fn lemma_record_le_sums(s: Seq<InvestorRecord>, i: int)
    requires
        0 <= i < s.len(),
    ensures
        s[i].amount_invested <= sum_invested(s),
        s[i].tokens_purchased <= sum_tokens(s),
        refund_due(s[i]) <= sum_unrefunded(s),
    decreases s.len(),
{
    lemma_sums_nonneg(s.drop_last());
    if i == s.len() - 1 {
        assert(s.last() == s[i]);
    } else {
        lemma_record_le_sums(s.drop_last(), i);
        assert(s.drop_last()[i] == s[i]);
    }
}

/// While no record is refunded, the refunds owed equal the full raised
/// total.
pub proof fn lemma_sum_unrefunded_all(s: Seq<InvestorRecord>)
    requires
        forall|j: int| 0 <= j < s.len() ==> !(#[trigger] s[j]).refunded,
    ensures
        sum_unrefunded(s) == sum_invested(s),
    decreases s.len(),
{
    if s.len() > 0 {
        assert(forall|j: int|
            0 <= j < s.drop_last().len() ==> !(#[trigger] s.drop_last()[j]).refunded);
        lemma_sum_unrefunded_all(s.drop_last());
        assert(s.last() == s[s.len() - 1]);
    }
}

/// Whether some record belongs to `id`.
pub open spec fn has_investor(s: Seq<InvestorRecord>, id: AccountId) -> bool {
    exists|j: int| 0 <= j < s.len() && (#[trigger] s[j]).investor == id
}

/// The campaign aggregate: the campaign record, the escrow vault it
/// owns, and the investor records, addressed by the campaign account's
/// own address.
#[derive(Clone, Debug, PartialEq, Eq)]
pub struct CampaignLedger {
    pub address: AccountId,
    pub campaign: Campaign,
    pub escrow: EscrowVault,
    pub investors: Vec<InvestorRecord>,
}

impl CampaignLedger {
    /// The creation-time parameter bounds, fixed for the campaign's
    /// lifetime.
    pub open spec fn params_ok(self) -> bool {
        &&& self.campaign.funding_goal > 0
        &&& self.campaign.token_price > 0
        &&& self.campaign.total_tokens > 0
        &&& self.campaign.platform_equity_bps <= 5000
        &&& self.campaign.property_id@.len() <= 64
    }

    /// What holds of the record at index `i`: it belongs to this
    /// campaign, accumulators are positive (a record exists only after
    /// a first accepted investment), and each claim flag implies the
    /// matching terminal state.
    pub open spec fn record_ok(self, i: int) -> bool {
        let r = self.investors@[i];
        &&& r.campaign == self.address
        &&& r.amount_invested > 0
        &&& r.tokens_purchased > 0
        &&& (r.refunded ==> self.campaign.status is Cancelled)
        &&& (r.tokens_claimed ==> self.campaign.status is Funded)
    }

    /// No two records share an investor.
    pub open spec fn records_distinct(self) -> bool {
        forall|i: int, j: int|
            #![trigger self.investors@[i].investor, self.investors@[j].investor]
            0 <= i < j < self.investors@.len() ==> self.investors@[i].investor
                != self.investors@[j].investor
    }

    /// Conservation: the campaign's accumulators equal the sums over
    /// its investor records, and tokens sold stay within the supply
    /// left after the platform's reserved equity.
    pub open spec fn accounting_ok(self) -> bool {
        &&& self.campaign.total_raised == sum_invested(self.investors@)
        &&& self.campaign.tokens_sold == sum_tokens(self.investors@)
        &&& self.campaign.investor_count == self.investors@.len()
        &&& self.campaign.tokens_sold + bps_share(
            self.campaign.total_tokens as int,
            self.campaign.platform_equity_bps as int,
        ) <= self.campaign.total_tokens
    }

    /// The escrow is owned by this campaign and always covers what is
    /// owed: everything raised while `Active`, the unrefunded amounts
    /// while `Cancelled`, and nothing once settled.
    pub open spec fn escrow_ok(self) -> bool {
        &&& self.escrow.owner == self.address
        &&& self.escrow.address == self.campaign.escrow_vault
        &&& (self.campaign.status is Active ==> self.escrow.balance
            == self.campaign.total_raised)
        &&& (self.campaign.status is Funded ==> self.escrow.balance == 0)
        &&& (self.campaign.status is Cancelled ==> self.escrow.balance == sum_unrefunded(
            self.investors@,
        ))
    }

    /// The ledger's well-formedness invariant: established by
    /// `create_campaign` and preserved by every operation.
    pub open spec fn wf(self) -> bool {
        &&& self.params_ok()
        &&& self.records_distinct()
        &&& (forall|i: int| 0 <= i < self.investors@.len() ==> #[trigger] self.record_ok(i))
        &&& self.accounting_ok()
        &&& self.escrow_ok()
    }

    /// The record index of `investor`, if any.
    fn find_investor(&self, investor: AccountId) -> (r: Option<usize>)
        ensures
            match r {
                Some(i) => i < self.investors@.len() && self.investors@[i as int].investor
                    == investor,
                None => !has_investor(self.investors@, investor),
            },
    {
        let n = self.investors.len();
        let mut i: usize = 0;
        while i < n
            invariant
                i <= n,
                n == self.investors@.len(),
                forall|j: int| 0 <= j < i ==> (#[trigger] self.investors@[j]).investor != investor,
            decreases n - i,
        {
            if self.investors[i].investor == investor {
                return Some(i);
            }
            i = i + 1;
        }
        None
    }

    /// The record of `investor`, if any.
    pub fn investor_record(&self, investor: AccountId) -> (r: Option<&InvestorRecord>)
        ensures
            match r {
                Some(rec) => has_investor(self.investors@, investor) && exists|i: int|
                    0 <= i < self.investors@.len() && self.investors@[i] == *rec
                        && (#[trigger] self.investors@[i]).investor == investor,
                None => !has_investor(self.investors@, investor),
            },
    {
        match self.find_investor(investor) {
            Some(i) => Some(&self.investors[i]),
            None => None,
        }
    }
}

/// The reason `invest` rejects this request, if any, in the order the
/// checks run. Token purchases are limited to the supply left after the
/// platform's reserved equity, recomputed here by the same rounded-down
/// formula as everywhere else.
pub open spec fn invest_error(
    l: CampaignLedger,
    investor: AccountId,
    amount: u64,
    now: i64,
) -> Option<CrowdfundingError> {
    let c = l.campaign;
    if !(c.status is Active) {
        Some(CrowdfundingError::CampaignNotActive)
    } else if now >= c.funding_deadline {
        Some(CrowdfundingError::CampaignExpired)
    } else if amount == 0 {
        Some(CrowdfundingError::InvalidAmount)
    } else if amount < c.token_price {
        Some(CrowdfundingError::AmountBelowMinimum)
    } else if amount as int / c.token_price as int > c.total_tokens as int - bps_share(
        c.total_tokens as int,
        c.platform_equity_bps as int,
    ) - c.tokens_sold as int {
        Some(CrowdfundingError::InsufficientTokensAvailable)
    } else if c.total_raised + amount > u64::MAX {
        Some(CrowdfundingError::Overflow)
    } else if !has_investor(l.investors@, investor) && c.investor_count == u32::MAX {
        Some(CrowdfundingError::Overflow)
    } else {
        None
    }
}

impl CampaignLedger {
    /// Accepts an investment into an `Active`, unexpired campaign:
    /// escrows `amount`, credits the investor's record (creating it on
    /// first contact) with the amount and with `amount / token_price`
    /// tokens (the remainder buys nothing and is not refunded), and
    /// accumulates the campaign totals. Every error leaves the ledger
    /// exactly as it was.
    pub fn invest(&mut self, investor: AccountId, amount: u64, now: i64) -> (r: Result<
        (InvestmentMade, Payment),
        CrowdfundingError,
    >)
        requires
            old(self).wf(),
        ensures
            final(self).wf(),
            final(self).address == old(self).address,
            final(self).campaign.status == old(self).campaign.status,
            match r {
                Err(e) => {
                    &&& Some(e) == invest_error(*old(self), investor, amount, now)
                    &&& *final(self) == *old(self)
                },
                Ok((ev, pay)) => {
                    let c = old(self).campaign;
                    let t = amount as int / c.token_price as int;
                    let fresh = !has_investor(old(self).investors@, investor);
                    &&& invest_error(*old(self), investor, amount, now) is None
                    &&& final(self).campaign == (Campaign {
                        total_raised: (c.total_raised + amount) as u64,
                        tokens_sold: (c.tokens_sold + t) as u64,
                        investor_count: (if fresh {
                            c.investor_count + 1
                        } else {
                            c.investor_count as int
                        }) as u32,
                        ..c
                    })
                    &&& final(self).escrow == (EscrowVault {
                        balance: (old(self).escrow.balance + amount) as u64,
                        ..old(self).escrow
                    })
                    &&& (fresh ==> final(self).investors@ == old(self).investors@.push(
                        InvestorRecord {
                            investor,
                            campaign: old(self).address,
                            amount_invested: amount,
                            tokens_purchased: t as u64,
                            invested_at: now,
                            refunded: false,
                            tokens_claimed: false,
                        },
                    ))
                    &&& (forall|j: int|
                        0 <= j < old(self).investors@.len() && (#[trigger] old(
                            self,
                        ).investors@[j]).investor == investor ==> final(self).investors@ == old(
                            self,
                        ).investors@.update(
                            j,
                            InvestorRecord {
                                investor,
                                campaign: old(self).address,
                                amount_invested: (old(self).investors@[j].amount_invested
                                    + amount) as u64,
                                tokens_purchased: (old(self).investors@[j].tokens_purchased
                                    + t) as u64,
                                invested_at: now,
                                refunded: false,
                                tokens_claimed: false,
                            },
                        ))
                    &&& ev.campaign == old(self).address
                    &&& ev.investor == investor
                    &&& ev.amount == amount
                    &&& ev.tokens_purchased == t
                    &&& ev.total_invested == (if fresh {
                        amount as int
                    } else {
                        sum_of_investor(old(self).investors@, investor) + amount
                    })
                    &&& pay == (Payment { from: investor, to: old(self).escrow.address, amount })
                },
            },
    {
        if self.campaign.status != CampaignStatus::Active {
            return Err(CrowdfundingError::CampaignNotActive);
        }
        if now >= self.campaign.funding_deadline {
            return Err(CrowdfundingError::CampaignExpired);
        }
        if amount == 0 {
            return Err(CrowdfundingError::InvalidAmount);
        }
        if amount < self.campaign.token_price {
            return Err(CrowdfundingError::AmountBelowMinimum);
        }
        let tokens_to_buy = amount / self.campaign.token_price;
        proof {
            lemma_div_is_ordered(
                self.campaign.token_price as int,
                amount as int,
                self.campaign.token_price as int,
            );
            lemma_div_by_self(self.campaign.token_price as int);
            lemma_bps_share_bounds(
                self.campaign.total_tokens as int,
                self.campaign.platform_equity_bps as int,
            );
        }
        let platform_tokens = bps_share_u64(
            self.campaign.total_tokens,
            self.campaign.platform_equity_bps,
        );
        let available_tokens = self.campaign.total_tokens - platform_tokens
            - self.campaign.tokens_sold;
        if tokens_to_buy > available_tokens {
            return Err(CrowdfundingError::InsufficientTokensAvailable);
        }
        let new_total_raised = match self.campaign.total_raised.checked_add(amount) {
            Some(v) => v,
            None => {
                return Err(CrowdfundingError::Overflow);
            },
        };
        match self.find_investor(investor) {
            None => {
                if self.campaign.investor_count == u32::MAX {
                    return Err(CrowdfundingError::Overflow);
                }
                let rec = InvestorRecord {
                    investor,
                    campaign: self.address,
                    amount_invested: amount,
                    tokens_purchased: tokens_to_buy,
                    invested_at: now,
                    refunded: false,
                    tokens_claimed: false,
                };
                proof {
                    lemma_sums_push(self.investors@, rec);
                    lemma_sum_of_investor_absent(self.investors@, investor);
                }
                self.investors.push(rec);
                self.campaign.total_raised = new_total_raised;
                self.campaign.tokens_sold = self.campaign.tokens_sold + tokens_to_buy;
                self.campaign.investor_count = self.campaign.investor_count + 1;
                let pay = self.escrow.deposit(investor, amount);
                let ev = InvestmentMade {
                    campaign: self.address,
                    investor,
                    amount,
                    tokens_purchased: tokens_to_buy,
                    total_invested: amount,
                };
                proof {
                    assert forall|i: int| 0 <= i < self.investors@.len() implies #[trigger] self.record_ok(i) by {
                        if i < old(self).investors@.len() {
                            assert(old(self).record_ok(i));
                        }
                    }
                }
                Ok((ev, pay))
            },
            Some(i) => {
                proof {
                    lemma_record_le_sums(self.investors@, i as int);
                    assert forall|j: int|
                        0 <= j < self.investors@.len() && (#[trigger] self.investors@[j]).investor
                            == investor implies j == i as int by {}
                    lemma_sum_of_investor_present(self.investors@, investor, i as int);
                    assert(old(self).record_ok(i as int));
                }
                let old_rec = self.investors[i];
                let rec = InvestorRecord {
                    investor,
                    campaign: self.address,
                    amount_invested: old_rec.amount_invested + amount,
                    tokens_purchased: old_rec.tokens_purchased + tokens_to_buy,
                    invested_at: now,
                    refunded: false,
                    tokens_claimed: false,
                };
                proof {
                    lemma_sums_update(self.investors@, i as int, rec);
                }
                self.investors[i] = rec;
                self.campaign.total_raised = new_total_raised;
                self.campaign.tokens_sold = self.campaign.tokens_sold + tokens_to_buy;
                let pay = self.escrow.deposit(investor, amount);
                let ev = InvestmentMade {
                    campaign: self.address,
                    investor,
                    amount,
                    tokens_purchased: tokens_to_buy,
                    total_invested: rec.amount_invested,
                };
                proof {
                    assert forall|k: int| 0 <= k < self.investors@.len() implies #[trigger] self.record_ok(k) by {
                        assert(old(self).record_ok(k));
                    }
                }
                Ok((ev, pay))
            },
        }
    }
}

/// Whether `id`'s record, if any, is marked refunded.
pub open spec fn investor_refunded(s: Seq<InvestorRecord>, id: AccountId) -> bool {
    exists|j: int| 0 <= j < s.len() && (#[trigger] s[j]).investor == id && s[j].refunded
}

/// Whether `id`'s record, if any, is marked as having claimed tokens.
pub open spec fn investor_tokens_claimed(s: Seq<InvestorRecord>, id: AccountId) -> bool {
    exists|j: int| 0 <= j < s.len() && (#[trigger] s[j]).investor == id && s[j].tokens_claimed
}

/// The reason `finalize_campaign` rejects this request, if any, in the
/// order the checks run.
pub open spec fn finalize_error(
    l: CampaignLedger,
    config: PlatformConfig,
    caller: AccountId,
    platform_wallet: AccountId,
    now: i64,
) -> Option<CrowdfundingError> {
    let c = l.campaign;
    if caller != c.creator {
        Some(CrowdfundingError::Unauthorized)
    } else if platform_wallet != config.platform_wallet {
        Some(CrowdfundingError::InvalidPlatformWallet)
    } else if !(c.status is Active) {
        Some(CrowdfundingError::CampaignNotActive)
    } else if !(c.total_raised >= c.funding_goal || (now >= c.funding_deadline && c.total_raised
        > 0)) {
        Some(CrowdfundingError::CannotFinalizeYet)
    } else {
        None
    }
}

/// The outbound transfers a settlement authorizes, in order: the
/// platform's share, then the creator's, each skipped entirely when its
/// amount is zero.
pub open spec fn settlement_payments(
    escrow_address: AccountId,
    platform_wallet: AccountId,
    creator: AccountId,
    platform_share: int,
    creator_share: int,
) -> Seq<Payment> {
    let p = Payment { from: escrow_address, to: platform_wallet, amount: platform_share as u64 };
    let c = Payment { from: escrow_address, to: creator, amount: creator_share as u64 };
    if platform_share > 0 && creator_share > 0 {
        seq![p, c]
    } else if platform_share > 0 {
        seq![p]
    } else if creator_share > 0 {
        seq![c]
    } else {
        Seq::empty()
    }
}

impl CampaignLedger {
    /// Settles a successful campaign: pays the platform's
    /// `floor(total_raised * platform_equity_bps / 10000)` and the
    /// creator's exact complement out of escrow, both authorized by the
    /// campaign's own escrow identity, and moves the status to the
    /// terminal `Funded` state. Allowed once the goal is reached, or
    /// once the deadline has passed with anything raised. Every error
    /// leaves the ledger exactly as it was.
    pub fn finalize_campaign(
        &mut self,
        config: &PlatformConfig,
        caller: AccountId,
        platform_wallet: AccountId,
        now: i64,
    ) -> (r: Result<(CampaignFinalized, Vec<Payment>), CrowdfundingError>)
        requires
            old(self).wf(),
        ensures
            final(self).wf(),
            final(self).address == old(self).address,
            status_step_allowed(old(self).campaign.status, final(self).campaign.status),
            match r {
                Err(e) => {
                    &&& Some(e) == finalize_error(*old(self), *config, caller, platform_wallet, now)
                    &&& *final(self) == *old(self)
                },
                Ok((ev, payments)) => {
                    let c = old(self).campaign;
                    let platform_share = bps_share(
                        c.total_raised as int,
                        c.platform_equity_bps as int,
                    );
                    let creator_share = c.total_raised - platform_share;
                    &&& finalize_error(*old(self), *config, caller, platform_wallet, now) is None
                    &&& final(self).campaign == (Campaign { status: CampaignStatus::Funded, ..c })
                    &&& final(self).escrow == (EscrowVault { balance: 0, ..old(self).escrow })
                    &&& final(self).investors@ == old(self).investors@
                    &&& ev == (CampaignFinalized {
                        campaign: old(self).address,
                        total_raised: c.total_raised,
                        platform_share: platform_share as u64,
                        creator_share: creator_share as u64,
                        investors: c.investor_count,
                    })
                    &&& payments@ == settlement_payments(
                        old(self).escrow.address,
                        platform_wallet,
                        c.creator,
                        platform_share,
                        creator_share,
                    )
                },
            },
    {
        if caller != self.campaign.creator {
            return Err(CrowdfundingError::Unauthorized);
        }
        if platform_wallet != config.platform_wallet {
            return Err(CrowdfundingError::InvalidPlatformWallet);
        }
        if self.campaign.status != CampaignStatus::Active {
            return Err(CrowdfundingError::CampaignNotActive);
        }
        let is_fully_funded = self.campaign.total_raised >= self.campaign.funding_goal;
        let deadline_passed = now >= self.campaign.funding_deadline;
        if !(is_fully_funded || (deadline_passed && self.campaign.total_raised > 0)) {
            return Err(CrowdfundingError::CannotFinalizeYet);
        }
        proof {
            lemma_bps_share_bounds(
                self.campaign.total_raised as int,
                self.campaign.platform_equity_bps as int,
            );
        }
        let platform_share = bps_share_u64(
            self.campaign.total_raised,
            self.campaign.platform_equity_bps,
        );
        let creator_share = self.campaign.total_raised - platform_share;
        let mut payments: Vec<Payment> = Vec::new();
        if platform_share > 0 {
            let p = self.escrow.withdraw(self.address, platform_wallet, platform_share);
            payments.push(p);
        }
        if creator_share > 0 {
            let p = self.escrow.withdraw(self.address, self.campaign.creator, creator_share);
            payments.push(p);
        }
        let ev = CampaignFinalized {
            campaign: self.address,
            total_raised: self.campaign.total_raised,
            platform_share,
            creator_share,
            investors: self.campaign.investor_count,
        };
        self.campaign.status = CampaignStatus::Funded;
        proof {
            assert forall|i: int| 0 <= i < self.investors@.len() implies #[trigger] self.record_ok(
                i,
            ) by {
                assert(old(self).record_ok(i));
            }
            assert(payments@ =~= settlement_payments(
                old(self).escrow.address,
                platform_wallet,
                old(self).campaign.creator,
                bps_share(
                    old(self).campaign.total_raised as int,
                    old(self).campaign.platform_equity_bps as int,
                ),
                old(self).campaign.total_raised - bps_share(
                    old(self).campaign.total_raised as int,
                    old(self).campaign.platform_equity_bps as int,
                ),
            ));
        }
        Ok((ev, payments))
    }

    /// Cancels an `Active` campaign: moves it to the terminal
    /// `Cancelled` state without moving funds; refunds are
    /// investor-initiated afterward. Only the creator may cancel.
    pub fn cancel_campaign(&mut self, caller: AccountId) -> (r: Result<
        CampaignCancelled,
        CrowdfundingError,
    >)
        requires
            old(self).wf(),
        ensures
            final(self).wf(),
            final(self).address == old(self).address,
            status_step_allowed(old(self).campaign.status, final(self).campaign.status),
            match r {
                Err(e) => {
                    &&& *final(self) == *old(self)
                    &&& (if caller != old(self).campaign.creator {
                        e == CrowdfundingError::Unauthorized
                    } else {
                        !(old(self).campaign.status is Active)
                            && e == CrowdfundingError::CampaignNotActive
                    })
                },
                Ok(ev) => {
                    &&& caller == old(self).campaign.creator
                    &&& old(self).campaign.status is Active
                    &&& final(self).campaign == (Campaign {
                        status: CampaignStatus::Cancelled,
                        ..old(self).campaign
                    })
                    &&& final(self).escrow == old(self).escrow
                    &&& final(self).investors@ == old(self).investors@
                    &&& ev == (CampaignCancelled {
                        campaign: old(self).address,
                        total_raised: old(self).campaign.total_raised,
                        investors_to_refund: old(self).campaign.investor_count,
                    })
                },
            },
    {
        if caller != self.campaign.creator {
            return Err(CrowdfundingError::Unauthorized);
        }
        if self.campaign.status != CampaignStatus::Active {
            return Err(CrowdfundingError::CampaignNotActive);
        }
        self.campaign.status = CampaignStatus::Cancelled;
        let ev = CampaignCancelled {
            campaign: self.address,
            total_raised: self.campaign.total_raised,
            investors_to_refund: self.campaign.investor_count,
        };
        proof {
            assert forall|i: int| 0 <= i < self.investors@.len() implies #[trigger] self.record_ok(
                i,
            ) by {
                assert(old(self).record_ok(i));
            }
            assert forall|i: int|
                0 <= i < self.investors@.len() implies !(#[trigger] self.investors@[i]).refunded by {
                assert(old(self).record_ok(i));
            }
            lemma_sum_unrefunded_all(self.investors@);
        }
        Ok(ev)
    }

    /// Pays back an investor's full accumulated amount from escrow,
    /// once the campaign is `Cancelled`, and marks the record refunded.
    /// A second call fails with `AlreadyRefunded` and moves nothing:
    /// at most one payout per investor per campaign.
    pub fn claim_refund(&mut self, investor: AccountId) -> (r: Result<
        (RefundClaimed, Payment),
        CrowdfundingError,
    >)
        requires
            old(self).wf(),
        ensures
            final(self).wf(),
            final(self).address == old(self).address,
            final(self).campaign == old(self).campaign,
            status_step_allowed(old(self).campaign.status, final(self).campaign.status),
            match r {
                Err(e) => {
                    &&& *final(self) == *old(self)
                    &&& (if !(old(self).campaign.status is Cancelled) {
                        e == CrowdfundingError::CampaignNotCancelled
                    } else if !has_investor(old(self).investors@, investor) {
                        e == CrowdfundingError::NothingToRefund
                    } else {
                        investor_refunded(old(self).investors@, investor)
                            && e == CrowdfundingError::AlreadyRefunded
                    })
                },
                Ok((ev, pay)) => {
                    &&& old(self).campaign.status is Cancelled
                    &&& has_investor(old(self).investors@, investor)
                    &&& !investor_refunded(old(self).investors@, investor)
                    &&& (forall|j: int|
                        0 <= j < old(self).investors@.len() && (#[trigger] old(
                            self,
                        ).investors@[j]).investor == investor ==> {
                            &&& final(self).investors@ == old(self).investors@.update(
                                j,
                                InvestorRecord { refunded: true, ..old(self).investors@[j] },
                            )
                            &&& ev.amount == old(self).investors@[j].amount_invested
                        })
                    &&& final(self).escrow == (EscrowVault {
                        balance: (old(self).escrow.balance - ev.amount) as u64,
                        ..old(self).escrow
                    })
                    &&& ev.campaign == old(self).address
                    &&& ev.investor == investor
                    &&& pay == (Payment {
                        from: old(self).escrow.address,
                        to: investor,
                        amount: ev.amount,
                    })
                },
            },
    {
        if self.campaign.status != CampaignStatus::Cancelled {
            return Err(CrowdfundingError::CampaignNotCancelled);
        }
        match self.find_investor(investor) {
            None => Err(CrowdfundingError::NothingToRefund),
            Some(i) => {
                let rec = self.investors[i];
                proof {
                    assert(old(self).record_ok(i as int));
                    assert forall|j: int|
                        0 <= j < self.investors@.len() && (#[trigger] self.investors@[j]).investor
                            == investor implies j == i as int by {}
                }
                if rec.refunded {
                    return Err(CrowdfundingError::AlreadyRefunded);
                }
                let updated = InvestorRecord { refunded: true, ..rec };
                proof {
                    lemma_record_le_sums(self.investors@, i as int);
                    lemma_sums_update(self.investors@, i as int, updated);
                }
                self.investors[i] = updated;
                let pay = self.escrow.withdraw(self.address, investor, rec.amount_invested);
                let ev = RefundClaimed {
                    campaign: self.address,
                    investor,
                    amount: rec.amount_invested,
                };
                proof {
                    assert forall|k: int| 0 <= k < self.investors@.len() implies #[trigger] self
                        .record_ok(k) by {
                        assert(old(self).record_ok(k));
                    }
                }
                Ok((ev, pay))
            },
        }
    }

    /// Mints an investor's purchased tokens into their holding, once
    /// the campaign is `Funded`; the mint is authorized by the
    /// campaign's own identity, which holds the mint capability. A
    /// second call fails with `TokensAlreadyClaimed` and mints nothing:
    /// at most one claim per investor per campaign.
    pub fn claim_tokens(&mut self, investor: AccountId) -> (r: Result<
        (TokensClaimed, MintInstruction),
        CrowdfundingError,
    >)
        requires
            old(self).wf(),
        ensures
            final(self).wf(),
            final(self).address == old(self).address,
            final(self).campaign == old(self).campaign,
            final(self).escrow == old(self).escrow,
            status_step_allowed(old(self).campaign.status, final(self).campaign.status),
            match r {
                Err(e) => {
                    &&& *final(self) == *old(self)
                    &&& (if !(old(self).campaign.status is Funded) {
                        e == CrowdfundingError::CampaignNotFunded
                    } else if !has_investor(old(self).investors@, investor) {
                        e == CrowdfundingError::NoTokensToClaim
                    } else {
                        investor_tokens_claimed(old(self).investors@, investor)
                            && e == CrowdfundingError::TokensAlreadyClaimed
                    })
                },
                Ok((ev, mint)) => {
                    &&& old(self).campaign.status is Funded
                    &&& has_investor(old(self).investors@, investor)
                    &&& !investor_tokens_claimed(old(self).investors@, investor)
                    &&& (forall|j: int|
                        0 <= j < old(self).investors@.len() && (#[trigger] old(
                            self,
                        ).investors@[j]).investor == investor ==> {
                            &&& final(self).investors@ == old(self).investors@.update(
                                j,
                                InvestorRecord { tokens_claimed: true, ..old(self).investors@[j] },
                            )
                            &&& ev.tokens == old(self).investors@[j].tokens_purchased
                        })
                    &&& ev.campaign == old(self).address
                    &&& ev.investor == investor
                    &&& mint == (MintInstruction {
                        mint: old(self).campaign.property_mint,
                        to: investor,
                        amount: ev.tokens,
                        authority: old(self).address,
                    })
                },
            },
    {
        if self.campaign.status != CampaignStatus::Funded {
            return Err(CrowdfundingError::CampaignNotFunded);
        }
        match self.find_investor(investor) {
            None => Err(CrowdfundingError::NoTokensToClaim),
            Some(i) => {
                let rec = self.investors[i];
                proof {
                    assert(old(self).record_ok(i as int));
                    assert forall|j: int|
                        0 <= j < self.investors@.len() && (#[trigger] self.investors@[j]).investor
                            == investor implies j == i as int by {}
                }
                if rec.tokens_claimed {
                    return Err(CrowdfundingError::TokensAlreadyClaimed);
                }
                let updated = InvestorRecord { tokens_claimed: true, ..rec };
                proof {
                    lemma_sums_update(self.investors@, i as int, updated);
                }
                self.investors[i] = updated;
                let mint = MintInstruction {
                    mint: self.campaign.property_mint,
                    to: investor,
                    amount: rec.tokens_purchased,
                    authority: self.address,
                };
                let ev = TokensClaimed {
                    campaign: self.address,
                    investor,
                    tokens: rec.tokens_purchased,
                };
                proof {
                    assert forall|k: int| 0 <= k < self.investors@.len() implies #[trigger] self
                        .record_ok(k) by {
                        assert(old(self).record_ok(k));
                    }
                }
                Ok((ev, mint))
            },
        }
    }
}

/// Terminal states are immutable: every operation's status change
/// satisfies [`status_step_allowed`], and under that relation a
/// campaign that is already `Funded` or `Cancelled` can only stay
/// exactly where it is.
pub proof fn lemma_terminal_status_is_immutable(pre: CampaignStatus, post: CampaignStatus)
    requires
        status_step_allowed(pre, post),
        !(pre is Active),
    ensures
        post == pre,
{
}

/// Conservation of funds: in every well-formed ledger the campaign's
/// raised total equals the sum of its investors' accumulated amounts —
/// at every point in time, since every operation preserves
/// well-formedness.
pub proof fn lemma_raised_equals_sum_of_records(l: CampaignLedger)
    requires
        l.wf(),
    ensures
        l.campaign.total_raised == sum_invested(l.investors@),
{
}

/// Reserved equity is never sold: in every well-formed ledger the
/// tokens sold never exceed the supply left after the platform's
/// rounded-down reservation.
pub proof fn lemma_tokens_sold_respects_reserve(l: CampaignLedger)
    requires
        l.wf(),
    ensures
        l.campaign.tokens_sold <= l.campaign.total_tokens - bps_share(
            l.campaign.total_tokens as int,
            l.campaign.platform_equity_bps as int,
        ),
{
}

/// Refund solvency: while a campaign is `Cancelled`, its escrow always
/// holds enough to pay every refund not yet claimed.
pub proof fn lemma_escrow_covers_refunds(l: CampaignLedger, i: int)
    requires
        l.wf(),
        l.campaign.status is Cancelled,
        0 <= i < l.investors@.len(),
        !l.investors@[i].refunded,
    ensures
        l.investors@[i].amount_invested <= l.escrow.balance,
{
    lemma_record_le_sums(l.investors@, i);
}

/// The amount invested by `id`'s record, or zero if none exists.
pub open spec fn sum_of_investor(s: Seq<InvestorRecord>, id: AccountId) -> int
    decreases s.len(),
{
    if s.len() == 0 {
        0
    } else if s.last().investor == id {
        sum_of_investor(s.drop_last(), id) + s.last().amount_invested
    } else {
        sum_of_investor(s.drop_last(), id)
    }
}

/// An investor absent from the records has invested nothing.
pub proof fn lemma_sum_of_investor_absent(s: Seq<InvestorRecord>, id: AccountId)
    requires
        !has_investor(s, id),
    ensures
        sum_of_investor(s, id) == 0,
    decreases s.len(),
{
    if s.len() > 0 {
        assert(s.last() == s[s.len() - 1]);
        assert(forall|j: int|
            0 <= j < s.drop_last().len() ==> s.drop_last()[j] == (#[trigger] s[j]));
        lemma_sum_of_investor_absent(s.drop_last(), id);
    }
}

/// With distinct investors, the amount invested by `id` is exactly its
/// one record's accumulator.
pub proof fn lemma_sum_of_investor_present(s: Seq<InvestorRecord>, id: AccountId, i: int)
    requires
        0 <= i < s.len(),
        s[i].investor == id,
        forall|j: int|
            0 <= j < s.len() && (#[trigger] s[j]).investor == id ==> j == i,
    ensures
        sum_of_investor(s, id) == s[i].amount_invested,
    decreases s.len(),
{
    assert(s.last() == s[s.len() - 1]);
    assert(forall|j: int| 0 <= j < s.drop_last().len() ==> s.drop_last()[j] == (#[trigger] s[j]));
    if i == s.len() - 1 {
        assert(!has_investor(s.drop_last(), id));
        lemma_sum_of_investor_absent(s.drop_last(), id);
    } else {
        lemma_sum_of_investor_present(s.drop_last(), id, i);
    }
}

/// The reason `create_campaign` rejects this request, if any, in the
/// order the checks run.
pub open spec fn create_campaign_error(
    whitelist_entry: WhitelistEntry,
    creator: AccountId,
    property_id: Seq<u8>,
    funding_goal: u64,
    platform_equity_bps: u16,
    funding_deadline: i64,
    token_price: u64,
    total_tokens: u64,
    now: i64,
    total_campaigns: u64,
) -> Option<CrowdfundingError> {
    if whitelist_entry.wallet != creator {
        Some(CrowdfundingError::Unauthorized)
    } else if !whitelist_entry.is_active {
        Some(CrowdfundingError::NotWhitelisted)
    } else if property_id.len() > 64 {
        Some(CrowdfundingError::PropertyIdTooLong)
    } else if funding_goal == 0 {
        Some(CrowdfundingError::InvalidFundingGoal)
    } else if platform_equity_bps > 5000 {
        Some(CrowdfundingError::PlatformEquityTooHigh)
    } else if funding_deadline <= now {
        Some(CrowdfundingError::InvalidDeadline)
    } else if token_price == 0 {
        Some(CrowdfundingError::InvalidTokenPrice)
    } else if total_tokens == 0 {
        Some(CrowdfundingError::InvalidTokenCount)
    } else if total_campaigns == u64::MAX {
        Some(CrowdfundingError::Overflow)
    } else {
        None
    }
}

/// Creates a campaign in the `Active` state for a whitelisted creator,
/// derives its escrow custody, and counts it on the platform
/// configuration. On any rejection the configuration is unchanged.
///
/// The emitted event carries `platform_tokens = floor(total_tokens *
/// platform_equity_bps / 10000)` and the complementary
/// `tokens_available`; neither is persisted on the campaign.
pub fn create_campaign(
    config: &mut PlatformConfig,
    whitelist_entry: &WhitelistEntry,
    creator: AccountId,
    campaign_address: AccountId,
    escrow_vault: AccountId,
    property_mint: AccountId,
    property_id: Vec<u8>,
    funding_goal: u64,
    platform_equity_bps: u16,
    funding_deadline: i64,
    token_price: u64,
    total_tokens: u64,
    now: i64,
) -> (r: Result<(CampaignLedger, CampaignCreated), CrowdfundingError>)
    ensures
        match r {
            Err(e) => {
                &&& Some(e) == create_campaign_error(
                    *whitelist_entry,
                    creator,
                    property_id@,
                    funding_goal,
                    platform_equity_bps,
                    funding_deadline,
                    token_price,
                    total_tokens,
                    now,
                    old(config).total_campaigns,
                )
                &&& *final(config) == *old(config)
            },
            Ok((l, ev)) => {
                &&& create_campaign_error(
                    *whitelist_entry,
                    creator,
                    property_id@,
                    funding_goal,
                    platform_equity_bps,
                    funding_deadline,
                    token_price,
                    total_tokens,
                    now,
                    old(config).total_campaigns,
                ) is None
                &&& l.wf()
                &&& l.address == campaign_address
                &&& l.campaign == (Campaign {
                    creator,
                    property_mint,
                    escrow_vault,
                    property_id,
                    funding_goal,
                    total_raised: 0,
                    platform_equity_bps,
                    funding_deadline,
                    token_price,
                    total_tokens,
                    tokens_sold: 0,
                    investor_count: 0,
                    status: CampaignStatus::Active,
                    created_at: now,
                })
                &&& l.escrow == (EscrowVault { owner: campaign_address, address: escrow_vault, balance: 0 })
                &&& l.investors@.len() == 0
                &&& *final(config) == (PlatformConfig {
                    total_campaigns: (old(config).total_campaigns + 1) as u64,
                    ..*old(config)
                })
                &&& ev.campaign == campaign_address
                &&& ev.creator == creator
                &&& ev.property_id@ == property_id@
                &&& ev.funding_goal == funding_goal
                &&& ev.platform_equity_bps == platform_equity_bps
                &&& ev.platform_tokens == bps_share(total_tokens as int, platform_equity_bps as int)
                &&& ev.tokens_available == total_tokens - bps_share(
                    total_tokens as int,
                    platform_equity_bps as int,
                )
                &&& ev.deadline == funding_deadline
            },
        },
{
    if whitelist_entry.wallet != creator {
        return Err(CrowdfundingError::Unauthorized);
    }
    if !whitelist_entry.is_active {
        return Err(CrowdfundingError::NotWhitelisted);
    }
    if property_id.len() > 64 {
        return Err(CrowdfundingError::PropertyIdTooLong);
    }
    if funding_goal == 0 {
        return Err(CrowdfundingError::InvalidFundingGoal);
    }
    if platform_equity_bps > 5000 {
        return Err(CrowdfundingError::PlatformEquityTooHigh);
    }
    if funding_deadline <= now {
        return Err(CrowdfundingError::InvalidDeadline);
    }
    if token_price == 0 {
        return Err(CrowdfundingError::InvalidTokenPrice);
    }
    if total_tokens == 0 {
        return Err(CrowdfundingError::InvalidTokenCount);
    }
    let total_campaigns = match config.total_campaigns.checked_add(1) {
        Some(v) => v,
        None => {
            return Err(CrowdfundingError::Overflow);
        },
    };
    config.total_campaigns = total_campaigns;

    let platform_tokens = bps_share_u64(total_tokens, platform_equity_bps);
    proof {
        lemma_bps_share_bounds(total_tokens as int, platform_equity_bps as int);
    }
    let tokens_available = total_tokens - platform_tokens;

    let event = CampaignCreated {
        campaign: campaign_address,
        creator,
        property_id: clone_bytes(&property_id),
        funding_goal,
        platform_equity_bps,
        platform_tokens,
        tokens_available,
        deadline: funding_deadline,
    };
    let campaign = Campaign {
        creator,
        property_mint,
        escrow_vault,
        property_id,
        funding_goal,
        total_raised: 0,
        platform_equity_bps,
        funding_deadline,
        token_price,
        total_tokens,
        tokens_sold: 0,
        investor_count: 0,
        status: CampaignStatus::Active,
        created_at: now,
    };
    let ledger = CampaignLedger {
        address: campaign_address,
        campaign,
        escrow: EscrowVault::new(campaign_address, escrow_vault),
        investors: Vec::new(),
    };
    Ok((ledger, event))
}

/// A byte-for-byte copy of an identifier.
fn clone_bytes(v: &Vec<u8>) -> (r: Vec<u8>)
    ensures
        r@ == v@,
{
    let mut out: Vec<u8> = Vec::new();
    let n = v.len();
    let mut i: usize = 0;
    while i < n
        invariant
            i <= n,
            n == v@.len(),
            out@ == v@.subrange(0, i as int),
        decreases n - i,
    {
        out.push(v[i]);
        proof {
            assert(out@ =~= v@.subrange(0, i + 1 as int));
        }
        i = i + 1;
    }
    proof {
        assert(out@ =~= v@);
    }
    out
}

} // verus!
