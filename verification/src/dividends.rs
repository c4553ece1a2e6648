//! The dividend engine: epoch-based pro-rata distribution of recurring
//! income against one token supply.
//!
//! A [`DividendEngine`] owns the pool record, its vault and the
//! per-epoch distribution and claim records. Income deposits accrue
//! across calls; opening a distribution snapshots the accumulated
//! deposit and the token supply into an immutable [`DistributionRecord`]
//! with `amount_per_token = floor(total_amount / total_token_supply)`.
//! The truncation residue stays in the vault, permanently undistributed
//! for that epoch: an accepted design tradeoff, not silently swept.
//!
//! A claim pays `holder's current balance * amount_per_token`: the
//! claimant's balance is read at claim time, not at the snapshot
//! instant, so tokens that move between holders after an epoch opens
//! reward whoever holds them when they claim. That choice is part of
//! the design, not corrected here; the vault-balance check is what
//! keeps it from overdrawing custody.

use vstd::prelude::*;

verus! {

use vstd::arithmetic::div_mod::lemma_fundamental_div_mod;
use vstd::arithmetic::div_mod::lemma_mod_bound;

use crate::errors::DividendError;
use crate::escrow::EscrowVault;
use crate::escrow::Payment;
use crate::events::AccountId;
use crate::events::AuthorityUpdated;
use crate::events::DistributionStarted;
use crate::events::DividendClaimed;
use crate::events::DividendDeposited;
use crate::events::PoolInitialized;

/// One recurring-income pool for one token supply.
#[derive(Clone, Debug, PartialEq, Eq)]
pub struct DividendPool {
    pub authority: AccountId,
    pub property_mint: AccountId,
    pub dividend_vault: AccountId,
    pub property_id: Vec<u8>,
    pub total_distributed: u64,
    pub current_epoch: u64,
    pub distribution_frequency_days: u64,
    pub last_distribution_time: i64,
    pub total_deposited_current_epoch: u64,
}

/// One epoch's immutable snapshot: the accumulated deposit, the token
/// supply at open time, and the truncated per-token amount.
#[derive(Clone, Copy, Debug, PartialEq, Eq, Structural)]
pub struct DistributionRecord {
    pub pool: AccountId,
    pub epoch: u64,
    pub total_amount: u64,
    pub total_token_supply: u64,
    pub amount_per_token: u64,
    pub distributed_at: i64,
    pub total_claimed: u64,
}

/// One user's claim against one distribution, created and finalized
/// atomically at claim time.
#[derive(Clone, Copy, Debug, PartialEq, Eq, Structural)]
pub struct ClaimRecord {
    pub user: AccountId,
    pub epoch: u64,
    pub amount_claimed: u64,
    pub claimed_at: i64,
    pub claimed: bool,
}

/// The sum of the distributions' epoch totals.
pub open spec fn sum_distributed(s: Seq<DistributionRecord>) -> int
    decreases s.len(),
{
    if s.len() == 0 {
        0
    } else {
        sum_distributed(s.drop_last()) + s.last().total_amount
    }
}

/// Appending a distribution grows the sum by its epoch total.
pub proof fn lemma_sum_distributed_push(s: Seq<DistributionRecord>, d: DistributionRecord)
    ensures
        sum_distributed(s.push(d)) == sum_distributed(s) + d.total_amount,
{
    assert(s.push(d).drop_last() =~= s);
    assert(s.push(d).last() == d);
}

/// Whether some claim exists for `user` against epoch `epoch`.
pub open spec fn has_claim(s: Seq<ClaimRecord>, user: AccountId, epoch: u64) -> bool {
    exists|j: int|
        0 <= j < s.len() && (#[trigger] s[j]).user == user && s[j].epoch == epoch
}

/// The dividend aggregate: the pool record, the vault it owns, and the
/// distribution and claim records, addressed by the pool account's own
/// address.
#[derive(Clone, Debug, PartialEq, Eq)]
pub struct DividendEngine {
    pub address: AccountId,
    pub pool: DividendPool,
    pub vault: EscrowVault,
    pub distributions: Vec<DistributionRecord>,
    pub claims: Vec<ClaimRecord>,
}

impl DividendEngine {
    /// What holds of the distribution at index `i`: epoch numbers are
    /// exactly the indices (one immutable record per opened epoch),
    /// and the per-token amount is the rounded-down quotient of a
    /// positive total by a positive supply.
    pub open spec fn distribution_ok(self, i: int) -> bool {
        let d = self.distributions@[i];
        &&& d.pool == self.address
        &&& d.epoch == i
        &&& d.total_amount > 0
        &&& d.total_token_supply > 0
        &&& d.amount_per_token == d.total_amount as int / d.total_token_supply as int
        &&& d.total_claimed == 0
    }

    /// What holds of the claim at index `i`: finalized, positive, and
    /// against an epoch that has been opened.
    pub open spec fn claim_ok(self, i: int) -> bool {
        let c = self.claims@[i];
        &&& c.claimed
        &&& c.epoch < self.pool.current_epoch
        &&& c.amount_claimed > 0
    }

    /// No two claims share a (user, epoch) key.
    pub open spec fn claims_distinct(self) -> bool {
        forall|i: int, j: int|
            #![trigger self.claims@[i], self.claims@[j]]
            0 <= i < j < self.claims@.len() ==> !(self.claims@[i].user == self.claims@[j].user
                && self.claims@[i].epoch == self.claims@[j].epoch)
    }

    /// The engine's well-formedness invariant: established by
    /// `initialize_pool` and preserved by every operation. The epoch
    /// counter equals the number of opened distributions, and the
    /// all-time distributed total equals their sum.
    pub open spec fn wf(self) -> bool {
        &&& self.pool.distribution_frequency_days > 0
        &&& self.pool.property_id@.len() <= 64
        &&& self.vault.owner == self.address
        &&& self.vault.address == self.pool.dividend_vault
        &&& self.distributions@.len() == self.pool.current_epoch
        &&& (forall|i: int|
            0 <= i < self.distributions@.len() ==> #[trigger] self.distribution_ok(i))
        &&& self.pool.total_distributed == sum_distributed(self.distributions@)
        &&& self.claims_distinct()
        &&& (forall|i: int| 0 <= i < self.claims@.len() ==> #[trigger] self.claim_ok(i))
    }

    /// The index of `user`'s claim against `epoch`, if any.
    fn find_claim(&self, user: AccountId, epoch: u64) -> (r: Option<usize>)
        ensures
            match r {
                Some(i) => i < self.claims@.len() && self.claims@[i as int].user == user
                    && self.claims@[i as int].epoch == epoch,
                None => !has_claim(self.claims@, user, epoch),
            },
    {
        let n = self.claims.len();
        let mut i: usize = 0;
        while i < n
            invariant
                i <= n,
                n == self.claims@.len(),
                forall|j: int|
                    0 <= j < i ==> !((#[trigger] self.claims@[j]).user == user && self.claims@[j].epoch
                        == epoch),
            decreases n - i,
        {
            if self.claims[i].user == user && self.claims[i].epoch == epoch {
                return Some(i);
            }
            i = i + 1;
        }
        None
    }

    /// The immutable record of the distribution opened for `epoch`, if
    /// that epoch has been opened.
    pub fn distribution_at(&self, epoch: u64) -> (r: Option<DistributionRecord>)
        requires
            self.wf(),
        ensures
            match r {
                Some(d) => epoch < self.pool.current_epoch && d
                    == self.distributions@[epoch as int],
                None => epoch >= self.pool.current_epoch,
            },
    {
        if epoch >= self.pool.current_epoch {
            return None;
        }
        let n = self.distributions.len();
        assert(epoch < n);
        Some(self.distributions[epoch as usize])
    }

    /// The finalized claim of `user` against `epoch`, if any.
    pub fn claim_of(&self, user: AccountId, epoch: u64) -> (r: Option<ClaimRecord>)
        ensures
            match r {
                Some(c) => has_claim(self.claims@, user, epoch) && exists|i: int|
                    0 <= i < self.claims@.len() && self.claims@[i] == c
                        && (#[trigger] self.claims@[i]).user == user && self.claims@[i].epoch
                        == epoch,
                None => !has_claim(self.claims@, user, epoch),
            },
    {
        match self.find_claim(user, epoch) {
            Some(i) => Some(self.claims[i]),
            None => None,
        }
    }
}

/// The reason `initialize_pool` rejects this request, if any.
pub open spec fn initialize_pool_error(property_id: Seq<u8>, distribution_frequency_days: u64) -> Option<
    DividendError,
> {
    if property_id.len() > 64 {
        Some(DividendError::PropertyIdTooLong)
    } else if distribution_frequency_days == 0 {
        Some(DividendError::InvalidFrequency)
    } else {
        None
    }
}

/// Creates a dividend pool bound to one token supply, with its epoch
/// counter at zero and an empty escrow vault.
pub fn initialize_pool(
    authority: AccountId,
    pool_address: AccountId,
    property_mint: AccountId,
    vault_address: AccountId,
    property_id: Vec<u8>,
    distribution_frequency_days: u64,
) -> (r: Result<(DividendEngine, PoolInitialized), DividendError>)
    ensures
        match r {
            Err(e) => Some(e) == initialize_pool_error(property_id@, distribution_frequency_days),
            Ok((engine, ev)) => {
                &&& initialize_pool_error(property_id@, distribution_frequency_days) is None
                &&& engine.wf()
                &&& engine.address == pool_address
                &&& engine.pool == (DividendPool {
                    authority,
                    property_mint,
                    dividend_vault: vault_address,
                    property_id,
                    total_distributed: 0,
                    current_epoch: 0,
                    distribution_frequency_days,
                    last_distribution_time: 0,
                    total_deposited_current_epoch: 0,
                })
                &&& engine.vault == (EscrowVault {
                    owner: pool_address,
                    address: vault_address,
                    balance: 0,
                })
                &&& engine.distributions@.len() == 0
                &&& engine.claims@.len() == 0
                &&& ev == (PoolInitialized { pool: pool_address, property_mint, authority })
            },
        },
{
    if property_id.len() > 64 {
        return Err(DividendError::PropertyIdTooLong);
    }
    if distribution_frequency_days == 0 {
        return Err(DividendError::InvalidFrequency);
    }
    let pool = DividendPool {
        authority,
        property_mint,
        dividend_vault: vault_address,
        property_id,
        total_distributed: 0,
        current_epoch: 0,
        distribution_frequency_days,
        last_distribution_time: 0,
        total_deposited_current_epoch: 0,
    };
    let engine = DividendEngine {
        address: pool_address,
        pool,
        vault: EscrowVault::new(pool_address, vault_address),
        distributions: Vec::new(),
        claims: Vec::new(),
    };
    let ev = PoolInitialized { pool: pool_address, property_mint, authority };
    Ok((engine, ev))
}

/// The reason `deposit_dividend` rejects this request, if any, in the
/// order the checks run.
pub open spec fn deposit_error(e: DividendEngine, caller: AccountId, amount: u64) -> Option<
    DividendError,
> {
    if caller != e.pool.authority {
        Some(DividendError::Unauthorized)
    } else if amount == 0 {
        Some(DividendError::InvalidAmount)
    } else if e.pool.total_deposited_current_epoch + amount > u64::MAX || e.vault.balance + amount
        > u64::MAX {
        Some(DividendError::Overflow)
    } else {
        None
    }
}

impl DividendEngine {
    /// Deposits income into the pool's vault for the current epoch.
    /// Deposits accrue across calls until the authority opens a
    /// distribution; only the authority may deposit. Every error
    /// leaves the engine exactly as it was.
    pub fn deposit_dividend(&mut self, caller: AccountId, amount: u64) -> (r: Result<
        (DividendDeposited, Payment),
        DividendError,
    >)
        requires
            old(self).wf(),
        ensures
            final(self).wf(),
            final(self).address == old(self).address,
            final(self).pool.current_epoch == old(self).pool.current_epoch,
            match r {
                Err(e) => {
                    &&& Some(e) == deposit_error(*old(self), caller, amount)
                    &&& *final(self) == *old(self)
                },
                Ok((ev, pay)) => {
                    &&& deposit_error(*old(self), caller, amount) is None
                    &&& final(self).pool == (DividendPool {
                        total_deposited_current_epoch: (old(
                            self,
                        ).pool.total_deposited_current_epoch + amount) as u64,
                        ..old(self).pool
                    })
                    &&& final(self).vault == (EscrowVault {
                        balance: (old(self).vault.balance + amount) as u64,
                        ..old(self).vault
                    })
                    &&& final(self).distributions@ == old(self).distributions@
                    &&& final(self).claims@ == old(self).claims@
                    &&& ev == (DividendDeposited {
                        pool: old(self).address,
                        amount,
                        epoch: old(self).pool.current_epoch,
                        depositor: caller,
                    })
                    &&& pay == (Payment { from: caller, to: old(self).vault.address, amount })
                },
            },
    {
        if caller != self.pool.authority {
            return Err(DividendError::Unauthorized);
        }
        if amount == 0 {
            return Err(DividendError::InvalidAmount);
        }
        let new_deposited = match self.pool.total_deposited_current_epoch.checked_add(amount) {
            Some(v) => v,
            None => {
                return Err(DividendError::Overflow);
            },
        };
        if self.vault.balance.checked_add(amount).is_none() {
            return Err(DividendError::Overflow);
        }
        let pay = self.vault.deposit(caller, amount);
        self.pool.total_deposited_current_epoch = new_deposited;
        let ev = DividendDeposited {
            pool: self.address,
            amount,
            epoch: self.pool.current_epoch,
            depositor: caller,
        };
        proof {
            assert forall|i: int| 0 <= i < self.distributions@.len() implies #[trigger] self
                .distribution_ok(i) by {
                assert(old(self).distribution_ok(i));
            }
            assert forall|i: int| 0 <= i < self.claims@.len() implies #[trigger] self.claim_ok(
                i,
            ) by {
                assert(old(self).claim_ok(i));
            }
        }
        Ok((ev, pay))
    }
}

/// The reason `start_distribution` rejects this request, if any, in
/// the order the checks run.
pub open spec fn start_distribution_error(
    e: DividendEngine,
    caller: AccountId,
    total_supply: u64,
) -> Option<DividendError> {
    if caller != e.pool.authority {
        Some(DividendError::Unauthorized)
    } else if e.pool.total_deposited_current_epoch == 0 {
        Some(DividendError::NoDividendsToDistribute)
    } else if total_supply == 0 {
        Some(DividendError::NoTokensInCirculation)
    } else if e.pool.total_distributed + e.pool.total_deposited_current_epoch > u64::MAX {
        Some(DividendError::Overflow)
    } else if e.pool.current_epoch == u64::MAX {
        Some(DividendError::Overflow)
    } else {
        None
    }
}

impl DividendEngine {
    /// Opens a distribution epoch: snapshots the accrued deposit and
    /// the current token supply into an immutable record with
    /// `amount_per_token = floor(total_amount / total_token_supply)`,
    /// adds the deposit onto the all-time distributed total, advances
    /// the epoch counter, and resets the accrual to zero. The
    /// truncation residue stays in the vault. Every error leaves the
    /// engine exactly as it was.
    pub fn start_distribution(&mut self, caller: AccountId, total_supply: u64, now: i64) -> (r:
        Result<DistributionStarted, DividendError>)
        requires
            old(self).wf(),
        ensures
            final(self).wf(),
            final(self).address == old(self).address,
            final(self).pool.current_epoch >= old(self).pool.current_epoch,
            match r {
                Err(e) => {
                    &&& Some(e) == start_distribution_error(*old(self), caller, total_supply)
                    &&& *final(self) == *old(self)
                },
                Ok(ev) => {
                    let deposited = old(self).pool.total_deposited_current_epoch;
                    let per_token = deposited as int / total_supply as int;
                    &&& start_distribution_error(*old(self), caller, total_supply) is None
                    &&& final(self).pool == (DividendPool {
                        total_distributed: (old(self).pool.total_distributed + deposited) as u64,
                        current_epoch: (old(self).pool.current_epoch + 1) as u64,
                        last_distribution_time: now,
                        total_deposited_current_epoch: 0,
                        ..old(self).pool
                    })
                    &&& final(self).vault == old(self).vault
                    &&& final(self).distributions@ == old(self).distributions@.push(
                        DistributionRecord {
                            pool: old(self).address,
                            epoch: old(self).pool.current_epoch,
                            total_amount: deposited,
                            total_token_supply: total_supply,
                            amount_per_token: per_token as u64,
                            distributed_at: now,
                            total_claimed: 0,
                        },
                    )
                    &&& final(self).claims@ == old(self).claims@
                    &&& ev == (DistributionStarted {
                        pool: old(self).address,
                        epoch: old(self).pool.current_epoch,
                        total_amount: deposited,
                        amount_per_token: per_token as u64,
                    })
                },
            },
    {
        if caller != self.pool.authority {
            return Err(DividendError::Unauthorized);
        }
        if self.pool.total_deposited_current_epoch == 0 {
            return Err(DividendError::NoDividendsToDistribute);
        }
        if total_supply == 0 {
            return Err(DividendError::NoTokensInCirculation);
        }
        let deposited = self.pool.total_deposited_current_epoch;
        let new_total_distributed = match self.pool.total_distributed.checked_add(deposited) {
            Some(v) => v,
            None => {
                return Err(DividendError::Overflow);
            },
        };
        let new_epoch = match self.pool.current_epoch.checked_add(1) {
            Some(v) => v,
            None => {
                return Err(DividendError::Overflow);
            },
        };
        let record = DistributionRecord {
            pool: self.address,
            epoch: self.pool.current_epoch,
            total_amount: deposited,
            total_token_supply: total_supply,
            amount_per_token: deposited / total_supply,
            distributed_at: now,
            total_claimed: 0,
        };
        proof {
            lemma_sum_distributed_push(self.distributions@, record);
        }
        self.distributions.push(record);
        self.pool.total_distributed = new_total_distributed;
        self.pool.last_distribution_time = now;
        self.pool.current_epoch = new_epoch;
        self.pool.total_deposited_current_epoch = 0;
        let ev = DistributionStarted {
            pool: self.address,
            epoch: record.epoch,
            total_amount: deposited,
            amount_per_token: record.amount_per_token,
        };
        proof {
            assert forall|i: int| 0 <= i < self.distributions@.len() implies #[trigger] self
                .distribution_ok(i) by {
                if i < old(self).distributions@.len() {
                    assert(old(self).distribution_ok(i));
                }
            }
            assert forall|i: int| 0 <= i < self.claims@.len() implies #[trigger] self.claim_ok(
                i,
            ) by {
                assert(old(self).claim_ok(i));
            }
        }
        Ok(ev)
    }
}

/// The reason `claim_dividend` rejects this request, if any, in the
/// order the checks run. `user_token_balance` is the claimant's token
/// balance as the token primitive reports it at claim time.
pub open spec fn claim_dividend_error(
    e: DividendEngine,
    user: AccountId,
    epoch: u64,
    user_token_balance: u64,
) -> Option<DividendError> {
    if epoch >= e.pool.current_epoch {
        Some(DividendError::DistributionNotFound)
    } else if has_claim(e.claims@, user, epoch) {
        Some(DividendError::AlreadyClaimed)
    } else if user_token_balance == 0 {
        Some(DividendError::NoTokensHeld)
    } else if user_token_balance * e.distributions@[epoch as int].amount_per_token > u64::MAX {
        Some(DividendError::Overflow)
    } else if user_token_balance * e.distributions@[epoch as int].amount_per_token == 0 {
        Some(DividendError::NoDividendsToClaim)
    } else if user_token_balance * e.distributions@[epoch as int].amount_per_token
        > e.vault.balance {
        Some(DividendError::InsufficientVaultBalance)
    } else {
        None
    }
}

impl DividendEngine {
    /// Pays `user_token_balance * amount_per_token` for the named
    /// epoch from the vault to the user, and finalizes the claim
    /// record atomically with the payment: a retry cannot pay twice,
    /// because a duplicate (user, epoch) claim is rejected. The
    /// claimant's balance is read live, at claim time. Every error
    /// leaves the engine exactly as it was.
    pub fn claim_dividend(
        &mut self,
        user: AccountId,
        epoch: u64,
        user_token_balance: u64,
        now: i64,
    ) -> (r: Result<(DividendClaimed, Payment), DividendError>)
        requires
            old(self).wf(),
        ensures
            final(self).wf(),
            final(self).address == old(self).address,
            final(self).pool.current_epoch == old(self).pool.current_epoch,
            match r {
                Err(e) => {
                    &&& Some(e) == claim_dividend_error(*old(self), user, epoch, user_token_balance)
                    &&& *final(self) == *old(self)
                },
                Ok((ev, pay)) => {
                    let amount = user_token_balance * old(self).distributions@[
                        epoch as int
                    ].amount_per_token;
                    &&& claim_dividend_error(*old(self), user, epoch, user_token_balance) is None
                    &&& final(self).pool == old(self).pool
                    &&& final(self).distributions@ == old(self).distributions@
                    &&& final(self).claims@ == old(self).claims@.push(
                        ClaimRecord {
                            user,
                            epoch,
                            amount_claimed: amount as u64,
                            claimed_at: now,
                            claimed: true,
                        },
                    )
                    &&& final(self).vault == (EscrowVault {
                        balance: (old(self).vault.balance - amount) as u64,
                        ..old(self).vault
                    })
                    &&& ev == (DividendClaimed {
                        pool: old(self).address,
                        user,
                        epoch,
                        amount: amount as u64,
                    })
                    &&& pay == (Payment {
                        from: old(self).vault.address,
                        to: user,
                        amount: amount as u64,
                    })
                },
            },
    {
        if epoch >= self.pool.current_epoch {
            return Err(DividendError::DistributionNotFound);
        }
        match self.find_claim(user, epoch) {
            Some(_i) => Err(DividendError::AlreadyClaimed),
            None => {
                if user_token_balance == 0 {
                    return Err(DividendError::NoTokensHeld);
                }
                proof {
                    assert(self.distribution_ok(epoch as int));
                }
                let n = self.distributions.len();
                assert(epoch < n);
                let distribution = self.distributions[epoch as usize];
                let dividend_amount = match user_token_balance.checked_mul(
                    distribution.amount_per_token,
                ) {
                    Some(v) => v,
                    None => {
                        return Err(DividendError::Overflow);
                    },
                };
                if dividend_amount == 0 {
                    return Err(DividendError::NoDividendsToClaim);
                }
                if dividend_amount > self.vault.balance {
                    return Err(DividendError::InsufficientVaultBalance);
                }
                let pay = self.vault.withdraw(self.address, user, dividend_amount);
                let claim = ClaimRecord {
                    user,
                    epoch,
                    amount_claimed: dividend_amount,
                    claimed_at: now,
                    claimed: true,
                };
                self.claims.push(claim);
                let ev = DividendClaimed {
                    pool: self.address,
                    user,
                    epoch,
                    amount: dividend_amount,
                };
                proof {
                    assert forall|i: int| 0 <= i < self.claims@.len() implies #[trigger] self
                        .claim_ok(i) by {
                        if i < old(self).claims@.len() {
                            assert(old(self).claim_ok(i));
                        }
                    }
                    assert forall|i: int| 0 <= i < self.distributions@.len() implies #[trigger] self
                        .distribution_ok(i) by {
                        assert(old(self).distribution_ok(i));
                    }
                }
                Ok((ev, pay))
            },
        }
    }

    /// Read-only view of what `user` could claim for `epoch` at their
    /// current token balance: `user_token_balance * amount_per_token`,
    /// zero if they hold nothing. Creates and mutates no record.
    pub fn get_claimable_amount(&self, epoch: u64, user_token_balance: u64) -> (r: Result<
        u64,
        DividendError,
    >)
        requires
            self.wf(),
        ensures
            match r {
                Err(e) => {
                    &&& (if epoch >= self.pool.current_epoch {
                        e == DividendError::DistributionNotFound
                    } else {
                        user_token_balance != 0 && user_token_balance * self.distributions@[
                            epoch as int
                        ].amount_per_token > u64::MAX && e == DividendError::Overflow
                    })
                },
                Ok(amount) => {
                    &&& epoch < self.pool.current_epoch
                    &&& amount == (if user_token_balance == 0 {
                        0int
                    } else {
                        user_token_balance * self.distributions@[epoch as int].amount_per_token
                    })
                },
            },
    {
        if epoch >= self.pool.current_epoch {
            return Err(DividendError::DistributionNotFound);
        }
        if user_token_balance == 0 {
            return Ok(0);
        }
        let n = self.distributions.len();
        assert(epoch < n);
        let distribution = self.distributions[epoch as usize];
        match user_token_balance.checked_mul(distribution.amount_per_token) {
            Some(v) => Ok(v),
            None => Err(DividendError::Overflow),
        }
    }

    /// Rebinds the pool's authority; only the current authority may.
    /// The event carries both the old and the new value for
    /// auditability.
    pub fn update_authority(&mut self, caller: AccountId, new_authority: AccountId) -> (r: Result<
        AuthorityUpdated,
        DividendError,
    >)
        requires
            old(self).wf(),
        ensures
            final(self).wf(),
            final(self).address == old(self).address,
            final(self).pool.current_epoch == old(self).pool.current_epoch,
            match r {
                Err(e) => {
                    &&& caller != old(self).pool.authority
                    &&& e == DividendError::Unauthorized
                    &&& *final(self) == *old(self)
                },
                Ok(ev) => {
                    &&& caller == old(self).pool.authority
                    &&& *final(self) == (DividendEngine {
                        pool: (DividendPool { authority: new_authority, ..old(self).pool }),
                        ..*old(self)
                    })
                    &&& ev == (AuthorityUpdated {
                        pool: old(self).address,
                        old_authority: old(self).pool.authority,
                        new_authority,
                    })
                },
            },
    {
        if caller != self.pool.authority {
            return Err(DividendError::Unauthorized);
        }
        let old_authority = self.pool.authority;
        self.pool.authority = new_authority;
        proof {
            assert forall|i: int| 0 <= i < self.distributions@.len() implies #[trigger] self
                .distribution_ok(i) by {
                assert(old(self).distribution_ok(i));
            }
            assert forall|i: int| 0 <= i < self.claims@.len() implies #[trigger] self.claim_ok(
                i,
            ) by {
                assert(old(self).claim_ok(i));
            }
        }
        Ok(AuthorityUpdated { pool: self.address, old_authority, new_authority })
    }
}

/// Rounding dust stays in custody: in every well-formed engine, each
/// epoch's per-token amount times its supply snapshot never exceeds the
/// epoch's total, and the truncation residue is smaller than the
/// supply. That residue remains in the vault, permanently
/// undistributed for the epoch: a documented loss, not an error.
pub proof fn lemma_distribution_never_overpays(e: DividendEngine, i: int)
    requires
        e.wf(),
        0 <= i < e.distributions@.len(),
    ensures
        e.distributions@[i].amount_per_token * e.distributions@[i].total_token_supply
            <= e.distributions@[i].total_amount,
        e.distributions@[i].total_amount - e.distributions@[i].amount_per_token
            * e.distributions@[i].total_token_supply < e.distributions@[i].total_token_supply,
{
    let d = e.distributions@[i];
    assert(e.distribution_ok(i));
    lemma_fundamental_div_mod(d.total_amount as int, d.total_token_supply as int);
    lemma_mod_bound(d.total_amount as int, d.total_token_supply as int);
    assert(d.total_token_supply * (d.total_amount as int / d.total_token_supply as int)
        == (d.total_amount as int / d.total_token_supply as int) * d.total_token_supply)
        by (nonlinear_arith);
}

/// All-time conservation: in every well-formed engine the pool's
/// all-time distributed total equals the sum of its epochs' totals.
pub proof fn lemma_distributed_equals_sum_of_epochs(e: DividendEngine)
    requires
        e.wf(),
    ensures
        e.pool.total_distributed == sum_distributed(e.distributions@),
{
}

} // verus!
