//! Escrow custody: a holding account whose outbound transfers only the
//! owning aggregate can authorize.
//!
//! An [`EscrowVault`] tracks the balance a campaign or dividend pool
//! holds in custody. It never moves currency itself: [`EscrowVault::withdraw`]
//! demands proof of ownership and a sufficient balance, and hands back a
//! [`Payment`] instruction that the surrounding host executes on the
//! payment rail. [`MintInstruction`] plays the same role for the token
//! mint primitive.

use vstd::prelude::*;

verus! {

use crate::events::AccountId;

/// One authorized movement of base currency, to be executed by the
/// payment rail exactly as stated.
#[derive(Clone, Copy, Debug, PartialEq, Eq, Structural)]
pub struct Payment {
    pub from: AccountId,
    pub to: AccountId,
    pub amount: u64,
}

/// One authorized minting of claim tokens, to be executed by the token
/// mint primitive: `amount` new tokens of `mint` into `to`'s holding,
/// authorized by `authority`.
#[derive(Clone, Copy, Debug, PartialEq, Eq, Structural)]
pub struct MintInstruction {
    pub mint: AccountId,
    pub to: AccountId,
    pub amount: u64,
    pub authority: AccountId,
}

/// A capability-scoped holding account. `owner` is the one logical
/// entity (campaign or pool) that can authorize outbound transfers;
/// `address` is where the rail holds the funds; `balance` is the value
/// currently in custody.
#[derive(Clone, Copy, Debug, PartialEq, Eq, Structural)]
pub struct EscrowVault {
    pub owner: AccountId,
    pub address: AccountId,
    pub balance: u64,
}

impl EscrowVault {
    /// Creates an empty vault owned by `owner` at `address`.
    pub fn new(owner: AccountId, address: AccountId) -> (v: EscrowVault)
        ensures
            v.owner == owner,
            v.address == address,
            v.balance == 0,
    {
        EscrowVault { owner, address, balance: 0 }
    }

    /// Records an inbound transfer of `amount` from `from`, and returns
    /// the instruction for the rail. Inbound transfers need no owner
    /// authorization: anyone may pay into custody.
    pub fn deposit(&mut self, from: AccountId, amount: u64) -> (p: Payment)
        requires
            old(self).balance + amount <= u64::MAX,
        ensures
            *final(self) == (EscrowVault { balance: (old(self).balance + amount) as u64, ..*old(self) }),
            p == (Payment { from, to: old(self).address, amount }),
    {
        self.balance = self.balance + amount;
        Payment { from, to: self.address, amount }
    }

    /// Authorizes an outbound transfer of `amount` to `to`. The caller
    /// must present the owning entity's identity, and the vault must
    /// hold enough: an escrow never pays out more than it holds, and
    /// never for anyone but its owner.
    pub fn withdraw(&mut self, owner_proof: AccountId, to: AccountId, amount: u64) -> (p: Payment)
        requires
            owner_proof == old(self).owner,
            amount <= old(self).balance,
        ensures
            *final(self) == (EscrowVault { balance: (old(self).balance - amount) as u64, ..*old(self) }),
            p == (Payment { from: old(self).address, to, amount }),
    {
        self.balance = self.balance - amount;
        Payment { from: self.address, to, amount }
    }
}

} // verus!
