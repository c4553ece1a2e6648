//! An escrow-backed ledger for equity-style crowdfunding of tokenized
//! properties.
//!
//! The crate models the financial core of such a platform as a pure,
//! verified state machine:
//!
//! - [`campaign`] drives one fund-raise: investors contribute base-currency
//!   value into a campaign-scoped escrow, the campaign settles into a
//!   platform/creator split once funded, and investors claim proportional
//!   tokens or refunds.
//! - [`dividends`] distributes recurring income against the same token
//!   supply in discrete epochs, pro rata per token held.
//! - [`escrow`] is the custody pattern both share: a holding account whose
//!   outbound transfers only its owning aggregate can authorize.
//! - [`platform`] is the platform configuration and the allow-list that
//!   gates campaign creation.
//!
//! Outside collaborators — the payment rail that moves currency, the token
//! mint, and the clock — are invoked by the surrounding host: every
//! operation takes the current time as a plain value and returns the
//! payment or mint instructions it has authorized, so the host performs
//! the transfers exactly as instructed.

pub mod campaign;
pub mod dividends;
pub mod errors;
pub mod escrow;
pub mod events;
pub mod math;
pub mod platform;
