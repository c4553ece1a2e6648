//! Basis-point arithmetic shared by campaign settlement and token
//! reservation.
//!
//! All splits round down: the platform's share of a total is
//! `floor(total * bps / 10000)` and the creator keeps the exact
//! complement, so no value is created or lost by the split.

use vstd::prelude::*;

verus! {

use vstd::arithmetic::div_mod::lemma_div_is_ordered;
use vstd::arithmetic::div_mod::lemma_div_multiples_vanish;
use vstd::arithmetic::mul::lemma_mul_inequality;

/// The share that `bps` basis points take of `total`, rounded down.
pub open spec fn bps_share(total: int, bps: int) -> int {
    total * bps / 10000
}

/// The complement of the basis-point share: what remains of `total`
/// after the `bps` share is taken out.
pub open spec fn bps_remainder(total: int, bps: int) -> int {
    total - bps_share(total, bps)
}

/// A basis-point share of a non-negative total never exceeds the total,
/// for any rate up to 10000 bps (100%).
pub proof fn lemma_bps_share_bounds(total: int, bps: int)
    requires
        0 <= total,
        0 <= bps <= 10000,
    ensures
        0 <= bps_share(total, bps) <= total,
{
    assert(0 <= total * bps) by (nonlinear_arith)
        requires
            0 <= total,
            0 <= bps,
    ;
    lemma_mul_inequality(bps, 10000, total);
    assert(total * bps == bps * total) by (nonlinear_arith);
    assert(total * 10000 == 10000 * total) by (nonlinear_arith);
    lemma_div_is_ordered(0, total * bps, 10000);
    lemma_div_is_ordered(total * bps, total * 10000, 10000);
    lemma_div_multiples_vanish(total, 10000);
}

/// The platform's share and the creator's remainder partition the total
/// exactly: `share + remainder == total`, with both parts in
/// `[0, total]`, for any total and any equity rate within the 5000 bps
/// cap. No rounding loss occurs in the split itself.
pub proof fn lemma_split_conserves_total(total: u64, bps: u16)
    requires
        bps <= 5000,
    ensures
        bps_share(total as int, bps as int) + bps_remainder(total as int, bps as int)
            == total as int,
        0 <= bps_share(total as int, bps as int) <= total,
        0 <= bps_remainder(total as int, bps as int) <= total,
{
    lemma_bps_share_bounds(total as int, bps as int);
}

/// Computes `floor(total * bps / 10000)`, widening through `u128` so the
/// product cannot overflow.
pub fn bps_share_u64(total: u64, bps: u16) -> (r: u64)
    requires
        bps <= 10000,
    ensures
        r == bps_share(total as int, bps as int),
{
    proof {
        lemma_bps_share_bounds(total as int, bps as int);
        assert((total as int) * (bps as int) <= (u64::MAX as int) * 10000) by (nonlinear_arith)
            requires
                total as int <= u64::MAX as int,
                0 <= bps as int <= 10000,
        ;
    }
    (((total as u128) * (bps as u128)) / 10000) as u64
}

} // verus!
