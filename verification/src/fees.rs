//! Performance-fee accrual.
//!
//! On each epoch advance the operator earns a basis-point cut of the epoch's
//! profit, if any. The fee is recorded as a separate liability in
//! `accrued_fees`; it is not subtracted from the pool's recorded value, so
//! the share price reflects gross assets until the operator claims.

use vstd::prelude::*;

use vstd::arithmetic::div_mod::{lemma_div_is_ordered, lemma_div_multiples_vanish, lemma_div_pos_is_pos};
use vstd::arithmetic::mul::{lemma_mul_inequality, lemma_mul_is_commutative, lemma_mul_nonnegative};

use crate::errors::VaultError;
use crate::math::mul_div;

verus! {

/// Basis points in one whole: fee rates are fractions of this.
pub const BPS_DENOMINATOR: u64 = 10000;

/// What fee an epoch advance accrues: nothing without profit, otherwise
/// `floor(profit * fee_bps / 10000)` where profit is the observed growth of
/// the pool since the last advance.
pub open spec fn accrued_fee_spec(old_total_assets: u64, new_total_assets: u64, fee_bps: u16) -> int {
    if new_total_assets <= old_total_assets {
        0
    } else {
        (new_total_assets - old_total_assets) * fee_bps / (BPS_DENOMINATOR as int)
    }
}

/// A fee rate of at most one whole keeps the fee at or below the profit, so
/// it always fits alongside the balances it is charged on.
pub proof fn lemma_fee_at_most_profit(old_total_assets: u64, new_total_assets: u64, fee_bps: u16)
    requires
        fee_bps <= BPS_DENOMINATOR,
    ensures
        0 <= accrued_fee_spec(old_total_assets, new_total_assets, fee_bps),
        new_total_assets > old_total_assets ==> accrued_fee_spec(
            old_total_assets,
            new_total_assets,
            fee_bps,
        ) <= new_total_assets - old_total_assets,
{
    if new_total_assets > old_total_assets {
        let profit = new_total_assets - old_total_assets;
        let d = BPS_DENOMINATOR as int;
        lemma_mul_nonnegative(profit, fee_bps as int);
        lemma_div_pos_is_pos(profit * fee_bps, d);
        lemma_mul_inequality(fee_bps as int, d, profit);
        lemma_mul_is_commutative(fee_bps as int, profit);
        lemma_mul_is_commutative(d, profit);
        lemma_div_is_ordered(profit * fee_bps, profit * d, d);
        lemma_mul_is_commutative(profit, d);
        lemma_div_multiples_vanish(profit, d);
    }
}

/// Computes the fee an epoch advance accrues on the observed pool growth.
/// The caller guarantees a sane fee rate (the vault invariant caps it at
/// half), under which the computation can never overflow.
pub fn accrue_on_advance(old_total_assets: u64, new_total_assets: u64, fee_bps: u16) -> (fee: u64)
    requires
        fee_bps <= BPS_DENOMINATOR,
    ensures
        fee == accrued_fee_spec(old_total_assets, new_total_assets, fee_bps),
{
    if new_total_assets <= old_total_assets {
        0
    } else {
        let profit = new_total_assets - old_total_assets;
        proof {
            lemma_fee_at_most_profit(old_total_assets, new_total_assets, fee_bps);
            lemma_mul_inequality(profit as int, u64::MAX as int, fee_bps as int);
            lemma_mul_inequality(fee_bps as int, u64::MAX as int, u64::MAX as int);
            lemma_mul_is_commutative(fee_bps as int, u64::MAX as int);
        }
        match mul_div(profit as u128, fee_bps as u128, BPS_DENOMINATOR as u128) {
            Ok(fee) => fee,
            Err(_) => {
                proof {
                    assert(false);
                }
                0
            },
        }
    }
}

} // verus!
