//! Share accounting: converting between asset amounts and share amounts at
//! the pool's current price.
//!
//! Pricing is always computed from the pre-mutation totals, so sequential
//! operations are priced against a consistent snapshot. Both conversions
//! floor, and the proofs below show that flooring can only ever favour the
//! pool, never the depositor.

use vstd::prelude::*;

use vstd::arithmetic::div_mod::{
    lemma_div_is_ordered, lemma_div_multiples_vanish, lemma_div_pos_is_pos,
    lemma_fundamental_div_mod, lemma_mod_bound,
};
use vstd::arithmetic::mul::{
    lemma_mul_inequality, lemma_mul_is_commutative, lemma_mul_is_distributive_add,
    lemma_mul_nonnegative,
};

use crate::errors::VaultError;
use crate::math::{mul_div, mul_div_spec};

verus! {

/// What pricing a deposit returns: `amount` itself while no shares are
/// outstanding (bootstrapping 1:1), `floor(amount * total_shares /
/// total_assets)` otherwise. A pool with outstanding shares but no recorded
/// assets is corrupt and refused as `PoolInconsistent`.
pub open spec fn price_for_deposit_spec(amount: u64, total_shares: u64, total_assets: u64) -> Result<
    u64,
    VaultError,
> {
    if total_shares == 0 {
        Ok(amount)
    } else if total_assets == 0 {
        Err(VaultError::PoolInconsistent)
    } else {
        mul_div_spec(amount as u128, total_shares as u128, total_assets as u128)
    }
}

/// Prices a deposit of `amount` against the current totals, returning the
/// number of shares to mint.
pub fn price_for_deposit(amount: u64, total_shares: u64, total_assets: u64) -> (r: Result<
    u64,
    VaultError,
>)
    ensures
        r == price_for_deposit_spec(amount, total_shares, total_assets),
{
    if total_shares == 0 {
        Ok(amount)
    } else if total_assets == 0 {
        Err(VaultError::PoolInconsistent)
    } else {
        mul_div(amount as u128, total_shares as u128, total_assets as u128)
    }
}

/// What pricing a withdrawal returns: `floor(amount * total_shares /
/// total_assets)` shares to burn. A withdrawal from a pool with no recorded
/// assets is refused as `PoolInconsistent`.
pub open spec fn shares_to_burn_spec(amount: u64, total_shares: u64, total_assets: u64) -> Result<
    u64,
    VaultError,
> {
    if total_assets == 0 && amount > 0 {
        Err(VaultError::PoolInconsistent)
    } else {
        mul_div_spec(amount as u128, total_shares as u128, total_assets as u128)
    }
}

/// Prices a withdrawal of `amount` against the current totals, returning the
/// number of shares to burn.
pub fn shares_to_burn(amount: u64, total_shares: u64, total_assets: u64) -> (r: Result<
    u64,
    VaultError,
>)
    ensures
        r == shares_to_burn_spec(amount, total_shares, total_assets),
{
    if total_assets == 0 && amount > 0 {
        Err(VaultError::PoolInconsistent)
    } else {
        mul_div(amount as u128, total_shares as u128, total_assets as u128)
    }
}

/// Floor division leaves a remainder of less than one divisor: for `d > 0`,
/// `(x / d) * d` is within `d` below `x`.
proof fn lemma_floor_remainder(x: int, d: int)
    requires
        d > 0,
    ensures
        d * (x / d) <= x,
        x - d * (x / d) < d,
{
    lemma_fundamental_div_mod(x, d);
    lemma_mod_bound(x, d);
}

/// No deposit mints shares above fair value: with `minted` the shares priced
/// for `amount`, the post-deposit shares-per-asset ratio never exceeds the
/// pre-deposit one, and falls short of it by less than one flooring step.
/// Both bounds are stated cross-multiplied, so that
/// `(total_shares + minted) * total_assets <=
/// total_shares * (total_assets + amount)` says the ratio did not rise.
pub proof fn lemma_deposit_never_overmints(amount: u64, total_shares: u64, total_assets: u64)
    requires
        total_shares > 0,
        total_assets > 0,
        price_for_deposit_spec(amount, total_shares, total_assets) is Ok,
    ensures
        ({
            let minted = price_for_deposit_spec(amount, total_shares, total_assets)->Ok_0;
            &&& (total_shares + minted) * total_assets <= total_shares * (total_assets + amount)
            &&& total_shares * (total_assets + amount) - (total_shares + minted) * total_assets
                < total_assets
        }),
{
    let s = total_shares as int;
    let a = total_assets as int;
    let amt = amount as int;
    let minted = price_for_deposit_spec(amount, total_shares, total_assets)->Ok_0 as int;
    assert(minted == amt * s / a);
    lemma_floor_remainder(amt * s, a);
    lemma_mul_is_commutative(a, minted);
    lemma_mul_is_distributive_add(a, s, minted);
    lemma_mul_is_commutative(a, s + minted);
    lemma_mul_is_commutative(a, s);
    lemma_mul_is_distributive_add(s, a, amt);
    lemma_mul_is_commutative(s, amt);
}

/// Round trip without intervening profit never pays out more than was put
/// in: depositing `amount`, then converting the minted shares back to assets
/// at the post-deposit price, yields at most `amount`; and withdrawing that
/// equivalent burns at most the minted shares, so the withdrawal is always
/// covered by the deposit's own position.
pub proof fn lemma_round_trip_never_gains(amount: u64, total_shares: u64, total_assets: u64)
    requires
        amount > 0,
        (total_shares == 0) <==> (total_assets == 0),
        price_for_deposit_spec(amount, total_shares, total_assets) is Ok,
        total_shares + price_for_deposit_spec(amount, total_shares, total_assets)->Ok_0
            <= u64::MAX,
        total_assets + amount <= u64::MAX,
    ensures
        ({
            let minted = price_for_deposit_spec(amount, total_shares, total_assets)->Ok_0;
            let new_shares = (total_shares + minted) as u64;
            let new_assets = (total_assets + amount) as u64;
            let equivalent = mul_div_spec(minted as u128, new_assets as u128, new_shares as u128);
            &&& equivalent matches Ok(returned) && returned <= amount
            &&& shares_to_burn_spec(equivalent->Ok_0, new_shares, new_assets) matches Ok(burn)
                && burn <= minted
        }),
{
    let minted = price_for_deposit_spec(amount, total_shares, total_assets)->Ok_0;
    let m = minted as int;
    let s = total_shares as int;
    let a = total_assets as int;
    let amt = amount as int;
    let s2 = s + m;
    let a2 = a + amt;
    // minted is at most amount shares' fair value: m * a <= amt * s.
    if total_shares == 0 {
        assert(m == amt);
    } else {
        assert(m == amt * s / a);
        lemma_floor_remainder(amt * s, a);
        lemma_mul_is_commutative(a, m);
    }
    assert(m * a <= amt * s);
    // Hence m * a2 <= amt * s2, by adding m * amt == amt * m to both sides.
    lemma_mul_is_distributive_add(m, a, amt);
    lemma_mul_is_distributive_add(amt, s, m);
    lemma_mul_is_commutative(m, amt);
    assert(m * a2 <= amt * s2);
    // The product m * a2 stays far inside the 128-bit range.
    lemma_mul_inequality(m, u64::MAX as int, a2);
    lemma_mul_inequality(a2, u64::MAX as int, u64::MAX as int);
    lemma_mul_is_commutative(m, a2);
    lemma_mul_is_commutative(a2, u64::MAX as int);
    assert(m * a2 <= u128::MAX);
    // equivalent == floor(m * a2 / s2) <= floor(amt * s2 / s2) == amt.
    assert(s2 > 0);
    lemma_div_is_ordered(m * a2, amt * s2, s2);
    lemma_mul_is_commutative(amt, s2);
    lemma_div_multiples_vanish(amt, s2);
    assert(m * a2 / s2 <= amt);
    let w = m * a2 / s2;
    assert(w >= 0) by {
        lemma_mul_nonnegative(m, a2);
        lemma_div_pos_is_pos(m * a2, s2);
    }
    // Burning the equivalent back: floor(w * s2 / a2) <= m.
    assert(w * s2 <= m * a2) by {
        lemma_floor_remainder(m * a2, s2);
        lemma_mul_is_commutative(s2, w);
    }
    assert(w * s2 <= u128::MAX) by {
        lemma_mul_inequality(w, u64::MAX as int, s2);
        lemma_mul_inequality(s2, u64::MAX as int, u64::MAX as int);
        lemma_mul_is_commutative(w, s2);
        lemma_mul_is_commutative(s2, u64::MAX as int);
    }
    assert(a2 > 0);
    lemma_div_is_ordered(w * s2, m * a2, a2);
    lemma_mul_is_commutative(m, a2);
    lemma_div_multiples_vanish(m, a2);
    assert(w * s2 / a2 <= m);
    assert(w * s2 / a2 >= 0) by {
        lemma_mul_nonnegative(w, s2);
        lemma_div_pos_is_pos(w * s2, a2);
    }
}

} // verus!
