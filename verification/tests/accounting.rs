use hedge_vault::errors::VaultError;
use hedge_vault::epoch::{current_phase, EpochPhase};
use hedge_vault::fees::accrue_on_advance;
use hedge_vault::math::{checked_add, checked_sub, mul_div};
use hedge_vault::shares::{price_for_deposit, shares_to_burn};

#[test]
fn mul_div_floors() {
    assert_eq!(mul_div(6, 35, 10), Ok(21));
    assert_eq!(mul_div(750, 1000, 1500), Ok(500));
    assert_eq!(mul_div(1, 1, 3), Ok(0));
}

#[test]
fn mul_div_rejects_zero_divisor() {
    assert_eq!(mul_div(1, 1, 0), Err(VaultError::ArithmeticOverflow));
    assert_eq!(mul_div(0, 0, 0), Err(VaultError::ArithmeticOverflow));
}

#[test]
fn mul_div_rejects_wide_overflow() {
    assert_eq!(mul_div(1u128 << 127, 4, 1), Err(VaultError::ArithmeticOverflow));
}

#[test]
fn mul_div_rejects_result_beyond_u64() {
    assert_eq!(mul_div(u64::MAX as u128, 2, 1), Err(VaultError::ArithmeticOverflow));
}

#[test]
fn checked_add_reports_overflow() {
    assert_eq!(checked_add(2, 3), Ok(5));
    assert_eq!(checked_add(u64::MAX, 1), Err(VaultError::ArithmeticOverflow));
}

#[test]
fn checked_sub_reports_underflow() {
    assert_eq!(checked_sub(5, 3), Ok(2));
    assert_eq!(checked_sub(3, 5), Err(VaultError::ArithmeticUnderflow));
}

#[test]
fn bootstrap_deposit_prices_one_to_one() {
    assert_eq!(price_for_deposit(1000, 0, 0), Ok(1000));
    // A pool holding dust but no shares still bootstraps 1:1.
    assert_eq!(price_for_deposit(7, 0, 3), Ok(7));
}

#[test]
fn deposit_pricing_floors_at_current_ratio() {
    assert_eq!(price_for_deposit(750, 1000, 1500), Ok(500));
    assert_eq!(price_for_deposit(2, 3, 7), Ok(0));
}

#[test]
fn deposit_pricing_rejects_inconsistent_pool() {
    assert_eq!(price_for_deposit(10, 5, 0), Err(VaultError::PoolInconsistent));
}

#[test]
fn withdrawal_pricing_floors_at_current_ratio() {
    assert_eq!(shares_to_burn(750, 1500, 2250), Ok(500));
    assert_eq!(shares_to_burn(1, 1, 10), Ok(0));
}

#[test]
fn withdrawal_pricing_rejects_inconsistent_pool() {
    assert_eq!(shares_to_burn(10, 5, 0), Err(VaultError::PoolInconsistent));
}

#[test]
fn fee_accrues_only_on_profit() {
    assert_eq!(accrue_on_advance(1000, 1500, 1000), 50);
    assert_eq!(accrue_on_advance(1500, 1000, 1000), 0);
    assert_eq!(accrue_on_advance(1000, 1000, 1000), 0);
}

#[test]
fn fee_floors() {
    // profit 3 at 0.33%: floor(3 * 33 / 10000) == 0.
    assert_eq!(accrue_on_advance(0, 3, 33), 0);
    // profit 1999 at 10%: floor(1999 * 1000 / 10000) == 199.
    assert_eq!(accrue_on_advance(1, 2000, 1000), 199);
}

#[test]
fn phase_boundaries() {
    let created = 1_000_000;
    assert_eq!(current_phase(created, created), EpochPhase::WithinWindow);
    assert_eq!(current_phase(created + 6 * 86400 - 1, created), EpochPhase::WithinWindow);
    assert_eq!(current_phase(created + 6 * 86400, created), EpochPhase::WindowClosed);
    assert_eq!(current_phase(created + 7 * 86400 - 1, created), EpochPhase::WindowClosed);
    assert_eq!(current_phase(created + 7 * 86400, created), EpochPhase::AdvanceReady);
}
