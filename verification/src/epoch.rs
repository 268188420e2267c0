//! Epoch admission control.
//!
//! Each epoch opens with a window during which deposits and withdrawals are
//! admitted, measured from the vault's last epoch advance. The window closes
//! after six days; the epoch may be advanced only once seven full days have
//! passed. The deliberate one-day gap between the window closing and the
//! advance becoming ready forces settlement before the pool reopens, and must
//! be preserved exactly.

use vstd::prelude::*;

use crate::errors::VaultError;

verus! {

/// Seconds in one day.
pub const SECONDS_PER_DAY: u64 = 86400;

/// Length of the deposit/withdrawal window: six days from the last advance.
pub const ENTRY_WINDOW_SECONDS: u64 = 6 * 86400;

/// Minimum age of an epoch before it may be advanced: seven days.
pub const EPOCH_DURATION_SECONDS: u64 = 7 * 86400;

/// The admission state of an epoch at a given moment.
#[derive(Clone, Copy, Debug, PartialEq, Eq, Structural)]
pub enum EpochPhase {
    /// Less than six days since the last advance: deposits and withdrawals
    /// are admitted.
    WithinWindow,
    /// At least six but less than seven days: nothing is admitted; the pool
    /// settles.
    WindowClosed,
    /// Seven days or more: only an epoch advance is admitted.
    AdvanceReady,
}

/// Time since the last epoch advance. Negative only if the clock ran
/// backwards, which the external clock contract rules out; admission then
/// behaves as at the epoch's start.
pub open spec fn epoch_elapsed(now: u64, last_epoch_update: u64) -> int {
    now - last_epoch_update
}

/// Whether deposits and withdrawals are admitted at `now`.
pub open spec fn entry_window_open(now: u64, last_epoch_update: u64) -> bool {
    epoch_elapsed(now, last_epoch_update) < ENTRY_WINDOW_SECONDS
}

/// Whether the epoch may be advanced at `now`.
pub open spec fn advance_ready(now: u64, last_epoch_update: u64) -> bool {
    epoch_elapsed(now, last_epoch_update) >= EPOCH_DURATION_SECONDS
}

/// The phase the epoch is in at `now`.
pub open spec fn phase_spec(now: u64, last_epoch_update: u64) -> EpochPhase {
    if entry_window_open(now, last_epoch_update) {
        EpochPhase::WithinWindow
    } else if advance_ready(now, last_epoch_update) {
        EpochPhase::AdvanceReady
    } else {
        EpochPhase::WindowClosed
    }
}

/// Reports the phase the epoch is in at `now`.
pub fn current_phase(now: u64, last_epoch_update: u64) -> (phase: EpochPhase)
    ensures
        phase == phase_spec(now, last_epoch_update),
{
    if now <= last_epoch_update {
        EpochPhase::WithinWindow
    } else if now - last_epoch_update < ENTRY_WINDOW_SECONDS {
        EpochPhase::WithinWindow
    } else if now - last_epoch_update >= EPOCH_DURATION_SECONDS {
        EpochPhase::AdvanceReady
    } else {
        EpochPhase::WindowClosed
    }
}

/// What deposit admission returns: admitted exactly while the entry window
/// is open, refused with `DepositWindowClosed` afterwards.
pub open spec fn admit_deposit_spec(now: u64, last_epoch_update: u64) -> Result<(), VaultError> {
    if entry_window_open(now, last_epoch_update) {
        Ok(())
    } else {
        Err(VaultError::DepositWindowClosed)
    }
}

/// Decides whether a deposit is admitted at `now`.
pub fn admit_deposit(now: u64, last_epoch_update: u64) -> (r: Result<(), VaultError>)
    ensures
        r == admit_deposit_spec(now, last_epoch_update),
{
    if now <= last_epoch_update || now - last_epoch_update < ENTRY_WINDOW_SECONDS {
        Ok(())
    } else {
        Err(VaultError::DepositWindowClosed)
    }
}

/// What withdrawal admission returns: admitted exactly while the entry
/// window is open, refused with `WithdrawalWindowClosed` afterwards.
pub open spec fn admit_withdraw_spec(now: u64, last_epoch_update: u64) -> Result<(), VaultError> {
    if entry_window_open(now, last_epoch_update) {
        Ok(())
    } else {
        Err(VaultError::WithdrawalWindowClosed)
    }
}

/// Decides whether a withdrawal is admitted at `now`.
pub fn admit_withdraw(now: u64, last_epoch_update: u64) -> (r: Result<(), VaultError>)
    ensures
        r == admit_withdraw_spec(now, last_epoch_update),
{
    if now <= last_epoch_update || now - last_epoch_update < ENTRY_WINDOW_SECONDS {
        Ok(())
    } else {
        Err(VaultError::WithdrawalWindowClosed)
    }
}

/// What advance admission returns: admitted exactly once seven days have
/// elapsed, refused with `EpochNotReady` before that.
pub open spec fn admit_advance_spec(now: u64, last_epoch_update: u64) -> Result<(), VaultError> {
    if advance_ready(now, last_epoch_update) {
        Ok(())
    } else {
        Err(VaultError::EpochNotReady)
    }
}

/// Decides whether an epoch advance is admitted at `now`.
pub fn admit_advance(now: u64, last_epoch_update: u64) -> (r: Result<(), VaultError>)
    ensures
        r == admit_advance_spec(now, last_epoch_update),
{
    if now >= last_epoch_update && now - last_epoch_update >= EPOCH_DURATION_SECONDS {
        Ok(())
    } else {
        Err(VaultError::EpochNotReady)
    }
}

} // verus!
