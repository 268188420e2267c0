//! The error kinds that the ledger's operations can return.

use vstd::prelude::*;

verus! {

/// Why a vault operation was refused. Every failure is terminal for the
/// triggering operation and leaves the vault and position state unchanged.
#[derive(Clone, Copy, Debug, PartialEq, Eq, Structural)]
pub enum VaultError {
    /// The requested performance fee rate exceeds the allowed maximum.
    InvalidPerformanceFee,
    /// The claimed external handle is not in an acceptable format.
    InvalidHandleFormat,
    /// The identity-binding proof does not check out against the operator.
    InvalidProof,
    /// A multiply, divide or add stepped outside the representable range.
    ArithmeticOverflow,
    /// A balance subtraction would have gone below zero.
    ArithmeticUnderflow,
    /// Shares are outstanding while the recorded pool value is zero: a
    /// corrupt state that must not be priced against.
    PoolInconsistent,
    /// The deposit window of the current epoch has closed.
    DepositWindowClosed,
    /// The withdrawal window of the current epoch has closed.
    WithdrawalWindowClosed,
    /// Not enough time has passed since the last epoch advance.
    EpochNotReady,
    /// The withdrawal would burn more shares than the investor holds.
    InsufficientShares,
    /// The caller is not the vault's recorded operator.
    Unauthorized,
    /// The external asset transfer reported failure.
    TransferFailed,
    /// The external swap router reported failure.
    SwapFailed,
    /// The swap router's reported output fell below the requested minimum.
    SlippageExceeded,
}

} // verus!
