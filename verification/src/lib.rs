//! A pooled-investment vault ledger.
//!
//! An operator manages a shared pool of one fungible asset on behalf of
//! investors, who hold proportional ownership units ("shares") instead of raw
//! balances. The ledger tracks pooled value, mints and burns shares at the
//! current share price, gates deposits and withdrawals to a time window within
//! each epoch, and accrues a performance fee on operator-generated profit.
//!
//! Asset custody, swap execution and the clock are external collaborators: the
//! ledger only decides, on plain values handed to it, whether an operation is
//! admissible and what the resulting state is.

pub mod bytes;
pub mod errors;
pub mod math;
pub mod epoch;
pub mod shares;
pub mod fees;
pub mod twitter;
pub mod vault;
