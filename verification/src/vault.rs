//! The vault ledger: the aggregate that owns all vault-level state and
//! exposes the public operations.
//!
//! Every operation is atomic: it either commits the state change its
//! contract describes or reports an error and leaves the vault and the
//! investor position exactly as they were. External identities — the
//! operator's wallet, the investors' wallets, the asset mint — reach the
//! ledger as opaque byte strings; custody of the actual asset balances and
//! swap execution live with the host, which hands the ledger the plain
//! values it needs (the current time, the observed pool value, a swap's
//! reported output).

use vstd::prelude::*;

use crate::epoch::{admit_advance, admit_advance_spec, admit_deposit, admit_deposit_spec, admit_withdraw, admit_withdraw_spec};
use crate::errors::VaultError;
use crate::bytes::bytes_eq;
use crate::fees::{accrue_on_advance, accrued_fee_spec, lemma_fee_at_most_profit};
use crate::math::{checked_add, checked_add_spec, checked_sub, checked_sub_spec};
use crate::shares::{price_for_deposit, price_for_deposit_spec, shares_to_burn, shares_to_burn_spec};
use crate::twitter::{verify_auth_spec, valid_handle, TwitterVerification};

verus! {

/// The highest performance fee a vault may be created with: half, in basis
/// points.
pub const MAX_PERFORMANCE_FEE_BPS: u16 = 5000;

/// A vault: one operator's pooled position, priced in shares.
pub struct Vault {
    /// The operator's identity. Immutable after creation.
    pub trader: Vec<u8>,
    /// Descriptive name. Immutable after creation.
    pub vault_name: Vec<u8>,
    /// The external handle bound to the operator. Write-once.
    pub twitter_handle: Vec<u8>,
    /// The handle-binding proof recorded at creation. Write-once.
    pub twitter_proof: Vec<u8>,
    /// Identifier of the pooled asset type. Immutable.
    pub token_mint: Vec<u8>,
    /// Performance fee rate in basis points, at most half. Immutable.
    pub performance_fee_bps: u16,
    /// Total outstanding ownership units.
    pub total_shares: u64,
    /// The pool's recorded asset value as of the last epoch advance,
    /// adjusted by subsequent deposits and withdrawals.
    pub total_assets: u64,
    /// How many epochs have been advanced since creation.
    pub current_epoch: u64,
    /// When the epoch last advanced (creation time, initially).
    pub last_epoch_update: u64,
    /// When the vault was created. Immutable.
    pub created_at: u64,
    /// Fees owed to the operator, reset on claim.
    pub accrued_fees: u64,
}

/// The mathematical model of a vault.
#[verifier::ext_equal]
pub struct VaultView {
    pub trader: Seq<u8>,
    pub vault_name: Seq<u8>,
    pub twitter_handle: Seq<u8>,
    pub twitter_proof: Seq<u8>,
    pub token_mint: Seq<u8>,
    pub performance_fee_bps: u16,
    pub total_shares: u64,
    pub total_assets: u64,
    pub current_epoch: u64,
    pub last_epoch_update: u64,
    pub created_at: u64,
    pub accrued_fees: u64,
}

impl VaultView {
    /// The vault invariant: the fee rate never exceeds the creation-time
    /// cap. Creation establishes it; every operation preserves it.
    pub open spec fn wf(self) -> bool {
        self.performance_fee_bps <= MAX_PERFORMANCE_FEE_BPS
    }
}

impl View for Vault {
    type V = VaultView;

    open spec fn view(&self) -> VaultView {
        VaultView {
            trader: self.trader@,
            vault_name: self.vault_name@,
            twitter_handle: self.twitter_handle@,
            twitter_proof: self.twitter_proof@,
            token_mint: self.token_mint@,
            performance_fee_bps: self.performance_fee_bps,
            total_shares: self.total_shares,
            total_assets: self.total_assets,
            current_epoch: self.current_epoch,
            last_epoch_update: self.last_epoch_update,
            created_at: self.created_at,
            accrued_fees: self.accrued_fees,
        }
    }
}

/// One investor's position in one vault.
pub struct InvestorInfo {
    /// The investor's identity.
    pub investor: Vec<u8>,
    /// The vault the position belongs to.
    pub vault: Vec<u8>,
    /// Ownership units held.
    pub shares: u64,
    /// First-deposit timestamp, immutable once the position exists.
    pub deposited_at: u64,
}

/// The mathematical model of an investor position.
#[verifier::ext_equal]
pub struct InvestorInfoView {
    pub investor: Seq<u8>,
    pub vault: Seq<u8>,
    pub shares: u64,
    pub deposited_at: u64,
}

impl View for InvestorInfo {
    type V = InvestorInfoView;

    open spec fn view(&self) -> InvestorInfoView {
        InvestorInfoView {
            investor: self.investor@,
            vault: self.vault@,
            shares: self.shares,
            deposited_at: self.deposited_at,
        }
    }
}

impl InvestorInfo {
    /// Opens an empty position for an investor's first deposit.
    pub fn new(investor: Vec<u8>, vault: Vec<u8>, now: u64) -> (r: InvestorInfo)
        ensures
            r@ == (InvestorInfoView {
                investor: investor@,
                vault: vault@,
                shares: 0,
                deposited_at: now,
            }),
    {
        InvestorInfo { investor, vault, shares: 0, deposited_at: now }
    }
}

/// What creating a vault returns: a fresh vault with all counters at zero
/// and both timestamps at `now`, or the first failed admission check — the
/// fee cap, then the handle format, then the handle-binding proof.
pub open spec fn create_vault_spec(
    trader: Seq<u8>,
    vault_name: Seq<u8>,
    twitter_handle: Seq<u8>,
    twitter_proof: Seq<u8>,
    token_mint: Seq<u8>,
    performance_fee_bps: u16,
    now: u64,
) -> Result<VaultView, VaultError> {
    if performance_fee_bps > MAX_PERFORMANCE_FEE_BPS {
        Err(VaultError::InvalidPerformanceFee)
    } else if !valid_handle(twitter_handle) {
        Err(VaultError::InvalidHandleFormat)
    } else {
        match verify_auth_spec(twitter_handle, twitter_proof, trader) {
            Err(e) => Err(e),
            Ok(false) => Err(VaultError::InvalidProof),
            Ok(true) => Ok(
                VaultView {
                    trader,
                    vault_name,
                    twitter_handle,
                    twitter_proof,
                    token_mint,
                    performance_fee_bps,
                    total_shares: 0,
                    total_assets: 0,
                    current_epoch: 0,
                    last_epoch_update: now,
                    created_at: now,
                    accrued_fees: 0,
                },
            ),
        }
    }
}

/// Creates a vault for `trader`, after checking the fee cap, the handle
/// format, and the handle-binding proof.
pub fn create_vault(
    trader: Vec<u8>,
    vault_name: Vec<u8>,
    twitter_handle: Vec<u8>,
    twitter_proof: Vec<u8>,
    token_mint: Vec<u8>,
    performance_fee_bps: u16,
    now: u64,
) -> (r: Result<Vault, VaultError>)
    ensures
        match r {
            Ok(v) => create_vault_spec(
                trader@,
                vault_name@,
                twitter_handle@,
                twitter_proof@,
                token_mint@,
                performance_fee_bps,
                now,
            ) == Ok::<VaultView, VaultError>(v@) && v@.wf(),
            Err(e) => create_vault_spec(
                trader@,
                vault_name@,
                twitter_handle@,
                twitter_proof@,
                token_mint@,
                performance_fee_bps,
                now,
            ) == Err::<VaultView, VaultError>(e),
        },
{
    if performance_fee_bps > MAX_PERFORMANCE_FEE_BPS {
        return Err(VaultError::InvalidPerformanceFee);
    }
    if !TwitterVerification::is_valid_handle(&twitter_handle) {
        return Err(VaultError::InvalidHandleFormat);
    }
    match TwitterVerification::verify_twitter_auth(&twitter_handle, &twitter_proof, &trader) {
        Err(e) => Err(e),
        Ok(false) => Err(VaultError::InvalidProof),
        Ok(true) => Ok(
            Vault {
                trader,
                vault_name,
                twitter_handle,
                twitter_proof,
                token_mint,
                performance_fee_bps,
                total_shares: 0,
                total_assets: 0,
                current_epoch: 0,
                last_epoch_update: now,
                created_at: now,
                accrued_fees: 0,
            },
        ),
    }
}

/// What a deposit does: while the entry window is open, price the deposit
/// against the pre-mutation totals, then grow the pool's assets and shares
/// and the investor's position accordingly. Every failure — a closed window,
/// a corrupt pool, an arithmetic bound — leaves both states untouched.
pub open spec fn deposit_spec(v: VaultView, p: InvestorInfoView, amount: u64, now: u64) -> Result<
    (VaultView, InvestorInfoView, u64),
    VaultError,
> {
    match admit_deposit_spec(now, v.last_epoch_update) {
        Err(e) => Err(e),
        Ok(_) => match price_for_deposit_spec(amount, v.total_shares, v.total_assets) {
            Err(e) => Err(e),
            Ok(minted) => match checked_add_spec(v.total_assets, amount) {
                Err(e) => Err(e),
                Ok(new_assets) => match checked_add_spec(v.total_shares, minted) {
                    Err(e) => Err(e),
                    Ok(new_shares) => match checked_add_spec(p.shares, minted) {
                        Err(e) => Err(e),
                        Ok(new_position) => Ok(
                            (
                                VaultView {
                                    total_assets: new_assets,
                                    total_shares: new_shares,
                                    ..v
                                },
                                InvestorInfoView { shares: new_position, ..p },
                                minted,
                            ),
                        ),
                    },
                },
            },
        },
    }
}

/// Deposits `amount` of the pooled asset for the investor, minting shares at
/// the current price. The host moves the actual assets into custody and
/// calls this to commit the ledger change; on any error nothing changes and
/// nothing must move.
pub fn deposit(vault: &mut Vault, investor: &mut InvestorInfo, amount: u64, now: u64) -> (r:
    Result<u64, VaultError>)
    requires
        amount > 0,
    ensures
        match deposit_spec(old(vault)@, old(investor)@, amount, now) {
            Ok((nv, np, minted)) => r == Ok::<u64, VaultError>(minted) && final(vault)@ == nv
                && final(investor)@ == np,
            Err(e) => r == Err::<u64, VaultError>(e) && final(vault)@ == old(vault)@
                && final(investor)@ == old(investor)@,
        },
{
    if let Err(e) = admit_deposit(now, vault.last_epoch_update) {
        return Err(e);
    }
    let minted = match price_for_deposit(amount, vault.total_shares, vault.total_assets) {
        Ok(m) => m,
        Err(e) => return Err(e),
    };
    let new_assets = match checked_add(vault.total_assets, amount) {
        Ok(x) => x,
        Err(e) => return Err(e),
    };
    let new_shares = match checked_add(vault.total_shares, minted) {
        Ok(x) => x,
        Err(e) => return Err(e),
    };
    let new_position = match checked_add(investor.shares, minted) {
        Ok(x) => x,
        Err(e) => return Err(e),
    };
    vault.total_assets = new_assets;
    vault.total_shares = new_shares;
    investor.shares = new_position;
    Ok(minted)
}

/// What a withdrawal does: while the entry window is open, price the
/// requested amount into shares to burn, refuse if the investor's position
/// does not cover them, then shrink the pool and the position symmetrically.
/// A pool with no outstanding shares admits no withdrawal at all — nobody
/// holds a claim on it — until a new deposit reseeds it 1:1. Every failure
/// leaves both states untouched.
pub open spec fn withdraw_spec(v: VaultView, p: InvestorInfoView, amount: u64, now: u64) -> Result<
    (VaultView, InvestorInfoView, u64),
    VaultError,
> {
    match admit_withdraw_spec(now, v.last_epoch_update) {
        Err(e) => Err(e),
        Ok(_) => if v.total_shares == 0 {
            Err(VaultError::InsufficientShares)
        } else {
            match shares_to_burn_spec(amount, v.total_shares, v.total_assets) {
                Err(e) => Err(e),
                Ok(burn) => if p.shares < burn {
                    Err(VaultError::InsufficientShares)
                } else {
                    match checked_sub_spec(v.total_assets, amount) {
                        Err(e) => Err(e),
                        Ok(new_assets) => match checked_sub_spec(v.total_shares, burn) {
                            Err(e) => Err(e),
                            Ok(new_shares) => Ok(
                                (
                                    VaultView {
                                        total_assets: new_assets,
                                        total_shares: new_shares,
                                        ..v
                                    },
                                    InvestorInfoView { shares: (p.shares - burn) as u64, ..p },
                                    burn,
                                ),
                            ),
                        },
                    }
                },
            }
        },
    }
}

/// Withdraws `amount` of the pooled asset for the investor, burning shares
/// at the current price. The host pays the amount out of custody only after
/// this commits; on any error nothing changes and nothing must move.
pub fn withdraw(vault: &mut Vault, investor: &mut InvestorInfo, amount: u64, now: u64) -> (r:
    Result<u64, VaultError>)
    requires
        amount > 0,
    ensures
        match withdraw_spec(old(vault)@, old(investor)@, amount, now) {
            Ok((nv, np, burned)) => r == Ok::<u64, VaultError>(burned) && final(vault)@ == nv
                && final(investor)@ == np,
            Err(e) => r == Err::<u64, VaultError>(e) && final(vault)@ == old(vault)@
                && final(investor)@ == old(investor)@,
        },
{
    if let Err(e) = admit_withdraw(now, vault.last_epoch_update) {
        return Err(e);
    }
    if vault.total_shares == 0 {
        return Err(VaultError::InsufficientShares);
    }
    let burn = match shares_to_burn(amount, vault.total_shares, vault.total_assets) {
        Ok(b) => b,
        Err(e) => return Err(e),
    };
    if investor.shares < burn {
        return Err(VaultError::InsufficientShares);
    }
    let new_assets = match checked_sub(vault.total_assets, amount) {
        Ok(x) => x,
        Err(e) => return Err(e),
    };
    let new_shares = match checked_sub(vault.total_shares, burn) {
        Ok(x) => x,
        Err(e) => return Err(e),
    };
    vault.total_assets = new_assets;
    vault.total_shares = new_shares;
    investor.shares = investor.shares - burn;
    Ok(burn)
}

/// What an epoch advance does: once seven days have passed, accrue the
/// performance fee on the observed growth, record the observed pool value,
/// step the epoch counter and restart the clock. The observed value is
/// supplied by the caller — the ledger does not itself discover asset value.
pub open spec fn advance_epoch_spec(v: VaultView, observed_total_assets: u64, now: u64) -> Result<
    (VaultView, u64),
    VaultError,
>
    recommends
        v.wf(),
{
    match admit_advance_spec(now, v.last_epoch_update) {
        Err(e) => Err(e),
        Ok(_) => {
            let fee = accrued_fee_spec(v.total_assets, observed_total_assets, v.performance_fee_bps);
            match checked_add_spec(v.accrued_fees, fee as u64) {
                Err(e) => Err(e),
                Ok(new_accrued) => match checked_add_spec(v.current_epoch, 1) {
                    Err(e) => Err(e),
                    Ok(next_epoch) => Ok(
                        (
                            VaultView {
                                total_assets: observed_total_assets,
                                current_epoch: next_epoch,
                                last_epoch_update: now,
                                accrued_fees: new_accrued,
                                ..v
                            },
                            fee as u64,
                        ),
                    ),
                },
            }
        },
    }
}

/// Advances the epoch against the externally observed pool value, accruing
/// the performance fee on any profit. Returns the fee accrued.
pub fn advance_epoch(vault: &mut Vault, observed_total_assets: u64, now: u64) -> (r: Result<
    u64,
    VaultError,
>)
    requires
        old(vault)@.wf(),
    ensures
        final(vault)@.wf(),
        match advance_epoch_spec(old(vault)@, observed_total_assets, now) {
            Ok((nv, fee)) => r == Ok::<u64, VaultError>(fee) && final(vault)@ == nv,
            Err(e) => r == Err::<u64, VaultError>(e) && final(vault)@ == old(vault)@,
        },
{
    if let Err(e) = admit_advance(now, vault.last_epoch_update) {
        return Err(e);
    }
    proof {
        lemma_fee_at_most_profit(vault.total_assets, observed_total_assets, vault.performance_fee_bps);
    }
    let fee = accrue_on_advance(vault.total_assets, observed_total_assets, vault.performance_fee_bps);
    let new_accrued = match checked_add(vault.accrued_fees, fee) {
        Ok(x) => x,
        Err(e) => return Err(e),
    };
    let next_epoch = match checked_add(vault.current_epoch, 1) {
        Ok(x) => x,
        Err(e) => return Err(e),
    };
    vault.total_assets = observed_total_assets;
    vault.current_epoch = next_epoch;
    vault.last_epoch_update = now;
    vault.accrued_fees = new_accrued;
    Ok(fee)
}

/// What claiming fees does: only the recorded operator may claim; a claim
/// pays out the whole accrued balance and resets it, a zero balance being a
/// successful no-op rather than an error.
pub open spec fn claim_fees_spec(v: VaultView, caller: Seq<u8>) -> Result<
    (VaultView, u64),
    VaultError,
> {
    if caller != v.trader {
        Err(VaultError::Unauthorized)
    } else {
        Ok((VaultView { accrued_fees: 0, ..v }, v.accrued_fees))
    }
}

/// Claims the accrued performance fees for the operator. Returns the amount
/// the host must pay out of custody.
pub fn claim_fees(vault: &mut Vault, caller: &Vec<u8>) -> (r: Result<u64, VaultError>)
    ensures
        match claim_fees_spec(old(vault)@, caller@) {
            Ok((nv, paid)) => r == Ok::<u64, VaultError>(paid) && final(vault)@ == nv,
            Err(e) => r == Err::<u64, VaultError>(e) && final(vault)@ == old(vault)@,
        },
{
    if !bytes_eq(caller, &vault.trader) {
        return Err(VaultError::Unauthorized);
    }
    let paid = vault.accrued_fees;
    vault.accrued_fees = 0;
    Ok(paid)
}

/// What authorizing a swap returns: only the recorded operator may trade
/// with the pool.
pub open spec fn swap_authorization_spec(v: VaultView, caller: Seq<u8>) -> Result<(), VaultError> {
    if caller == v.trader {
        Ok(())
    } else {
        Err(VaultError::Unauthorized)
    }
}

/// Authorizes a swap of pool assets. The swap itself runs with the external
/// router; it touches neither `total_shares` nor `total_assets` — its result
/// is only realized at the next epoch advance, through the observed pool
/// value.
pub fn swap_tokens(vault: &Vault, caller: &Vec<u8>, input_amount: u64, min_output_amount: u64) -> (r: Result<(), VaultError>)
    ensures
        r == swap_authorization_spec(vault@, caller@),
{
    if bytes_eq(caller, &vault.trader) {
        Ok(())
    } else {
        Err(VaultError::Unauthorized)
    }
}

/// What settling a swap returns: the router's reported output, accepted
/// exactly when it reaches the requested minimum and refused as
/// `SlippageExceeded` below it.
pub open spec fn settle_swap_spec(min_output_amount: u64, reported_output: u64) -> Result<
    u64,
    VaultError,
> {
    if reported_output < min_output_amount {
        Err(VaultError::SlippageExceeded)
    } else {
        Ok(reported_output)
    }
}

/// Judges the output the external router reported for an authorized swap.
pub fn settle_swap(min_output_amount: u64, reported_output: u64) -> (r: Result<u64, VaultError>)
    ensures
        r == settle_swap_spec(min_output_amount, reported_output),
{
    if reported_output < min_output_amount {
        Err(VaultError::SlippageExceeded)
    } else {
        Ok(reported_output)
    }
}

/// Claiming fees twice in a row, with no epoch advance in between, is a
/// no-op the second time: the second claim succeeds, pays zero, and leaves
/// the vault exactly as the first claim left it.
pub proof fn lemma_claim_fees_idempotent(v: VaultView, caller: Seq<u8>)
    requires
        claim_fees_spec(v, caller) is Ok,
    ensures
        ({
            let after_first = claim_fees_spec(v, caller)->Ok_0.0;
            claim_fees_spec(after_first, caller) == Ok::<(VaultView, u64), VaultError>(
                (after_first, 0u64),
            )
        }),
{
    let after_first = claim_fees_spec(v, caller)->Ok_0.0;
    assert(VaultView { accrued_fees: 0, ..after_first } =~= after_first);
}

/// While no shares are outstanding, no withdrawal is admissible, whatever
/// value the pool records: nobody holds a claim on it, and only a new
/// deposit — reseeding shares 1:1 — opens it again.
pub proof fn lemma_no_withdrawal_without_shares(
    v: VaultView,
    p: InvestorInfoView,
    amount: u64,
    now: u64,
)
    requires
        v.total_shares == 0,
        admit_withdraw_spec(now, v.last_epoch_update) is Ok,
    ensures
        withdraw_spec(v, p, amount, now) == Err::<(VaultView, InvestorInfoView, u64), VaultError>(
            VaultError::InsufficientShares,
        ),
{
}

/// A withdrawal whose computed share burn exceeds the investor's recorded
/// position is refused as `InsufficientShares` — even when the pool as a
/// whole holds enough shares to cover it.
pub proof fn lemma_insufficient_shares_refused(
    v: VaultView,
    p: InvestorInfoView,
    amount: u64,
    now: u64,
)
    requires
        admit_withdraw_spec(now, v.last_epoch_update) is Ok,
        shares_to_burn_spec(amount, v.total_shares, v.total_assets) matches Ok(burn) && p.shares
            < burn,
    ensures
        withdraw_spec(v, p, amount, now) == Err::<(VaultView, InvestorInfoView, u64), VaultError>(
            VaultError::InsufficientShares,
        ),
{
}

} // verus!
