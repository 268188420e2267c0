use sha2::Digest;

use hedge_vault::errors::VaultError;
use hedge_vault::vault::{
    advance_epoch, claim_fees, create_vault, deposit, settle_swap, swap_tokens, withdraw,
    InvestorInfo, Vault,
};

const CREATED: u64 = 1_000_000;
const DAY: u64 = 86400;

fn trader_key() -> Vec<u8> {
    b"TRADERWALLET00000000000000000001".to_vec()
}

fn investor_key() -> Vec<u8> {
    b"INVESTORWALLET000000000000000001".to_vec()
}

fn mint_id() -> Vec<u8> {
    b"MINT0000000000000000000000000001".to_vec()
}

fn proof_for(handle: &[u8], owner_key: &[u8]) -> Vec<u8> {
    let mut message = handle.to_vec();
    message.push(b':');
    message.extend_from_slice(owner_key);
    let digest = sha2::Sha256::digest(&message);
    hex::encode(digest).into_bytes()
}

fn fresh_vault(fee_bps: u16) -> Vault {
    let key = trader_key();
    let proof = proof_for(b"alice", &key);
    create_vault(
        key,
        b"alpha fund".to_vec(),
        b"alice".to_vec(),
        proof,
        mint_id(),
        fee_bps,
        CREATED,
    )
    .expect("creation should succeed")
}

fn fresh_position() -> InvestorInfo {
    InvestorInfo::new(investor_key(), b"vault-1".to_vec(), CREATED)
}

fn vault_totals(v: &Vault) -> (u64, u64, u64, u64, u64) {
    (v.total_shares, v.total_assets, v.current_epoch, v.last_epoch_update, v.accrued_fees)
}

#[test]
fn creation_initializes_all_counters() {
    let v = fresh_vault(1000);
    assert_eq!(v.trader, trader_key());
    assert_eq!(v.vault_name, b"alpha fund".to_vec());
    assert_eq!(v.twitter_handle, b"alice".to_vec());
    assert_eq!(v.token_mint, mint_id());
    assert_eq!(v.performance_fee_bps, 1000);
    assert_eq!(v.total_shares, 0);
    assert_eq!(v.total_assets, 0);
    assert_eq!(v.current_epoch, 0);
    assert_eq!(v.last_epoch_update, CREATED);
    assert_eq!(v.created_at, CREATED);
    assert_eq!(v.accrued_fees, 0);
}

#[test]
fn creation_rejects_fee_above_cap() {
    let key = trader_key();
    let proof = proof_for(b"alice", &key);
    let r = create_vault(key, b"f".to_vec(), b"alice".to_vec(), proof, mint_id(), 5001, CREATED);
    assert_eq!(r.err(), Some(VaultError::InvalidPerformanceFee));
}

#[test]
fn creation_accepts_fee_at_cap() {
    let v = fresh_vault(5000);
    assert_eq!(v.performance_fee_bps, 5000);
}

#[test]
fn creation_rejects_bad_handle() {
    let key = trader_key();
    let proof = proof_for(b"bad handle", &key);
    let r = create_vault(
        key,
        b"f".to_vec(),
        b"bad handle".to_vec(),
        proof,
        mint_id(),
        1000,
        CREATED,
    );
    assert_eq!(r.err(), Some(VaultError::InvalidHandleFormat));
}

#[test]
fn creation_rejects_mismatched_proof() {
    let key = trader_key();
    let proof = proof_for(b"mallory", &key);
    let r = create_vault(key, b"f".to_vec(), b"alice".to_vec(), proof, mint_id(), 1000, CREATED);
    assert_eq!(r.err(), Some(VaultError::InvalidProof));
}

#[test]
fn creation_rejects_malformed_proof() {
    let key = trader_key();
    let r = create_vault(
        key,
        b"f".to_vec(),
        b"alice".to_vec(),
        b"not hex at all".to_vec(),
        mint_id(),
        1000,
        CREATED,
    );
    assert_eq!(r.err(), Some(VaultError::InvalidProof));
}

#[test]
fn bootstrap_deposit_mints_one_to_one() {
    let mut v = fresh_vault(1000);
    let mut p = fresh_position();
    let r = deposit(&mut v, &mut p, 1000, CREATED + 1);
    assert_eq!(r, Ok(1000));
    assert_eq!(v.total_shares, 1000);
    assert_eq!(v.total_assets, 1000);
    assert_eq!(p.shares, 1000);
}

#[test]
fn second_investor_deposit_is_priced_at_current_ratio() {
    let mut v = fresh_vault(1000);
    v.total_shares = 1000;
    v.total_assets = 1500;
    let mut p = fresh_position();
    let r = deposit(&mut v, &mut p, 750, CREATED + 1);
    assert_eq!(r, Ok(500));
    assert_eq!(v.total_shares, 1500);
    assert_eq!(v.total_assets, 2250);
    assert_eq!(p.shares, 500);
}

#[test]
fn deposit_window_boundary() {
    let mut v = fresh_vault(1000);
    let mut p = fresh_position();
    // One second before six days: still open.
    let r = deposit(&mut v, &mut p, 10, CREATED + 6 * DAY - 1);
    assert_eq!(r, Ok(10));
    // At exactly six days: closed, and nothing changes.
    let before = vault_totals(&v);
    let r = deposit(&mut v, &mut p, 10, CREATED + 6 * DAY);
    assert_eq!(r, Err(VaultError::DepositWindowClosed));
    assert_eq!(vault_totals(&v), before);
    assert_eq!(p.shares, 10);
}

#[test]
fn deposit_rejects_inconsistent_pool() {
    let mut v = fresh_vault(1000);
    v.total_shares = 5;
    v.total_assets = 0;
    let mut p = fresh_position();
    let r = deposit(&mut v, &mut p, 10, CREATED + 1);
    assert_eq!(r, Err(VaultError::PoolInconsistent));
    assert_eq!(v.total_shares, 5);
    assert_eq!(v.total_assets, 0);
    assert_eq!(p.shares, 0);
}

#[test]
fn deposit_reports_overflow_and_changes_nothing() {
    let mut v = fresh_vault(1000);
    v.total_shares = u64::MAX;
    v.total_assets = u64::MAX;
    let mut p = fresh_position();
    let before = vault_totals(&v);
    let r = deposit(&mut v, &mut p, 1, CREATED + 1);
    assert_eq!(r, Err(VaultError::ArithmeticOverflow));
    assert_eq!(vault_totals(&v), before);
    assert_eq!(p.shares, 0);
}

#[test]
fn withdraw_returns_assets_and_burns_shares() {
    let mut v = fresh_vault(1000);
    v.total_shares = 1500;
    v.total_assets = 2250;
    let mut p = fresh_position();
    p.shares = 500;
    let r = withdraw(&mut v, &mut p, 750, CREATED + 1);
    assert_eq!(r, Ok(500));
    assert_eq!(v.total_shares, 1000);
    assert_eq!(v.total_assets, 1500);
    assert_eq!(p.shares, 0);
}

#[test]
fn withdraw_window_boundary() {
    let mut v = fresh_vault(1000);
    v.total_shares = 100;
    v.total_assets = 100;
    let mut p = fresh_position();
    p.shares = 100;
    let r = withdraw(&mut v, &mut p, 10, CREATED + 6 * DAY - 1);
    assert_eq!(r, Ok(10));
    let before = vault_totals(&v);
    let r = withdraw(&mut v, &mut p, 10, CREATED + 6 * DAY);
    assert_eq!(r, Err(VaultError::WithdrawalWindowClosed));
    assert_eq!(vault_totals(&v), before);
}

#[test]
fn withdraw_refuses_insufficient_shares_and_changes_nothing() {
    let mut v = fresh_vault(1000);
    v.total_shares = 1000;
    v.total_assets = 1000;
    let mut p = fresh_position();
    // The pool could cover the burn, the investor's position cannot.
    p.shares = 10;
    let before = vault_totals(&v);
    let r = withdraw(&mut v, &mut p, 50, CREATED + 1);
    assert_eq!(r, Err(VaultError::InsufficientShares));
    assert_eq!(vault_totals(&v), before);
    assert_eq!(p.shares, 10);
}

#[test]
fn withdraw_refused_while_no_shares_are_outstanding() {
    let mut v = fresh_vault(1000);
    // The pool records value, but nobody holds a claim on it: an epoch
    // advance can reach this state while no shares are outstanding.
    v.total_assets = 10;
    let mut p = fresh_position();
    let before = vault_totals(&v);
    let r = withdraw(&mut v, &mut p, 3, CREATED + 1);
    assert_eq!(r, Err(VaultError::InsufficientShares));
    assert_eq!(vault_totals(&v), before);
    assert_eq!(p.shares, 0);
    // A new deposit reseeds the pool 1:1 and reopens withdrawals.
    assert_eq!(deposit(&mut v, &mut p, 5, CREATED + 1), Ok(5));
    let r = withdraw(&mut v, &mut p, 3, CREATED + 2);
    assert_eq!(r, Ok(1));
}

#[test]
fn withdraw_reports_underflow_and_changes_nothing() {
    let mut v = fresh_vault(1000);
    v.total_shares = 1;
    v.total_assets = 10;
    let mut p = fresh_position();
    p.shares = 1;
    // Burn is floor(11 * 1 / 10) == 1, covered, but the pool only holds 10.
    let before = vault_totals(&v);
    let r = withdraw(&mut v, &mut p, 11, CREATED + 1);
    assert_eq!(r, Err(VaultError::ArithmeticUnderflow));
    assert_eq!(vault_totals(&v), before);
    assert_eq!(p.shares, 1);
}

#[test]
fn round_trip_returns_at_most_the_deposit() {
    let mut v = fresh_vault(1000);
    v.total_shares = 1000;
    v.total_assets = 1500;
    let mut p = fresh_position();
    let minted = deposit(&mut v, &mut p, 750, CREATED + 1).expect("deposit should succeed");
    assert_eq!(minted, 500);
    // The minted shares' asset equivalent at the post-deposit price.
    let equivalent = (minted as u128 * v.total_assets as u128 / v.total_shares as u128) as u64;
    assert!(equivalent <= 750);
    let burned = withdraw(&mut v, &mut p, equivalent, CREATED + 2).expect("covered withdrawal");
    assert!(burned <= minted);
}

#[test]
fn deposit_never_raises_shares_per_asset_ratio() {
    let mut v = fresh_vault(1000);
    v.total_shares = 3;
    v.total_assets = 7;
    let mut p = fresh_position();
    let minted = deposit(&mut v, &mut p, 2, CREATED + 1).expect("deposit should succeed");
    assert_eq!(minted, 0);
    // Cross-multiplied: new ratio 3/9 does not exceed old ratio 3/7.
    assert!(v.total_shares as u128 * 7 <= 3u128 * v.total_assets as u128);
}

#[test]
fn advance_epoch_boundaries() {
    let mut v = fresh_vault(1000);
    // At exactly six days: not ready.
    let r = advance_epoch(&mut v, 100, CREATED + 6 * DAY);
    assert_eq!(r, Err(VaultError::EpochNotReady));
    assert_eq!(v.current_epoch, 0);
    // At exactly seven days: advances.
    let r = advance_epoch(&mut v, 100, CREATED + 7 * DAY);
    assert_eq!(r, Ok(10));
    assert_eq!(v.current_epoch, 1);
    assert_eq!(v.total_assets, 100);
    assert_eq!(v.last_epoch_update, CREATED + 7 * DAY);
}

#[test]
fn advance_epoch_without_profit_accrues_nothing() {
    let mut v = fresh_vault(1000);
    v.total_assets = 500;
    let r = advance_epoch(&mut v, 400, CREATED + 7 * DAY);
    assert_eq!(r, Ok(0));
    assert_eq!(v.accrued_fees, 0);
    assert_eq!(v.total_assets, 400);
    assert_eq!(v.current_epoch, 1);
}

#[test]
fn full_epoch_scenario() {
    // Ten percent fee; first deposit bootstraps; the pool then grows.
    let mut v = fresh_vault(1000);
    let mut p = fresh_position();
    assert_eq!(deposit(&mut v, &mut p, 1000, CREATED + 1), Ok(1000));
    assert_eq!(v.total_assets, 1000);
    let r = advance_epoch(&mut v, 1500, CREATED + 7 * DAY);
    assert_eq!(r, Ok(50));
    assert_eq!(v.accrued_fees, 50);
    assert_eq!(v.total_assets, 1500);
    assert_eq!(v.current_epoch, 1);
    let paid = claim_fees(&mut v, &trader_key());
    assert_eq!(paid, Ok(50));
    assert_eq!(v.accrued_fees, 0);
}

#[test]
fn claim_fees_twice_is_a_noop_the_second_time() {
    let mut v = fresh_vault(1000);
    v.accrued_fees = 77;
    assert_eq!(claim_fees(&mut v, &trader_key()), Ok(77));
    let before = vault_totals(&v);
    assert_eq!(claim_fees(&mut v, &trader_key()), Ok(0));
    assert_eq!(vault_totals(&v), before);
}

#[test]
fn claim_fees_requires_the_operator() {
    let mut v = fresh_vault(1000);
    v.accrued_fees = 77;
    let r = claim_fees(&mut v, &investor_key());
    assert_eq!(r, Err(VaultError::Unauthorized));
    assert_eq!(v.accrued_fees, 77);
}

#[test]
fn swap_authorization_requires_the_operator() {
    let v = fresh_vault(1000);
    assert_eq!(swap_tokens(&v, &trader_key(), 100, 95), Ok(()));
    assert_eq!(swap_tokens(&v, &investor_key(), 100, 95), Err(VaultError::Unauthorized));
}

#[test]
fn swap_settlement_enforces_the_minimum_output() {
    assert_eq!(settle_swap(95, 95), Ok(95));
    assert_eq!(settle_swap(95, 100), Ok(100));
    assert_eq!(settle_swap(95, 94), Err(VaultError::SlippageExceeded));
}
