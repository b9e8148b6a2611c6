use cstr_treasury::error::{InstructionError, TokenError, TreasuryError};
use cstr_treasury::events::TreasuryMovement;
use cstr_treasury::keys::{keys_equal, Pubkey};
use cstr_treasury::state::{AssetRecord, DistributionSnapshot, HolderClaim, TreasuryState};
use cstr_treasury::token::{initialize_mint, MintState};
use cstr_treasury::treasury::{
    claim_rewards, claimable_amount, deposit_dead_pool_funds, deposit_fees, distribute_to_holders,
    fixed_bytes_from_string, initialize_treasury, record_asset_purchase,
};

const AUTHORITY: Pubkey = [7u8; 32];
const STRANGER: Pubkey = [9u8; 32];
const TREASURY_KEY: Pubkey = [1u8; 32];
const HOLDER: Pubkey = [3u8; 32];

fn blank_treasury() -> TreasuryState {
    TreasuryState {
        authority: [0u8; 32],
        bump: 0,
        fee_bps: 0,
        paused: false,
        total_sol_inflow: 0,
        total_usdc_inflow: 0,
        total_distributed_sol: 0,
        total_distributed_usdc: 0,
        current_epoch: 0,
        last_snapshot_slot: 0,
        asset_backing_count: 0,
        created_at: 0,
        reserved: [0u8; 64],
    }
}

fn fresh_treasury() -> TreasuryState {
    let mut t = blank_treasury();
    initialize_treasury(&mut t, AUTHORITY, 254, 250, 1_700_000_000);
    t
}

fn snapshot(supply: u64, claimable_sol: u64) -> DistributionSnapshot {
    DistributionSnapshot {
        treasury: TREASURY_KEY,
        epoch: 4,
        total_supply: supply,
        total_claimable_sol: claimable_sol,
        total_claimable_usdc: 0,
        created_at: 0,
        claimed_count: 0,
        bump: 0,
    }
}

fn unclaimed() -> HolderClaim {
    HolderClaim {
        treasury: [0u8; 32],
        holder: [0u8; 32],
        epoch: 0,
        amount_sol: 0,
        amount_usdc: 0,
        claimed: false,
        bump: 0,
    }
}

fn same_books(a: &TreasuryState, b: &TreasuryState) -> bool {
    a.authority == b.authority
        && a.bump == b.bump
        && a.fee_bps == b.fee_bps
        && a.paused == b.paused
        && a.total_sol_inflow == b.total_sol_inflow
        && a.total_usdc_inflow == b.total_usdc_inflow
        && a.total_distributed_sol == b.total_distributed_sol
        && a.total_distributed_usdc == b.total_distributed_usdc
        && a.current_epoch == b.current_epoch
        && a.last_snapshot_slot == b.last_snapshot_slot
        && a.asset_backing_count == b.asset_backing_count
        && a.created_at == b.created_at
        && a.reserved == b.reserved
}

#[test]
fn initialize_treasury_sets_fresh_books() {
    let mut t = blank_treasury();
    t.paused = true;
    t.total_sol_inflow = 55;
    t.current_epoch = 9;
    t.reserved = [5u8; 64];
    let event = initialize_treasury(&mut t, AUTHORITY, 254, 250, 1_700_000_000);
    assert_eq!(t.authority, AUTHORITY);
    assert_eq!(t.bump, 254);
    assert_eq!(t.fee_bps, 250);
    assert!(!t.paused);
    assert_eq!(t.total_sol_inflow, 0);
    assert_eq!(t.total_usdc_inflow, 0);
    assert_eq!(t.total_distributed_sol, 0);
    assert_eq!(t.total_distributed_usdc, 0);
    assert_eq!(t.current_epoch, 0);
    assert_eq!(t.last_snapshot_slot, 0);
    assert_eq!(t.asset_backing_count, 0);
    assert_eq!(t.created_at, 1_700_000_000);
    assert_eq!(t.reserved, [0u8; 64]);
    assert_eq!(event.authority, AUTHORITY);
    assert_eq!(event.fee_bps, 250);
    assert_eq!(event.timestamp, 1_700_000_000);
}

#[test]
fn deposit_fees_adds_to_sol_inflow() {
    let mut t = fresh_treasury();
    t.total_sol_inflow = 1_000;
    let before = t;
    assert!(deposit_fees(&mut t, 250, 0).is_ok());
    assert_eq!(t.total_sol_inflow, 1_250);
    let mut expected = before;
    expected.total_sol_inflow = 1_250;
    assert!(same_books(&t, &expected));
}

#[test]
fn deposit_of_zero_is_invalid_amount() {
    let mut t = fresh_treasury();
    let before = t;
    let r = deposit_fees(&mut t, 0, 0);
    assert!(matches!(r, Err(InstructionError::Treasury(TreasuryError::InvalidAmount))));
    assert!(same_books(&t, &before));
}

#[test]
fn deposit_into_paused_treasury_is_refused() {
    let mut t = fresh_treasury();
    t.paused = true;
    let before = t;
    let r = deposit_fees(&mut t, 10, 0);
    assert!(matches!(r, Err(InstructionError::Treasury(TreasuryError::Paused))));
    assert!(same_books(&t, &before));
    let r = deposit_dead_pool_funds(&mut t, 10, 0);
    assert!(matches!(r, Err(InstructionError::Treasury(TreasuryError::Paused))));
    assert!(same_books(&t, &before));
}

#[test]
fn zero_deposit_into_paused_treasury_reports_invalid_amount_first() {
    let mut t = fresh_treasury();
    t.paused = true;
    let r = deposit_dead_pool_funds(&mut t, 0, 0);
    assert!(matches!(r, Err(InstructionError::Treasury(TreasuryError::InvalidAmount))));
}

#[test]
fn dead_pool_deposit_counts_as_sol_inflow() {
    let mut t = fresh_treasury();
    assert!(deposit_dead_pool_funds(&mut t, 42, 0).is_ok());
    assert_eq!(t.total_sol_inflow, 42);
    assert_eq!(t.total_usdc_inflow, 0);
}

#[test]
fn two_deposits_add_up_to_one_of_their_sum() {
    let mut a = fresh_treasury();
    let mut b = fresh_treasury();
    assert!(deposit_fees(&mut a, 300, 0).is_ok());
    assert!(deposit_dead_pool_funds(&mut a, 700, 0).is_ok());
    assert!(deposit_fees(&mut b, 1_000, 0).is_ok());
    assert!(same_books(&a, &b));
}

#[test]
fn deposit_up_to_the_counter_limit() {
    let mut t = fresh_treasury();
    t.total_sol_inflow = u64::MAX - 5;
    assert!(deposit_fees(&mut t, 5, 0).is_ok());
    assert_eq!(t.total_sol_inflow, u64::MAX);
}

#[test]
fn deposits_return_their_movement_events() {
    let mut a = fresh_treasury();
    let mut b = fresh_treasury();
    let fee = deposit_fees(&mut a, 12, 99).unwrap();
    let dead = deposit_dead_pool_funds(&mut b, 12, 99).unwrap();
    assert!(same_books(&a, &b));
    assert_eq!(fee.kind, b"fee_deposit".to_vec());
    assert_eq!(dead.kind, b"dead_pool_deposit".to_vec());
    assert_eq!((fee.amount, fee.timestamp), (12, 99));
    assert_eq!((dead.amount, dead.timestamp), (12, 99));
}

#[test]
fn movement_events_name_their_source() {
    let fee = TreasuryMovement::fee_deposit(12, 99);
    assert_eq!(fee.kind, b"fee_deposit".to_vec());
    assert_eq!(fee.amount, 12);
    assert_eq!(fee.timestamp, 99);
    let dead = TreasuryMovement::dead_pool_deposit(13, 100);
    assert_eq!(dead.kind, b"dead_pool_deposit".to_vec());
    assert_eq!(dead.amount, 13);
    assert_eq!(dead.timestamp, 100);
}

#[test]
fn fixed_bytes_pads_short_strings_with_zeros() {
    let b = fixed_bytes_from_string("SOL", 16).unwrap();
    let mut expected = [0u8; 16];
    expected[..3].copy_from_slice(b"SOL");
    assert_eq!(b, expected);
}

#[test]
fn fixed_bytes_truncates_long_strings() {
    let b = fixed_bytes_from_string("ABCDEFGHIJKLMNOPQRSTUVWXYZ", 16).unwrap();
    assert_eq!(&b, b"ABCDEFGHIJKLMNOP");
}

#[test]
fn fixed_bytes_keeps_only_size_bytes() {
    let b = fixed_bytes_from_string("ABCDEF", 4).unwrap();
    assert_eq!(b, [65, 66, 67, 68, 0, 0, 0, 0, 0, 0, 0, 0, 0, 0, 0, 0]);
    let empty = fixed_bytes_from_string("", 16).unwrap();
    assert_eq!(empty, [0u8; 16]);
    let short_size_on_long_value = fixed_bytes_from_string("ABCDEFGHIJKLMNOPQRSTUVWXYZ", 2).unwrap();
    assert_eq!(&short_size_on_long_value[..3], &[65, 66, 0]);
}

#[test]
fn fixed_bytes_copies_utf8_bytes() {
    let b = fixed_bytes_from_string("é€", 16).unwrap();
    assert_eq!(&b[..5], &[0xC3, 0xA9, 0xE2, 0x82, 0xAC]);
    assert_eq!(&b[5..], &[0u8; 11]);
}

#[test]
fn record_asset_purchase_by_authority() {
    let mut t = fresh_treasury();
    t.asset_backing_count = 3;
    let (asset, event): (AssetRecord, _) = record_asset_purchase(
        &mut t,
        TREASURY_KEY,
        AUTHORITY,
        "BTC".to_string(),
        5,
        300_000,
        "coinbase".to_string(),
        1_700_000_100,
        251,
    )
    .unwrap();
    assert_eq!(t.asset_backing_count, 4);
    assert_eq!(asset.treasury, TREASURY_KEY);
    assert_eq!(asset.index, 3);
    assert_eq!(&asset.symbol[..4], b"BTC\0");
    assert_eq!(&asset.source[..9], b"coinbase\0");
    assert_eq!(asset.quantity, 5);
    assert_eq!(asset.cost_basis, 300_000);
    assert_eq!(asset.timestamp, 1_700_000_100);
    assert_eq!(asset.confirmed_by, AUTHORITY);
    assert_eq!(asset.bump, 251);
    assert_eq!(event.symbol, "BTC");
    assert_eq!(event.quantity, 5);
    assert_eq!(event.cost_basis, 300_000);
    assert_eq!(event.timestamp, 1_700_000_100);
}

#[test]
fn successive_asset_records_take_consecutive_indices() {
    let mut t = fresh_treasury();
    let (a, _) = record_asset_purchase(&mut t, TREASURY_KEY, AUTHORITY, "A".to_string(), 1, 1, "x".to_string(), 0, 0).unwrap();
    let (b, _) = record_asset_purchase(&mut t, TREASURY_KEY, AUTHORITY, "B".to_string(), 1, 1, "y".to_string(), 0, 0).unwrap();
    assert_eq!(a.index, 0);
    assert_eq!(b.index, 1);
    assert_eq!(t.asset_backing_count, 2);
}

#[test]
fn record_asset_purchase_by_stranger_is_refused() {
    let mut t = fresh_treasury();
    let before = t;
    let r = record_asset_purchase(&mut t, TREASURY_KEY, STRANGER, "ETH".to_string(), 1, 2, "src".to_string(), 0, 0);
    match r {
        Err(InstructionError::RequireKeysEqViolated { left, right }) => {
            assert_eq!(left, STRANGER);
            assert_eq!(right, AUTHORITY);
        }
        _ => panic!("expected a key mismatch"),
    }
    assert!(same_books(&t, &before));
}

#[test]
fn distribute_opens_the_next_epoch() {
    let mut t = fresh_treasury();
    t.current_epoch = 6;
    let (snap, event) = distribute_to_holders(&mut t, TREASURY_KEY, AUTHORITY, 1_000_000, 5_000, 700, 123_456, 1_700_000_200, 250).unwrap();
    assert_eq!(t.current_epoch, 7);
    assert_eq!(t.last_snapshot_slot, 123_456);
    assert_eq!(snap.treasury, TREASURY_KEY);
    assert_eq!(snap.epoch, 7);
    assert_eq!(snap.total_supply, 1_000_000);
    assert_eq!(snap.total_claimable_sol, 5_000);
    assert_eq!(snap.total_claimable_usdc, 700);
    assert_eq!(snap.created_at, 1_700_000_200);
    assert_eq!(snap.claimed_count, 0);
    assert_eq!(snap.bump, 250);
    assert_eq!(event.epoch, 7);
    assert_eq!(event.total_supply, 1_000_000);
    assert_eq!(event.total_claimable_sol, 5_000);
    assert_eq!(event.total_claimable_usdc, 700);
}

#[test]
fn successive_distributions_open_consecutive_epochs() {
    let mut t = fresh_treasury();
    let (first, _) = distribute_to_holders(&mut t, TREASURY_KEY, AUTHORITY, 1, 1, 1, 10, 0, 0).unwrap();
    let (second, _) = distribute_to_holders(&mut t, TREASURY_KEY, AUTHORITY, 1, 1, 1, 20, 0, 0).unwrap();
    assert_eq!(first.epoch, 1);
    assert_eq!(second.epoch, 2);
    assert_eq!(t.current_epoch, 2);
    assert_eq!(t.last_snapshot_slot, 20);
}

#[test]
fn many_distributions_open_consecutive_epochs() {
    let mut t = fresh_treasury();
    t.current_epoch = 40;
    for i in 1..=25u64 {
        let (snap, event) = distribute_to_holders(&mut t, TREASURY_KEY, AUTHORITY, 1, 1, 1, i, 0, 0).unwrap();
        assert_eq!(snap.epoch, 40 + i);
        assert_eq!(event.epoch, 40 + i);
        assert_eq!(t.current_epoch, 40 + i);
    }
}

#[test]
fn many_asset_records_take_consecutive_indices() {
    let mut t = fresh_treasury();
    t.asset_backing_count = 10;
    for i in 0..25u32 {
        let (asset, _) = record_asset_purchase(&mut t, TREASURY_KEY, AUTHORITY, "X".to_string(), 1, 1, "y".to_string(), 0, 0).unwrap();
        assert_eq!(asset.index, 10 + i);
    }
    assert_eq!(t.asset_backing_count, 35);
}

#[test]
fn distribute_by_stranger_is_refused() {
    let mut t = fresh_treasury();
    let before = t;
    let r = distribute_to_holders(&mut t, TREASURY_KEY, STRANGER, 1, 1, 1, 10, 0, 0);
    assert!(matches!(r, Err(InstructionError::RequireKeysEqViolated { .. })));
    assert!(same_books(&t, &before));
}

#[test]
fn claimable_amount_is_the_rounded_down_share() {
    assert_eq!(claimable_amount(500, 100, 1_000), 50);
    assert_eq!(claimable_amount(7, 3, 2), 10);
    assert_eq!(claimable_amount(10, 1, 3), 3);
    assert_eq!(claimable_amount(10, 0, 3), 0);
    assert_eq!(claimable_amount(u64::MAX, 1, 1), u64::MAX);
}

#[test]
fn claimable_amount_with_no_supply_is_zero() {
    assert_eq!(claimable_amount(500, 100, 0), 0);
    assert_eq!(claimable_amount(u64::MAX, u64::MAX, 0), 0);
}

#[test]
fn claim_rewards_pays_the_share() {
    let snap = snapshot(1_000, 500);
    let mut claim = unclaimed();
    claim.amount_usdc = 9;
    let payout = claim_rewards(&snap, &mut claim, HOLDER, 100).unwrap();
    assert!(claim.claimed);
    assert_eq!(claim.amount_sol, 50);
    assert_eq!(claim.amount_usdc, 0);
    assert_eq!(payout.transfer, Some(50));
    assert_eq!(payout.event.epoch, 4);
    assert_eq!(payout.event.holder, HOLDER);
    assert_eq!(payout.event.amount, 50);
}

#[test]
fn claim_of_a_zero_share_moves_no_lamports() {
    let snap = snapshot(1_000, 5);
    let mut claim = unclaimed();
    let payout = claim_rewards(&snap, &mut claim, HOLDER, 100).unwrap();
    assert!(claim.claimed);
    assert_eq!(claim.amount_sol, 0);
    assert_eq!(payout.transfer, None);
    assert_eq!(payout.event.amount, 0);
    let mut claim2 = unclaimed();
    let payout2 = claim_rewards(&snapshot(0, 5_000), &mut claim2, HOLDER, 100).unwrap();
    assert_eq!(payout2.transfer, None);
}

#[test]
fn second_claim_is_refused() {
    let snap = snapshot(1_000, 500);
    let mut claim = unclaimed();
    assert!(claim_rewards(&snap, &mut claim, HOLDER, 100).is_ok());
    let r = claim_rewards(&snap, &mut claim, HOLDER, 900);
    assert!(matches!(r, Err(InstructionError::Treasury(TreasuryError::AlreadyClaimed))));
    assert_eq!(claim.amount_sol, 50);
    assert!(claim.claimed);
}

#[test]
fn claims_of_all_holders_stay_within_the_pool() {
    let supply = 1_000u64;
    let pool = 999u64;
    let balances = [333u64, 333, 334];
    let mut paid = 0u64;
    for b in balances {
        let mut claim = unclaimed();
        let payout = claim_rewards(&snapshot(supply, pool), &mut claim, HOLDER, b).unwrap();
        paid += payout.event.amount;
    }
    assert_eq!(paid, 332 + 332 + 333);
    assert!(paid <= pool);
}

#[test]
fn keys_compare_byte_by_byte() {
    assert!(keys_equal(&AUTHORITY, &AUTHORITY));
    let mut other = AUTHORITY;
    other[31] = 8;
    assert!(!keys_equal(&AUTHORITY, &other));
    assert!(!keys_equal(&AUTHORITY, &STRANGER));
}

#[test]
fn account_sizes() {
    assert_eq!(TreasuryState::SPACE, 168);
    assert_eq!(AssetRecord::SPACE, 133);
    assert_eq!(DistributionSnapshot::SPACE, 85);
    assert_eq!(HolderClaim::SPACE, 98);
}

#[test]
fn error_messages() {
    assert_eq!(TreasuryError::Unauthorized.message(), "The signer is not authorized to perform this action");
    assert_eq!(TreasuryError::InvalidAmount.message(), "The amount must be greater than zero");
    assert_eq!(TreasuryError::AlreadyClaimed.message(), "The requested distribution epoch has already been claimed");
    assert_eq!(TreasuryError::SnapshotNotFound.message(), "The requested snapshot does not exist");
    assert_eq!(TreasuryError::Paused.message(), "The treasury is paused");
    assert_eq!(TokenError::InvalidFeeBps.message(), "Transfer fee basis points must be between 0 and 10000");
}

#[test]
fn initialize_mint_refuses_fees_above_ten_thousand_bps() {
    let mut mint = MintState {
        decimals: 9,
        mint_authority: STRANGER,
        freeze_authority: Some(STRANGER),
        supply: 77,
        transfer_fee_bps: 3,
    };
    assert!(matches!(initialize_mint(&mut mint, AUTHORITY, 6, 10_001), Err(TokenError::InvalidFeeBps)));
    assert!(matches!(initialize_mint(&mut mint, AUTHORITY, 6, u16::MAX), Err(TokenError::InvalidFeeBps)));
    assert_eq!(mint.decimals, 9);
    assert_eq!(mint.mint_authority, STRANGER);
    assert_eq!(mint.freeze_authority, Some(STRANGER));
    assert_eq!(mint.supply, 77);
    assert_eq!(mint.transfer_fee_bps, 3);
    assert!(initialize_mint(&mut mint, AUTHORITY, 6, 10_000).is_ok());
    assert_eq!(mint.transfer_fee_bps, 10_000);
}

#[test]
fn initialize_mint_sets_up_the_mint() {
    let mut mint = MintState {
        decimals: 0,
        mint_authority: [0u8; 32],
        freeze_authority: Some(STRANGER),
        supply: 77,
        transfer_fee_bps: 0,
    };
    assert!(initialize_mint(&mut mint, AUTHORITY, 6, 150).is_ok());
    assert_eq!(mint.decimals, 6);
    assert_eq!(mint.mint_authority, AUTHORITY);
    assert_eq!(mint.freeze_authority, None);
    assert_eq!(mint.supply, 0);
    assert_eq!(mint.transfer_fee_bps, 150);
}
