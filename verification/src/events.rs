use vstd::prelude::*;
use crate::keys::Pubkey;

verus! {

/// Emitted once the treasury account is set up.
#[derive(Debug, Clone, Copy)]
pub struct TreasuryInitialized {
    pub authority: Pubkey,
    pub fee_bps: u16,
    pub timestamp: i64,
}

/// Emitted when lamports flow into the treasury; `kind` names the source.
#[derive(Debug, Clone)]
pub struct TreasuryMovement {
    pub kind: Vec<u8>,
    pub amount: u64,
    pub timestamp: i64,
}

/// Emitted when the authority records an asset purchase.
#[derive(Debug, Clone)]
pub struct AssetPurchaseRecorded {
    pub symbol: String,
    pub quantity: u64,
    pub cost_basis: u64,
    pub timestamp: i64,
}

/// Emitted when a new distribution epoch is opened.
#[derive(Debug, Clone, Copy)]
pub struct DistributionSnapshotCreated {
    pub epoch: u64,
    pub total_supply: u64,
    pub total_claimable_sol: u64,
    pub total_claimable_usdc: u64,
}

/// Emitted when a holder claims the rewards of an epoch.
#[derive(Debug, Clone, Copy)]
pub struct RewardsClaimed {
    pub epoch: u64,
    pub holder: Pubkey,
    pub amount: u64,
}

/// The bytes `fee_deposit`, the movement kind of a fee deposit.
pub open spec fn fee_deposit_kind() -> Seq<u8> {
    seq![102u8, 101, 101, 95, 100, 101, 112, 111, 115, 105, 116]
}

/// The bytes `dead_pool_deposit`, the movement kind of a dead-pool deposit.
pub open spec fn dead_pool_deposit_kind() -> Seq<u8> {
    seq![100u8, 101, 97, 100, 95, 112, 111, 111, 108, 95, 100, 101, 112, 111, 115, 105, 116]
}

impl TreasuryMovement {
    /// The event of a fee deposit of `amount` lamports.
    pub fn fee_deposit(amount: u64, timestamp: i64) -> (r: TreasuryMovement)
        ensures
            r.kind@ == fee_deposit_kind(),
            r.amount == amount,
            r.timestamp == timestamp,
    {
        let kind: Vec<u8> = vec![102u8, 101, 101, 95, 100, 101, 112, 111, 115, 105, 116];
        TreasuryMovement { kind, amount, timestamp }
    }

    /// The event of a dead-pool deposit of `amount` lamports.
    pub fn dead_pool_deposit(amount: u64, timestamp: i64) -> (r: TreasuryMovement)
        ensures
            r.kind@ == dead_pool_deposit_kind(),
            r.amount == amount,
            r.timestamp == timestamp,
    {
        let kind: Vec<u8> = vec![100u8, 101, 97, 100, 95, 112, 111, 111, 108, 95, 100, 101, 112, 111, 115, 105, 116];
        TreasuryMovement { kind, amount, timestamp }
    }
}

} // verus!
