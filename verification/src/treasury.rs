use vstd::prelude::*;
use vstd::utf8::encode_utf8;
use crate::keys::{Pubkey, keys_equal};
use crate::error::{TreasuryError, InstructionError};
use crate::state::{TreasuryState, AssetRecord, DistributionSnapshot, HolderClaim};
use crate::events::{TreasuryMovement, fee_deposit_kind, dead_pool_deposit_kind, TreasuryInitialized, AssetPurchaseRecorded, DistributionSnapshotCreated, RewardsClaimed};

verus! {

// ---------------------------------------------------------------------------
// Specifications
// ---------------------------------------------------------------------------

/// The error that refuses a signer whose key is not the one an account requires.
pub open spec fn keys_mismatch(signer: Pubkey, required: Pubkey) -> InstructionError {
    InstructionError::RequireKeysEqViolated { left: signer, right: required }
}

/// The treasury as `initialize_treasury` leaves it.
pub open spec fn is_fresh_treasury(
    s: TreasuryState,
    authority: Pubkey,
    bump: u8,
    fee_bps: u16,
    created_at: i64,
) -> bool {
    &&& s.authority == authority
    &&& s.bump == bump
    &&& s.fee_bps == fee_bps
    &&& !s.paused
    &&& s.total_sol_inflow == 0
    &&& s.total_usdc_inflow == 0
    &&& s.total_distributed_sol == 0
    &&& s.total_distributed_usdc == 0
    &&& s.current_epoch == 0
    &&& s.last_snapshot_slot == 0
    &&& s.asset_backing_count == 0
    &&& s.created_at == created_at
    &&& s.reserved@ == Seq::new(64, |i: int| 0u8)
}

/// What a deposit of `amount` lamports does to the treasury: refused when the
/// amount is zero, then when the treasury is paused; otherwise the SOL inflow
/// grows by the amount.
pub open spec fn deposit_outcome(s: TreasuryState, amount: u64) -> Result<TreasuryState, InstructionError> {
    if amount == 0 {
        Err(InstructionError::Treasury(TreasuryError::InvalidAmount))
    } else if s.paused {
        Err(InstructionError::Treasury(TreasuryError::Paused))
    } else {
        Ok(TreasuryState { total_sol_inflow: (s.total_sol_inflow + amount) as u64, ..s })
    }
}

/// `post` differs from `pre` at most in the SOL inflow.
pub open spec fn only_sol_inflow_differs(pre: TreasuryState, post: TreasuryState) -> bool {
    &&& post.authority == pre.authority
    &&& post.bump == pre.bump
    &&& post.fee_bps == pre.fee_bps
    &&& post.paused == pre.paused
    &&& post.total_usdc_inflow == pre.total_usdc_inflow
    &&& post.total_distributed_sol == pre.total_distributed_sol
    &&& post.total_distributed_usdc == pre.total_distributed_usdc
    &&& post.current_epoch == pre.current_epoch
    &&& post.last_snapshot_slot == pre.last_snapshot_slot
    &&& post.asset_backing_count == pre.asset_backing_count
    &&& post.created_at == pre.created_at
    &&& post.reserved == pre.reserved
}

/// A deposit that is accepted does not overflow the SOL inflow counter.
pub open spec fn deposit_fits(s: TreasuryState, amount: u64) -> bool {
    amount == 0 || s.paused || s.total_sol_inflow + amount <= u64::MAX
}

/// `post` and `r` are what an instruction with the given outcome leaves: the new
/// state and `Ok`, or the old state and the error.
pub open spec fn settles<T>(
    outcome: Result<TreasuryState, InstructionError>,
    pre: TreasuryState,
    post: TreasuryState,
    r: Result<T, InstructionError>,
) -> bool {
    match outcome {
        Ok(s) => r is Ok && post == s,
        Err(e) => r == Err::<T, InstructionError>(e) && post == pre,
    }
}

/// The 16-byte field that holds the first `size` bytes of `bytes` (all of them
/// when there are fewer), padded with zeros.
pub open spec fn fixed_bytes(bytes: Seq<u8>, size: int) -> Seq<u8> {
    Seq::new(16, |i: int| if i < bytes.len() && i < size { bytes[i] } else { 0u8 })
}

/// What recording an asset purchase signed by `signer` does to the treasury:
/// refused unless the signer is the authority; otherwise one more asset is counted.
pub open spec fn record_outcome(s: TreasuryState, signer: Pubkey) -> Result<TreasuryState, InstructionError> {
    if signer != s.authority {
        Err(keys_mismatch(signer, s.authority))
    } else {
        Ok(TreasuryState { asset_backing_count: (s.asset_backing_count + 1) as u32, ..s })
    }
}

/// The asset record written for a purchase that the treasury `s` accepted.
pub open spec fn is_recorded_asset(
    a: AssetRecord,
    s: TreasuryState,
    treasury_key: Pubkey,
    signer: Pubkey,
    symbol: Seq<char>,
    quantity: u64,
    cost_basis: u64,
    source: Seq<char>,
    timestamp: i64,
    bump: u8,
) -> bool {
    &&& a.treasury == treasury_key
    &&& a.index == s.asset_backing_count
    &&& a.symbol@ == fixed_bytes(encode_utf8(symbol), 16)
    &&& a.quantity == quantity
    &&& a.cost_basis == cost_basis
    &&& a.timestamp == timestamp
    &&& a.source@ == fixed_bytes(encode_utf8(source), 16)
    &&& a.confirmed_by == signer
    &&& a.bump == bump
}

/// What opening a distribution epoch signed by `signer` does to the treasury:
/// refused unless the signer is the authority; otherwise the epoch advances by
/// one and the snapshot slot is recorded.
pub open spec fn distribute_outcome(s: TreasuryState, signer: Pubkey, slot: u64) -> Result<TreasuryState, InstructionError> {
    if signer != s.authority {
        Err(keys_mismatch(signer, s.authority))
    } else {
        Ok(TreasuryState { current_epoch: (s.current_epoch + 1) as u64, last_snapshot_slot: slot, ..s })
    }
}

/// The snapshot opened for `epoch`.
pub open spec fn opened_snapshot(
    treasury_key: Pubkey,
    epoch: u64,
    total_supply: u64,
    total_claimable_sol: u64,
    total_claimable_usdc: u64,
    created_at: i64,
    bump: u8,
) -> DistributionSnapshot {
    DistributionSnapshot {
        treasury: treasury_key,
        epoch,
        total_supply,
        total_claimable_sol,
        total_claimable_usdc,
        created_at,
        claimed_count: 0,
        bump,
    }
}

/// A holder's share of the claimable SOL: `total_claimable_sol * holder_balance /
/// total_supply`, rounded down, and nothing when the supply is zero.
pub open spec fn claimable(total_claimable_sol: u64, holder_balance: u64, total_supply: u64) -> int {
    if total_supply == 0 {
        0
    } else {
        (total_claimable_sol * holder_balance) / (total_supply as int)
    }
}

/// The share can be computed without overflowing 64 bits.
pub open spec fn claim_fits(snapshot: DistributionSnapshot, holder_balance: u64) -> bool {
    snapshot.total_supply == 0 || snapshot.total_claimable_sol * holder_balance <= u64::MAX
}

/// What a claim pays: the lamports to move to the recipient (none when the share
/// is zero) and the event to emit.
#[derive(Debug, Clone, Copy)]
pub struct ClaimPayout {
    pub transfer: Option<u64>,
    pub event: RewardsClaimed,
}

/// What a claim does: refused when the holder has already claimed; otherwise
/// the claim is marked, records the SOL share and no USDC, and the share is paid.
pub open spec fn claim_outcome(
    claim: HolderClaim,
    snapshot: DistributionSnapshot,
    holder: Pubkey,
    holder_balance: u64,
) -> Result<(HolderClaim, ClaimPayout), InstructionError> {
    if claim.claimed {
        Err(InstructionError::Treasury(TreasuryError::AlreadyClaimed))
    } else {
        let amount = claimable(snapshot.total_claimable_sol, holder_balance, snapshot.total_supply) as u64;
        Ok((
            HolderClaim { claimed: true, amount_sol: amount, amount_usdc: 0, ..claim },
            ClaimPayout {
                transfer: if amount > 0 { Some(amount) } else { None },
                event: RewardsClaimed { epoch: snapshot.epoch, holder, amount },
            },
        ))
    }
}

// ---------------------------------------------------------------------------
// Instructions
// ---------------------------------------------------------------------------

/// Sets up the treasury account and returns the event to emit.
pub fn initialize_treasury(
    treasury: &mut TreasuryState,
    authority: Pubkey,
    bump: u8,
    fee_bps: u16,
    created_at: i64,
) -> (event: TreasuryInitialized)
    ensures
        is_fresh_treasury(*final(treasury), authority, bump, fee_bps, created_at),
        event == (TreasuryInitialized { authority, fee_bps, timestamp: created_at }),
        final(treasury).authority == authority,
        final(treasury).bump == bump,
        final(treasury).fee_bps == fee_bps,
        final(treasury).created_at == created_at,
        !final(treasury).paused,
        final(treasury).total_sol_inflow == 0 && final(treasury).total_usdc_inflow == 0,
        final(treasury).total_distributed_sol == 0 && final(treasury).total_distributed_usdc == 0,
        final(treasury).current_epoch == 0 && final(treasury).last_snapshot_slot == 0,
        final(treasury).asset_backing_count == 0,
        forall|i: int| 0 <= i < 64 ==> final(treasury).reserved@[i] == 0u8,
        event.authority == final(treasury).authority && event.fee_bps == final(treasury).fee_bps
            && event.timestamp == final(treasury).created_at,
{
    treasury.authority = authority;
    treasury.bump = bump;
    treasury.fee_bps = fee_bps;
    treasury.paused = false;
    treasury.total_sol_inflow = 0;
    treasury.total_usdc_inflow = 0;
    treasury.total_distributed_sol = 0;
    treasury.total_distributed_usdc = 0;
    treasury.current_epoch = 0;
    treasury.last_snapshot_slot = 0;
    treasury.asset_backing_count = 0;
    treasury.created_at = created_at;
    treasury.reserved = [0u8; 64];
    assert(treasury.reserved@ =~= Seq::new(64, |i: int| 0u8));
    TreasuryInitialized { authority, fee_bps, timestamp: treasury.created_at }
}

/// Checks a deposit and adds it to the SOL inflow.
fn credit_sol_inflow(treasury: &mut TreasuryState, amount: u64) -> (r: Result<(), InstructionError>)
    requires
        deposit_fits(*old(treasury), amount),
    ensures
        settles(deposit_outcome(*old(treasury), amount), *old(treasury), *final(treasury), r),
{
    if amount == 0 {
        return Err(InstructionError::Treasury(TreasuryError::InvalidAmount));
    }
    if treasury.paused {
        return Err(InstructionError::Treasury(TreasuryError::Paused));
    }
    treasury.total_sol_inflow = treasury.total_sol_inflow + amount;
    Ok(())
}

/// Accepts a fee deposit of `amount` lamports: refused with `InvalidAmount` when
/// the amount is zero, then with `Paused` when the treasury is paused. Returns
/// the `fee_deposit` movement to emit, stamped with `timestamp`.
pub fn deposit_fees(treasury: &mut TreasuryState, amount: u64, timestamp: i64) -> (r: Result<TreasuryMovement, InstructionError>)
    requires
        deposit_fits(*old(treasury), amount),
    ensures
        settles(deposit_outcome(*old(treasury), amount), *old(treasury), *final(treasury), r),
        r matches Ok(event) ==> event.kind@ == fee_deposit_kind() && event.amount == amount
            && event.timestamp == timestamp,
        amount == 0 ==> r matches Err(InstructionError::Treasury(TreasuryError::InvalidAmount)),
        amount > 0 && old(treasury).paused ==> r matches Err(InstructionError::Treasury(TreasuryError::Paused)),
        amount > 0 && !old(treasury).paused ==> r is Ok
            && final(treasury).total_sol_inflow == old(treasury).total_sol_inflow + amount,
        r is Err ==> *final(treasury) == *old(treasury),
        only_sol_inflow_differs(*old(treasury), *final(treasury)),
{
    match credit_sol_inflow(treasury, amount) {
        Ok(()) => Ok(TreasuryMovement::fee_deposit(amount, timestamp)),
        Err(e) => Err(e),
    }
}

/// Accepts a deposit of `amount` lamports from the dead pool; checked and
/// counted as a fee deposit is. Returns the `dead_pool_deposit` movement to
/// emit, stamped with `timestamp`.
pub fn deposit_dead_pool_funds(treasury: &mut TreasuryState, amount: u64, timestamp: i64) -> (r: Result<TreasuryMovement, InstructionError>)
    requires
        deposit_fits(*old(treasury), amount),
    ensures
        settles(deposit_outcome(*old(treasury), amount), *old(treasury), *final(treasury), r),
        r matches Ok(event) ==> event.kind@ == dead_pool_deposit_kind() && event.amount == amount
            && event.timestamp == timestamp,
        amount == 0 ==> r matches Err(InstructionError::Treasury(TreasuryError::InvalidAmount)),
        amount > 0 && old(treasury).paused ==> r matches Err(InstructionError::Treasury(TreasuryError::Paused)),
        amount > 0 && !old(treasury).paused ==> r is Ok
            && final(treasury).total_sol_inflow == old(treasury).total_sol_inflow + amount,
        r is Err ==> *final(treasury) == *old(treasury),
        only_sol_inflow_differs(*old(treasury), *final(treasury)),
{
    match credit_sol_inflow(treasury, amount) {
        Ok(()) => Ok(TreasuryMovement::dead_pool_deposit(amount, timestamp)),
        Err(e) => Err(e),
    }
}

/// Copies the first `size` bytes of `value`'s UTF-8 encoding (all of them when
/// there are fewer) into a zero-padded 16-byte field.
pub fn fixed_bytes_from_string(value: &str, size: usize) -> (r: Result<[u8; 16], InstructionError>)
    requires
        encode_utf8(value@).len() <= 16 || size <= 16,
    ensures
        r matches Ok(b) && b@ == fixed_bytes(encode_utf8(value@), size as int),
        r matches Ok(b) && forall|i: int| 0 <= i < 16 ==> b@[i] == (if i < encode_utf8(value@).len() && i < size {
            encode_utf8(value@)[i]
        } else {
            0u8
        }),
{
    let mut bytes = [0u8; 16];
    let bytes_value = value.as_bytes();
    let len = if bytes_value.len() < size { bytes_value.len() } else { size };
    let mut i: usize = 0;
    while i < len
        invariant
            len <= 16,
            len <= bytes_value@.len(),
            len <= size,
            bytes_value@ == encode_utf8(value@),
            0 <= i <= len,
            forall|j: int| 0 <= j < i ==> bytes@[j] == bytes_value@[j],
            forall|j: int| i <= j < 16 ==> bytes@[j] == 0u8,
        decreases len - i,
    {
        bytes[i] = bytes_value[i];
        i = i + 1;
    }
    assert(bytes@ =~= fixed_bytes(encode_utf8(value@), size as int));
    Ok(bytes)
}

/// Records a purchase of a backing asset, signed by `authority_key`. Refused
/// unless the signer is the treasury's authority; otherwise the record takes the
/// next index and the treasury counts one more asset.
pub fn record_asset_purchase(
    treasury: &mut TreasuryState,
    treasury_key: Pubkey,
    authority_key: Pubkey,
    symbol: String,
    quantity: u64,
    cost_basis: u64,
    source: String,
    timestamp: i64,
    bump: u8,
) -> (r: Result<(AssetRecord, AssetPurchaseRecorded), InstructionError>)
    requires
        authority_key == old(treasury).authority ==> old(treasury).asset_backing_count < u32::MAX,
    ensures
        r is Ok <==> record_outcome(*old(treasury), authority_key) is Ok,
        r is Ok <==> authority_key == old(treasury).authority,
        r matches Err(e) ==> record_outcome(*old(treasury), authority_key) == Err::<TreasuryState, InstructionError>(e)
            && *final(treasury) == *old(treasury),
        r matches Ok((asset, event)) ==> {
            &&& record_outcome(*old(treasury), authority_key) == Ok::<TreasuryState, InstructionError>(*final(treasury))
            &&& is_recorded_asset(asset, *old(treasury), treasury_key, authority_key, symbol@, quantity,
                cost_basis, source@, timestamp, bump)
            &&& asset.treasury == treasury_key
            &&& asset.index == old(treasury).asset_backing_count
            &&& asset.quantity == quantity
            &&& asset.cost_basis == cost_basis
            &&& asset.timestamp == timestamp
            &&& asset.confirmed_by == authority_key
            &&& asset.bump == bump
            &&& final(treasury).asset_backing_count == old(treasury).asset_backing_count + 1
            &&& *final(treasury) == (TreasuryState {
                asset_backing_count: final(treasury).asset_backing_count,
                ..*old(treasury)
            })
            &&& asset.symbol@ =~= Seq::new(16, |i: int| if i < encode_utf8(symbol@).len() {
                encode_utf8(symbol@)[i]
            } else {
                0u8
            })
            &&& asset.source@ =~= Seq::new(16, |i: int| if i < encode_utf8(source@).len() {
                encode_utf8(source@)[i]
            } else {
                0u8
            })
            &&& event.symbol@ == symbol@
            &&& event.quantity == quantity
            &&& event.cost_basis == cost_basis
            &&& event.timestamp == timestamp
        },
{
    if !keys_equal(&authority_key, &treasury.authority) {
        return Err(InstructionError::RequireKeysEqViolated { left: authority_key, right: treasury.authority });
    }
    let index = treasury.asset_backing_count;
    let symbol_bytes = match fixed_bytes_from_string(symbol.as_str(), 16) {
        Ok(b) => b,
        Err(e) => { return Err(e); },
    };
    let source_bytes = match fixed_bytes_from_string(source.as_str(), 16) {
        Ok(b) => b,
        Err(e) => { return Err(e); },
    };
    let asset = AssetRecord {
        treasury: treasury_key,
        index,
        symbol: symbol_bytes,
        quantity,
        cost_basis,
        timestamp,
        source: source_bytes,
        confirmed_by: authority_key,
        bump,
    };
    treasury.asset_backing_count = treasury.asset_backing_count + 1;
    let event = AssetPurchaseRecorded { symbol, quantity, cost_basis, timestamp: asset.timestamp };
    Ok((asset, event))
}

/// Opens the next distribution epoch, signed by `authority_key`. Refused unless
/// the signer is the treasury's authority; otherwise the treasury's epoch
/// advances by one, the slot is recorded, and the snapshot of the new epoch is
/// returned with its event.
pub fn distribute_to_holders(
    treasury: &mut TreasuryState,
    treasury_key: Pubkey,
    authority_key: Pubkey,
    total_supply: u64,
    total_claimable_sol: u64,
    total_claimable_usdc: u64,
    slot: u64,
    created_at: i64,
    bump: u8,
) -> (r: Result<(DistributionSnapshot, DistributionSnapshotCreated), InstructionError>)
    requires
        authority_key == old(treasury).authority ==> old(treasury).current_epoch < u64::MAX,
    ensures
        r is Ok <==> distribute_outcome(*old(treasury), authority_key, slot) is Ok,
        r is Ok <==> authority_key == old(treasury).authority,
        r matches Err(e) ==> distribute_outcome(*old(treasury), authority_key, slot)
            == Err::<TreasuryState, InstructionError>(e) && *final(treasury) == *old(treasury),
        r matches Ok((snapshot, event)) ==> {
            &&& distribute_outcome(*old(treasury), authority_key, slot) == Ok::<TreasuryState, InstructionError>(*final(treasury))
            &&& snapshot == opened_snapshot(treasury_key, final(treasury).current_epoch, total_supply,
                total_claimable_sol, total_claimable_usdc, created_at, bump)
            &&& event == (DistributionSnapshotCreated {
                epoch: snapshot.epoch,
                total_supply,
                total_claimable_sol,
                total_claimable_usdc,
            })
            &&& snapshot.treasury == treasury_key
            &&& snapshot.epoch == old(treasury).current_epoch + 1
            &&& snapshot.epoch == final(treasury).current_epoch
            &&& snapshot.total_supply == total_supply
            &&& snapshot.total_claimable_sol == total_claimable_sol
            &&& snapshot.total_claimable_usdc == total_claimable_usdc
            &&& snapshot.created_at == created_at
            &&& snapshot.claimed_count == 0
            &&& snapshot.bump == bump
            &&& event.epoch == snapshot.epoch && event.total_supply == snapshot.total_supply
            &&& event.total_claimable_sol == snapshot.total_claimable_sol
            &&& event.total_claimable_usdc == snapshot.total_claimable_usdc
            &&& final(treasury).last_snapshot_slot == slot
            &&& *final(treasury) == (TreasuryState {
                current_epoch: final(treasury).current_epoch,
                last_snapshot_slot: slot,
                ..*old(treasury)
            })
        },
{
    if !keys_equal(&authority_key, &treasury.authority) {
        return Err(InstructionError::RequireKeysEqViolated { left: authority_key, right: treasury.authority });
    }
    treasury.current_epoch = treasury.current_epoch + 1;
    treasury.last_snapshot_slot = slot;
    let snapshot = DistributionSnapshot {
        treasury: treasury_key,
        epoch: treasury.current_epoch,
        total_supply,
        total_claimable_sol,
        total_claimable_usdc,
        created_at,
        claimed_count: 0,
        bump,
    };
    let event = DistributionSnapshotCreated {
        epoch: snapshot.epoch,
        total_supply,
        total_claimable_sol,
        total_claimable_usdc,
    };
    Ok((snapshot, event))
}

/// A holder's share of the claimable SOL, rounded down; nothing when the supply is zero.
pub fn claimable_amount(total_claimable_sol: u64, holder_balance: u64, total_supply: u64) -> (r: u64)
    requires
        total_supply == 0 || total_claimable_sol * holder_balance <= u64::MAX,
    ensures
        r == claimable(total_claimable_sol, holder_balance, total_supply),
        total_supply == 0 ==> r == 0,
        total_supply > 0 ==> r * total_supply <= total_claimable_sol * holder_balance
            < (r + 1) * total_supply,
{
    if total_supply == 0 {
        0
    } else {
        let product = total_claimable_sol * holder_balance;
        proof {
            lemma_floor_division_brackets(product as int, total_supply as int);
        }
        product / total_supply
    }
}

/// `p / d` is the largest `q` with `q * d <= p`.
pub(crate) proof fn lemma_floor_division_brackets(p: int, d: int)
    requires
        0 <= p,
        0 < d,
    ensures
        (p / d) * d <= p < (p / d + 1) * d,
{
    vstd::arithmetic::div_mod::lemma_fundamental_div_mod(p, d);
    vstd::arithmetic::div_mod::lemma_mod_pos_bound(p, d);
    let q = p / d;
    assert(q * d <= p < (q + 1) * d) by (nonlinear_arith)
        requires
            p == d * q + p % d,
            0 <= p % d < d,
    ;
}

/// Claims a holder's share of an epoch. Refused with `AlreadyClaimed` when the
/// claim was made before; otherwise the claim is marked with the SOL share and
/// the payout says what to transfer and emit.
pub fn claim_rewards(
    snapshot: &DistributionSnapshot,
    claim_state: &mut HolderClaim,
    holder: Pubkey,
    holder_balance: u64,
) -> (r: Result<ClaimPayout, InstructionError>)
    requires
        !old(claim_state).claimed ==> claim_fits(*snapshot, holder_balance),
    ensures
        match claim_outcome(*old(claim_state), *snapshot, holder, holder_balance) {
            Ok((c, p)) => r == Ok::<ClaimPayout, InstructionError>(p) && *final(claim_state) == c,
            Err(e) => r == Err::<ClaimPayout, InstructionError>(e) && *final(claim_state) == *old(claim_state),
        },
        r is Err <==> old(claim_state).claimed,
        r is Err ==> *final(claim_state) == *old(claim_state),
        r matches Ok(p) ==> {
            &&& final(claim_state).claimed
            &&& final(claim_state).amount_usdc == 0
            &&& snapshot.total_supply == 0 ==> final(claim_state).amount_sol == 0
            &&& snapshot.total_supply > 0 ==> final(claim_state).amount_sol * snapshot.total_supply
                <= snapshot.total_claimable_sol * holder_balance
                < (final(claim_state).amount_sol + 1) * snapshot.total_supply
            &&& p.transfer == (if final(claim_state).amount_sol > 0 { Some(final(claim_state).amount_sol) } else { None::<u64> })
            &&& p.event.amount == final(claim_state).amount_sol
            &&& p.event.epoch == snapshot.epoch
            &&& p.event.holder == holder
            &&& final(claim_state).treasury == old(claim_state).treasury
            &&& final(claim_state).holder == old(claim_state).holder
            &&& final(claim_state).epoch == old(claim_state).epoch
            &&& final(claim_state).bump == old(claim_state).bump
        },
{
    if claim_state.claimed {
        return Err(InstructionError::Treasury(TreasuryError::AlreadyClaimed));
    }
    let claimable = claimable_amount(snapshot.total_claimable_sol, holder_balance, snapshot.total_supply);
    claim_state.claimed = true;
    claim_state.amount_sol = claimable;
    claim_state.amount_usdc = 0;
    let transfer = if claimable > 0 { Some(claimable) } else { None };
    Ok(ClaimPayout {
        transfer,
        event: RewardsClaimed { epoch: snapshot.epoch, holder, amount: claimable },
    })
}

} // verus!
