//! Properties of the treasury that span several instructions or all inputs.
use vstd::prelude::*;
use vstd::arithmetic::div_mod::{lemma_fundamental_div_mod, lemma_mod_pos_bound, lemma_div_is_ordered,
    lemma_div_multiples_vanish};
use vstd::arithmetic::mul::lemma_mul_inequality;
use vstd::utf8::encode_utf8;
use crate::keys::Pubkey;
use crate::events::{fee_deposit_kind, dead_pool_deposit_kind};
use crate::error::{TreasuryError, InstructionError};
use crate::state::{TreasuryState, AssetRecord, DistributionSnapshot, HolderClaim};
use crate::treasury::{ClaimPayout, deposit_outcome, is_fresh_treasury, is_recorded_asset, opened_snapshot,
    claim_fits, fixed_bytes, lemma_floor_division_brackets, record_outcome, distribute_outcome, claim_outcome, claimable,
    keys_mismatch};

verus! {

/// Two accepted deposits leave the treasury as one deposit of their sum would.
pub proof fn lemma_deposits_add_up(s: TreasuryState, a: u64, b: u64)
    requires
        deposit_outcome(s, a) is Ok,
        deposit_outcome(deposit_outcome(s, a)->Ok_0, b) is Ok,
        s.total_sol_inflow + a + b <= u64::MAX,
    ensures
        deposit_outcome(deposit_outcome(s, a)->Ok_0, b) == deposit_outcome(s, (a + b) as u64),
        (deposit_outcome(s, a)->Ok_0).total_sol_inflow == s.total_sol_inflow + a,
{
}

/// A paused treasury refuses every deposit (with `InvalidAmount` for a zero
/// amount, `Paused` otherwise), so its books do not move.
pub proof fn lemma_paused_treasury_refuses_deposits(s: TreasuryState, amount: u64)
    requires
        s.paused,
    ensures
        deposit_outcome(s, amount) is Err,
        amount > 0 ==> deposit_outcome(s, amount) == Err::<TreasuryState, InstructionError>(
            InstructionError::Treasury(TreasuryError::Paused)),
{
}

/// No instruction changes who the treasury's authority is, or whether it is paused.
pub proof fn lemma_authority_is_stable(s: TreasuryState, amount: u64, signer: Pubkey, slot: u64)
    ensures
        deposit_outcome(s, amount) matches Ok(t) ==> t.authority == s.authority && t.paused == s.paused,
        record_outcome(s, signer) matches Ok(t) ==> t.authority == s.authority && t.paused == s.paused,
        distribute_outcome(s, signer, slot) matches Ok(t) ==> t.authority == s.authority && t.paused == s.paused,
{
}

/// Only the authority can record assets or open epochs: any other signer is
/// refused with the mismatching pair of keys.
pub proof fn lemma_only_authority_changes_books(s: TreasuryState, signer: Pubkey, slot: u64)
    requires
        signer != s.authority,
    ensures
        record_outcome(s, signer) == Err::<TreasuryState, InstructionError>(keys_mismatch(signer, s.authority)),
        distribute_outcome(s, signer, slot) == Err::<TreasuryState, InstructionError>(keys_mismatch(signer, s.authority)),
{
}

/// A holder can claim an epoch once: after an accepted claim, every further
/// claim on it is refused with `AlreadyClaimed`.
pub proof fn lemma_no_double_claim(
    claim: HolderClaim,
    snapshot: DistributionSnapshot,
    holder: Pubkey,
    balance: u64,
    later_snapshot: DistributionSnapshot,
    later_holder: Pubkey,
    later_balance: u64,
)
    requires
        claim_outcome(claim, snapshot, holder, balance) is Ok,
    ensures
        claim_outcome((claim_outcome(claim, snapshot, holder, balance)->Ok_0).0, later_snapshot, later_holder,
            later_balance) == Err::<(HolderClaim, ClaimPayout), InstructionError>(
            InstructionError::Treasury(TreasuryError::AlreadyClaimed)),
{
}

/// A holder's share grows with the balance and never exceeds the claimable pool
/// while the balance is within the supply.
pub proof fn lemma_share_within_pool(total_claimable_sol: u64, balance: u64, larger_balance: u64, total_supply: u64)
    requires
        balance <= larger_balance,
    ensures
        0 <= claimable(total_claimable_sol, balance, total_supply),
        claimable(total_claimable_sol, balance, total_supply) <= claimable(total_claimable_sol, larger_balance,
            total_supply),
        balance <= total_supply ==> claimable(total_claimable_sol, balance, total_supply) <= total_claimable_sol,
{
    if total_supply > 0 {
        let c = total_claimable_sol as int;
        let s = total_supply as int;
        lemma_mul_inequality(balance as int, larger_balance as int, c);
        assert(c * balance == balance * c) by (nonlinear_arith);
        assert(c * larger_balance == larger_balance * c) by (nonlinear_arith);
        lemma_div_is_ordered(c * balance, c * larger_balance, s);
        assert(0 <= c * balance) by (nonlinear_arith)
            requires 0 <= c, 0 <= balance;
        lemma_div_is_ordered(0, c * balance, s);
        if balance <= total_supply {
            lemma_mul_inequality(balance as int, s, c);
            assert(c * s == s * c) by (nonlinear_arith);
            lemma_div_is_ordered(c * balance, c * s, s);
            lemma_div_multiples_vanish(c, s);
        }
    }
}

/// The sum of a sequence of balances.
pub open spec fn total_balance(balances: Seq<u64>) -> int
    decreases balances.len(),
{
    if balances.len() == 0 {
        0
    } else {
        total_balance(balances.drop_last()) + balances.last()
    }
}

/// The sum of the shares that holders with these balances can claim.
pub open spec fn total_claims(total_claimable_sol: u64, balances: Seq<u64>, total_supply: u64) -> int
    decreases balances.len(),
{
    if balances.len() == 0 {
        0
    } else {
        total_claims(total_claimable_sol, balances.drop_last(), total_supply)
            + claimable(total_claimable_sol, balances.last(), total_supply)
    }
}

/// Rounding down each part never gives more than rounding down the whole.
proof fn lemma_floor_div_superadditive(p: int, q: int, d: int)
    requires
        0 <= p,
        0 <= q,
        0 < d,
    ensures
        p / d + q / d <= (p + q) / d,
{
    lemma_fundamental_div_mod(p, d);
    lemma_fundamental_div_mod(q, d);
    lemma_fundamental_div_mod(p + q, d);
    lemma_mod_pos_bound(p, d);
    lemma_mod_pos_bound(q, d);
    lemma_mod_pos_bound(p + q, d);
    let qp = p / d;
    let qq = q / d;
    let qs = (p + q) / d;
    assert(d * (qp + qq) < d * (qs + 1)) by (nonlinear_arith)
        requires
            p == d * qp + p % d,
            q == d * qq + q % d,
            p + q == d * qs + (p + q) % d,
            0 <= p % d,
            0 <= q % d,
            (p + q) % d < d,
    ;
    assert(qp + qq < qs + 1) by (nonlinear_arith)
        requires
            d * (qp + qq) < d * (qs + 1),
            0 < d,
    ;
}

/// The claims of any holders fit under the share of their combined balance.
proof fn lemma_claims_fit_combined_share(total_claimable_sol: u64, balances: Seq<u64>, total_supply: u64)
    requires
        total_supply > 0,
    ensures
        0 <= total_balance(balances),
        total_claims(total_claimable_sol, balances, total_supply) <= (total_claimable_sol * total_balance(balances))
            / (total_supply as int),
    decreases balances.len(),
{
    let c = total_claimable_sol as int;
    let d = total_supply as int;
    if balances.len() == 0 {
        assert(c * 0 == 0) by (nonlinear_arith);
    } else {
        let rest = balances.drop_last();
        let last = balances.last() as int;
        lemma_claims_fit_combined_share(total_claimable_sol, rest, total_supply);
        let b = total_balance(rest);
        assert(0 <= c * b && 0 <= c * last && c * (b + last) == c * b + c * last) by (nonlinear_arith)
            requires 0 <= c, 0 <= b, 0 <= last;
        lemma_floor_div_superadditive(c * b, c * last, d);
    }
}

/// However the supply is split among holders, their claims together never
/// exceed the epoch's claimable SOL.
pub proof fn lemma_claims_never_exceed_pool(total_claimable_sol: u64, balances: Seq<u64>, total_supply: u64)
    requires
        total_balance(balances) <= total_supply,
    ensures
        total_claims(total_claimable_sol, balances, total_supply) <= total_claimable_sol,
{
    if total_supply == 0 {
        lemma_no_supply_no_claims(total_claimable_sol, balances);
    } else {
        let c = total_claimable_sol as int;
        let d = total_supply as int;
        lemma_claims_fit_combined_share(total_claimable_sol, balances, total_supply);
        let b = total_balance(balances);
        lemma_mul_inequality(b, d, c);
        assert(c * b == b * c && c * d == d * c) by (nonlinear_arith);
        lemma_div_is_ordered(c * b, c * d, d);
        lemma_div_multiples_vanish(c, d);
    }
}

/// With no supply, nobody can claim anything.
proof fn lemma_no_supply_no_claims(total_claimable_sol: u64, balances: Seq<u64>)
    ensures
        total_claims(total_claimable_sol, balances, 0) == 0,
    decreases balances.len(),
{
    if balances.len() > 0 {
        lemma_no_supply_no_claims(total_claimable_sol, balances.drop_last());
    }
}

/// The treasury after `n` asset records signed by its authority, one after the other.
pub open spec fn after_records(s: TreasuryState, n: nat) -> TreasuryState
    decreases n,
{
    if n == 0 {
        s
    } else {
        let before = after_records(s, (n - 1) as nat);
        match record_outcome(before, s.authority) {
            Ok(t) => t,
            Err(_) => before,
        }
    }
}

/// Any number of asset records by the authority are all accepted and take
/// consecutive indices: the `i`-th record (counting from 0) is written at index
/// `k + i`, where `k` is the count before the first, and the count ends at `k + n`.
pub proof fn lemma_asset_indices_stay_consecutive(s: TreasuryState, n: nat)
    requires
        s.asset_backing_count + n <= u32::MAX,
    ensures
        forall|i: nat| i < n ==> record_outcome(#[trigger] after_records(s, i), s.authority)
            == Ok::<TreasuryState, InstructionError>(after_records(s, i + 1)),
        forall|i: nat| i <= n ==> (#[trigger] after_records(s, i)).asset_backing_count
            == s.asset_backing_count + i && after_records(s, i).authority == s.authority,
    decreases n,
{
    if n > 0 {
        let m = (n - 1) as nat;
        lemma_asset_indices_stay_consecutive(s, m);
        let before = after_records(s, m);
        assert(before.asset_backing_count == s.asset_backing_count + m && before.authority == s.authority);
        assert(record_outcome(before, s.authority) is Ok);
        assert(after_records(s, m + 1) == record_outcome(before, s.authority)->Ok_0);
        assert(after_records(s, n).asset_backing_count == s.asset_backing_count + n);
    }
}

/// The treasury after one distribution per slot in `slots`, each signed by its
/// authority, one after the other.
pub open spec fn after_distributions(s: TreasuryState, slots: Seq<u64>) -> TreasuryState
    decreases slots.len(),
{
    if slots.len() == 0 {
        s
    } else {
        let before = after_distributions(s, slots.drop_last());
        match distribute_outcome(before, s.authority, slots.last()) {
            Ok(t) => t,
            Err(_) => before,
        }
    }
}

/// Any number of distributions by the authority are all accepted and open
/// consecutive epochs: the `i`-th (counting from 0) opens epoch `e + i + 1`,
/// where `e` is the epoch before the first, and the epoch ends at `e + n`.
pub proof fn lemma_epochs_stay_consecutive(s: TreasuryState, slots: Seq<u64>)
    requires
        s.current_epoch + slots.len() <= u64::MAX,
    ensures
        forall|i: int| 0 <= i < slots.len() ==> distribute_outcome(
            #[trigger] after_distributions(s, slots.take(i)), s.authority, slots[i])
            == Ok::<TreasuryState, InstructionError>(after_distributions(s, slots.take(i + 1))),
        forall|i: int| 0 <= i <= slots.len() ==> (#[trigger] after_distributions(s, slots.take(i))).current_epoch
            == s.current_epoch + i && after_distributions(s, slots.take(i)).authority == s.authority,
    decreases slots.len(),
{
    if slots.len() > 0 {
        let rest = slots.drop_last();
        lemma_epochs_stay_consecutive(s, rest);
        assert forall|i: int| 0 <= i <= rest.len() implies #[trigger] slots.take(i) == rest.take(i) by {
            assert(slots.take(i) =~= rest.take(i));
        }
        assert(slots.take(slots.len() as int) =~= slots);
        assert(slots.take(rest.len() as int) =~= rest);
        assert(rest.take(rest.len() as int) =~= rest);
        let before = after_distributions(s, rest);
        assert(before.current_epoch == s.current_epoch + rest.len() && before.authority == s.authority);
        assert(distribute_outcome(before, s.authority, slots.last()) is Ok);
        assert(after_distributions(s, slots).current_epoch == s.current_epoch + slots.len());
        assert(after_distributions(s, slots).authority == s.authority);
        assert forall|i: int| 0 <= i < slots.len() implies distribute_outcome(
            #[trigger] after_distributions(s, slots.take(i)), s.authority, slots[i])
            == Ok::<TreasuryState, InstructionError>(after_distributions(s, slots.take(i + 1))) by {
            if i < rest.len() {
                assert(slots.take(i + 1) == rest.take(i + 1));
                assert(slots[i] == rest[i]);
            } else {
                assert(slots.take(i + 1) =~= slots);
                assert(slots.take(i) == rest);
            }
        }
    }
}

/// The SOL that the claims record, for holders with these claim accounts,
/// keys and balances, each claiming once against the same snapshot.
pub open spec fn paid_out(
    claims: Seq<HolderClaim>,
    snapshot: DistributionSnapshot,
    holders: Seq<Pubkey>,
    balances: Seq<u64>,
) -> int
    decreases balances.len(),
{
    if balances.len() == 0 || claims.len() == 0 || holders.len() == 0 {
        0
    } else {
        paid_out(claims.drop_last(), snapshot, holders.drop_last(), balances.drop_last())
            + match claim_outcome(claims.last(), snapshot, holders.last(), balances.last()) {
            Ok((c, _)) => c.amount_sol as int,
            Err(_) => 0,
        }
    }
}

/// Holders that have not claimed yet, whose balances add up to at most the
/// snapshot's supply, are each accepted once, and the SOL their claims record
/// (and the payouts move) adds up to at most the snapshot's claimable SOL.
pub proof fn lemma_epoch_pays_at_most_its_pool(
    claims: Seq<HolderClaim>,
    snapshot: DistributionSnapshot,
    holders: Seq<Pubkey>,
    balances: Seq<u64>,
)
    requires
        claims.len() == balances.len(),
        holders.len() == balances.len(),
        forall|i: int| 0 <= i < claims.len() ==> !(#[trigger] claims[i]).claimed,
        total_balance(balances) <= snapshot.total_supply,
    ensures
        forall|i: int| 0 <= i < claims.len() ==> claim_outcome(#[trigger] claims[i], snapshot, holders[i],
            balances[i]) is Ok,
        paid_out(claims, snapshot, holders, balances) == total_claims(snapshot.total_claimable_sol, balances,
            snapshot.total_supply),
        paid_out(claims, snapshot, holders, balances) <= snapshot.total_claimable_sol,
{
    lemma_paid_out_is_total_claims(claims, snapshot, holders, balances);
    lemma_claims_never_exceed_pool(snapshot.total_claimable_sol, balances, snapshot.total_supply);
}

/// Each accepted claim records exactly the holder's share.
proof fn lemma_paid_out_is_total_claims(
    claims: Seq<HolderClaim>,
    snapshot: DistributionSnapshot,
    holders: Seq<Pubkey>,
    balances: Seq<u64>,
)
    requires
        claims.len() == balances.len(),
        holders.len() == balances.len(),
        forall|i: int| 0 <= i < claims.len() ==> !(#[trigger] claims[i]).claimed,
        total_balance(balances) <= snapshot.total_supply,
    ensures
        forall|i: int| 0 <= i < claims.len() ==> claim_outcome(#[trigger] claims[i], snapshot, holders[i],
            balances[i]) is Ok,
        paid_out(claims, snapshot, holders, balances) == total_claims(snapshot.total_claimable_sol, balances,
            snapshot.total_supply),
    decreases balances.len(),
{
    if balances.len() > 0 {
        let rest = balances.drop_last();
        let last = balances.last();
        assert(claims.drop_last().len() == rest.len());
        assert forall|i: int| 0 <= i < claims.drop_last().len() implies !(#[trigger] claims.drop_last()[i]).claimed by {
            assert(claims.drop_last()[i] == claims[i]);
        }
        lemma_balances_nonnegative(rest);
        lemma_paid_out_is_total_claims(claims.drop_last(), snapshot, holders.drop_last(), rest);
        assert(!claims[claims.len() - 1].claimed);
        lemma_share_within_pool(snapshot.total_claimable_sol, last, last, snapshot.total_supply);
    }
}

/// A sum of balances is never negative.
proof fn lemma_balances_nonnegative(balances: Seq<u64>)
    ensures
        0 <= total_balance(balances),
    decreases balances.len(),
{
    if balances.len() > 0 {
        lemma_balances_nonnegative(balances.drop_last());
    }
}

/// A newly set-up treasury holds exactly the authority, bump, fee and creation
/// time it was given, is not paused, and has all totals, counters and reserved
/// bytes at zero.
pub proof fn lemma_fresh_treasury_holds_its_arguments(
    s: TreasuryState,
    authority: Pubkey,
    bump: u8,
    fee_bps: u16,
    created_at: i64,
)
    requires
        is_fresh_treasury(s, authority, bump, fee_bps, created_at),
    ensures
        s.authority == authority,
        s.bump == bump,
        s.fee_bps == fee_bps,
        s.created_at == created_at,
        !s.paused,
        s.total_sol_inflow == 0 && s.total_usdc_inflow == 0,
        s.total_distributed_sol == 0 && s.total_distributed_usdc == 0,
        s.current_epoch == 0 && s.last_snapshot_slot == 0 && s.asset_backing_count == 0,
        forall|i: int| 0 <= i < 64 ==> s.reserved@[i] == 0u8,
{
}

/// A deposit of a positive amount into an unpaused treasury is accepted,
/// whatever the rest of the treasury holds: the SOL inflow grows by exactly the
/// amount and nothing else changes.
pub proof fn lemma_accepted_deposit_counts_its_amount(s: TreasuryState, amount: u64)
    requires
        amount > 0,
        !s.paused,
        s.total_sol_inflow + amount <= u64::MAX,
    ensures
        deposit_outcome(s, amount) is Ok,
        (deposit_outcome(s, amount)->Ok_0).total_sol_inflow == s.total_sol_inflow + amount,
        deposit_outcome(s, amount)->Ok_0 == (TreasuryState {
            total_sol_inflow: (deposit_outcome(s, amount)->Ok_0).total_sol_inflow,
            ..s
        }),
{
}

/// A deposit is refused only for a zero amount (`InvalidAmount`) or a paused
/// treasury (`Paused`), in that order.
pub proof fn lemma_deposit_refusals(s: TreasuryState, amount: u64)
    ensures
        amount == 0 ==> deposit_outcome(s, amount) == Err::<TreasuryState, InstructionError>(
            InstructionError::Treasury(TreasuryError::InvalidAmount)),
        amount > 0 && s.paused ==> deposit_outcome(s, amount) == Err::<TreasuryState, InstructionError>(
            InstructionError::Treasury(TreasuryError::Paused)),
        deposit_outcome(s, amount) is Err <==> amount == 0 || s.paused,
{
}

/// A recorded asset holds exactly the purchase it was given: the treasury and
/// signer keys, the next index, the quantity, cost basis, time and bump.
pub proof fn lemma_recorded_asset_holds_its_arguments(
    a: AssetRecord,
    s: TreasuryState,
    treasury_key: Pubkey,
    signer: Pubkey,
    symbol: Seq<char>,
    quantity: u64,
    cost_basis: u64,
    source: Seq<char>,
    timestamp: i64,
    bump: u8,
)
    requires
        is_recorded_asset(a, s, treasury_key, signer, symbol, quantity, cost_basis, source, timestamp, bump),
    ensures
        a.treasury == treasury_key,
        a.index == s.asset_backing_count,
        a.quantity == quantity,
        a.cost_basis == cost_basis,
        a.timestamp == timestamp,
        a.confirmed_by == signer,
        a.bump == bump,
{
}

/// The authority's record is accepted and counts exactly one more asset,
/// changing nothing else in the treasury.
pub proof fn lemma_authority_record_counts_one_more(s: TreasuryState)
    requires
        s.asset_backing_count < u32::MAX,
    ensures
        record_outcome(s, s.authority) is Ok,
        (record_outcome(s, s.authority)->Ok_0).asset_backing_count == s.asset_backing_count + 1,
        record_outcome(s, s.authority)->Ok_0 == (TreasuryState {
            asset_backing_count: (record_outcome(s, s.authority)->Ok_0).asset_backing_count,
            ..s
        }),
{
}

/// An opened snapshot holds exactly the supply and claimable SOL and USDC it was
/// given, for its epoch, with nothing claimed yet.
pub proof fn lemma_snapshot_holds_its_arguments(
    treasury_key: Pubkey,
    epoch: u64,
    total_supply: u64,
    total_claimable_sol: u64,
    total_claimable_usdc: u64,
    created_at: i64,
    bump: u8,
)
    ensures
        opened_snapshot(treasury_key, epoch, total_supply, total_claimable_sol, total_claimable_usdc, created_at,
            bump).treasury == treasury_key,
        opened_snapshot(treasury_key, epoch, total_supply, total_claimable_sol, total_claimable_usdc, created_at,
            bump).epoch == epoch,
        opened_snapshot(treasury_key, epoch, total_supply, total_claimable_sol, total_claimable_usdc, created_at,
            bump).total_supply == total_supply,
        opened_snapshot(treasury_key, epoch, total_supply, total_claimable_sol, total_claimable_usdc, created_at,
            bump).total_claimable_sol == total_claimable_sol,
        opened_snapshot(treasury_key, epoch, total_supply, total_claimable_sol, total_claimable_usdc, created_at,
            bump).total_claimable_usdc == total_claimable_usdc,
        opened_snapshot(treasury_key, epoch, total_supply, total_claimable_sol, total_claimable_usdc, created_at,
            bump).created_at == created_at,
        opened_snapshot(treasury_key, epoch, total_supply, total_claimable_sol, total_claimable_usdc, created_at,
            bump).claimed_count == 0,
        opened_snapshot(treasury_key, epoch, total_supply, total_claimable_sol, total_claimable_usdc, created_at,
            bump).bump == bump,
{
}

/// The authority's distribution is accepted, advances the epoch by exactly one
/// and records the slot, changing nothing else that the books count.
pub proof fn lemma_authority_distribution_advances_epoch(s: TreasuryState, slot: u64)
    requires
        s.current_epoch < u64::MAX,
    ensures
        distribute_outcome(s, s.authority, slot) is Ok,
        (distribute_outcome(s, s.authority, slot)->Ok_0).current_epoch == s.current_epoch + 1,
        (distribute_outcome(s, s.authority, slot)->Ok_0).last_snapshot_slot == slot,
        distribute_outcome(s, s.authority, slot)->Ok_0 == (TreasuryState {
            current_epoch: (distribute_outcome(s, s.authority, slot)->Ok_0).current_epoch,
            last_snapshot_slot: slot,
            ..s
        }),
{
}

/// A first claim is accepted and records the holder's pro-rata share of the
/// claimable SOL, rounded down (the largest amount whose multiple of the supply
/// stays within `total_claimable_sol * holder_balance`; nothing when the supply
/// is zero). The payout moves exactly that many lamports when it is positive and
/// none otherwise, and the event reports the same amount.
pub proof fn lemma_claim_pays_the_pro_rata_share(
    claim: HolderClaim,
    snapshot: DistributionSnapshot,
    holder: Pubkey,
    holder_balance: u64,
)
    requires
        !claim.claimed,
        claim_fits(snapshot, holder_balance),
    ensures
        claim_outcome(claim, snapshot, holder, holder_balance) is Ok,
        ({
            let (c, p) = claim_outcome(claim, snapshot, holder, holder_balance)->Ok_0;
            &&& c.claimed
            &&& c.amount_usdc == 0
            &&& snapshot.total_supply == 0 ==> c.amount_sol == 0
            &&& snapshot.total_supply > 0 ==> c.amount_sol * snapshot.total_supply
                <= snapshot.total_claimable_sol * holder_balance
                < (c.amount_sol + 1) * snapshot.total_supply
            &&& p.transfer == (if c.amount_sol > 0 { Some(c.amount_sol) } else { None::<u64> })
            &&& p.event.amount == c.amount_sol
            &&& p.event.epoch == snapshot.epoch
            &&& p.event.holder == holder
            &&& c.treasury == claim.treasury && c.holder == claim.holder && c.epoch == claim.epoch
            &&& c.bump == claim.bump
        }),
{
    if snapshot.total_supply > 0 {
        let prod = snapshot.total_claimable_sol * holder_balance;
        assert(0 <= prod) by (nonlinear_arith)
            requires prod == snapshot.total_claimable_sol * holder_balance;
        lemma_floor_division_brackets(prod, snapshot.total_supply as int);
        let q = prod / (snapshot.total_supply as int);
        assert(q <= prod) by (nonlinear_arith)
            requires q * snapshot.total_supply <= prod, 0 <= prod, snapshot.total_supply >= 1,
                0 <= q || q < 0;
    }
}

/// The fixed-width field keeps the first bytes of the value, as many as fit in
/// both the size and the 16 bytes, and is zero after them.
pub proof fn lemma_fixed_bytes_keep_the_prefix(bytes: Seq<u8>, size: int)
    ensures
        fixed_bytes(bytes, size).len() == 16,
        forall|i: int| 0 <= i < 16 && i < bytes.len() && i < size ==> fixed_bytes(bytes, size)[i] == bytes[i],
        forall|i: int| 0 <= i < 16 && (i >= bytes.len() || i >= size) ==> fixed_bytes(bytes, size)[i] == 0u8,
{
}

/// The movement kinds are the UTF-8 bytes of the words `fee_deposit` and
/// `dead_pool_deposit`.
pub proof fn lemma_movement_kinds_spell_their_names()
    ensures
        fee_deposit_kind() == encode_utf8("fee_deposit"@),
        dead_pool_deposit_kind() == encode_utf8("dead_pool_deposit"@),
{
    reveal_strlit("fee_deposit");
    reveal_strlit("dead_pool_deposit");
    vstd::utf8::is_ascii_chars_encode_utf8("fee_deposit"@);
    vstd::utf8::is_ascii_chars_encode_utf8("dead_pool_deposit"@);
    assert(fee_deposit_kind() =~= encode_utf8("fee_deposit"@));
    assert(dead_pool_deposit_kind() =~= encode_utf8("dead_pool_deposit"@));
}

} // verus!
