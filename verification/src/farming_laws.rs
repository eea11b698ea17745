//! Laws of the farming pool's credit accounting.

use vstd::prelude::*;

use crate::account::TokenTransfer;
use crate::arith::{fits_i128, ledgers_since};
use crate::farming_math::{
    checkpointed_position, checkpointed_stake, credits_for, position_credits_at, position_credits_fit,
    stake_credits_at, stake_credits_fit, total_stake, Position, UserStake,
};
use crate::farming_pool::{
    deposited_stake, emergency_payouts, locked_position, position_amount, stake_amount, FarmingPool,
    PoolConfig, UserRecords,
};

verus! {

/// Without a boost allocation the effective stake is the staked amount,
/// whatever the multiplier.
pub proof fn law_no_allocation_is_face_value(amount: int, multiplier: int)
    ensures
        total_stake(amount, 0, multiplier) == amount,
{
    assert(amount * 0 == 0) by (nonlinear_arith);
    assert(0 * multiplier == 0) by (nonlinear_arith);
}

/// With a multiplier of 1 the effective stake is the staked amount,
/// whatever the allocation.
pub proof fn law_unit_multiplier_is_face_value(amount: int, allocation_pct: int)
    ensures
        total_stake(amount, allocation_pct, 1) == amount,
{
}

/// A non-negative amount with an allocation of at most 100 % and a multiplier
/// of at least 1 never has a smaller effective stake than the amount itself.
pub proof fn law_boost_never_reduces_stake(amount: int, allocation_pct: int, multiplier: int)
    requires
        amount >= 0,
        0 <= allocation_pct <= 100,
        multiplier >= 1,
    ensures
        amount <= total_stake(amount, allocation_pct, multiplier),
{
    let boosted = (amount * allocation_pct) / 100;
    assert(amount * allocation_pct >= 0) by (nonlinear_arith)
        requires
            amount >= 0,
            allocation_pct >= 0,
    ;
    assert(boosted >= 0);
    assert(boosted * multiplier >= boosted) by (nonlinear_arith)
        requires
            boosted >= 0,
            multiplier >= 1,
    ;
}

/// Checkpointing a stake banks exactly the credits it had earned: the credits
/// reported at the checkpoint ledger are the same before and after, whatever
/// allocation, multiplier and rate apply afterwards.
pub proof fn law_stake_checkpoint_preserves_credits(
    s: UserStake,
    allocation_pct: u32,
    multiplier: u32,
    now: u32,
    new_rate: i128,
    new_allocation_pct: u32,
    new_multiplier: u32,
)
    requires
        stake_credits_fit(s, allocation_pct, multiplier, now),
    ensures
        stake_credits_at(
            checkpointed_stake(s, allocation_pct, multiplier, now, new_rate),
            new_allocation_pct,
            new_multiplier,
            now,
        ) == stake_credits_at(s, allocation_pct, multiplier, now),
{
    let c = checkpointed_stake(s, allocation_pct, multiplier, now, new_rate);
    assert(ledgers_since(now, c.start_ledger) == 0);
    let ts = total_stake(c.amount as int, new_allocation_pct as int, new_multiplier as int);
    assert(ts * c.credit_rate * 0 == 0) by (nonlinear_arith);
}

/// Credits accrue linearly: with unchanged allocation, multiplier and rate, a
/// checkpoint at `t1` does not change the credits reported at any later `t2`.
pub proof fn law_stake_checkpoint_is_transparent(
    s: UserStake,
    allocation_pct: u32,
    multiplier: u32,
    t1: u32,
    t2: u32,
)
    requires
        s.start_ledger <= t1 <= t2,
        stake_credits_fit(s, allocation_pct, multiplier, t1),
    ensures
        stake_credits_at(checkpointed_stake(s, allocation_pct, multiplier, t1, s.credit_rate), allocation_pct, multiplier, t2)
            == stake_credits_at(s, allocation_pct, multiplier, t2),
{
    let ts = total_stake(s.amount as int, allocation_pct as int, multiplier as int);
    let r = s.credit_rate as int;
    let a = t1 - s.start_ledger;
    let b = t2 - t1;
    assert(ts * r * (a + b) == ts * r * a + ts * r * b) by (nonlinear_arith);
}

/// A stake's credits never decrease over time when the effective stake and the
/// rate are non-negative.
pub proof fn law_stake_credits_grow_over_time(
    s: UserStake,
    allocation_pct: u32,
    multiplier: u32,
    t1: u32,
    t2: u32,
)
    requires
        t1 <= t2,
        s.amount >= 0,
        s.credit_rate >= 0,
        allocation_pct <= 100,
    ensures
        stake_credits_at(s, allocation_pct, multiplier, t1) <= stake_credits_at(s, allocation_pct, multiplier, t2),
{
    let ts = total_stake(s.amount as int, allocation_pct as int, multiplier as int);
    let amount = s.amount as int;
    let pct = allocation_pct as int;
    assert(amount * pct >= 0) by (nonlinear_arith)
        requires
            amount >= 0,
            pct >= 0,
    ;
    assert(amount * pct <= amount * 100) by (nonlinear_arith)
        requires
            amount >= 0,
            pct <= 100,
    ;
    let boosted = (amount * pct) / 100;
    assert(0 <= boosted <= amount);
    assert(boosted * multiplier >= 0) by (nonlinear_arith)
        requires
            boosted >= 0,
            multiplier >= 0,
    ;
    assert(ts >= 0);
    let e1 = ledgers_since(t1, s.start_ledger) as int;
    let e2 = ledgers_since(t2, s.start_ledger) as int;
    assert(e1 <= e2);
    let r = s.credit_rate as int;
    assert(ts * r * e1 <= ts * r * e2) by (nonlinear_arith)
        requires
            ts >= 0,
            r >= 0,
            0 <= e1 <= e2,
    ;
}

/// Checkpointing a position banks exactly the credits it had earned: the
/// credits reported at the checkpoint ledger are unchanged.
pub proof fn law_position_checkpoint_preserves_credits(p: Position, now: u32, new_rate: i128)
    requires
        position_credits_fit(p, now),
    ensures
        position_credits_at(checkpointed_position(p, now, new_rate), now) == position_credits_at(p, now),
{
    let c = checkpointed_position(p, now, new_rate);
    assert(c.amount * c.credit_rate * 0 == 0) by (nonlinear_arith);
}

/// With an unchanged rate, a position checkpoint at `t1` does not change the
/// credits reported at any later `t2`.
pub proof fn law_position_checkpoint_is_transparent(p: Position, t1: u32, t2: u32)
    requires
        p.checkpoint_ledger <= t1 <= t2,
        position_credits_fit(p, t1),
    ensures
        position_credits_at(checkpointed_position(p, t1, p.credit_rate), t2) == position_credits_at(p, t2),
{
    let a = t1 - p.checkpoint_ledger;
    let b = t2 - t1;
    let x = p.amount as int;
    let r = p.credit_rate as int;
    assert(x * r * (a + b) == x * r * a + x * r * b) by (nonlinear_arith);
}

/// Locking more into an existing position does not change the credits
/// reported at that ledger, and the locked amount grows by exactly the amount
/// deposited.
pub proof fn law_lock_preserves_credits_and_adds_amount(p: Position, cfg: PoolConfig, amount: i128, now: u32)
    requires
        position_credits_fit(p, now),
        fits_i128(p.amount + amount),
    ensures
        position_credits_at(locked_position(Some(p), cfg, amount, now), now) == position_credits_at(p, now),
        locked_position(Some(p), cfg, amount, now).amount == p.amount + amount,
{
    let n = locked_position(Some(p), cfg, amount, now);
    assert(n.amount * n.credit_rate * 0 == 0) by (nonlinear_arith);
}

/// Sum of the amounts of a sequence of payouts.
pub open spec fn paid_out(transfers: Seq<TokenTransfer>) -> int
    decreases transfers.len(),
{
    if transfers.len() == 0 {
        0
    } else {
        let rest = paid_out(transfers.drop_last());
        match transfers.last() {
            TokenTransfer::Payout { amount, .. } => rest + amount,
            TokenTransfer::Deposit { .. } => rest,
        }
    }
}

/// An emergency withdrawal pays out exactly the total it reports: the locked
/// plus the staked amount.
pub proof fn law_emergency_payouts_sum_to_total(user: crate::account::AccountId, records: UserRecords)
    ensures
        paid_out(emergency_payouts(user, records)) == position_amount(records.position) + stake_amount(
            records.stake,
        ),
{
    let s = emergency_payouts(user, records);
    reveal_with_fuel(paid_out, 3);
    match (records.position, records.stake) {
        (Some(p), Some(st)) => {
            assert(s.drop_last() =~= seq![TokenTransfer::Payout { to: user, amount: p.amount }]);
            assert(s.drop_last().drop_last() =~= Seq::<TokenTransfer>::empty());
        },
        (Some(p), None) => {
            assert(s.drop_last() =~= Seq::<TokenTransfer>::empty());
        },
        (None, Some(st)) => {
            assert(s.drop_last() =~= Seq::<TokenTransfer>::empty());
        },
        (None, None) => {
            assert(s =~= Seq::<TokenTransfer>::empty());
        },
    }
}

/// Pausing and then unpausing a running pool restores its settings exactly.
pub proof fn law_pause_unpause_round_trip(cfg: PoolConfig)
    requires
        !cfg.paused,
    ensures
        (PoolConfig { paused: false, ..PoolConfig { paused: true, ..cfg } }) == cfg,
{
}

/// Tokens a user holds in the pool: the locked plus the staked amount.
pub open spec fn holdings(r: UserRecords) -> int {
    position_amount(r.position) + stake_amount(r.stake)
}

/// The pool's books follow its token movements: locking or staking `amount`
/// (a deposit of `amount`) raises the user's holdings by exactly `amount`,
/// and unlocking `amount` or unstaking (a payout of that amount) lowers them
/// by exactly the amount paid out.
pub proof fn law_holdings_follow_transfers(pool: FarmingPool, r: UserRecords, amount: i128, now: u32)
    requires
        pool.config is Some,
    ensures
        ({
            let cfg = pool.config->0;
            let locked = UserRecords { position: Some(locked_position(r.position, cfg, amount, now)), ..r };
            pool.lock_assets_abort(r, amount, now) is None ==> holdings(locked) == holdings(r) + amount
        }),
        ({
            let cfg = pool.config->0;
            let staked = UserRecords {
                stake: Some(
                    deposited_stake(r.stake, r.allocation(), cfg.global_multiplier, now, cfg.credit_rate, amount),
                ),
                ..r
            };
            pool.stake_abort(r, amount, now) is None ==> holdings(staked) == holdings(r) + amount
        }),
        ({
            let cfg = pool.config->0;
            let c = checkpointed_position(r.position->0, now, cfg.credit_rate);
            let remaining = (c.amount - amount) as i128;
            let unlocked = UserRecords {
                position: if remaining == 0 {
                    None
                } else {
                    Some(Position { amount: remaining, ..c })
                },
                ..r
            };
            pool.unlock_assets_abort(r, amount, now) is None ==> holdings(unlocked) == holdings(r) - amount
        }),
        pool.unstake_abort(r, now) is None ==> holdings(UserRecords { stake: None, ..r }) == holdings(r)
            - r.stake->0.amount,
{
}

} // verus!

verus! {

/// A checkpoint adopts the pool's current rate: after checkpointing at `now`
/// with rate `r`, the stake keeps its amount, restarts accrual at `now`, and
/// by any later ledger `t` has earned exactly its credits at `now` plus its
/// effective stake times `r` for each ledger since `now`.
pub proof fn law_stake_checkpoint_adopts_rate(
    s: UserStake,
    allocation_pct: u32,
    multiplier: u32,
    now: u32,
    r: i128,
    t: u32,
)
    requires
        now <= t,
    ensures
        checkpointed_stake(s, allocation_pct, multiplier, now, r).credit_rate == r,
        checkpointed_stake(s, allocation_pct, multiplier, now, r).amount == s.amount,
        checkpointed_stake(s, allocation_pct, multiplier, now, r).start_ledger == now,
        stake_credits_fit(s, allocation_pct, multiplier, now) ==> stake_credits_at(
            checkpointed_stake(s, allocation_pct, multiplier, now, r),
            allocation_pct,
            multiplier,
            t,
        ) == stake_credits_at(s, allocation_pct, multiplier, now) + total_stake(
            s.amount as int,
            allocation_pct as int,
            multiplier as int,
        ) * r * (t - now),
{
}

/// A newly locked position starts with no credits at the ledger it is created
/// at, unlocks no earlier than then, and by any later ledger `t` has earned
/// exactly `amount * rate * (t - now)`.
pub proof fn law_new_position_accrues_from_lock(cfg: PoolConfig, amount: i128, now: u32, t: u32)
    requires
        now <= t,
    ensures
        locked_position(None, cfg, amount, now).amount == amount,
        locked_position(None, cfg, amount, now).lock_ledger == now,
        locked_position(None, cfg, amount, now).unlock_ledger >= now,
        locked_position(None, cfg, amount, now).credit_rate == cfg.credit_rate,
        position_credits_at(locked_position(None, cfg, amount, now), t) == amount * cfg.credit_rate * (t - now),
        position_credits_at(locked_position(None, cfg, amount, now), now) == 0,
{
    let p = locked_position(None, cfg, amount, now);
    assert(amount * cfg.credit_rate * 0 == 0) by (nonlinear_arith);
}

/// A position checkpoint adopts the pool's current rate: after checkpointing
/// at `now` with rate `r`, the position keeps its amount and by any later
/// ledger `t` has earned its credits at `now` plus `amount * r` for each
/// ledger since `now`.
pub proof fn law_position_checkpoint_adopts_rate(p: Position, now: u32, r: i128, t: u32)
    requires
        now <= t,
        position_credits_fit(p, now),
    ensures
        checkpointed_position(p, now, r).amount == p.amount,
        checkpointed_position(p, now, r).credit_rate == r,
        position_credits_at(checkpointed_position(p, now, r), t) == position_credits_at(p, now) + p.amount * r * (
        t - now),
{
}

/// Locking more into an existing position adopts the pool's current rate for
/// the whole new amount: by any later ledger `t` it has earned its credits at
/// `now` plus `(old amount + amount) * rate` for each ledger since `now`.
pub proof fn law_lock_top_up_accrues_at_current_rate(p: Position, cfg: PoolConfig, amount: i128, now: u32, t: u32)
    requires
        now <= t,
        position_credits_fit(p, now),
        fits_i128(p.amount + amount),
    ensures
        position_credits_at(locked_position(Some(p), cfg, amount, now), t) == position_credits_at(p, now) + (
        p.amount + amount) * cfg.credit_rate * (t - now),
{
}

/// Topping up a stake or changing its boost adopts the pool's current rate.
pub proof fn law_stake_updates_adopt_current_rate(
    prev: Option<UserStake>,
    allocation_pct: u32,
    multiplier: u32,
    now: u32,
    credit_rate: i128,
    amount: i128,
)
    ensures
        crate::farming_pool::deposited_stake(prev, allocation_pct, multiplier, now, credit_rate, amount).credit_rate
            == credit_rate,
        crate::farming_pool::deposited_stake(prev, allocation_pct, multiplier, now, credit_rate, amount).start_ledger
            == now,
{
}

} // verus!
