//! Effective stake, credit accrual and checkpoints of the farming pool.

use vstd::prelude::*;

use crate::arith::{div_trunc, elapsed_ledgers, fits_i128, ledgers_since};

verus! {

/// Recorded state for a user's stake position (boost system).
/// Credits are checkpointed into `credits_banked` whenever the boost
/// configuration or the stake changes.
#[derive(Clone, Copy, Debug, PartialEq, Eq)]
pub struct UserStake {
    /// Token amount currently staked.
    pub amount: i128,
    /// Ledger sequence at which the last checkpoint occurred.
    pub start_ledger: u32,
    /// Credits already earned before the last checkpoint.
    pub credits_banked: i128,
    /// Credit rate in force since the last checkpoint.
    pub credit_rate: i128,
}

/// Recorded state for a user's locking position (lock/unlock system).
#[derive(Clone, Copy, Debug, PartialEq, Eq)]
pub struct Position {
    /// Token amount currently locked.
    pub amount: i128,
    /// Ledger sequence when the position was first created.
    pub lock_ledger: u32,
    /// First ledger at which the position may be unlocked.
    pub unlock_ledger: u32,
    /// Ledger sequence of the last credit checkpoint.
    pub checkpoint_ledger: u32,
    /// Credits banked at the last checkpoint.
    pub total_credits: i128,
    /// Credit rate in force since the last checkpoint.
    pub credit_rate: i128,
}

// ── Effective stake and credit formulas ─────────────────────────────────────

/// The part of `amount` allocated to boosted earning (`allocation_pct` %,
/// rounded toward zero).
pub open spec fn boosted_part(amount: int, allocation_pct: int) -> int {
    div_trunc(amount * allocation_pct, 100)
}

/// Effective stake: the unboosted principal plus the boosted part times the
/// multiplier.
pub open spec fn total_stake(amount: int, allocation_pct: int, multiplier: int) -> int {
    let boosted = boosted_part(amount, allocation_pct);
    (amount - boosted) + boosted * multiplier
}

/// Every intermediate value of the effective-stake formula fits in `i128`.
pub open spec fn total_stake_fits(amount: int, allocation_pct: int, multiplier: int) -> bool {
    let boosted = boosted_part(amount, allocation_pct);
    &&& fits_i128(amount * allocation_pct)
    &&& fits_i128(amount - boosted)
    &&& fits_i128(boosted * multiplier)
    &&& fits_i128(total_stake(amount, allocation_pct, multiplier))
}

/// Credits earned by an effective stake over `ledgers` ledgers at `credit_rate`.
pub open spec fn credits_for(
    amount: int,
    allocation_pct: int,
    multiplier: int,
    credit_rate: int,
    ledgers: int,
) -> int {
    total_stake(amount, allocation_pct, multiplier) * credit_rate * ledgers
}

/// Every intermediate value of the credit formula fits in `i128`.
pub open spec fn credits_fit(
    amount: int,
    allocation_pct: int,
    multiplier: int,
    credit_rate: int,
    ledgers: int,
) -> bool {
    let ts = total_stake(amount, allocation_pct, multiplier);
    &&& total_stake_fits(amount, allocation_pct, multiplier)
    &&& fits_i128(ts * credit_rate)
    &&& fits_i128(ts * credit_rate * ledgers)
}

/// Effective stake of `amount` with `allocation_pct` % boosted at `multiplier`.
pub fn compute_total_stake(amount: i128, allocation_pct: u32, multiplier: u32) -> (r: i128)
    requires
        total_stake_fits(amount as int, allocation_pct as int, multiplier as int),
    ensures
        r == total_stake(amount as int, allocation_pct as int, multiplier as int),
{
    let boosted = amount * (allocation_pct as i128) / 100;
    let principal = amount - boosted;
    let virtual_stake = boosted * (multiplier as i128);
    principal + virtual_stake
}

/// `compute_total_stake`, or `None` where one of its steps overflows.
pub fn checked_total_stake(amount: i128, allocation_pct: u32, multiplier: u32) -> (r: Option<i128>)
    ensures
        r == (if total_stake_fits(amount as int, allocation_pct as int, multiplier as int) {
            Some(total_stake(amount as int, allocation_pct as int, multiplier as int) as i128)
        } else {
            None::<i128>
        }),
{
    let scaled = match amount.checked_mul(allocation_pct as i128) {
        Some(v) => v,
        None => return None,
    };
    let boosted = scaled / 100;
    let principal = match amount.checked_sub(boosted) {
        Some(v) => v,
        None => return None,
    };
    let virtual_stake = match boosted.checked_mul(multiplier as i128) {
        Some(v) => v,
        None => return None,
    };
    principal.checked_add(virtual_stake)
}

/// Credits earned by the effective stake over `ledgers_elapsed` ledgers.
pub fn compute_credits(
    amount: i128,
    allocation_pct: u32,
    multiplier: u32,
    credit_rate: i128,
    ledgers_elapsed: u32,
) -> (r: i128)
    requires
        credits_fit(
            amount as int,
            allocation_pct as int,
            multiplier as int,
            credit_rate as int,
            ledgers_elapsed as int,
        ),
    ensures
        r == credits_for(
            amount as int,
            allocation_pct as int,
            multiplier as int,
            credit_rate as int,
            ledgers_elapsed as int,
        ),
{
    compute_total_stake(amount, allocation_pct, multiplier) * credit_rate * (ledgers_elapsed as i128)
}

/// `compute_credits`, or `None` where one of its steps overflows.
pub fn checked_credits(
    amount: i128,
    allocation_pct: u32,
    multiplier: u32,
    credit_rate: i128,
    ledgers_elapsed: u32,
) -> (r: Option<i128>)
    ensures
        r == (if credits_fit(
            amount as int,
            allocation_pct as int,
            multiplier as int,
            credit_rate as int,
            ledgers_elapsed as int,
        ) {
            Some(
                credits_for(
                    amount as int,
                    allocation_pct as int,
                    multiplier as int,
                    credit_rate as int,
                    ledgers_elapsed as int,
                ) as i128,
            )
        } else {
            None::<i128>
        }),
{
    let ts = match checked_total_stake(amount, allocation_pct, multiplier) {
        Some(v) => v,
        None => return None,
    };
    let per_ledger = match ts.checked_mul(credit_rate) {
        Some(v) => v,
        None => return None,
    };
    per_ledger.checked_mul(ledgers_elapsed as i128)
}

// ── Stake checkpoints ───────────────────────────────────────────────────────

/// Credits of a stake as of ledger `now`: the banked credits plus what the
/// effective stake earned since the last checkpoint.
pub open spec fn stake_credits_at(s: UserStake, allocation_pct: u32, multiplier: u32, now: u32) -> int {
    s.credits_banked + credits_for(
        s.amount as int,
        allocation_pct as int,
        multiplier as int,
        s.credit_rate as int,
        ledgers_since(now, s.start_ledger) as int,
    )
}

/// The credits of a stake as of `now` can be computed without overflow.
pub open spec fn stake_credits_fit(s: UserStake, allocation_pct: u32, multiplier: u32, now: u32) -> bool {
    &&& credits_fit(
        s.amount as int,
        allocation_pct as int,
        multiplier as int,
        s.credit_rate as int,
        ledgers_since(now, s.start_ledger) as int,
    )
    &&& fits_i128(stake_credits_at(s, allocation_pct, multiplier, now))
}

/// The stake after banking its credits at ledger `now` and adopting `credit_rate`.
pub open spec fn checkpointed_stake(
    s: UserStake,
    allocation_pct: u32,
    multiplier: u32,
    now: u32,
    credit_rate: i128,
) -> UserStake {
    UserStake {
        amount: s.amount,
        start_ledger: now,
        credits_banked: stake_credits_at(s, allocation_pct, multiplier, now) as i128,
        credit_rate,
    }
}

/// Bank the credits a stake has earned up to ledger `now`, restart accrual
/// from `now`, and adopt `credit_rate` from then on.
pub fn checkpoint(stake: &mut UserStake, allocation_pct: u32, multiplier: u32, now: u32, credit_rate: i128)
    requires
        stake_credits_fit(*old(stake), allocation_pct, multiplier, now),
    ensures
        *final(stake) == checkpointed_stake(*old(stake), allocation_pct, multiplier, now, credit_rate),
{
    let elapsed = elapsed_ledgers(now, stake.start_ledger);
    stake.credits_banked = stake.credits_banked + compute_credits(
        stake.amount,
        allocation_pct,
        multiplier,
        stake.credit_rate,
        elapsed,
    );
    stake.start_ledger = now;
    stake.credit_rate = credit_rate;
}

/// The credits of `stake` as of `now`, or `None` where computing them overflows.
pub fn checked_stake_credits(stake: &UserStake, allocation_pct: u32, multiplier: u32, now: u32) -> (r: Option<i128>)
    ensures
        r == (if stake_credits_fit(*stake, allocation_pct, multiplier, now) {
            Some(stake_credits_at(*stake, allocation_pct, multiplier, now) as i128)
        } else {
            None::<i128>
        }),
{
    let elapsed = elapsed_ledgers(now, stake.start_ledger);
    match checked_credits(stake.amount, allocation_pct, multiplier, stake.credit_rate, elapsed) {
        Some(earned) => stake.credits_banked.checked_add(earned),
        None => None,
    }
}

// ── Position checkpoints ────────────────────────────────────────────────────

/// Credits a position earned since its last checkpoint, as of `now`.
pub open spec fn position_accrual(p: Position, now: u32) -> int {
    p.amount * p.credit_rate * ledgers_since(now, p.checkpoint_ledger)
}

/// Credits of a position as of `now`: banked plus accrued since the checkpoint.
pub open spec fn position_credits_at(p: Position, now: u32) -> int {
    p.total_credits + position_accrual(p, now)
}

/// The credits of a position as of `now` can be computed without overflow.
pub open spec fn position_credits_fit(p: Position, now: u32) -> bool {
    &&& fits_i128(p.amount * p.credit_rate)
    &&& fits_i128(position_accrual(p, now))
    &&& fits_i128(position_credits_at(p, now))
}

/// The position after banking its credits at `now` and adopting `credit_rate`.
pub open spec fn checkpointed_position(p: Position, now: u32, credit_rate: i128) -> Position {
    Position {
        checkpoint_ledger: now,
        total_credits: position_credits_at(p, now) as i128,
        credit_rate,
        ..p
    }
}

/// Bank the credits a position has earned up to `now`, restart accrual from
/// `now`, and adopt `credit_rate` from then on.
pub fn checkpoint_position(position: &mut Position, now: u32, credit_rate: i128)
    requires
        position_credits_fit(*old(position), now),
    ensures
        *final(position) == checkpointed_position(*old(position), now, credit_rate),
{
    let elapsed = elapsed_ledgers(now, position.checkpoint_ledger);
    position.total_credits = position.total_credits + position.amount * position.credit_rate
        * (elapsed as i128);
    position.checkpoint_ledger = now;
    position.credit_rate = credit_rate;
}

/// The credits of `position` as of `now`, or `None` where computing them overflows.
pub fn checked_position_credits(position: &Position, now: u32) -> (r: Option<i128>)
    ensures
        r == (if position_credits_fit(*position, now) {
            Some(position_credits_at(*position, now) as i128)
        } else {
            None::<i128>
        }),
{
    let elapsed = elapsed_ledgers(now, position.checkpoint_ledger);
    let per_ledger = match position.amount.checked_mul(position.credit_rate) {
        Some(v) => v,
        None => return None,
    };
    let accrued = match per_ledger.checked_mul(elapsed as i128) {
        Some(v) => v,
        None => return None,
    };
    position.total_credits.checked_add(accrued)
}

// ── Sign facts ───────────────────────────────────────────────────────────────

/// A non-negative amount with an allocation of at most 100 % has a
/// non-negative effective stake of at least its unboosted part.
pub proof fn lemma_total_stake_nonneg(amount: int, allocation_pct: int, multiplier: int)
    requires
        amount >= 0,
        0 <= allocation_pct <= 100,
        multiplier >= 0,
    ensures
        0 <= boosted_part(amount, allocation_pct) <= amount,
        total_stake(amount, allocation_pct, multiplier) >= 0,
{
    assert(amount * allocation_pct >= 0) by (nonlinear_arith)
        requires
            amount >= 0,
            allocation_pct >= 0,
    ;
    assert(amount * allocation_pct <= amount * 100) by (nonlinear_arith)
        requires
            amount >= 0,
            allocation_pct <= 100,
    ;
    let boosted = (amount * allocation_pct) / 100;
    assert(0 <= boosted <= amount);
    assert(boosted * multiplier >= 0) by (nonlinear_arith)
        requires
            boosted >= 0,
            multiplier >= 0,
    ;
}

/// Credits of a stake with non-negative amount, rate and banked credits are
/// non-negative.
pub proof fn lemma_stake_credits_nonneg(s: UserStake, allocation_pct: u32, multiplier: u32, now: u32)
    requires
        s.amount >= 0,
        s.credit_rate >= 0,
        s.credits_banked >= 0,
        allocation_pct <= 100,
    ensures
        stake_credits_at(s, allocation_pct, multiplier, now) >= 0,
{
    lemma_total_stake_nonneg(s.amount as int, allocation_pct as int, multiplier as int);
    let ts = total_stake(s.amount as int, allocation_pct as int, multiplier as int);
    let r = s.credit_rate as int;
    let e = ledgers_since(now, s.start_ledger) as int;
    assert(ts * r * e >= 0) by (nonlinear_arith)
        requires
            ts >= 0,
            r >= 0,
            e >= 0,
    ;
}

/// Credits of a position with non-negative amount, rate and banked credits
/// are non-negative.
pub proof fn lemma_position_credits_nonneg(p: Position, now: u32)
    requires
        p.amount >= 0,
        p.credit_rate >= 0,
        p.total_credits >= 0,
    ensures
        position_credits_at(p, now) >= 0,
{
    let x = p.amount as int;
    let r = p.credit_rate as int;
    let e = ledgers_since(now, p.checkpoint_ledger) as int;
    assert(x * r * e >= 0) by (nonlinear_arith)
        requires
            x >= 0,
            r >= 0,
            e >= 0,
    ;
}

} // verus!
