//! Laws of the vesting schedule.

use vstd::prelude::*;

use crate::vesting::{schedule_wf, vested_at, VestingSchedule};

verus! {

/// The vested amount of a well-formed schedule lies between 0 and the total.
pub proof fn law_vested_within_total(s: VestingSchedule, now: u32)
    requires
        schedule_wf(s),
    ensures
        0 <= vested_at(s, now) <= s.total_amount,
{
    if s.revoked_vested is None && s.cliff_ledger <= now < s.end_ledger {
        let t = s.total_amount as int;
        let e = now - s.start_ledger;
        let d = s.end_ledger - s.start_ledger;
        assert(t * e >= 0) by (nonlinear_arith)
            requires
                t > 0,
                e >= 0,
        ;
        assert(t * e <= d * t) by (nonlinear_arith)
            requires
                t > 0,
                0 <= e < d,
        ;
        vstd::arithmetic::div_mod::lemma_multiply_divide_le(t * e, d, t);
        vstd::arithmetic::div_mod::lemma_div_pos_is_pos(t * e, d);
    }
}

/// Before the cliff nothing has vested; from the end ledger on everything has
/// (unless the schedule was revoked).
pub proof fn law_cliff_and_end(s: VestingSchedule, now: u32)
    requires
        s.revoked_vested is None,
    ensures
        now < s.cliff_ledger ==> vested_at(s, now) == 0,
        now >= s.end_ledger && s.cliff_ledger <= s.end_ledger ==> vested_at(s, now) == s.total_amount,
{
}

/// Vesting never goes backwards: a later ledger has at least as much vested.
pub proof fn law_vesting_is_monotone(s: VestingSchedule, t1: u32, t2: u32)
    requires
        schedule_wf(s),
        t1 <= t2,
    ensures
        vested_at(s, t1) <= vested_at(s, t2),
{
    law_vested_within_total(s, t1);
    law_vested_within_total(s, t2);
    if s.revoked_vested is None && s.cliff_ledger <= t1 && t2 < s.end_ledger {
        let t = s.total_amount as int;
        let e1 = t1 - s.start_ledger;
        let e2 = t2 - s.start_ledger;
        let d = (s.end_ledger - s.start_ledger) as int;
        assert(t * e1 <= t * e2) by (nonlinear_arith)
            requires
                t > 0,
                0 <= e1 <= e2,
        ;
        vstd::arithmetic::div_mod::lemma_div_is_ordered(t * e1, t * e2, d);
    }
}

/// Releasing at `now` leaves nothing releasable at `now`: the released total
/// becomes exactly the vested amount, which releasing does not change.
pub proof fn law_release_leaves_nothing_releasable(s: VestingSchedule, now: u32)
    requires
        schedule_wf(s),
    ensures
        ({
            let after = VestingSchedule { released: vested_at(s, now) as i128, ..s };
            vested_at(after, now) - after.released == 0
        }),
{
    law_vested_within_total(s, now);
}

/// Revocation freezes the schedule: the vested amount is the amount vested at
/// revocation at every later (or earlier) ledger, and what stays vested plus
/// what returns to the admin is the whole total.
pub proof fn law_revocation_freezes(s: VestingSchedule, revoked_at: u32, later: u32)
    requires
        schedule_wf(s),
        s.revoked_vested is None,
    ensures
        ({
            let v = vested_at(s, revoked_at);
            let after = VestingSchedule { revoked_vested: Some(v as i128), ..s };
            &&& vested_at(after, later) == v
            &&& v + (s.total_amount - v) == s.total_amount
        }),
{
    law_vested_within_total(s, revoked_at);
}

/// Tokens paid out never exceed the tokens put in: what the beneficiary
/// received by a release at `t1` plus what the admin receives back by a
/// revocation at a later `t2` is at most the total.
pub proof fn law_payouts_within_total(s: VestingSchedule, t1: u32, t2: u32)
    requires
        schedule_wf(s),
        s.revoked_vested is None,
        t1 <= t2,
    ensures
        vested_at(s, t1) + (s.total_amount - vested_at(s, t2)) <= s.total_amount,
{
    law_vesting_is_monotone(s, t1, t2);
}

} // verus!

verus! {

/// Between the cliff and the end the vested amount is the total's linear
/// share of the elapsed time since the start, rounded down:
/// `vested * (end - start) <= total * (now - start) < (vested + 1) * (end - start)`.
pub proof fn law_vesting_is_linear_share(s: VestingSchedule, now: u32)
    requires
        schedule_wf(s),
        s.revoked_vested is None,
        s.cliff_ledger <= now < s.end_ledger,
    ensures
        vested_at(s, now) * (s.end_ledger - s.start_ledger) <= s.total_amount * (now - s.start_ledger),
        s.total_amount * (now - s.start_ledger) < (vested_at(s, now) + 1) * (s.end_ledger - s.start_ledger),
{
    let t = s.total_amount * (now - s.start_ledger);
    let d = (s.end_ledger - s.start_ledger) as int;
    vstd::arithmetic::div_mod::lemma_fundamental_div_mod(t, d);
    let q = t / d;
    assert(vested_at(s, now) == q);
    assert(q * d == d * q) by (nonlinear_arith);
    assert((q + 1) * d == d * q + d) by (nonlinear_arith);
}

/// At the midpoint of a schedule whose cliff is not after the midpoint, half
/// the total (rounded down) has vested.
pub proof fn law_half_vested_at_midpoint(s: VestingSchedule, now: u32)
    requires
        schedule_wf(s),
        s.revoked_vested is None,
        s.cliff_ledger <= now,
        2 * (now - s.start_ledger) == s.end_ledger - s.start_ledger,
    ensures
        vested_at(s, now) == s.total_amount / 2,
{
    let e = (now - s.start_ledger) as int;
    let t = s.total_amount as int;
    law_vesting_is_linear_share(s, now);
    let v = vested_at(s, now);
    assert(v * (2 * e) <= t * e);
    assert(t * e < (v + 1) * (2 * e));
    assert(2 * v <= t) by (nonlinear_arith)
        requires
            v * (2 * e) <= t * e,
            e > 0,
    ;
    assert(t < 2 * v + 2) by (nonlinear_arith)
        requires
            t * e < (v + 1) * (2 * e),
            e > 0,
    ;
}

} // verus!
