//! Linear vesting with a cliff and optional revocation.

use vstd::prelude::*;

use crate::account::{AccountId, TokenTransfer};
use crate::arith::fits_i128;

verus! {

/// Typed errors returned by the vesting wallet.
#[derive(Clone, Copy, Debug, PartialEq, Eq)]
pub enum VestingError {
    AlreadyInitialized,
    NotInitialized,
    NotRevocable,
    AlreadyRevoked,
}

/// Inputs on which a vesting operation aborts the invocation.
#[derive(Clone, Copy, Debug, PartialEq, Eq)]
pub enum VestingAbort {
    TotalNotPositive,
    CliffBeforeStart,
    EndNotAfterCliff,
    ArithmeticOverflow,
}

impl VestingAbort {
    /// Text of the panic message the contract aborts with.
    pub open spec fn message_text(self) -> Seq<char> {
        match self {
            VestingAbort::TotalNotPositive => "total_amount must be positive"@,
            VestingAbort::CliffBeforeStart => "cliff must be >= start"@,
            VestingAbort::EndNotAfterCliff => "end must be > cliff"@,
            VestingAbort::ArithmeticOverflow => "arithmetic overflow"@,
        }
    }

    /// The panic message the contract aborts with.
    pub fn message(&self) -> (r: &'static str)
        ensures
            r@ == self.message_text(),
    {
        match self {
            VestingAbort::TotalNotPositive => "total_amount must be positive",
            VestingAbort::CliffBeforeStart => "cliff must be >= start",
            VestingAbort::EndNotAfterCliff => "end must be > cliff",
            VestingAbort::ArithmeticOverflow => "arithmetic overflow",
        }
    }
}

/// Events the wallet publishes (topic pair in brackets).
#[derive(Debug, PartialEq, Eq)]
pub enum VestingEvent {
    /// (`vest`, `released`)
    Released { beneficiary: AccountId, amount: i128 },
    /// (`vest`, `revoked`)
    Revoked { admin: AccountId, vested: i128, unvested: i128 },
}

/// The vesting schedule stored at initialisation, with its running totals.
#[derive(Debug, PartialEq, Eq)]
pub struct VestingSchedule {
    pub beneficiary: AccountId,
    pub token: AccountId,
    /// Total tokens placed in the schedule.
    pub total_amount: i128,
    /// Ledger at which linear vesting begins counting.
    pub start_ledger: u32,
    /// Ledger before which nothing is releasable.
    pub cliff_ledger: u32,
    /// Ledger at which the full amount is vested.
    pub end_ledger: u32,
    /// Cumulative tokens already transferred to the beneficiary.
    pub released: i128,
    /// Address authorised to revoke.
    pub admin: AccountId,
    /// Whether the schedule can be revoked by the admin.
    pub revocable: bool,
    /// The vested amount frozen when the admin revoked, once revoked.
    pub revoked_vested: Option<i128>,
}

/// The wallet's instance storage: `None` until `initialize`.
#[derive(Debug, PartialEq, Eq)]
pub struct VestingWallet {
    pub schedule: Option<VestingSchedule>,
}

/// Vested amount of `s` as of ledger `now`: 0 before the cliff, the total
/// from the end on, and linearly from the start in between (rounded down);
/// after revocation, the amount frozen at that moment.
pub open spec fn vested_at(s: VestingSchedule, now: u32) -> int {
    match s.revoked_vested {
        Some(v) => v as int,
        None => if now < s.cliff_ledger {
            0
        } else if now >= s.end_ledger {
            s.total_amount as int
        } else {
            (s.total_amount * (now - s.start_ledger)) / ((s.end_ledger - s.start_ledger) as int)
        },
    }
}

/// The linear formula for `now` can be evaluated without overflow.
pub open spec fn vesting_fits(s: VestingSchedule, now: u32) -> bool {
    (s.revoked_vested is None && s.cliff_ledger <= now < s.end_ledger) ==> fits_i128(
        s.total_amount * (now - s.start_ledger),
    )
}

/// Well-formedness of a stored schedule.
pub open spec fn schedule_wf(s: VestingSchedule) -> bool {
    &&& s.total_amount > 0
    &&& s.start_ledger <= s.cliff_ledger < s.end_ledger
    &&& 0 <= s.released <= s.total_amount
    &&& (s.revoked_vested matches Some(v) ==> 0 <= v <= s.total_amount && s.revocable)
}

impl VestingWallet {
    /// Well-formedness: a stored schedule is well formed.
    pub open spec fn wf(self) -> bool {
        self.schedule matches Some(s) ==> schedule_wf(s)
    }

    pub open spec fn initialize_abort(self, total_amount: i128, start_ledger: u32, cliff_ledger: u32, end_ledger: u32) -> Option<VestingAbort> {
        if self.schedule is Some {
            None
        } else if total_amount <= 0 {
            Some(VestingAbort::TotalNotPositive)
        } else if cliff_ledger < start_ledger {
            Some(VestingAbort::CliffBeforeStart)
        } else if end_ledger <= cliff_ledger {
            Some(VestingAbort::EndNotAfterCliff)
        } else {
            None
        }
    }

    /// Computing the vested amount at `now` (when initialized) would abort.
    pub open spec fn vesting_abort(self, now: u32) -> Option<VestingAbort> {
        match self.schedule {
            Some(s) => if vesting_fits(s, now) {
                None
            } else {
                Some(VestingAbort::ArithmeticOverflow)
            },
            None => None,
        }
    }

    /// Whether `revoke` at `now` would abort (the vested amount is only
    /// computed once the revocation checks pass).
    pub open spec fn revoke_abort(self, now: u32) -> Option<VestingAbort> {
        match self.schedule {
            Some(s) => if s.revocable && s.revoked_vested is None && !vesting_fits(s, now) {
                Some(VestingAbort::ArithmeticOverflow)
            } else {
                None
            },
            None => None,
        }
    }
}

impl VestingSchedule {
    /// Vested amount as of ledger `now`.
    pub fn compute_vested(&self, now: u32) -> (r: i128)
        requires
            schedule_wf(*self),
            vesting_fits(*self, now),
        ensures
            r == vested_at(*self, now),
            0 <= r <= self.total_amount,
    {
        if let Some(v) = self.revoked_vested {
            return v;
        }
        if now < self.cliff_ledger {
            return 0;
        }
        if now >= self.end_ledger {
            return self.total_amount;
        }
        let elapsed = (now - self.start_ledger) as i128;
        let duration = (self.end_ledger - self.start_ledger) as i128;
        proof {
            let t = self.total_amount as int;
            assert(t * elapsed >= 0) by (nonlinear_arith)
                requires
                    t > 0,
                    elapsed >= 0,
            ;
            assert(t * elapsed <= duration * t) by (nonlinear_arith)
                requires
                    t > 0,
                    0 <= elapsed < duration,
            ;
            vstd::arithmetic::div_mod::lemma_multiply_divide_le(t * elapsed, duration as int, t);
            vstd::arithmetic::div_mod::lemma_div_pos_is_pos(t * elapsed, duration as int);
        }
        self.total_amount * elapsed / duration
    }

    /// Vested amount as of `now`, or `None` where the formula overflows.
    pub fn checked_vested(&self, now: u32) -> (r: Option<i128>)
        requires
            schedule_wf(*self),
        ensures
            r == (if vesting_fits(*self, now) {
                Some(vested_at(*self, now) as i128)
            } else {
                None::<i128>
            }),
    {
        if self.revoked_vested.is_none() && self.cliff_ledger <= now && now < self.end_ledger {
            if self.total_amount.checked_mul((now - self.start_ledger) as i128).is_none() {
                return None;
            }
        }
        Some(self.compute_vested(now))
    }
}

impl VestingWallet {
    /// A wallet without a schedule.
    pub fn new() -> (r: VestingWallet)
        ensures
            r.schedule is None,
            r.wf(),
    {
        VestingWallet { schedule: None }
    }

    /// Whether the stored schedule (if any) is well formed.
    pub fn is_well_formed(&self) -> (r: bool)
        ensures
            r == self.wf(),
    {
        match &self.schedule {
            None => true,
            Some(s) => {
                let frozen_ok = match s.revoked_vested {
                    Some(v) => 0 <= v && v <= s.total_amount && s.revocable,
                    None => true,
                };
                s.total_amount > 0 && s.start_ledger <= s.cliff_ledger && s.cliff_ledger < s.end_ledger
                    && 0 <= s.released && s.released <= s.total_amount && frozen_ok
            },
        }
    }

    /// `Err(NotInitialized)` unless a schedule is stored.
    pub fn require_initialized(&self) -> (r: Result<(), VestingError>)
        ensures
            r == (if self.schedule is Some {
                Ok::<(), VestingError>(())
            } else {
                Err(VestingError::NotInitialized)
            }),
    {
        if self.schedule.is_none() {
            return Err(VestingError::NotInitialized);
        }
        Ok(())
    }

    /// Whether `initialize` would abort.
    pub fn check_initialize(&self, total_amount: i128, start_ledger: u32, cliff_ledger: u32, end_ledger: u32) -> (r:
        Option<VestingAbort>)
        ensures
            r == self.initialize_abort(total_amount, start_ledger, cliff_ledger, end_ledger),
    {
        if self.schedule.is_some() {
            None
        } else if total_amount <= 0 {
            Some(VestingAbort::TotalNotPositive)
        } else if cliff_ledger < start_ledger {
            Some(VestingAbort::CliffBeforeStart)
        } else if end_ledger <= cliff_ledger {
            Some(VestingAbort::EndNotAfterCliff)
        } else {
            None
        }
    }

    /// Store the schedule once; `admin` authorises and deposits `total_amount`.
    pub fn initialize(
        &mut self,
        beneficiary: AccountId,
        token: AccountId,
        total_amount: i128,
        start_ledger: u32,
        cliff_ledger: u32,
        end_ledger: u32,
        revocable: bool,
        admin: AccountId,
    ) -> (r: Result<TokenTransfer, VestingError>)
        requires
            old(self).wf(),
            old(self).initialize_abort(total_amount, start_ledger, cliff_ledger, end_ledger) is None,
        ensures
            final(self).wf(),
            old(self).schedule is Some ==> r == Err::<TokenTransfer, VestingError>(
                VestingError::AlreadyInitialized,
            ) && *final(self) == *old(self),
            old(self).schedule is None ==> r == Ok::<TokenTransfer, VestingError>(
                TokenTransfer::Deposit { from: admin, amount: total_amount },
            ) && final(self).schedule == Some(
                VestingSchedule {
                    beneficiary,
                    token,
                    total_amount,
                    start_ledger,
                    cliff_ledger,
                    end_ledger,
                    released: 0,
                    admin,
                    revocable,
                    revoked_vested: None,
                },
            ),
    {
        if self.schedule.is_some() {
            return Err(VestingError::AlreadyInitialized);
        }
        let deposit = TokenTransfer::Deposit { from: admin.clone(), amount: total_amount };
        self.schedule = Some(
            VestingSchedule {
                beneficiary,
                token,
                total_amount,
                start_ledger,
                cliff_ledger,
                end_ledger,
                released: 0,
                admin,
                revocable,
                revoked_vested: None,
            },
        );
        Ok(deposit)
    }

    /// Whether computing the vested amount at `now` would abort.
    pub fn check_vesting(&self, now: u32) -> (r: Option<VestingAbort>)
        requires
            self.wf(),
        ensures
            r == self.vesting_abort(now),
    {
        match &self.schedule {
            Some(s) => if s.checked_vested(now).is_none() {
                Some(VestingAbort::ArithmeticOverflow)
            } else {
                None
            },
            None => None,
        }
    }

    /// Transfer everything vested but not yet released to the beneficiary.
    ///
    /// Permissionless. Returns the amount released, with the payout and the
    /// event when it is not zero.
    pub fn release(&mut self, now: u32) -> (r: Result<(i128, Option<(TokenTransfer, VestingEvent)>), VestingError>)
        requires
            old(self).wf(),
            old(self).vesting_abort(now) is None,
        ensures
            final(self).wf(),
            old(self).schedule is None ==> r == Err::<(i128, Option<(TokenTransfer, VestingEvent)>), VestingError>(
                VestingError::NotInitialized,
            ) && *final(self) == *old(self),
            old(self).schedule is Some ==> {
                let s = old(self).schedule->0;
                let releasable = vested_at(s, now) - s.released;
                &&& releasable == 0 ==> r == Ok::<(i128, Option<(TokenTransfer, VestingEvent)>), VestingError>((0, None))
                    && *final(self) == *old(self)
                &&& releasable != 0 ==> r == Ok::<(i128, Option<(TokenTransfer, VestingEvent)>), VestingError>(
                    (
                        releasable as i128,
                        Some(
                            (
                                TokenTransfer::Payout { to: s.beneficiary, amount: releasable as i128 },
                                VestingEvent::Released { beneficiary: s.beneficiary, amount: releasable as i128 },
                            ),
                        ),
                    ),
                ) && final(self).schedule == Some(VestingSchedule { released: vested_at(s, now) as i128, ..s })
            },
    {
        let mut s = match self.schedule.take() {
            Some(s) => s,
            None => return Err(VestingError::NotInitialized),
        };
        let vested = s.compute_vested(now);
        let releasable = vested - s.released;
        if releasable == 0 {
            self.schedule = Some(s);
            return Ok((0, None));
        }
        s.released = s.released + releasable;
        let payout = TokenTransfer::Payout { to: s.beneficiary.clone(), amount: releasable };
        let event = VestingEvent::Released { beneficiary: s.beneficiary.clone(), amount: releasable };
        self.schedule = Some(s);
        Ok((releasable, Some((payout, event))))
    }

    /// Whether `revoke` at `now` would abort.
    pub fn check_revoke(&self, now: u32) -> (r: Option<VestingAbort>)
        requires
            self.wf(),
        ensures
            r == self.revoke_abort(now),
    {
        match &self.schedule {
            Some(s) => if s.revocable && s.revoked_vested.is_none() && s.checked_vested(now).is_none() {
                Some(VestingAbort::ArithmeticOverflow)
            } else {
                None
            },
            None => None,
        }
    }

    /// Cancel the unvested portion; the admin authorises.
    ///
    /// The amount vested now stays claimable by the beneficiary and is frozen;
    /// the unvested remainder is returned to the admin.
    pub fn revoke(&mut self, now: u32) -> (r: Result<(Option<TokenTransfer>, VestingEvent), VestingError>)
        requires
            old(self).wf(),
            old(self).revoke_abort(now) is None,
        ensures
            final(self).wf(),
            old(self).schedule is None ==> r == Err::<(Option<TokenTransfer>, VestingEvent), VestingError>(
                VestingError::NotInitialized,
            ) && *final(self) == *old(self),
            old(self).schedule is Some ==> {
                let s = old(self).schedule->0;
                let vested = vested_at(s, now);
                let unvested = s.total_amount - vested;
                if !s.revocable {
                    r == Err::<(Option<TokenTransfer>, VestingEvent), VestingError>(VestingError::NotRevocable)
                        && *final(self) == *old(self)
                } else if s.revoked_vested is Some {
                    r == Err::<(Option<TokenTransfer>, VestingEvent), VestingError>(VestingError::AlreadyRevoked)
                        && *final(self) == *old(self)
                } else {
                    &&& r == Ok::<(Option<TokenTransfer>, VestingEvent), VestingError>(
                        (
                            if unvested > 0 {
                                Some(TokenTransfer::Payout { to: s.admin, amount: unvested as i128 })
                            } else {
                                None
                            },
                            VestingEvent::Revoked {
                                admin: s.admin,
                                vested: vested as i128,
                                unvested: unvested as i128,
                            },
                        ),
                    )
                    &&& final(self).schedule == Some(VestingSchedule { revoked_vested: Some(vested as i128), ..s })
                }
            },
    {
        let mut s = match self.schedule.take() {
            Some(s) => s,
            None => return Err(VestingError::NotInitialized),
        };
        if !s.revocable {
            self.schedule = Some(s);
            return Err(VestingError::NotRevocable);
        }
        if s.revoked_vested.is_some() {
            self.schedule = Some(s);
            return Err(VestingError::AlreadyRevoked);
        }
        let vested = s.compute_vested(now);
        let unvested = s.total_amount - vested;
        s.revoked_vested = Some(vested);
        let refund = if unvested > 0 {
            Some(TokenTransfer::Payout { to: s.admin.clone(), amount: unvested })
        } else {
            None
        };
        let event = VestingEvent::Revoked { admin: s.admin.clone(), vested, unvested };
        self.schedule = Some(s);
        Ok((refund, event))
    }

    /// Total amount vested as of ledger `now`.
    pub fn vested_amount(&self, now: u32) -> (r: Result<i128, VestingError>)
        requires
            self.wf(),
            self.vesting_abort(now) is None,
        ensures
            r == (match self.schedule {
                None => Err(VestingError::NotInitialized),
                Some(s) => Ok::<i128, VestingError>(vested_at(s, now) as i128),
            }),
    {
        match &self.schedule {
            None => Err(VestingError::NotInitialized),
            Some(s) => Ok(s.compute_vested(now)),
        }
    }

    /// Cumulative amount already transferred to the beneficiary.
    pub fn released_amount(&self) -> (r: Result<i128, VestingError>)
        ensures
            r == (match self.schedule {
                None => Err(VestingError::NotInitialized),
                Some(s) => Ok::<i128, VestingError>(s.released),
            }),
    {
        match &self.schedule {
            None => Err(VestingError::NotInitialized),
            Some(s) => Ok(s.released),
        }
    }

    /// Amount currently available to release (vested minus released).
    pub fn releasable(&self, now: u32) -> (r: Result<i128, VestingError>)
        requires
            self.wf(),
            self.vesting_abort(now) is None,
        ensures
            r == (match self.schedule {
                None => Err(VestingError::NotInitialized),
                Some(s) => Ok::<i128, VestingError>((vested_at(s, now) - s.released) as i128),
            }),
    {
        match &self.schedule {
            None => Err(VestingError::NotInitialized),
            Some(s) => Ok(s.compute_vested(now) - s.released),
        }
    }
}

} // verus!
