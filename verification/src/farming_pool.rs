//! The farming pool: a boost system (stakes whose credits accrue on an
//! effective stake) and a lock system (positions that stay locked for a
//! minimum period), with an admin pause and emergency withdrawal.

use vstd::prelude::*;

use crate::account::{AccountId, TokenTransfer, WasmHash};
use crate::arith::{fits_i128, saturating_add_u32};
use crate::farming_math::{
    checked_position_credits, checked_stake_credits, checkpoint, checkpoint_position,
    checkpointed_position, checkpointed_stake, position_credits_at, position_credits_fit,
    compute_credits, lemma_position_credits_nonneg, lemma_stake_credits_nonneg, stake_credits_at,
    stake_credits_fit, Position, UserStake,
};

verus! {

/// Per-user boost configuration returned by `get_boost_config`.
/// `multiplier` is the current global multiplier set by the admin;
/// `allocation_pct` is the percentage of the user's stake allocated to
/// boosted earning (1-100).
#[derive(Clone, Copy, Debug, PartialEq, Eq)]
pub struct BoostConfig {
    pub multiplier: u32,
    pub allocation_pct: u32,
}

/// Typed errors returned by the farming pool.
#[derive(Clone, Copy, Debug, PartialEq, Eq)]
pub enum PoolError {
    AlreadyInitialized,
    NotInitialized,
    NotPaused,
    NoActiveStake,
    InvalidCreditRate,
}

/// Inputs on which a pool operation aborts the invocation instead of
/// returning (the contract panics and the host reverts the call).
#[derive(Clone, Copy, Debug, PartialEq, Eq)]
pub enum PoolAbort {
    Paused,
    NonPositiveAmount,
    NoActivePosition,
    InsufficientLockedBalance,
    LockPeriodNotElapsed,
    NoActiveStake,
    AllocationOutOfRange,
    MultiplierBelowOne,
    CreditRateNotPositive,
    ArithmeticOverflow,
}

impl PoolAbort {
    /// Text of the panic message the contract aborts with.
    pub open spec fn message_text(self) -> Seq<char> {
        match self {
            PoolAbort::Paused => "pool is paused"@,
            PoolAbort::NonPositiveAmount => "amount must be positive"@,
            PoolAbort::NoActivePosition => "no active position"@,
            PoolAbort::InsufficientLockedBalance => "insufficient locked balance"@,
            PoolAbort::LockPeriodNotElapsed => "minimum lock period not elapsed"@,
            PoolAbort::NoActiveStake => "no active stake"@,
            PoolAbort::AllocationOutOfRange => "allocation_pct must be 1-100"@,
            PoolAbort::MultiplierBelowOne => "multiplier must be >= 1"@,
            PoolAbort::CreditRateNotPositive => "credit_rate must be positive"@,
            PoolAbort::ArithmeticOverflow => "arithmetic overflow"@,
        }
    }

    /// The panic message the contract aborts with.
    pub fn message(&self) -> (r: &'static str)
        ensures
            r@ == self.message_text(),
    {
        match self {
            PoolAbort::Paused => "pool is paused",
            PoolAbort::NonPositiveAmount => "amount must be positive",
            PoolAbort::NoActivePosition => "no active position",
            PoolAbort::InsufficientLockedBalance => "insufficient locked balance",
            PoolAbort::LockPeriodNotElapsed => "minimum lock period not elapsed",
            PoolAbort::NoActiveStake => "no active stake",
            PoolAbort::AllocationOutOfRange => "allocation_pct must be 1-100",
            PoolAbort::MultiplierBelowOne => "multiplier must be >= 1",
            PoolAbort::CreditRateNotPositive => "credit_rate must be positive",
            PoolAbort::ArithmeticOverflow => "arithmetic overflow",
        }
    }
}

/// Events the pool publishes (topic pair in brackets).
#[derive(Debug, PartialEq, Eq)]
pub enum PoolEvent {
    /// (`pool`, `adm_xfr`)
    AdminTransferred { old_admin: AccountId, new_admin: AccountId },
    /// (`pool`, `locked`)
    Locked { user: AccountId, amount: i128 },
    /// (`pool`, `unlocked`)
    Unlocked { user: AccountId, amount: i128, total_credits: i128 },
    /// (`pool`, `paused`)
    Paused { admin: AccountId },
    /// (`pool`, `unpaused`)
    Unpaused { admin: AccountId },
    /// (`pool`, `staked`)
    Staked { user: AccountId, amount: i128 },
    /// (`pool`, `unstaked`)
    Unstaked { user: AccountId, amount: i128, total_credits: i128 },
    /// (`pool`, `emrg_exit`)
    EmergencyExit { admin: AccountId, user: AccountId, total_returned: i128 },
    /// (`boost`, `applied`)
    BoostApplied { user: AccountId, allocation_pct: u32, multiplier: u32 },
    /// (`boost`, `mult_set`)
    MultiplierSet { multiplier: u32 },
    /// (`pool`, `rate_set`)
    CreditRateSet { old_rate: i128, new_rate: i128 },
    /// (`pool`, `lock_set`)
    LockPeriodSet { old_period: u32, new_period: u32 },
    /// (`pool`, `upgraded`)
    Upgraded { new_wasm_hash: WasmHash },
}

/// Instance settings of an initialized pool.
#[derive(Debug, PartialEq, Eq)]
pub struct PoolConfig {
    pub admin: AccountId,
    pub stake_token: AccountId,
    pub global_multiplier: u32,
    /// Credits accrued per unit of effective stake per ledger.
    pub credit_rate: i128,
    /// Minimum number of ledgers a position stays locked.
    pub min_lock_period: u32,
    /// Admin-controlled emergency switch.
    pub paused: bool,
}

impl Clone for PoolConfig {
    fn clone(&self) -> (r: Self)
        ensures
            r == *self,
    {
        PoolConfig {
            admin: self.admin.clone(),
            stake_token: self.stake_token.clone(),
            global_multiplier: self.global_multiplier,
            credit_rate: self.credit_rate,
            min_lock_period: self.min_lock_period,
            paused: self.paused,
        }
    }
}

/// The pool's instance storage: `None` until `initialize`.
#[derive(Debug, PartialEq, Eq)]
pub struct FarmingPool {
    pub config: Option<PoolConfig>,
}

/// The per-user persistent records of one user.
#[derive(Clone, Copy, Debug, PartialEq, Eq)]
pub struct UserRecords {
    /// Boost allocation percentage (1-100); absent if never set.
    pub boost: Option<u32>,
    /// Stake record of the boost system.
    pub stake: Option<UserStake>,
    /// Locking position of the lock/unlock system.
    pub position: Option<Position>,
    /// Credits preserved by an emergency withdrawal.
    pub banked_credits: Option<i128>,
}

impl UserRecords {
    /// A user with no records.
    pub fn new() -> (r: UserRecords)
        ensures
            r == (UserRecords { boost: None, stake: None, position: None, banked_credits: None }),
    {
        UserRecords { boost: None, stake: None, position: None, banked_credits: None }
    }

    /// Well-formedness of a user's records: a boost within 1-100 %, stakes
    /// and positions with positive amounts and rates and non-negative
    /// credits, positions that unlock no earlier than they were locked, and
    /// positive preserved credits.
    pub open spec fn wf(self) -> bool {
        &&& (self.boost matches Some(p) ==> 1 <= p <= 100)
        &&& (self.stake matches Some(s) ==> s.amount > 0 && s.credit_rate > 0 && s.credits_banked >= 0)
        &&& (self.position matches Some(p) ==> p.amount > 0 && p.credit_rate > 0 && p.total_credits >= 0
            && p.lock_ledger <= p.unlock_ledger)
        &&& (self.banked_credits matches Some(c) ==> c > 0)
    }

    /// The boost allocation in force (0 when none was set).
    pub open spec fn allocation(self) -> u32 {
        match self.boost {
            Some(p) => p,
            None => 0,
        }
    }
}

// ── Specifications of the pool's state changes ──────────────────────────────

/// The position after locking `amount` more at ledger `now`.
pub open spec fn locked_position(prev: Option<Position>, cfg: PoolConfig, amount: i128, now: u32) -> Position {
    match prev {
        Some(p) => {
            let c = checkpointed_position(p, now, cfg.credit_rate);
            Position { amount: (c.amount + amount) as i128, ..c }
        },
        None => Position {
            amount,
            lock_ledger: now,
            unlock_ledger: saturating_add_u32(now, cfg.min_lock_period),
            checkpoint_ledger: now,
            total_credits: 0,
            credit_rate: cfg.credit_rate,
        },
    }
}

/// The stake after depositing `amount` more at ledger `now`.
pub open spec fn deposited_stake(
    prev: Option<UserStake>,
    allocation_pct: u32,
    multiplier: u32,
    now: u32,
    credit_rate: i128,
    amount: i128,
) -> UserStake {
    match prev {
        Some(s) => {
            let c = checkpointed_stake(s, allocation_pct, multiplier, now, credit_rate);
            UserStake { amount: (c.amount + amount) as i128, ..c }
        },
        None => UserStake { amount, start_ledger: now, credits_banked: 0, credit_rate },
    }
}

/// Locked amount of an optional position (0 if absent).
pub open spec fn position_amount(p: Option<Position>) -> int {
    match p {
        Some(p) => p.amount as int,
        None => 0,
    }
}

/// Banked credits of an optional position (0 if absent).
pub open spec fn position_banked(p: Option<Position>) -> int {
    match p {
        Some(p) => p.total_credits as int,
        None => 0,
    }
}

/// Staked amount of an optional stake (0 if absent).
pub open spec fn stake_amount(s: Option<UserStake>) -> int {
    match s {
        Some(s) => s.amount as int,
        None => 0,
    }
}

/// Banked credits of an optional stake (0 if absent).
pub open spec fn stake_banked(s: Option<UserStake>) -> int {
    match s {
        Some(s) => s.credits_banked as int,
        None => 0,
    }
}

/// The payouts of an emergency withdrawal: the position's amount, then the
/// stake's amount, each where that record exists.
pub open spec fn emergency_payouts(user: AccountId, records: UserRecords) -> Seq<TokenTransfer> {
    (match records.position {
        Some(p) => seq![TokenTransfer::Payout { to: user, amount: p.amount }],
        None => Seq::<TokenTransfer>::empty(),
    }) + (match records.stake {
        Some(s) => seq![TokenTransfer::Payout { to: user, amount: s.amount }],
        None => Seq::<TokenTransfer>::empty(),
    })
}

impl FarmingPool {
    /// Well-formedness of the settings: a multiplier of at least 1 and a
    /// positive credit rate.
    pub open spec fn wf(self) -> bool {
        self.config matches Some(c) ==> c.global_multiplier >= 1 && c.credit_rate > 0
    }

    /// Whether the pool is paused (an uninitialized pool is not).
    pub open spec fn paused(self) -> bool {
        match self.config {
            Some(c) => c.paused,
            None => false,
        }
    }

    // ── Abort conditions ────────────────────────────────────────────────────

    pub open spec fn initialize_abort(self, global_multiplier: u32, credit_rate: i128) -> Option<PoolAbort> {
        if self.config is Some {
            None
        } else if global_multiplier < 1 {
            Some(PoolAbort::MultiplierBelowOne)
        } else if credit_rate <= 0 {
            Some(PoolAbort::CreditRateNotPositive)
        } else {
            None
        }
    }

    pub open spec fn lock_assets_abort(self, records: UserRecords, amount: i128, now: u32) -> Option<PoolAbort> {
        match self.config {
            None => None,
            Some(cfg) => if cfg.paused {
                Some(PoolAbort::Paused)
            } else if amount <= 0 {
                Some(PoolAbort::NonPositiveAmount)
            } else {
                match records.position {
                    Some(p) => if !position_credits_fit(p, now) || !fits_i128(p.amount + amount) {
                        Some(PoolAbort::ArithmeticOverflow)
                    } else {
                        None
                    },
                    None => None,
                }
            },
        }
    }

    pub open spec fn unlock_assets_abort(self, records: UserRecords, amount: i128, now: u32) -> Option<PoolAbort> {
        match self.config {
            None => None,
            Some(cfg) => if cfg.paused {
                Some(PoolAbort::Paused)
            } else if amount <= 0 {
                Some(PoolAbort::NonPositiveAmount)
            } else {
                match records.position {
                    None => Some(PoolAbort::NoActivePosition),
                    Some(p) => if amount > p.amount {
                        Some(PoolAbort::InsufficientLockedBalance)
                    } else if now < p.unlock_ledger {
                        Some(PoolAbort::LockPeriodNotElapsed)
                    } else if !position_credits_fit(p, now) {
                        Some(PoolAbort::ArithmeticOverflow)
                    } else {
                        None
                    },
                }
            },
        }
    }

    pub open spec fn calculate_credits_abort(self, records: UserRecords, now: u32) -> Option<PoolAbort> {
        match (self.config, records.position) {
            (Some(_), Some(p)) => if !position_credits_fit(p, now) {
                Some(PoolAbort::ArithmeticOverflow)
            } else {
                None
            },
            _ => None,
        }
    }

    pub open spec fn emergency_withdraw_abort(self, records: UserRecords) -> Option<PoolAbort> {
        match self.config {
            Some(cfg) => if cfg.paused && (!fits_i128(
                position_amount(records.position) + stake_amount(records.stake),
            ) || !fits_i128(position_banked(records.position) + stake_banked(records.stake))) {
                Some(PoolAbort::ArithmeticOverflow)
            } else {
                None
            },
            None => None,
        }
    }

    pub open spec fn stake_abort(self, records: UserRecords, amount: i128, now: u32) -> Option<PoolAbort> {
        match self.config {
            None => None,
            Some(cfg) => if cfg.paused {
                Some(PoolAbort::Paused)
            } else if amount <= 0 {
                Some(PoolAbort::NonPositiveAmount)
            } else {
                match records.stake {
                    Some(s) => if !stake_credits_fit(s, records.allocation(), cfg.global_multiplier, now)
                        || !fits_i128(s.amount + amount) {
                        Some(PoolAbort::ArithmeticOverflow)
                    } else {
                        None
                    },
                    None => None,
                }
            },
        }
    }

    pub open spec fn unstake_abort(self, records: UserRecords, now: u32) -> Option<PoolAbort> {
        match self.config {
            None => None,
            Some(cfg) => if cfg.paused {
                Some(PoolAbort::Paused)
            } else {
                match records.stake {
                    None => Some(PoolAbort::NoActiveStake),
                    Some(s) => if !stake_credits_fit(s, records.allocation(), cfg.global_multiplier, now) {
                        Some(PoolAbort::ArithmeticOverflow)
                    } else {
                        None
                    },
                }
            },
        }
    }

    pub open spec fn set_boost_abort(self, records: UserRecords, allocation_pct: u32, now: u32) -> Option<PoolAbort> {
        match self.config {
            None => None,
            Some(cfg) => if cfg.paused {
                Some(PoolAbort::Paused)
            } else if allocation_pct < 1 || allocation_pct > 100 {
                Some(PoolAbort::AllocationOutOfRange)
            } else {
                match records.stake {
                    Some(s) => if !stake_credits_fit(s, records.allocation(), cfg.global_multiplier, now) {
                        Some(PoolAbort::ArithmeticOverflow)
                    } else {
                        None
                    },
                    None => None,
                }
            },
        }
    }

    pub open spec fn set_global_multiplier_abort(self, multiplier: u32) -> Option<PoolAbort> {
        if self.config is Some && multiplier < 1 {
            Some(PoolAbort::MultiplierBelowOne)
        } else {
            None
        }
    }

    pub open spec fn get_credits_abort(self, records: UserRecords, now: u32) -> Option<PoolAbort> {
        match (self.config, records.stake) {
            (Some(cfg), Some(s)) => if !stake_credits_fit(s, records.allocation(), cfg.global_multiplier, now) {
                Some(PoolAbort::ArithmeticOverflow)
            } else {
                None
            },
            _ => None,
        }
    }
}


impl FarmingPool {
    /// An uninitialized pool.
    pub fn new() -> (r: FarmingPool)
        ensures
            r.config is None,
    {
        FarmingPool { config: None }
    }

    /// `Err(NotInitialized)` unless the pool has been initialized.
    pub fn require_initialized(&self) -> (r: Result<(), PoolError>)
        ensures
            r == (if self.config is Some {
                Ok::<(), PoolError>(())
            } else {
                Err(PoolError::NotInitialized)
            }),
    {
        if self.config.is_none() {
            return Err(PoolError::NotInitialized);
        }
        Ok(())
    }

    /// Initialize the pool once; a second call is rejected.
    pub fn initialize(
        &mut self,
        admin: AccountId,
        stake_token: AccountId,
        global_multiplier: u32,
        credit_rate: i128,
        min_lock_period: u32,
    ) -> (r: Result<(), PoolError>)
        requires
            old(self).initialize_abort(global_multiplier, credit_rate) is None,
        ensures
            old(self).wf() ==> final(self).wf(),
            old(self).config is Some ==> r == Err::<(), PoolError>(PoolError::AlreadyInitialized)
                && *final(self) == *old(self),
            old(self).config is None ==> r == Ok::<(), PoolError>(()) && final(self).config == Some(
                PoolConfig {
                    admin,
                    stake_token,
                    global_multiplier,
                    credit_rate,
                    min_lock_period,
                    paused: false,
                },
            ),
    {
        if self.config.is_some() {
            return Err(PoolError::AlreadyInitialized);
        }
        self.config = Some(
            PoolConfig { admin, stake_token, global_multiplier, credit_rate, min_lock_period, paused: false },
        );
        Ok(())
    }

    /// The current admin.
    pub fn admin(&self) -> (r: AccountId)
        requires
            self.config is Some,
        ensures
            r == self.config->0.admin,
    {
        self.config.as_ref().unwrap().admin.clone()
    }

    /// Hand admin rights to `new_admin`; the current admin authorises.
    pub fn transfer_admin(&mut self, new_admin: AccountId) -> (r: PoolEvent)
        requires
            old(self).config is Some,
        ensures
            old(self).wf() ==> final(self).wf(),
            final(self).config == Some(PoolConfig { admin: new_admin, ..old(self).config->0 }),
            r == (PoolEvent::AdminTransferred { old_admin: old(self).config->0.admin, new_admin }),
    {
        let mut cfg = self.config.take().unwrap();
        let old_admin = cfg.admin;
        cfg.admin = new_admin.clone();
        self.config = Some(cfg);
        PoolEvent::AdminTransferred { old_admin, new_admin }
    }

    /// Whether `initialize` would abort.
    pub fn check_initialize(&self, global_multiplier: u32, credit_rate: i128) -> (r: Option<PoolAbort>)
        ensures
            r == self.initialize_abort(global_multiplier, credit_rate),
    {
        if self.config.is_some() {
            None
        } else if global_multiplier < 1 {
            Some(PoolAbort::MultiplierBelowOne)
        } else if credit_rate <= 0 {
            Some(PoolAbort::CreditRateNotPositive)
        } else {
            None
        }
    }
}


impl FarmingPool {
    /// Whether `lock_assets` would abort.
    pub fn check_lock_assets(&self, records: &UserRecords, amount: i128, now: u32) -> (r: Option<PoolAbort>)
        ensures
            r == self.lock_assets_abort(*records, amount, now),
    {
        let cfg = match &self.config {
            Some(c) => c,
            None => return None,
        };
        if cfg.paused {
            return Some(PoolAbort::Paused);
        }
        if amount <= 0 {
            return Some(PoolAbort::NonPositiveAmount);
        }
        match &records.position {
            Some(p) => {
                if checked_position_credits(p, now).is_none() || p.amount.checked_add(amount).is_none() {
                    Some(PoolAbort::ArithmeticOverflow)
                } else {
                    None
                }
            },
            None => None,
        }
    }

    /// Lock `amount` of the stake token for `user` at ledger `now`.
    ///
    /// An existing position first banks its credits, then grows by `amount`;
    /// otherwise a new position starts at `now` and unlocks after the minimum
    /// lock period. The user authorises; the tokens move into the pool.
    pub fn lock_assets(&self, records: &mut UserRecords, user: &AccountId, amount: i128, now: u32) -> (r: Result<
        (TokenTransfer, PoolEvent),
        PoolError,
    >)
        requires
            self.lock_assets_abort(*old(records), amount, now) is None,
        ensures
            self.wf() && old(records).wf() ==> final(records).wf(),
            self.config is None ==> r == Err::<(TokenTransfer, PoolEvent), PoolError>(
                PoolError::NotInitialized,
            ) && *final(records) == *old(records),
            self.config is Some ==> r == Ok::<(TokenTransfer, PoolEvent), PoolError>(
                (
                    TokenTransfer::Deposit { from: *user, amount },
                    PoolEvent::Locked { user: *user, amount },
                ),
            ) && *final(records) == (UserRecords {
                position: Some(locked_position(old(records).position, self.config->0, amount, now)),
                ..*old(records)
            }),
    {
        let cfg = match &self.config {
            Some(c) => c,
            None => return Err(PoolError::NotInitialized),
        };
        let position = match records.position {
            Some(existing) => {
                let mut p = existing;
                proof {
                    if self.wf() && records.wf() {
                        lemma_position_credits_nonneg(existing, now);
                    }
                }
                checkpoint_position(&mut p, now, cfg.credit_rate);
                p.amount = p.amount + amount;
                p
            },
            None => Position {
                amount,
                lock_ledger: now,
                unlock_ledger: now.saturating_add(cfg.min_lock_period),
                checkpoint_ledger: now,
                total_credits: 0,
                credit_rate: cfg.credit_rate,
            },
        };
        records.position = Some(position);
        Ok((TokenTransfer::Deposit { from: user.clone(), amount }, PoolEvent::Locked { user: user.clone(), amount }))
    }

    /// Whether `unlock_assets` would abort.
    pub fn check_unlock_assets(&self, records: &UserRecords, amount: i128, now: u32) -> (r: Option<PoolAbort>)
        ensures
            r == self.unlock_assets_abort(*records, amount, now),
    {
        let cfg = match &self.config {
            Some(c) => c,
            None => return None,
        };
        if cfg.paused {
            return Some(PoolAbort::Paused);
        }
        if amount <= 0 {
            return Some(PoolAbort::NonPositiveAmount);
        }
        match &records.position {
            None => Some(PoolAbort::NoActivePosition),
            Some(p) => {
                if amount > p.amount {
                    Some(PoolAbort::InsufficientLockedBalance)
                } else if now < p.unlock_ledger {
                    Some(PoolAbort::LockPeriodNotElapsed)
                } else if checked_position_credits(p, now).is_none() {
                    Some(PoolAbort::ArithmeticOverflow)
                } else {
                    None
                }
            },
        }
    }

    /// Unlock `amount` of `user`'s position at ledger `now`, once the minimum
    /// lock period has elapsed.
    ///
    /// The position banks its credits first; it is removed when nothing
    /// stays locked. The tokens move from the pool to the user.
    pub fn unlock_assets(&self, records: &mut UserRecords, user: &AccountId, amount: i128, now: u32) -> (r: Result<
        (TokenTransfer, PoolEvent),
        PoolError,
    >)
        requires
            self.unlock_assets_abort(*old(records), amount, now) is None,
        ensures
            self.wf() && old(records).wf() ==> final(records).wf(),
            self.config is None ==> r == Err::<(TokenTransfer, PoolEvent), PoolError>(
                PoolError::NotInitialized,
            ) && *final(records) == *old(records),
            self.config is Some ==> {
                let c = checkpointed_position(old(records).position->0, now, self.config->0.credit_rate);
                let remaining = (c.amount - amount) as i128;
                &&& r == Ok::<(TokenTransfer, PoolEvent), PoolError>(
                    (
                        TokenTransfer::Payout { to: *user, amount },
                        PoolEvent::Unlocked { user: *user, amount, total_credits: c.total_credits },
                    ),
                )
                &&& *final(records) == (UserRecords {
                    position: if remaining == 0 {
                        None
                    } else {
                        Some(Position { amount: remaining, ..c })
                    },
                    ..*old(records)
                })
            },
    {
        let cfg = match &self.config {
            Some(c) => c,
            None => return Err(PoolError::NotInitialized),
        };
        let mut position = records.position.unwrap();
        proof {
            if self.wf() && records.wf() {
                lemma_position_credits_nonneg(position, now);
            }
        }
        checkpoint_position(&mut position, now, cfg.credit_rate);
        let total_credits = position.total_credits;
        position.amount = position.amount - amount;
        if position.amount == 0 {
            records.position = None;
        } else {
            records.position = Some(position);
        }
        Ok(
            (
                TokenTransfer::Payout { to: user.clone(), amount },
                PoolEvent::Unlocked { user: user.clone(), amount, total_credits },
            ),
        )
    }

    /// Whether `calculate_credits` would abort.
    pub fn check_calculate_credits(&self, records: &UserRecords, now: u32) -> (r: Option<PoolAbort>)
        ensures
            r == self.calculate_credits_abort(*records, now),
    {
        match (&self.config, &records.position) {
            (Some(_), Some(p)) => if checked_position_credits(p, now).is_none() {
                Some(PoolAbort::ArithmeticOverflow)
            } else {
                None
            },
            _ => None,
        }
    }

    /// Credits of the user's locking position as of ledger `now` (0 without
    /// a position).
    pub fn calculate_credits(&self, records: &UserRecords, now: u32) -> (r: Result<i128, PoolError>)
        requires
            self.calculate_credits_abort(*records, now) is None,
        ensures
            r == (if self.config is None {
                Err(PoolError::NotInitialized)
            } else {
                match records.position {
                    None => Ok::<i128, PoolError>(0),
                    Some(p) => Ok(position_credits_at(p, now) as i128),
                }
            }),
    {
        if self.config.is_none() {
            return Err(PoolError::NotInitialized);
        }
        match &records.position {
            None => Ok(0),
            Some(p) => {
                let elapsed = crate::arith::elapsed_ledgers(now, p.checkpoint_ledger);
                Ok(p.total_credits + p.amount * p.credit_rate * (elapsed as i128))
            },
        }
    }

    /// The user's locking position.
    pub fn get_user_position(&self, records: &UserRecords) -> (r: Result<Option<Position>, PoolError>)
        ensures
            r == (if self.config is None {
                Err(PoolError::NotInitialized)
            } else {
                Ok::<Option<Position>, PoolError>(records.position)
            }),
    {
        if self.config.is_none() {
            return Err(PoolError::NotInitialized);
        }
        Ok(records.position)
    }

    /// Pause the pool; the admin authorises.
    pub fn pause(&mut self) -> (r: Result<PoolEvent, PoolError>)
        ensures
            old(self).wf() ==> final(self).wf(),
            old(self).config is None ==> r == Err::<PoolEvent, PoolError>(PoolError::NotInitialized)
                && *final(self) == *old(self),
            old(self).config is Some ==> r == Ok::<PoolEvent, PoolError>(
                PoolEvent::Paused { admin: old(self).config->0.admin },
            )
                && final(self).config == Some(PoolConfig { paused: true, ..old(self).config->0 }),
    {
        match self.config.take() {
            None => Err(PoolError::NotInitialized),
            Some(mut cfg) => {
                cfg.paused = true;
                let admin = cfg.admin.clone();
                self.config = Some(cfg);
                Ok(PoolEvent::Paused { admin })
            },
        }
    }

    /// Resume the pool; the admin authorises.
    pub fn unpause(&mut self) -> (r: Result<PoolEvent, PoolError>)
        ensures
            old(self).wf() ==> final(self).wf(),
            old(self).config is None ==> r == Err::<PoolEvent, PoolError>(PoolError::NotInitialized)
                && *final(self) == *old(self),
            old(self).config is Some ==> r == Ok::<PoolEvent, PoolError>(
                PoolEvent::Unpaused { admin: old(self).config->0.admin },
            )
                && final(self).config == Some(PoolConfig { paused: false, ..old(self).config->0 }),
    {
        match self.config.take() {
            None => Err(PoolError::NotInitialized),
            Some(mut cfg) => {
                cfg.paused = false;
                let admin = cfg.admin.clone();
                self.config = Some(cfg);
                Ok(PoolEvent::Unpaused { admin })
            },
        }
    }

    /// Whether the pool is paused.
    pub fn is_paused(&self) -> (r: Result<bool, PoolError>)
        ensures
            r == (if self.config is None {
                Err(PoolError::NotInitialized)
            } else {
                Ok::<bool, PoolError>(self.config->0.paused)
            }),
    {
        match &self.config {
            None => Err(PoolError::NotInitialized),
            Some(cfg) => Ok(cfg.paused),
        }
    }
}


impl FarmingPool {
    /// Whether `emergency_withdraw` would abort.
    pub fn check_emergency_withdraw(&self, records: &UserRecords) -> (r: Option<PoolAbort>)
        ensures
            r == self.emergency_withdraw_abort(*records),
    {
        let cfg = match &self.config {
            Some(c) => c,
            None => return None,
        };
        if !cfg.paused {
            return None;
        }
        let (pa, pc) = match &records.position {
            Some(p) => (p.amount, p.total_credits),
            None => (0, 0),
        };
        let (sa, sc) = match &records.stake {
            Some(s) => (s.amount, s.credits_banked),
            None => (0, 0),
        };
        if pa.checked_add(sa).is_none() || pc.checked_add(sc).is_none() {
            Some(PoolAbort::ArithmeticOverflow)
        } else {
            None
        }
    }

    /// While paused, return all of `user`'s locked and staked tokens and
    /// preserve their banked credits; the admin authorises.
    ///
    /// Returns the total amount returned, the payouts and the event. Credits
    /// accrued since the last checkpoints are not banked.
    pub fn emergency_withdraw(&self, records: &mut UserRecords, user: &AccountId) -> (r: Result<
        (i128, Vec<TokenTransfer>, PoolEvent),
        PoolError,
    >)
        requires
            self.emergency_withdraw_abort(*old(records)) is None,
        ensures
            self.wf() && old(records).wf() ==> final(records).wf(),
            ({
                let old_rec = *old(records);
                let total = position_amount(old_rec.position) + stake_amount(old_rec.stake);
                let banked = position_banked(old_rec.position) + stake_banked(old_rec.stake);
                if self.config is None {
                    r == Err::<(i128, Vec<TokenTransfer>, PoolEvent), PoolError>(PoolError::NotInitialized)
                        && *final(records) == old_rec
                } else if !self.config->0.paused {
                    r == Err::<(i128, Vec<TokenTransfer>, PoolEvent), PoolError>(PoolError::NotPaused)
                        && *final(records) == old_rec
                } else if total == 0 {
                    r == Err::<(i128, Vec<TokenTransfer>, PoolEvent), PoolError>(PoolError::NoActiveStake)
                        && *final(records) == old_rec
                } else {
                    &&& r is Ok
                    &&& r->Ok_0.0 == total
                    &&& r->Ok_0.1@ == emergency_payouts(*user, old_rec)
                    &&& r->Ok_0.2 == PoolEvent::EmergencyExit {
                        admin: self.config->0.admin,
                        user: *user,
                        total_returned: total as i128,
                    }
                    &&& *final(records) == UserRecords {
                        boost: old_rec.boost,
                        stake: None,
                        position: None,
                        banked_credits: if banked > 0 {
                            Some(banked as i128)
                        } else {
                            old_rec.banked_credits
                        },
                    }
                }
            }),
    {
        let cfg = match &self.config {
            Some(c) => c,
            None => return Err(PoolError::NotInitialized),
        };
        if !cfg.paused {
            return Err(PoolError::NotPaused);
        }
        let mut total_returned: i128 = 0;
        let mut banked_credits: i128 = 0;
        let mut payouts: Vec<TokenTransfer> = Vec::new();
        if let Some(p) = records.position {
            payouts.push(TokenTransfer::Payout { to: user.clone(), amount: p.amount });
            total_returned = total_returned + p.amount;
            banked_credits = banked_credits + p.total_credits;
        }
        if let Some(s) = records.stake {
            payouts.push(TokenTransfer::Payout { to: user.clone(), amount: s.amount });
            total_returned = total_returned + s.amount;
            banked_credits = banked_credits + s.credits_banked;
        }
        if total_returned == 0 {
            return Err(PoolError::NoActiveStake);
        }
        records.position = None;
        records.stake = None;
        if banked_credits > 0 {
            records.banked_credits = Some(banked_credits);
        }
        proof {
            assert(payouts@ =~= emergency_payouts(*user, *old(records)));
        }
        let event = PoolEvent::EmergencyExit { admin: cfg.admin.clone(), user: user.clone(), total_returned };
        Ok((total_returned, payouts, event))
    }

    /// Credits preserved for `user` by an emergency withdrawal (0 if none).
    pub fn get_banked_credits(&self, records: &UserRecords) -> (r: i128)
        ensures
            r == (match records.banked_credits {
                Some(c) => c,
                None => 0,
            }),
    {
        match records.banked_credits {
            Some(c) => c,
            None => 0,
        }
    }

    /// Whether `stake` would abort.
    pub fn check_stake(&self, records: &UserRecords, amount: i128, now: u32) -> (r: Option<PoolAbort>)
        ensures
            r == self.stake_abort(*records, amount, now),
    {
        let cfg = match &self.config {
            Some(c) => c,
            None => return None,
        };
        if cfg.paused {
            return Some(PoolAbort::Paused);
        }
        if amount <= 0 {
            return Some(PoolAbort::NonPositiveAmount);
        }
        let pct = allocation_of(records);
        match &records.stake {
            Some(s) => {
                if checked_stake_credits(s, pct, cfg.global_multiplier, now).is_none()
                    || s.amount.checked_add(amount).is_none() {
                    Some(PoolAbort::ArithmeticOverflow)
                } else {
                    None
                }
            },
            None => None,
        }
    }

    /// Stake `amount` for `from` at ledger `now` (boost system).
    ///
    /// An existing stake first banks its credits at the current boost, then
    /// grows by `amount`; otherwise a new stake starts at `now`. The staker
    /// authorises; the tokens move into the pool.
    pub fn stake(&self, records: &mut UserRecords, from: &AccountId, amount: i128, now: u32) -> (r: Result<
        (TokenTransfer, PoolEvent),
        PoolError,
    >)
        requires
            self.stake_abort(*old(records), amount, now) is None,
        ensures
            self.wf() && old(records).wf() ==> final(records).wf(),
            self.config is None ==> r == Err::<(TokenTransfer, PoolEvent), PoolError>(
                PoolError::NotInitialized,
            ) && *final(records) == *old(records),
            self.config is Some ==> r == Ok::<(TokenTransfer, PoolEvent), PoolError>(
                (TokenTransfer::Deposit { from: *from, amount }, PoolEvent::Staked { user: *from, amount }),
            ) && *final(records) == (UserRecords {
                stake: Some(
                    deposited_stake(
                        old(records).stake,
                        old(records).allocation(),
                        self.config->0.global_multiplier,
                        now,
                        self.config->0.credit_rate,
                        amount,
                    ),
                ),
                ..*old(records)
            }),
    {
        let cfg = match &self.config {
            Some(c) => c,
            None => return Err(PoolError::NotInitialized),
        };
        let pct = allocation_of(records);
        let new_stake = match records.stake {
            Some(existing) => {
                let mut s = existing;
                proof {
                    if self.wf() && records.wf() {
                        lemma_stake_credits_nonneg(existing, pct, cfg.global_multiplier, now);
                    }
                }
                checkpoint(&mut s, pct, cfg.global_multiplier, now, cfg.credit_rate);
                s.amount = s.amount + amount;
                s
            },
            None => UserStake { amount, start_ledger: now, credits_banked: 0, credit_rate: cfg.credit_rate },
        };
        records.stake = Some(new_stake);
        Ok((TokenTransfer::Deposit { from: from.clone(), amount }, PoolEvent::Staked { user: from.clone(), amount }))
    }

    /// Whether `unstake` would abort.
    pub fn check_unstake(&self, records: &UserRecords, now: u32) -> (r: Option<PoolAbort>)
        ensures
            r == self.unstake_abort(*records, now),
    {
        let cfg = match &self.config {
            Some(c) => c,
            None => return None,
        };
        if cfg.paused {
            return Some(PoolAbort::Paused);
        }
        let pct = allocation_of(records);
        match &records.stake {
            None => Some(PoolAbort::NoActiveStake),
            Some(s) => if checked_stake_credits(s, pct, cfg.global_multiplier, now).is_none() {
                Some(PoolAbort::ArithmeticOverflow)
            } else {
                None
            },
        }
    }

    /// Withdraw `from`'s whole stake at ledger `now`, returning the credits it
    /// earned in total, the payout of the staked tokens and the event.
    pub fn unstake(&self, records: &mut UserRecords, from: &AccountId, now: u32) -> (r: Result<
        (i128, TokenTransfer, PoolEvent),
        PoolError,
    >)
        requires
            self.unstake_abort(*old(records), now) is None,
        ensures
            self.wf() && old(records).wf() ==> final(records).wf(),
            self.config is None ==> r == Err::<(i128, TokenTransfer, PoolEvent), PoolError>(
                PoolError::NotInitialized,
            ) && *final(records) == *old(records),
            self.config is Some ==> {
                let s = old(records).stake->0;
                let credits = stake_credits_at(
                    s,
                    old(records).allocation(),
                    self.config->0.global_multiplier,
                    now,
                );
                &&& r == Ok::<(i128, TokenTransfer, PoolEvent), PoolError>(
                    (
                        credits as i128,
                        TokenTransfer::Payout { to: *from, amount: s.amount },
                        PoolEvent::Unstaked { user: *from, amount: s.amount, total_credits: credits as i128 },
                    ),
                )
                &&& *final(records) == (UserRecords { stake: None, ..*old(records) })
            },
    {
        let cfg = match &self.config {
            Some(c) => c,
            None => return Err(PoolError::NotInitialized),
        };
        let pct = allocation_of(records);
        let mut s = records.stake.unwrap();
        checkpoint(&mut s, pct, cfg.global_multiplier, now, cfg.credit_rate);
        let total_credits = s.credits_banked;
        records.stake = None;
        Ok(
            (
                total_credits,
                TokenTransfer::Payout { to: from.clone(), amount: s.amount },
                PoolEvent::Unstaked { user: from.clone(), amount: s.amount, total_credits },
            ),
        )
    }

    /// Whether `set_boost` would abort.
    pub fn check_set_boost(&self, records: &UserRecords, allocation_pct: u32, now: u32) -> (r: Option<PoolAbort>)
        ensures
            r == self.set_boost_abort(*records, allocation_pct, now),
    {
        let cfg = match &self.config {
            Some(c) => c,
            None => return None,
        };
        if cfg.paused {
            return Some(PoolAbort::Paused);
        }
        if allocation_pct < 1 || allocation_pct > 100 {
            return Some(PoolAbort::AllocationOutOfRange);
        }
        let pct = allocation_of(records);
        match &records.stake {
            Some(s) => if checked_stake_credits(s, pct, cfg.global_multiplier, now).is_none() {
                Some(PoolAbort::ArithmeticOverflow)
            } else {
                None
            },
            None => None,
        }
    }

    /// Set `user`'s boost allocation to `allocation_pct` at ledger `now`.
    ///
    /// An existing stake first banks the credits earned under the previous
    /// allocation, so earlier credits are preserved.
    pub fn set_boost(&self, records: &mut UserRecords, user: &AccountId, allocation_pct: u32, now: u32) -> (r: Result<
        PoolEvent,
        PoolError,
    >)
        requires
            self.set_boost_abort(*old(records), allocation_pct, now) is None,
        ensures
            self.wf() && old(records).wf() ==> final(records).wf(),
            self.config is None ==> r == Err::<PoolEvent, PoolError>(PoolError::NotInitialized)
                && *final(records) == *old(records),
            self.config is Some ==> {
                let cfg = self.config->0;
                &&& r == Ok::<PoolEvent, PoolError>(
                    PoolEvent::BoostApplied { user: *user, allocation_pct, multiplier: cfg.global_multiplier },
                )
                &&& *final(records) == (UserRecords {
                    boost: Some(allocation_pct),
                    stake: match old(records).stake {
                        Some(s) => Some(
                            checkpointed_stake(
                                s,
                                old(records).allocation(),
                                cfg.global_multiplier,
                                now,
                                cfg.credit_rate,
                            ),
                        ),
                        None => None,
                    },
                    ..*old(records)
                })
            },
    {
        let cfg = match &self.config {
            Some(c) => c,
            None => return Err(PoolError::NotInitialized),
        };
        let pct = allocation_of(records);
        if let Some(existing) = records.stake {
            let mut s = existing;
            proof {
                if self.wf() && records.wf() {
                    lemma_stake_credits_nonneg(existing, pct, cfg.global_multiplier, now);
                }
            }
            checkpoint(&mut s, pct, cfg.global_multiplier, now, cfg.credit_rate);
            records.stake = Some(s);
        }
        records.boost = Some(allocation_pct);
        Ok(PoolEvent::BoostApplied { user: user.clone(), allocation_pct, multiplier: cfg.global_multiplier })
    }

    /// The user's boost configuration, if a boost was set.
    pub fn get_boost_config(&self, records: &UserRecords) -> (r: Result<Option<BoostConfig>, PoolError>)
        ensures
            r == (if self.config is None {
                Err(PoolError::NotInitialized)
            } else {
                Ok::<Option<BoostConfig>, PoolError>(
                    match records.boost {
                        Some(p) => Some(
                            BoostConfig { multiplier: self.config->0.global_multiplier, allocation_pct: p },
                        ),
                        None => None,
                    },
                )
            }),
    {
        let cfg = match &self.config {
            Some(c) => c,
            None => return Err(PoolError::NotInitialized),
        };
        match records.boost {
            Some(p) => Ok(Some(BoostConfig { multiplier: cfg.global_multiplier, allocation_pct: p })),
            None => Ok(None),
        }
    }

    /// Whether `set_global_multiplier` would abort.
    pub fn check_set_global_multiplier(&self, multiplier: u32) -> (r: Option<PoolAbort>)
        ensures
            r == self.set_global_multiplier_abort(multiplier),
    {
        if self.config.is_some() && multiplier < 1 {
            Some(PoolAbort::MultiplierBelowOne)
        } else {
            None
        }
    }

    /// Set the global boost multiplier; the admin authorises. Takes effect
    /// from each stake's next checkpoint.
    pub fn set_global_multiplier(&mut self, multiplier: u32) -> (r: Result<PoolEvent, PoolError>)
        requires
            old(self).set_global_multiplier_abort(multiplier) is None,
        ensures
            old(self).wf() ==> final(self).wf(),
            old(self).config is None ==> r == Err::<PoolEvent, PoolError>(PoolError::NotInitialized)
                && *final(self) == *old(self),
            old(self).config is Some ==> r == Ok::<PoolEvent, PoolError>(PoolEvent::MultiplierSet { multiplier })
                && final(self).config == Some(
                PoolConfig { global_multiplier: multiplier, ..old(self).config->0 },
            ),
    {
        match self.config.take() {
            None => Err(PoolError::NotInitialized),
            Some(mut cfg) => {
                cfg.global_multiplier = multiplier;
                self.config = Some(cfg);
                Ok(PoolEvent::MultiplierSet { multiplier })
            },
        }
    }

    /// Set the credit rate; the admin authorises. A non-positive rate is
    /// rejected.
    pub fn set_credit_rate(&mut self, new_rate: i128) -> (r: Result<PoolEvent, PoolError>)
        ensures
            old(self).wf() ==> final(self).wf(),
            old(self).config is None ==> r == Err::<PoolEvent, PoolError>(PoolError::NotInitialized)
                && *final(self) == *old(self),
            old(self).config is Some && new_rate <= 0 ==> r == Err::<PoolEvent, PoolError>(
                PoolError::InvalidCreditRate,
            ) && *final(self) == *old(self),
            old(self).config is Some && new_rate > 0 ==> r == Ok::<PoolEvent, PoolError>(
                PoolEvent::CreditRateSet { old_rate: old(self).config->0.credit_rate, new_rate },
            ) && final(self).config == Some(PoolConfig { credit_rate: new_rate, ..old(self).config->0 }),
    {
        if self.config.is_none() {
            return Err(PoolError::NotInitialized);
        }
        if new_rate <= 0 {
            return Err(PoolError::InvalidCreditRate);
        }
        let mut cfg = self.config.take().unwrap();
        let old_rate = cfg.credit_rate;
        cfg.credit_rate = new_rate;
        self.config = Some(cfg);
        Ok(PoolEvent::CreditRateSet { old_rate, new_rate })
    }

    /// Set the minimum lock period for new positions; the admin authorises.
    pub fn set_min_lock_period(&mut self, new_period: u32) -> (r: Result<PoolEvent, PoolError>)
        ensures
            old(self).wf() ==> final(self).wf(),
            old(self).config is None ==> r == Err::<PoolEvent, PoolError>(PoolError::NotInitialized)
                && *final(self) == *old(self),
            old(self).config is Some ==> r == Ok::<PoolEvent, PoolError>(
                PoolEvent::LockPeriodSet { old_period: old(self).config->0.min_lock_period, new_period },
            ) && final(self).config == Some(
                PoolConfig { min_lock_period: new_period, ..old(self).config->0 },
            ),
    {
        match self.config.take() {
            None => Err(PoolError::NotInitialized),
            Some(mut cfg) => {
                let old_period = cfg.min_lock_period;
                cfg.min_lock_period = new_period;
                self.config = Some(cfg);
                Ok(PoolEvent::LockPeriodSet { old_period, new_period })
            },
        }
    }

    /// The current credit rate.
    pub fn credit_rate(&self) -> (r: Result<i128, PoolError>)
        ensures
            r == (if self.config is None {
                Err(PoolError::NotInitialized)
            } else {
                Ok::<i128, PoolError>(self.config->0.credit_rate)
            }),
    {
        match &self.config {
            None => Err(PoolError::NotInitialized),
            Some(cfg) => Ok(cfg.credit_rate),
        }
    }

    /// Same as `credit_rate`.
    pub fn get_credit_rate(&self) -> (r: Result<i128, PoolError>)
        ensures
            r == (if self.config is None {
                Err(PoolError::NotInitialized)
            } else {
                Ok::<i128, PoolError>(self.config->0.credit_rate)
            }),
    {
        self.credit_rate()
    }

    /// The current minimum lock period.
    pub fn min_lock_period(&self) -> (r: Result<u32, PoolError>)
        ensures
            r == (if self.config is None {
                Err(PoolError::NotInitialized)
            } else {
                Ok::<u32, PoolError>(self.config->0.min_lock_period)
            }),
    {
        match &self.config {
            None => Err(PoolError::NotInitialized),
            Some(cfg) => Ok(cfg.min_lock_period),
        }
    }

    /// Same as `min_lock_period`.
    pub fn get_min_lock_period(&self) -> (r: Result<u32, PoolError>)
        ensures
            r == (if self.config is None {
                Err(PoolError::NotInitialized)
            } else {
                Ok::<u32, PoolError>(self.config->0.min_lock_period)
            }),
    {
        self.min_lock_period()
    }

    /// Whether `get_credits` would abort.
    pub fn check_get_credits(&self, records: &UserRecords, now: u32) -> (r: Option<PoolAbort>)
        ensures
            r == self.get_credits_abort(*records, now),
    {
        match (&self.config, &records.stake) {
            (Some(cfg), Some(s)) => if checked_stake_credits(
                s,
                allocation_of(records),
                cfg.global_multiplier,
                now,
            ).is_none() {
                Some(PoolAbort::ArithmeticOverflow)
            } else {
                None
            },
            _ => None,
        }
    }

    /// Credits of the user's stake as of ledger `now` under the current boost
    /// (0 without a stake).
    pub fn get_credits(&self, records: &UserRecords, now: u32) -> (r: Result<i128, PoolError>)
        requires
            self.get_credits_abort(*records, now) is None,
        ensures
            r == (if self.config is None {
                Err(PoolError::NotInitialized)
            } else {
                match records.stake {
                    None => Ok::<i128, PoolError>(0),
                    Some(s) => Ok(
                        stake_credits_at(
                            s,
                            records.allocation(),
                            self.config->0.global_multiplier,
                            now,
                        ) as i128,
                    ),
                }
            }),
    {
        let cfg = match &self.config {
            Some(c) => c,
            None => return Err(PoolError::NotInitialized),
        };
        match &records.stake {
            None => Ok(0),
            Some(s) => {
                let elapsed = crate::arith::elapsed_ledgers(now, s.start_ledger);
                Ok(
                    s.credits_banked + compute_credits(
                        s.amount,
                        allocation_of(records),
                        cfg.global_multiplier,
                        s.credit_rate,
                        elapsed,
                    ),
                )
            },
        }
    }

    /// The user's stake record.
    pub fn get_stake(&self, records: &UserRecords) -> (r: Result<Option<UserStake>, PoolError>)
        ensures
            r == (if self.config is None {
                Err(PoolError::NotInitialized)
            } else {
                Ok::<Option<UserStake>, PoolError>(records.stake)
            }),
    {
        if self.config.is_none() {
            return Err(PoolError::NotInitialized);
        }
        Ok(records.stake)
    }

    /// Replace the pool's code with `new_wasm_hash`; the admin authorises.
    pub fn upgrade(&self, new_wasm_hash: WasmHash) -> (r: Result<PoolEvent, PoolError>)
        ensures
            r == (if self.config is None {
                Err(PoolError::NotInitialized)
            } else {
                Ok::<PoolEvent, PoolError>(PoolEvent::Upgraded { new_wasm_hash })
            }),
    {
        if self.config.is_none() {
            return Err(PoolError::NotInitialized);
        }
        Ok(PoolEvent::Upgraded { new_wasm_hash })
    }
}

/// The boost allocation in force for a user's records (0 when none was set).
pub fn allocation_of(records: &UserRecords) -> (r: u32)
    ensures
        r == records.allocation(),
{
    match records.boost {
        Some(p) => p,
        None => 0,
    }
}

} // verus!
