use std::collections::HashMap;

use smartdrop::account::{AccountId, TokenTransfer};
use smartdrop::farming_math::compute_total_stake;
use smartdrop::farming_pool::{
    BoostConfig, FarmingPool, PoolAbort, PoolError, PoolEvent, UserRecords,
};
use smartdrop::farming_math::{Position, UserStake};

// ── Test harness: a pool, its users' records, a token ledger and events ─────

#[derive(Debug, PartialEq)]
enum Failure {
    Error(PoolError),
    Abort(PoolAbort),
    TokenRejected,
}

struct TestEnv {
    pool: FarmingPool,
    users: HashMap<String, UserRecords>,
    balances: HashMap<String, i128>,
    pool_balance: i128,
    ledger: u32,
    events: Vec<PoolEvent>,
    admin: AccountId,
    user: AccountId,
}

fn account(name: &str) -> AccountId {
    AccountId::new(name.to_string())
}

impl TestEnv {
    fn records(&self, user: &AccountId) -> UserRecords {
        self.users.get(&user.key).copied().unwrap_or(UserRecords::new())
    }

    fn balance(&self, user: &AccountId) -> i128 {
        *self.balances.get(&user.key).unwrap_or(&0)
    }

    fn mint(&mut self, user: &AccountId, amount: i128) {
        *self.balances.entry(user.key.clone()).or_insert(0) += amount;
    }

    /// Carries out the transfers atomically; false if the token rejects one.
    fn settle(&mut self, transfers: &[TokenTransfer]) -> bool {
        let mut balances = self.balances.clone();
        let mut pool_balance = self.pool_balance;
        for t in transfers {
            match t {
                TokenTransfer::Deposit { from, amount } => {
                    let b = balances.entry(from.key.clone()).or_insert(0);
                    if *amount < 0 || *b < *amount {
                        return false;
                    }
                    *b -= amount;
                    pool_balance += amount;
                }
                TokenTransfer::Payout { to, amount } => {
                    if *amount < 0 || pool_balance < *amount {
                        return false;
                    }
                    pool_balance -= amount;
                    *balances.entry(to.key.clone()).or_insert(0) += amount;
                }
            }
        }
        self.balances = balances;
        self.pool_balance = pool_balance;
        true
    }

    fn commit(&mut self, user: &AccountId, records: UserRecords) {
        self.users.insert(user.key.clone(), records);
    }

    fn try_stake(&mut self, user: &AccountId, amount: i128) -> Result<(), Failure> {
        let mut rec = self.records(user);
        if let Some(a) = self.pool.check_stake(&rec, amount, self.ledger) {
            return Err(Failure::Abort(a));
        }
        let (t, e) = self.pool.stake(&mut rec, user, amount, self.ledger).map_err(Failure::Error)?;
        if !self.settle(&[t]) {
            return Err(Failure::TokenRejected);
        }
        self.commit(user, rec);
        self.events.push(e);
        Ok(())
    }

    fn stake(&mut self, user: &AccountId, amount: i128) {
        self.try_stake(user, amount).unwrap()
    }

    fn try_unstake(&mut self, user: &AccountId) -> Result<i128, Failure> {
        let mut rec = self.records(user);
        if let Some(a) = self.pool.check_unstake(&rec, self.ledger) {
            return Err(Failure::Abort(a));
        }
        let (credits, t, e) = self.pool.unstake(&mut rec, user, self.ledger).map_err(Failure::Error)?;
        if !self.settle(&[t]) {
            return Err(Failure::TokenRejected);
        }
        self.commit(user, rec);
        self.events.push(e);
        Ok(credits)
    }

    fn unstake(&mut self, user: &AccountId) -> i128 {
        self.try_unstake(user).unwrap()
    }

    fn try_set_boost(&mut self, user: &AccountId, pct: u32) -> Result<(), Failure> {
        let mut rec = self.records(user);
        if let Some(a) = self.pool.check_set_boost(&rec, pct, self.ledger) {
            return Err(Failure::Abort(a));
        }
        let e = self.pool.set_boost(&mut rec, user, pct, self.ledger).map_err(Failure::Error)?;
        self.commit(user, rec);
        self.events.push(e);
        Ok(())
    }

    fn set_boost(&mut self, user: &AccountId, pct: u32) {
        self.try_set_boost(user, pct).unwrap()
    }

    fn get_boost_config(&self, user: &AccountId) -> Option<BoostConfig> {
        self.pool.get_boost_config(&self.records(user)).unwrap()
    }

    fn get_credits(&self, user: &AccountId) -> i128 {
        let rec = self.records(user);
        assert!(self.pool.check_get_credits(&rec, self.ledger).is_none());
        self.pool.get_credits(&rec, self.ledger).unwrap()
    }

    fn get_stake(&self, user: &AccountId) -> Option<UserStake> {
        self.pool.get_stake(&self.records(user)).unwrap()
    }

    fn set_global_multiplier(&mut self, m: u32) {
        if let Some(a) = self.pool.check_set_global_multiplier(m) {
            panic!("{}", a.message());
        }
        let e = self.pool.set_global_multiplier(m).unwrap();
        self.events.push(e);
    }

    fn try_lock_assets(&mut self, user: &AccountId, amount: i128) -> Result<(), Failure> {
        let mut rec = self.records(user);
        if let Some(a) = self.pool.check_lock_assets(&rec, amount, self.ledger) {
            return Err(Failure::Abort(a));
        }
        let (t, e) = self.pool.lock_assets(&mut rec, user, amount, self.ledger).map_err(Failure::Error)?;
        if !self.settle(&[t]) {
            return Err(Failure::TokenRejected);
        }
        self.commit(user, rec);
        self.events.push(e);
        Ok(())
    }

    fn lock_assets(&mut self, user: &AccountId, amount: i128) {
        self.try_lock_assets(user, amount).unwrap()
    }

    fn try_unlock_assets(&mut self, user: &AccountId, amount: i128) -> Result<(), Failure> {
        let mut rec = self.records(user);
        if let Some(a) = self.pool.check_unlock_assets(&rec, amount, self.ledger) {
            return Err(Failure::Abort(a));
        }
        let (t, e) = self.pool.unlock_assets(&mut rec, user, amount, self.ledger).map_err(Failure::Error)?;
        if !self.settle(&[t]) {
            return Err(Failure::TokenRejected);
        }
        self.commit(user, rec);
        self.events.push(e);
        Ok(())
    }

    fn unlock_assets(&mut self, user: &AccountId, amount: i128) {
        self.try_unlock_assets(user, amount).unwrap()
    }

    fn calculate_credits(&self, user: &AccountId) -> i128 {
        let rec = self.records(user);
        assert!(self.pool.check_calculate_credits(&rec, self.ledger).is_none());
        self.pool.calculate_credits(&rec, self.ledger).unwrap()
    }

    fn get_user_position(&self, user: &AccountId) -> Option<Position> {
        self.pool.get_user_position(&self.records(user)).unwrap()
    }

    fn try_pause(&mut self) -> Result<(), Failure> {
        let e = self.pool.pause().map_err(Failure::Error)?;
        self.events.push(e);
        Ok(())
    }

    fn pause(&mut self) {
        self.try_pause().unwrap()
    }

    fn unpause(&mut self) {
        let e = self.pool.unpause().unwrap();
        self.events.push(e);
    }

    fn is_paused(&self) -> bool {
        self.pool.is_paused().unwrap()
    }

    fn try_emergency_withdraw(&mut self, user: &AccountId) -> Result<i128, Failure> {
        let mut rec = self.records(user);
        if let Some(a) = self.pool.check_emergency_withdraw(&rec) {
            return Err(Failure::Abort(a));
        }
        let (total, transfers, e) = self.pool.emergency_withdraw(&mut rec, user).map_err(Failure::Error)?;
        if !self.settle(&transfers) {
            return Err(Failure::TokenRejected);
        }
        self.commit(user, rec);
        self.events.push(e);
        Ok(total)
    }

    fn emergency_withdraw(&mut self, user: &AccountId) -> i128 {
        self.try_emergency_withdraw(user).unwrap()
    }

    fn get_banked_credits(&self, user: &AccountId) -> i128 {
        self.pool.get_banked_credits(&self.records(user))
    }
}

fn setup(global_multiplier: u32, credit_rate: i128) -> TestEnv {
    setup_with_lock_period(global_multiplier, credit_rate, 0)
}

fn setup_uninitialized() -> TestEnv {
    TestEnv {
        pool: FarmingPool::new(),
        users: HashMap::new(),
        balances: HashMap::new(),
        pool_balance: 0,
        ledger: 0,
        events: Vec::new(),
        admin: account("GADMIN"),
        user: account("GUSER"),
    }
}

fn setup_with_lock_period(global_multiplier: u32, credit_rate: i128, min_lock_period: u32) -> TestEnv {
    let mut t = setup_uninitialized();
    assert!(t.pool.check_initialize(global_multiplier, credit_rate).is_none());
    t.pool
        .initialize(t.admin.clone(), account("CTOKEN"), global_multiplier, credit_rate, min_lock_period)
        .unwrap();
    let user = t.user.clone();
    t.mint(&user, 1_000_000_000i128);
    t
}

fn advance_ledgers(t: &mut TestEnv, by: u32) {
    t.ledger += by;
}

#[test]
fn test_stake_uninitialized_returns_not_initialized() {
    let mut t = setup_uninitialized();
    let user = t.user.clone();
    match t.try_stake(&user, 100i128) {
        Err(Failure::Error(PoolError::NotInitialized)) => {}
        _ => panic!("expected PoolError::NotInitialized"),
    }
}

#[test]
fn test_pause_uninitialized_returns_not_initialized() {
    let mut t = setup_uninitialized();
    match t.try_pause() {
        Err(Failure::Error(PoolError::NotInitialized)) => {}
        _ => panic!("expected PoolError::NotInitialized"),
    }
}

// ── Boost calculation unit tests ──────────────────────────────────────────────

#[test]
fn test_effective_stake_no_boost() {
    let stake = compute_total_stake(1_000, 0, 5);
    assert_eq!(stake, 1_000);
}

#[test]
fn test_effective_stake_full_allocation_2x() {
    let stake = compute_total_stake(1_000, 100, 2);
    assert_eq!(stake, 2_000);
}

#[test]
fn test_effective_stake_half_allocation_2x() {
    let stake = compute_total_stake(1_000, 50, 2);
    assert_eq!(stake, 1_500);
}

#[test]
fn test_effective_stake_25pct_allocation_3x() {
    let stake = compute_total_stake(1_000, 25, 3);
    assert_eq!(stake, 1_500);
}

#[test]
fn test_effective_stake_1pct_allocation_10x() {
    let stake = compute_total_stake(1_000, 1, 10);
    assert_eq!(stake, 1_090);
}

// ── Boost system integration tests ───────────────────────────────────────────

#[test]
fn test_set_boost_and_get_config() {
    let mut t = setup(2, 1);
    let u = t.user.clone();
    t.stake(&u, 1_000);
    t.set_boost(&u, 50u32);
    let cfg = t.get_boost_config(&u).expect("boost config should be set");
    assert_eq!(cfg.allocation_pct, 50);
    assert_eq!(cfg.multiplier, 2);
}

#[test]
fn test_get_boost_config_none_before_set() {
    let t = setup(2, 1);
    assert!(t.get_boost_config(&t.user).is_none());
}

#[test]
fn test_credits_without_boost_accrue_at_face_value() {
    let mut t = setup(2, 1);
    let u = t.user.clone();
    t.stake(&u, 1_000);
    advance_ledgers(&mut t, 10);
    assert_eq!(t.get_credits(&u), 1_000 * 10);
}

#[test]
fn test_credits_with_50pct_boost_2x_multiplier() {
    let mut t = setup(2, 1);
    let u = t.user.clone();
    t.stake(&u, 1_000);
    t.set_boost(&u, 50u32);
    advance_ledgers(&mut t, 10);
    assert_eq!(t.get_credits(&u), 1_500 * 10);
}

#[test]
fn test_credits_with_100pct_boost_2x_multiplier() {
    let mut t = setup(2, 1);
    let u = t.user.clone();
    t.stake(&u, 1_000);
    t.set_boost(&u, 100u32);
    advance_ledgers(&mut t, 10);
    assert_eq!(t.get_credits(&u), 2_000 * 10);
}

#[test]
fn test_boost_update_preserves_previously_earned_credits() {
    let mut t = setup(2, 1);
    let u = t.user.clone();
    t.stake(&u, 1_000);
    advance_ledgers(&mut t, 5);
    t.set_boost(&u, 50u32);
    advance_ledgers(&mut t, 5);
    assert_eq!(t.get_credits(&u), 12_500);
}

#[test]
fn test_boost_can_be_updated_repeatedly_without_losing_credits() {
    let mut t = setup(2, 1);
    let u = t.user.clone();
    t.stake(&u, 1_000);
    t.set_boost(&u, 50u32);
    advance_ledgers(&mut t, 10);
    t.set_boost(&u, 100u32);
    advance_ledgers(&mut t, 10);
    assert_eq!(t.get_credits(&u), 15_000 + 20_000);
}

#[test]
fn test_set_boost_rejects_zero_allocation() {
    let mut t = setup(2, 1);
    let u = t.user.clone();
    t.stake(&u, 1_000);
    assert!(t.try_set_boost(&u, 0u32).is_err());
}

#[test]
fn test_set_boost_rejects_over_100_allocation() {
    let mut t = setup(2, 1);
    let u = t.user.clone();
    t.stake(&u, 1_000);
    assert!(t.try_set_boost(&u, 101u32).is_err());
}

#[test]
fn test_admin_sets_global_multiplier() {
    let mut t = setup(2, 1);
    let u = t.user.clone();
    t.set_global_multiplier(3u32);
    t.stake(&u, 1_000);
    t.set_boost(&u, 50u32);
    let cfg = t.get_boost_config(&u).unwrap();
    assert_eq!(cfg.multiplier, 3);
}

#[test]
fn test_admin_multiplier_change_applies_from_next_checkpoint() {
    let mut t = setup(2, 1);
    let u = t.user.clone();
    t.stake(&u, 1_000);
    t.set_boost(&u, 50u32);
    advance_ledgers(&mut t, 10);
    t.set_boost(&u, 50u32);
    t.set_global_multiplier(3u32);
    advance_ledgers(&mut t, 10);
    assert_eq!(t.get_credits(&u), 35_000);
}

#[test]
#[should_panic(expected = "multiplier must be >= 1")]
fn test_admin_multiplier_rejects_zero() {
    let mut t = setup(2, 1);
    t.set_global_multiplier(0u32);
}

#[test]
fn test_unstake_returns_tokens_and_credits() {
    let mut t = setup(2, 1);
    let u = t.user.clone();
    let initial_balance = t.balance(&u);
    t.stake(&u, 1_000);
    t.set_boost(&u, 50u32);
    advance_ledgers(&mut t, 10);

    let credits = t.unstake(&u);
    assert_eq!(credits, 15_000);
    assert_eq!(t.balance(&u), initial_balance);
    assert!(t.get_stake(&u).is_none());
}

#[test]
fn test_additional_stake_checkpoints_credits() {
    let mut t = setup(1, 1);
    let u = t.user.clone();
    t.stake(&u, 1_000);
    advance_ledgers(&mut t, 10);
    t.stake(&u, 500);
    advance_ledgers(&mut t, 10);
    assert_eq!(t.get_credits(&u), 25_000);
}

#[test]
fn test_get_credits_zero_without_stake() {
    let t = setup(2, 1);
    assert_eq!(t.get_credits(&t.user), 0);
}

// ── lock_assets tests ─────────────────────────────────────────────────────────

#[test]
fn test_lock_assets_creates_position() {
    let mut t = setup(1, 1);
    let u = t.user.clone();
    let initial_balance = t.balance(&u);
    t.lock_assets(&u, 500);

    let pos = t.get_user_position(&u).expect("position should exist");
    assert_eq!(pos.amount, 500);
    assert_eq!(pos.total_credits, 0);
    assert_eq!(t.balance(&u), initial_balance - 500);
}

#[test]
fn test_lock_assets_additional_lock_checkpoints_credits() {
    let mut t = setup(1, 1);
    let u = t.user.clone();
    t.lock_assets(&u, 1_000);
    advance_ledgers(&mut t, 10);
    t.lock_assets(&u, 500);

    let pos = t.get_user_position(&u).expect("position should exist");
    assert_eq!(pos.amount, 1_500);
    assert_eq!(pos.total_credits, 10_000);
}

#[test]
fn test_lock_assets_rejects_zero_amount() {
    let mut t = setup(1, 1);
    let u = t.user.clone();
    assert!(t.try_lock_assets(&u, 0i128).is_err());
}

#[test]
fn test_lock_assets_rejects_negative_amount() {
    let mut t = setup(1, 1);
    let u = t.user.clone();
    assert!(t.try_lock_assets(&u, -1i128).is_err());
}

#[test]
fn test_lock_assets_rejects_insufficient_balance() {
    let mut t = setup(1, 1);
    let u = t.user.clone();
    assert!(t.try_lock_assets(&u, 2_000_000_000i128).is_err());
}

#[test]
fn test_lock_assets_emits_event() {
    let mut t = setup(1, 1);
    let u = t.user.clone();
    t.lock_assets(&u, 1_000);
    assert!(!t.events.is_empty(), "lock event not emitted");
}

// ── unlock_assets tests ───────────────────────────────────────────────────────

#[test]
fn test_unlock_assets_full_returns_tokens_and_credits() {
    let mut t = setup(1, 1);
    let u = t.user.clone();
    let initial_balance = t.balance(&u);
    t.lock_assets(&u, 1_000);
    advance_ledgers(&mut t, 10);

    t.unlock_assets(&u, 1_000);

    assert_eq!(t.balance(&u), initial_balance);
    assert!(t.get_user_position(&u).is_none());
    assert_eq!(t.calculate_credits(&u), 0);
}

#[test]
fn test_unlock_assets_partial_keeps_remaining_position() {
    let mut t = setup(1, 1);
    let u = t.user.clone();
    let initial_balance = t.balance(&u);
    t.lock_assets(&u, 1_000);
    advance_ledgers(&mut t, 10);

    t.unlock_assets(&u, 400);

    let pos = t.get_user_position(&u).expect("position should still exist");
    assert_eq!(pos.amount, 600);
    assert_eq!(pos.total_credits, 10_000);
    assert_eq!(t.balance(&u), initial_balance - 600);
}

#[test]
fn test_unlock_assets_rejects_zero_amount() {
    let mut t = setup(1, 1);
    let u = t.user.clone();
    t.lock_assets(&u, 1_000);
    assert!(t.try_unlock_assets(&u, 0i128).is_err());
}

#[test]
fn test_unlock_assets_rejects_more_than_locked() {
    let mut t = setup(1, 1);
    let u = t.user.clone();
    t.lock_assets(&u, 1_000);
    assert!(t.try_unlock_assets(&u, 1_001i128).is_err());
}

#[test]
fn test_unlock_assets_rejects_when_no_position() {
    let mut t = setup(1, 1);
    let u = t.user.clone();
    assert!(t.try_unlock_assets(&u, 100i128).is_err());
}

#[test]
fn test_unlock_assets_emits_event() {
    let mut t = setup(1, 1);
    let u = t.user.clone();
    t.lock_assets(&u, 1_000);
    advance_ledgers(&mut t, 5);
    t.unlock_assets(&u, 1_000);
    assert!(!t.events.is_empty(), "unlock event not emitted");
}

// ── minimum lock period tests ─────────────────────────────────────────────────

#[test]
fn test_unlock_blocked_before_min_lock_period() {
    let mut t = setup_with_lock_period(1, 1, 100);
    let u = t.user.clone();
    t.lock_assets(&u, 1_000);
    advance_ledgers(&mut t, 50);
    assert!(t.try_unlock_assets(&u, 1_000).is_err());
}

#[test]
fn test_unlock_allowed_after_min_lock_period() {
    let mut t = setup_with_lock_period(1, 1, 100);
    let u = t.user.clone();
    t.lock_assets(&u, 1_000);
    advance_ledgers(&mut t, 100);
    t.unlock_assets(&u, 1_000);
    assert!(t.get_user_position(&u).is_none());
}

#[test]
fn test_unlock_allowed_well_past_min_lock_period() {
    let mut t = setup_with_lock_period(1, 1, 10);
    let u = t.user.clone();
    t.lock_assets(&u, 1_000);
    advance_ledgers(&mut t, 500);
    t.unlock_assets(&u, 1_000);
    assert!(t.get_user_position(&u).is_none());
}

// ── calculate_credits tests ───────────────────────────────────────────────────

#[test]
fn test_calculate_credits_zero_without_position() {
    let t = setup(1, 1);
    assert_eq!(t.calculate_credits(&t.user), 0);
}

#[test]
fn test_calculate_credits_accrues_over_time() {
    let mut t = setup(1, 2);
    let u = t.user.clone();
    t.lock_assets(&u, 500);
    advance_ledgers(&mut t, 20);
    assert_eq!(t.calculate_credits(&u), 20_000);
}

#[test]
fn test_calculate_credits_includes_banked_plus_accruing() {
    let mut t = setup(1, 1);
    let u = t.user.clone();
    t.lock_assets(&u, 1_000);
    advance_ledgers(&mut t, 10);
    t.lock_assets(&u, 500);
    advance_ledgers(&mut t, 10);
    assert_eq!(t.calculate_credits(&u), 25_000);
}

#[test]
fn test_calculate_credits_reflects_partial_unlock_checkpoint() {
    let mut t = setup(1, 1);
    let u = t.user.clone();
    t.lock_assets(&u, 1_000);
    advance_ledgers(&mut t, 10);
    t.unlock_assets(&u, 400);
    advance_ledgers(&mut t, 5);
    assert_eq!(t.calculate_credits(&u), 13_000);
}

// ── get_user_position tests ───────────────────────────────────────────────────

#[test]
fn test_get_user_position_none_before_lock() {
    let t = setup(1, 1);
    assert!(t.get_user_position(&t.user).is_none());
}

#[test]
fn test_get_user_position_returns_correct_fields() {
    let mut t = setup(1, 1);
    let u = t.user.clone();
    let start = t.ledger;
    t.lock_assets(&u, 750);

    let pos = t.get_user_position(&u).unwrap();
    assert_eq!(pos.amount, 750);
    assert_eq!(pos.lock_ledger, start);
    assert_eq!(pos.checkpoint_ledger, start);
    assert_eq!(pos.total_credits, 0);
}

#[test]
fn test_get_user_position_none_after_full_unlock() {
    let mut t = setup(1, 1);
    let u = t.user.clone();
    t.lock_assets(&u, 1_000);
    advance_ledgers(&mut t, 5);
    t.unlock_assets(&u, 1_000);
    assert!(t.get_user_position(&u).is_none());
}

// ── pause / unpause tests ─────────────────────────────────────────────────────

#[test]
fn test_pool_not_paused_initially() {
    let t = setup(1, 1);
    assert!(!t.is_paused());
}

#[test]
fn test_pause_blocks_lock_assets() {
    let mut t = setup(1, 1);
    let u = t.user.clone();
    t.pause();
    assert!(t.is_paused());
    assert!(t.try_lock_assets(&u, 100i128).is_err());
}

#[test]
fn test_pause_blocks_unlock_assets() {
    let mut t = setup(1, 1);
    let u = t.user.clone();
    t.lock_assets(&u, 1_000);
    t.pause();
    assert!(t.try_unlock_assets(&u, 1_000).is_err());
}

#[test]
fn test_unpause_restores_operations() {
    let mut t = setup(1, 1);
    let u = t.user.clone();
    t.pause();
    t.unpause();
    assert!(!t.is_paused());
    t.lock_assets(&u, 500);
    t.unlock_assets(&u, 500);
}

#[test]
fn test_pause_emits_event() {
    let mut t = setup(1, 1);
    t.pause();
    assert!(!t.events.is_empty(), "pause event not emitted");
}

#[test]
fn test_unpause_emits_event() {
    let mut t = setup(1, 1);
    t.pause();
    t.unpause();
    assert!(!t.events.is_empty(), "unpause event not emitted");
}

#[test]
fn test_pause_blocks_stake() {
    let mut t = setup(1, 1);
    let u = t.user.clone();
    t.pause();
    assert!(t.try_stake(&u, 100i128).is_err());
}

#[test]
fn test_unpause_restores_stake() {
    let mut t = setup(1, 1);
    let u = t.user.clone();
    t.pause();
    t.unpause();
    t.stake(&u, 500);
    assert_eq!(t.get_stake(&u).unwrap().amount, 500);
}

#[test]
fn test_pause_blocks_unstake() {
    let mut t = setup(1, 1);
    let u = t.user.clone();
    t.stake(&u, 1_000);
    t.pause();
    assert!(t.try_unstake(&u).is_err());
}

#[test]
fn test_unpause_restores_unstake() {
    let mut t = setup(1, 1);
    let u = t.user.clone();
    t.stake(&u, 1_000);
    t.pause();
    t.unpause();
    t.unstake(&u);
    assert!(t.get_stake(&u).is_none());
}

#[test]
fn test_pause_blocks_set_boost() {
    let mut t = setup(1, 1);
    let u = t.user.clone();
    t.stake(&u, 1_000);
    t.pause();
    assert!(t.try_set_boost(&u, 50u32).is_err());
}

#[test]
fn test_unpause_restores_set_boost() {
    let mut t = setup(1, 1);
    let u = t.user.clone();
    t.stake(&u, 1_000);
    t.pause();
    t.unpause();
    t.set_boost(&u, 50u32);
    assert_eq!(t.get_boost_config(&u).unwrap().allocation_pct, 50);
}

#[test]
fn test_set_global_multiplier_callable_while_paused() {
    let mut t = setup(1, 1);
    let u = t.user.clone();
    t.stake(&u, 1_000);
    t.set_boost(&u, 50u32);
    t.pause();
    t.set_global_multiplier(3u32);
    assert_eq!(t.get_boost_config(&u).unwrap().multiplier, 3);
}

// ── multi-user isolation ──────────────────────────────────────────────────────

#[test]
fn test_multiple_users_independent_positions() {
    let mut t = setup(1, 1);
    let u = t.user.clone();
    let user2 = account("GUSER2");
    t.mint(&user2, 500_000i128);

    t.lock_assets(&u, 1_000);
    t.lock_assets(&user2, 2_000);
    advance_ledgers(&mut t, 10);

    assert_eq!(t.calculate_credits(&u), 10_000);
    assert_eq!(t.calculate_credits(&user2), 20_000);
}

#[test]
fn test_one_user_unlock_does_not_affect_another() {
    let mut t = setup(1, 1);
    let u = t.user.clone();
    let user2 = account("GUSER2");
    t.mint(&user2, 500_000i128);

    t.lock_assets(&u, 1_000);
    t.lock_assets(&user2, 2_000);
    advance_ledgers(&mut t, 10);

    t.unlock_assets(&u, 1_000);

    let pos2 = t.get_user_position(&user2).expect("user2 position should exist");
    assert_eq!(pos2.amount, 2_000);
}

// ── emergency_withdraw tests ──────────────────────────────────────────────────

#[test]
fn test_emergency_withdraw_while_paused() {
    let mut t = setup(1, 1);
    let u = t.user.clone();
    let initial_balance = t.balance(&u);

    t.lock_assets(&u, 500);
    t.stake(&u, 300);
    advance_ledgers(&mut t, 10);

    t.lock_assets(&u, 100);
    t.stake(&u, 100);

    t.pause();
    let returned = t.emergency_withdraw(&u);

    assert_eq!(returned, 1_000);
    assert_eq!(t.balance(&u), initial_balance);
    assert!(t.get_user_position(&u).is_none(), "position should be cleared");
    assert!(t.get_stake(&u).is_none(), "stake should be cleared");
    assert_eq!(t.get_banked_credits(&u), 8_000);
}

#[test]
fn test_emergency_withdraw_while_unpaused_returns_not_paused() {
    let mut t = setup(1, 1);
    let u = t.user.clone();
    t.lock_assets(&u, 1_000);

    let result = t.try_emergency_withdraw(&u);
    assert!(matches!(result, Err(Failure::Error(PoolError::NotPaused))));
}

// ── Further cases ─────────────────────────────────────────────────────────────

#[test]
fn test_initialize_twice_returns_already_initialized() {
    let mut t = setup(2, 1);
    let admin = t.admin.clone();
    assert_eq!(
        t.pool.initialize(admin, account("CTOKEN"), 2, 1, 0),
        Err(PoolError::AlreadyInitialized)
    );
}

#[test]
fn test_initialize_rejects_zero_multiplier_and_rate() {
    let t = setup_uninitialized();
    assert_eq!(t.pool.check_initialize(0, 1), Some(PoolAbort::MultiplierBelowOne));
    assert_eq!(t.pool.check_initialize(1, 0), Some(PoolAbort::CreditRateNotPositive));
    assert_eq!(PoolAbort::CreditRateNotPositive.message(), "credit_rate must be positive");
}

#[test]
fn test_compute_credits_exact_value() {
    assert_eq!(smartdrop::farming_math::compute_credits(1_000, 50, 2, 3, 10), 45_000);
}

#[test]
fn test_effective_stake_rounds_toward_zero_for_negative_amounts() {
    assert_eq!(compute_total_stake(-1_000, 25, 3), -1_500);
    assert_eq!(compute_total_stake(-1_001, 1, 10), -1_091);
}

#[test]
fn test_set_credit_rate_rejects_non_positive_and_reports_change() {
    let mut t = setup(1, 1);
    assert_eq!(t.pool.set_credit_rate(0), Err(PoolError::InvalidCreditRate));
    assert_eq!(
        t.pool.set_credit_rate(5),
        Ok(PoolEvent::CreditRateSet { old_rate: 1, new_rate: 5 })
    );
    assert_eq!(t.pool.credit_rate(), Ok(5));
    assert_eq!(t.pool.get_credit_rate(), Ok(5));
}

#[test]
fn test_credit_rate_change_applies_from_next_checkpoint() {
    let mut t = setup(1, 1);
    let u = t.user.clone();
    t.lock_assets(&u, 100);
    t.pool.set_credit_rate(3).unwrap();
    advance_ledgers(&mut t, 10);
    assert_eq!(t.calculate_credits(&u), 1_000);
    t.lock_assets(&u, 100);
    advance_ledgers(&mut t, 10);
    assert_eq!(t.calculate_credits(&u), 1_000 + 200 * 3 * 10);
}

#[test]
fn test_min_lock_period_sets_unlock_ledger_and_saturates() {
    let mut t = setup(1, 1);
    let u = t.user.clone();
    assert_eq!(
        t.pool.set_min_lock_period(7),
        Ok(PoolEvent::LockPeriodSet { old_period: 0, new_period: 7 })
    );
    assert_eq!(t.pool.min_lock_period(), Ok(7));
    assert_eq!(t.pool.get_min_lock_period(), Ok(7));
    advance_ledgers(&mut t, 3);
    t.lock_assets(&u, 10);
    assert_eq!(t.get_user_position(&u).unwrap().unlock_ledger, 10);

    let user2 = account("GUSER2");
    t.mint(&user2, 10);
    t.pool.set_min_lock_period(u32::MAX).unwrap();
    t.lock_assets(&user2, 10);
    assert_eq!(t.get_user_position(&user2).unwrap().unlock_ledger, u32::MAX);
}

#[test]
fn test_emergency_withdraw_without_holdings_returns_no_active_stake() {
    let mut t = setup(1, 1);
    let u = t.user.clone();
    t.pause();
    assert_eq!(t.try_emergency_withdraw(&u), Err(Failure::Error(PoolError::NoActiveStake)));
}

#[test]
fn test_unstake_without_stake_aborts() {
    let mut t = setup(1, 1);
    let u = t.user.clone();
    assert_eq!(t.try_unstake(&u), Err(Failure::Abort(PoolAbort::NoActiveStake)));
}

#[test]
fn test_lock_overflow_aborts() {
    let mut t = setup(1, 1);
    let u = t.user.clone();
    t.mint(&u, i128::MAX - 1_000_000_000);
    t.lock_assets(&u, i128::MAX - 10);
    assert_eq!(t.try_lock_assets(&u, 11), Err(Failure::Abort(PoolAbort::ArithmeticOverflow)));
}

#[test]
fn test_transfer_admin_and_upgrade_events() {
    let mut t = setup(1, 1);
    let new_admin = account("GNEWADMIN");
    let ev = t.pool.transfer_admin(new_admin.clone());
    assert_eq!(ev, PoolEvent::AdminTransferred { old_admin: t.admin.clone(), new_admin: new_admin.clone() });
    assert_eq!(t.pool.admin(), new_admin);
    assert_eq!(t.pool.upgrade([7u8; 32]), Ok(PoolEvent::Upgraded { new_wasm_hash: [7u8; 32] }));
    assert_eq!(FarmingPool::new().upgrade([7u8; 32]), Err(PoolError::NotInitialized));
}

#[test]
fn test_set_boost_keeps_credits_at_the_same_ledger() {
    let mut t = setup(4, 2);
    let u = t.user.clone();
    t.stake(&u, 1_000);
    advance_ledgers(&mut t, 7);
    let before = t.get_credits(&u);
    t.set_boost(&u, 80u32);
    assert_eq!(t.get_credits(&u), before);
    assert_eq!(before, 1_000 * 2 * 7);
}

#[test]
fn test_unstake_returns_what_get_credits_reports() {
    let mut t = setup(3, 2);
    let u = t.user.clone();
    t.stake(&u, 400);
    t.set_boost(&u, 25u32);
    advance_ledgers(&mut t, 9);
    let reported = t.get_credits(&u);
    assert_eq!(reported, (300 + 100 * 3) * 2 * 9);
    assert_eq!(t.unstake(&u), reported);
}

#[test]
fn test_emergency_withdraw_payouts_sum_to_total() {
    let mut t = setup(1, 1);
    let u = t.user.clone();
    t.lock_assets(&u, 250);
    t.stake(&u, 750);
    t.pause();
    let mut rec = t.records(&u);
    let (total, transfers, _) = t.pool.emergency_withdraw(&mut rec, &u).unwrap();
    assert_eq!(total, 1_000);
    assert_eq!(
        transfers,
        vec![
            TokenTransfer::Payout { to: u.clone(), amount: 250 },
            TokenTransfer::Payout { to: u.clone(), amount: 750 },
        ]
    );
    assert_eq!(rec.banked_credits, None);
}

#[test]
fn test_getters_before_initialize_return_not_initialized() {
    let t = setup_uninitialized();
    let rec = UserRecords::new();
    assert_eq!(t.pool.is_paused(), Err(PoolError::NotInitialized));
    assert_eq!(t.pool.credit_rate(), Err(PoolError::NotInitialized));
    assert_eq!(t.pool.get_stake(&rec), Err(PoolError::NotInitialized));
    assert_eq!(t.pool.get_user_position(&rec), Err(PoolError::NotInitialized));
    assert_eq!(t.pool.get_boost_config(&rec), Err(PoolError::NotInitialized));
    assert_eq!(t.pool.calculate_credits(&rec, 0), Err(PoolError::NotInitialized));
    assert_eq!(t.pool.get_banked_credits(&rec), 0);
    assert_eq!(t.pool.require_initialized(), Err(PoolError::NotInitialized));
}

#[test]
fn test_stake_and_unstake_emit_events() {
    let mut t = setup(2, 1);
    let u = t.user.clone();
    t.stake(&u, 1_000);
    assert_eq!(t.events.last(), Some(&PoolEvent::Staked { user: u.clone(), amount: 1_000 }));
    advance_ledgers(&mut t, 4);
    let credits = t.unstake(&u);
    assert_eq!(credits, 4_000);
    assert_eq!(
        t.events.last(),
        Some(&PoolEvent::Unstaked { user: u.clone(), amount: 1_000, total_credits: 4_000 })
    );
}

#[test]
fn test_pause_and_unpause_events_carry_admin() {
    let mut t = setup(1, 1);
    t.pause();
    assert_eq!(t.events.last(), Some(&PoolEvent::Paused { admin: t.admin.clone() }));
    t.unpause();
    assert_eq!(t.events.last(), Some(&PoolEvent::Unpaused { admin: t.admin.clone() }));
}
