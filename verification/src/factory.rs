//! The pool factory: a registry of deployed farming pools.

use vstd::prelude::*;

use std::collections::HashMap;

use crate::account::{AccountId, WasmHash};

verus! {

broadcast use vstd::std_specs::hash::group_hash_axioms;

/// Ledgers per day at the network's ~5 s/ledger target.
pub const LEDGERS_PER_DAY: u128 = 17_280;

/// Largest page that the listing functions return.
pub const MAX_PAGE: u32 = 20;

/// Typed errors returned by the factory.
#[derive(Clone, Copy, Debug, PartialEq, Eq)]
pub enum FactoryError {
    /// `initialize` was called on an already-initialised factory.
    AlreadyInitialized,
    /// No pool is registered under the requested ID.
    PoolNotFound,
    /// The caller is not the admin.
    Unauthorized,
    /// `create_pool`'s `global_multiplier` was < 1.
    InvalidGlobalMultiplier,
    /// `create_pool`'s `daily_rate` converts to a per-ledger rate of zero.
    InvalidCreditRate,
    /// `create_pool`'s `min_lock_period` does not fit in a `u32`.
    MinLockPeriodOutOfRange,
    /// The factory has not been initialised.
    NotInitialized,
    /// Every pool ID has been assigned.
    PoolCountOverflow,
}

/// On-chain record of a registered farming pool; each field mirrors the value
/// passed to the deployed pool's `initialize`.
#[derive(Debug, PartialEq, Eq)]
pub struct PoolRecord {
    /// Address of the deployed farming-pool contract instance.
    pub address: AccountId,
    /// The staking asset of this pool.
    pub asset: AccountId,
    /// Per-ledger credit accrual rate.
    pub credit_rate: i128,
    /// Boost multiplier applied to allocated stake.
    pub global_multiplier: u32,
    /// Minimum number of ledgers a position stays locked.
    pub min_lock_period: u32,
}

impl Clone for PoolRecord {
    fn clone(&self) -> (r: Self)
        ensures
            r == *self,
    {
        PoolRecord {
            address: self.address.clone(),
            asset: self.asset.clone(),
            credit_rate: self.credit_rate,
            global_multiplier: self.global_multiplier,
            min_lock_period: self.min_lock_period,
        }
    }
}

/// A page of the pool registry.
#[derive(Debug, PartialEq, Eq)]
pub struct ListPoolsResponse {
    /// Pool IDs and records in ascending pool ID order.
    pub records: Vec<(u32, PoolRecord)>,
    /// Start ID to use for the next page, or `total` when exhausted.
    pub next_start_id: u32,
    /// Total number of pools registered in the factory.
    pub total: u32,
}

/// Instance settings of an initialised factory.
#[derive(Debug, PartialEq, Eq)]
pub struct FactorySettings {
    pub admin: AccountId,
    /// WASM of the farming pool that `create_pool` deploys.
    pub pool_wasm_hash: WasmHash,
    /// Number of pools created; also the next pool ID.
    pub pool_count: u32,
}

/// Events the factory publishes (topic pair in brackets).
#[derive(Debug, PartialEq, Eq)]
pub enum FactoryEvent {
    /// (`factory`, `adm_xfr`)
    AdminTransferred { old_admin: AccountId, new_admin: AccountId },
    /// (`factory`, `wasm_set`)
    WasmHashSet { old_hash: WasmHash, new_hash: WasmHash },
    /// (`factory`, `pool_crtd`)
    PoolCreated {
        pool_id: u32,
        pool_address: AccountId,
        asset: AccountId,
        credit_rate: i128,
        global_multiplier: u32,
        min_lock_period: u32,
    },
    /// (`factory`, `pool_upg`)
    PoolUpgraded { pool_id: u32, pool_address: AccountId, new_wasm_hash: WasmHash },
}

/// What the host must do to deploy a validated pool: deploy `wasm_hash` with
/// `salt` from the factory, then call the new pool's `initialize` with
/// (`admin`, `asset`, `global_multiplier`, `credit_rate`, `min_lock_period`).
#[derive(Debug, PartialEq, Eq)]
pub struct PoolDeployment {
    pub pool_id: u32,
    pub salt: [u8; 32],
    pub wasm_hash: WasmHash,
    pub admin: AccountId,
    pub asset: AccountId,
    pub credit_rate: i128,
    pub global_multiplier: u32,
    pub min_lock_period: u32,
}

/// What the host must do to upgrade a registered pool: call the pool's
/// `upgrade` with `new_wasm_hash`, then publish `event`.
#[derive(Debug, PartialEq, Eq)]
pub struct PoolUpgrade {
    pub pool_address: AccountId,
    pub new_wasm_hash: WasmHash,
    pub event: FactoryEvent,
}

/// The factory's storage: its instance settings (`None` until `initialize`)
/// and the persistent pool records keyed by pool ID.
#[derive(Debug)]
pub struct Factory {
    pub settings: Option<FactorySettings>,
    pub pools: HashMap<u32, PoolRecord>,
}

// ── Specifications ──────────────────────────────────────────────────────────

/// Byte `i` of a pool's salt: the pool ID big-endian in the last four bytes,
/// zero elsewhere.
pub open spec fn salt_byte(pool_id: u32, i: int) -> u8 {
    if i == 28 {
        ((pool_id >> 24u32) & 0xffu32) as u8
    } else if i == 29 {
        ((pool_id >> 16u32) & 0xffu32) as u8
    } else if i == 30 {
        ((pool_id >> 8u32) & 0xffu32) as u8
    } else if i == 31 {
        (pool_id & 0xffu32) as u8
    } else {
        0u8
    }
}

/// The records stored under IDs `lo..hi`, in ascending ID order.
pub open spec fn records_in_range(m: Map<u32, PoolRecord>, lo: int, hi: int) -> Seq<(u32, PoolRecord)>
    decreases hi - lo,
{
    if hi <= lo {
        Seq::empty()
    } else {
        let prev = records_in_range(m, lo, hi - 1);
        let id = (hi - 1) as u32;
        if m.contains_key(id) {
            prev.push((id, m[id]))
        } else {
            prev
        }
    }
}

/// The IDs under which a record is stored among `lo..hi`, ascending.
pub open spec fn ids_in_range(m: Map<u32, PoolRecord>, lo: int, hi: int) -> Seq<u32>
    decreases hi - lo,
{
    if hi <= lo {
        Seq::empty()
    } else {
        let prev = ids_in_range(m, lo, hi - 1);
        let id = (hi - 1) as u32;
        if m.contains_key(id) {
            prev.push(id)
        } else {
            prev
        }
    }
}

/// The records among IDs `lo..hi` whose staking asset is `asset`, ascending.
pub open spec fn matching_in_range(m: Map<u32, PoolRecord>, asset: Seq<char>, lo: int, hi: int) -> Seq<
    (u32, PoolRecord),
>
    decreases hi - lo,
{
    if hi <= lo {
        Seq::empty()
    } else {
        let prev = matching_in_range(m, asset, lo, hi - 1);
        let id = (hi - 1) as u32;
        if m.contains_key(id) && m[id].asset@ == asset {
            prev.push((id, m[id]))
        } else {
            prev
        }
    }
}

/// Where an asset scan that started at `start` stops: the first ID from
/// `id` on at which `cap` matches have been collected, or `count`.
pub open spec fn scan_stop(m: Map<u32, PoolRecord>, asset: Seq<char>, cap: int, start: int, id: int, count: int) -> int
    decreases count - id,
{
    if id >= count {
        count
    } else if matching_in_range(m, asset, start, id).len() >= cap {
        id
    } else {
        scan_stop(m, asset, cap, start, id + 1, count)
    }
}

/// End of the page that starts at `start_id` with `limit` records requested.
pub open spec fn page_end(count: u32, start_id: u32, limit: u32) -> u32 {
    let capped = if limit < MAX_PAGE { limit } else { MAX_PAGE };
    let sum = start_id + capped;
    let end = if sum > u32::MAX { u32::MAX as int } else { sum };
    if end < count { end as u32 } else { count }
}

impl Factory {
    /// The number of registered pools (0 before initialisation).
    pub open spec fn count(self) -> u32 {
        match self.settings {
            Some(s) => s.pool_count,
            None => 0,
        }
    }
}

// ── Pure helpers ────────────────────────────────────────────────────────────

/// Convert a "credits per day" figure into the pool's per-ledger credit rate.
/// A daily rate below one credit per ledger truncates to zero and is rejected.
pub fn daily_rate_to_credit_rate(daily_rate: u128) -> (r: Result<i128, FactoryError>)
    ensures
        daily_rate < LEDGERS_PER_DAY ==> r == Err::<i128, FactoryError>(FactoryError::InvalidCreditRate),
        daily_rate >= LEDGERS_PER_DAY ==> r == Ok::<i128, FactoryError>((daily_rate / LEDGERS_PER_DAY) as i128),
{
    let per_ledger = daily_rate / LEDGERS_PER_DAY;
    if per_ledger == 0 {
        return Err(FactoryError::InvalidCreditRate);
    }
    Ok(per_ledger as i128)
}

/// The 32-byte deployment salt of a pool: its ID big-endian in the last four
/// bytes, so that each pool gets a unique, reproducible address.
pub fn pool_salt(pool_id: u32) -> (r: [u8; 32])
    ensures
        forall|i: int| 0 <= i < 32 ==> r[i] == salt_byte(pool_id, i),
{
    let mut bytes = [0u8; 32];
    bytes[28] = ((pool_id >> 24u32) & 0xffu32) as u8;
    bytes[29] = ((pool_id >> 16u32) & 0xffu32) as u8;
    bytes[30] = ((pool_id >> 8u32) & 0xffu32) as u8;
    bytes[31] = (pool_id & 0xffu32) as u8;
    bytes
}

/// End of the page that starts at `start_id` when `limit` records are
/// requested of `count`: `limit` is capped at `MAX_PAGE`.
pub fn page_end_for(count: u32, start_id: u32, limit: u32) -> (r: u32)
    ensures
        r == page_end(count, start_id, limit),
{
    let capped = if limit < MAX_PAGE { limit } else { MAX_PAGE };
    let end = start_id.saturating_add(capped);
    if end < count { end } else { count }
}


impl Factory {
    /// An uninitialised factory with no pools.
    pub fn new() -> (r: Factory)
        ensures
            r.settings is None,
            r.pools@ == Map::<u32, PoolRecord>::empty(),
    {
        Factory { settings: None, pools: HashMap::new() }
    }

    /// Initialise the factory once; a second call is rejected.
    pub fn initialize(&mut self, admin: AccountId, pool_wasm_hash: WasmHash) -> (r: Result<(), FactoryError>)
        ensures
            old(self).settings is Some ==> r == Err::<(), FactoryError>(FactoryError::AlreadyInitialized)
                && final(self).settings == old(self).settings && final(self).pools@ == old(self).pools@,
            old(self).settings is None ==> r == Ok::<(), FactoryError>(()) && final(self).settings == Some(
                FactorySettings { admin, pool_wasm_hash, pool_count: 0 },
            ) && final(self).pools@ == old(self).pools@,
    {
        if self.settings.is_some() {
            return Err(FactoryError::AlreadyInitialized);
        }
        self.settings = Some(FactorySettings { admin, pool_wasm_hash, pool_count: 0 });
        Ok(())
    }

    /// `Err(NotInitialized)` unless the factory has been initialised.
    pub fn require_initialized(&self) -> (r: Result<(), FactoryError>)
        ensures
            r == (if self.settings is Some {
                Ok::<(), FactoryError>(())
            } else {
                Err(FactoryError::NotInitialized)
            }),
    {
        if self.settings.is_some() {
            Ok(())
        } else {
            Err(FactoryError::NotInitialized)
        }
    }

    /// The current admin.
    pub fn admin(&self) -> (r: Result<AccountId, FactoryError>)
        ensures
            r == (match self.settings {
                Some(s) => Ok::<AccountId, FactoryError>(s.admin),
                None => Err(FactoryError::NotInitialized),
            }),
    {
        match &self.settings {
            Some(s) => Ok(s.admin.clone()),
            None => Err(FactoryError::NotInitialized),
        }
    }

    /// The WASM hash of the pool implementation this factory deploys.
    pub fn pool_wasm_hash(&self) -> (r: Result<WasmHash, FactoryError>)
        ensures
            r == (match self.settings {
                Some(s) => Ok::<WasmHash, FactoryError>(s.pool_wasm_hash),
                None => Err(FactoryError::NotInitialized),
            }),
    {
        match &self.settings {
            Some(s) => Ok(s.pool_wasm_hash),
            None => Err(FactoryError::NotInitialized),
        }
    }

    /// The number of pools registered by this factory.
    pub fn pool_count(&self) -> (r: Result<u32, FactoryError>)
        ensures
            r == (match self.settings {
                Some(s) => Ok::<u32, FactoryError>(s.pool_count),
                None => Err(FactoryError::NotInitialized),
            }),
    {
        match &self.settings {
            Some(s) => Ok(s.pool_count),
            None => Err(FactoryError::NotInitialized),
        }
    }

    /// The record of pool `pool_id`.
    pub fn get_pool(&self, pool_id: u32) -> (r: Result<PoolRecord, FactoryError>)
        ensures
            r == (if self.settings is None {
                Err(FactoryError::NotInitialized)
            } else if self.pools@.contains_key(pool_id) {
                Ok::<PoolRecord, FactoryError>(self.pools@[pool_id])
            } else {
                Err(FactoryError::PoolNotFound)
            }),
    {
        if self.settings.is_none() {
            return Err(FactoryError::NotInitialized);
        }
        match self.pools.get(&pool_id) {
            Some(r) => Ok(r.clone()),
            None => Err(FactoryError::PoolNotFound),
        }
    }

    /// The records stored under IDs `lo..hi`, ascending.
    fn collect_range(&self, lo: u32, hi: u32) -> (r: Vec<(u32, PoolRecord)>)
        ensures
            r@ == records_in_range(self.pools@, lo as int, hi as int),
    {
        let mut records: Vec<(u32, PoolRecord)> = Vec::new();
        let mut id = lo;
        proof {
            assert(records@ =~= records_in_range(self.pools@, lo as int, lo as int));
        }
        while id < hi
            invariant
                lo <= id,
                lo <= hi ==> id <= hi,
                hi < lo ==> id == lo,
                records@ == records_in_range(self.pools@, lo as int, id as int),
            decreases hi - id,
        {
            match self.pools.get(&id) {
                Some(record) => {
                    records.push((id, record.clone()));
                },
                None => {},
            }
            id = id + 1;
        }
        proof {
            if hi < lo {
                assert(records_in_range(self.pools@, lo as int, hi as int) =~= Seq::<(u32, PoolRecord)>::empty());
            }
        }
        records
    }

    /// A page of pool records in ascending pool ID order, starting at
    /// `start_id`, with at most `min(limit, 20)` IDs scanned.
    pub fn list_pools(&self, start_id: u32, limit: u32) -> (r: Result<ListPoolsResponse, FactoryError>)
        ensures
            self.settings is None ==> r == Err::<ListPoolsResponse, FactoryError>(FactoryError::NotInitialized),
            self.settings is Some ==> {
                let count = self.settings->0.pool_count;
                let end = page_end(count, start_id, limit);
                &&& r is Ok
                &&& r->Ok_0.records@ == records_in_range(self.pools@, start_id as int, end as int)
                &&& r->Ok_0.next_start_id == end
                &&& r->Ok_0.total == count
            },
    {
        let count = match &self.settings {
            Some(s) => s.pool_count,
            None => return Err(FactoryError::NotInitialized),
        };
        let end = page_end_for(count, start_id, limit);
        let records = self.collect_range(start_id, end);
        let next_start_id = if end < count { end } else { count };
        Ok(ListPoolsResponse { records, next_start_id, total: count })
    }

    /// A page of the pools whose staking asset is `asset`, scanning from
    /// `start_id` until `min(limit, 20)` matches are found.
    pub fn get_pools_by_asset(&self, asset: &AccountId, start_id: u32, limit: u32) -> (r: Result<
        ListPoolsResponse,
        FactoryError,
    >)
        ensures
            self.settings is None ==> r == Err::<ListPoolsResponse, FactoryError>(FactoryError::NotInitialized),
            self.settings is Some ==> {
                let count = self.settings->0.pool_count;
                let cap = if limit < MAX_PAGE { limit } else { MAX_PAGE };
                let stop = scan_stop(self.pools@, asset@, cap as int, start_id as int, start_id as int, count as int);
                &&& r is Ok
                &&& r->Ok_0.records@ == matching_in_range(self.pools@, asset@, start_id as int, stop)
                &&& r->Ok_0.next_start_id == (if start_id < count { stop } else { count as int })
                &&& r->Ok_0.total == count
            },
    {
        let count = match &self.settings {
            Some(s) => s.pool_count,
            None => return Err(FactoryError::NotInitialized),
        };
        let cap = if limit < MAX_PAGE { limit } else { MAX_PAGE };
        let mut records: Vec<(u32, PoolRecord)> = Vec::new();
        let mut next_start_id = count;
        let mut id = start_id;
        let ghost m = self.pools@;
        let ghost stop = scan_stop(m, asset@, cap as int, start_id as int, start_id as int, count as int);
        proof {
            assert(records@ =~= matching_in_range(m, asset@, start_id as int, start_id as int));
        }
        while id < count
            invariant_except_break
                next_start_id == count,
            invariant
                start_id <= id,
                start_id < count ==> id <= count,
                start_id >= count ==> id == start_id,
                m == self.pools@,
                records@ == matching_in_range(m, asset@, start_id as int, id as int),
                start_id < count ==> stop == scan_stop(m, asset@, cap as int, start_id as int, id as int, count as int),
            ensures
                next_start_id == count && id >= count || next_start_id == id && id < count && stop == id as int,
            decreases count - id,
        {
            if records.len() as u64 >= cap as u64 {
                next_start_id = id;
                break;
            }
            match self.pools.get(&id) {
                Some(record) => {
                    if record.asset.same_as(asset) {
                        records.push((id, record.clone()));
                    }
                },
                None => {},
            }
            id = id + 1;
        }
        proof {
            if start_id >= count {
                assert(matching_in_range(m, asset@, start_id as int, id as int) =~= Seq::<(u32, PoolRecord)>::empty());
                assert(matching_in_range(m, asset@, start_id as int, stop) =~= Seq::<(u32, PoolRecord)>::empty());
            }
        }
        Ok(ListPoolsResponse { records, next_start_id, total: count })
    }
}


impl Factory {
    /// The pool IDs whose records a keeper call refreshes: the stored ones
    /// among the page starting at `start_id` with `min(limit, 20)` IDs.
    pub fn refresh_pool_ttls(&self, start_id: u32, limit: u32) -> (r: Vec<u32>)
        ensures
            r@ == ids_in_range(self.pools@, start_id as int, page_end(self.count(), start_id, limit) as int),
    {
        let count = match &self.settings {
            Some(s) => s.pool_count,
            None => 0,
        };
        let end = page_end_for(count, start_id, limit);
        let mut ids: Vec<u32> = Vec::new();
        let mut id = start_id;
        proof {
            assert(ids@ =~= ids_in_range(self.pools@, start_id as int, start_id as int));
        }
        while id < end
            invariant
                start_id <= id,
                start_id <= end ==> id <= end,
                end < start_id ==> id == start_id,
                ids@ == ids_in_range(self.pools@, start_id as int, id as int),
            decreases end - id,
        {
            if self.pools.contains_key(&id) {
                ids.push(id);
            }
            id = id + 1;
        }
        proof {
            if end < start_id {
                assert(ids_in_range(self.pools@, start_id as int, end as int) =~= Seq::<u32>::empty());
            }
        }
        ids
    }

    /// Hand admin rights to `new_admin`; the current admin authorises.
    pub fn transfer_admin(&mut self, new_admin: AccountId) -> (r: Result<FactoryEvent, FactoryError>)
        ensures
            final(self).pools@ == old(self).pools@,
            old(self).settings is None ==> r == Err::<FactoryEvent, FactoryError>(FactoryError::NotInitialized)
                && final(self).settings == old(self).settings,
            old(self).settings is Some ==> r == Ok::<FactoryEvent, FactoryError>(
                FactoryEvent::AdminTransferred { old_admin: old(self).settings->0.admin, new_admin },
            ) && final(self).settings == Some(FactorySettings { admin: new_admin, ..old(self).settings->0 }),
    {
        match self.settings.take() {
            None => Err(FactoryError::NotInitialized),
            Some(mut settings) => {
                let old_admin = settings.admin;
                settings.admin = new_admin.clone();
                self.settings = Some(settings);
                Ok(FactoryEvent::AdminTransferred { old_admin, new_admin })
            },
        }
    }

    /// Point future deployments at `new_hash`; the admin authorises. Pools
    /// already deployed are unaffected.
    pub fn set_pool_wasm_hash(&mut self, new_hash: WasmHash) -> (r: Result<FactoryEvent, FactoryError>)
        ensures
            final(self).pools@ == old(self).pools@,
            old(self).settings is None ==> r == Err::<FactoryEvent, FactoryError>(FactoryError::NotInitialized)
                && final(self).settings == old(self).settings,
            old(self).settings is Some ==> r == Ok::<FactoryEvent, FactoryError>(
                FactoryEvent::WasmHashSet { old_hash: old(self).settings->0.pool_wasm_hash, new_hash },
            ) && final(self).settings == Some(
                FactorySettings { pool_wasm_hash: new_hash, ..old(self).settings->0 },
            ),
    {
        match self.settings.take() {
            None => Err(FactoryError::NotInitialized),
            Some(mut settings) => {
                let old_hash = settings.pool_wasm_hash;
                settings.pool_wasm_hash = new_hash;
                self.settings = Some(settings);
                Ok(FactoryEvent::WasmHashSet { old_hash, new_hash })
            },
        }
    }

    /// Validate a pool creation and plan its deployment; the admin
    /// authorises. The new pool gets the next pool ID, the factory's admin
    /// and the per-ledger rate converted from `daily_rate`.
    pub fn create_pool(&self, asset: &AccountId, daily_rate: u128, global_multiplier: u32, min_lock_period: u64) -> (r:
        Result<PoolDeployment, FactoryError>)
        ensures
            ({
                match self.settings {
                    None => r == Err::<PoolDeployment, FactoryError>(FactoryError::NotInitialized),
                    Some(s) => if global_multiplier < 1 {
                        r == Err::<PoolDeployment, FactoryError>(FactoryError::InvalidGlobalMultiplier)
                    } else if daily_rate < LEDGERS_PER_DAY {
                        r == Err::<PoolDeployment, FactoryError>(FactoryError::InvalidCreditRate)
                    } else if min_lock_period > u32::MAX {
                        r == Err::<PoolDeployment, FactoryError>(FactoryError::MinLockPeriodOutOfRange)
                    } else if s.pool_count == u32::MAX {
                        r == Err::<PoolDeployment, FactoryError>(FactoryError::PoolCountOverflow)
                    } else {
                        &&& r is Ok
                        &&& r->Ok_0.pool_id == s.pool_count
                        &&& forall|i: int| 0 <= i < 32 ==> r->Ok_0.salt[i] == salt_byte(s.pool_count, i)
                        &&& r->Ok_0.wasm_hash == s.pool_wasm_hash
                        &&& r->Ok_0.admin == s.admin
                        &&& r->Ok_0.asset == *asset
                        &&& r->Ok_0.credit_rate == (daily_rate / LEDGERS_PER_DAY) as i128
                        &&& r->Ok_0.global_multiplier == global_multiplier
                        &&& r->Ok_0.min_lock_period == min_lock_period as u32
                    },
                }
            }),
    {
        let settings = match &self.settings {
            Some(s) => s,
            None => return Err(FactoryError::NotInitialized),
        };
        if global_multiplier < 1 {
            return Err(FactoryError::InvalidGlobalMultiplier);
        }
        let credit_rate = match daily_rate_to_credit_rate(daily_rate) {
            Ok(rate) => rate,
            Err(e) => return Err(e),
        };
        let min_lock_period: u32 = match u32::try_from(min_lock_period) {
            Ok(p) => p,
            Err(_) => return Err(FactoryError::MinLockPeriodOutOfRange),
        };
        let pool_id = settings.pool_count;
        if pool_id == u32::MAX {
            return Err(FactoryError::PoolCountOverflow);
        }
        Ok(
            PoolDeployment {
                pool_id,
                salt: pool_salt(pool_id),
                wasm_hash: settings.pool_wasm_hash,
                admin: settings.admin.clone(),
                asset: asset.clone(),
                credit_rate,
                global_multiplier,
                min_lock_period,
            },
        )
    }

    /// Register a pool deployed at `pool_address` under the ID that
    /// `create_pool` planned, and advance the pool count.
    pub fn complete_pool_creation(&mut self, deployment: PoolDeployment, pool_address: AccountId) -> (r: (u32, FactoryEvent))
        requires
            old(self).settings is Some,
            deployment.pool_id == old(self).settings->0.pool_count,
            deployment.pool_id < u32::MAX,
        ensures
            r.0 == deployment.pool_id,
            final(self).settings == Some(
                FactorySettings { pool_count: (deployment.pool_id + 1) as u32, ..old(self).settings->0 },
            ),
            final(self).pools@ == old(self).pools@.insert(
                deployment.pool_id,
                PoolRecord {
                    address: pool_address,
                    asset: deployment.asset,
                    credit_rate: deployment.credit_rate,
                    global_multiplier: deployment.global_multiplier,
                    min_lock_period: deployment.min_lock_period,
                },
            ),
            r.1 == (FactoryEvent::PoolCreated {
                pool_id: deployment.pool_id,
                pool_address,
                asset: deployment.asset,
                credit_rate: deployment.credit_rate,
                global_multiplier: deployment.global_multiplier,
                min_lock_period: deployment.min_lock_period,
            }),
    {
        let pool_id = deployment.pool_id;
        let record = PoolRecord {
            address: pool_address.clone(),
            asset: deployment.asset.clone(),
            credit_rate: deployment.credit_rate,
            global_multiplier: deployment.global_multiplier,
            min_lock_period: deployment.min_lock_period,
        };
        self.pools.insert(pool_id, record);
        let mut settings = self.settings.take().unwrap();
        settings.pool_count = pool_id + 1;
        self.settings = Some(settings);
        let event = FactoryEvent::PoolCreated {
            pool_id,
            pool_address,
            asset: deployment.asset,
            credit_rate: deployment.credit_rate,
            global_multiplier: deployment.global_multiplier,
            min_lock_period: deployment.min_lock_period,
        };
        (pool_id, event)
    }

    /// Plan the upgrade of registered pool `pool_id` to `new_wasm_hash`; the
    /// admin authorises. The factory's own default hash is unchanged.
    pub fn upgrade_pool(&self, pool_id: u32, new_wasm_hash: WasmHash) -> (r: Result<PoolUpgrade, FactoryError>)
        ensures
            self.settings is None ==> r == Err::<PoolUpgrade, FactoryError>(FactoryError::NotInitialized),
            self.settings is Some && !self.pools@.contains_key(pool_id) ==> r == Err::<PoolUpgrade, FactoryError>(
                FactoryError::PoolNotFound,
            ),
            self.settings is Some && self.pools@.contains_key(pool_id) ==> r == Ok::<PoolUpgrade, FactoryError>(
                PoolUpgrade {
                    pool_address: self.pools@[pool_id].address,
                    new_wasm_hash,
                    event: FactoryEvent::PoolUpgraded {
                        pool_id,
                        pool_address: self.pools@[pool_id].address,
                        new_wasm_hash,
                    },
                },
            ),
    {
        if self.settings.is_none() {
            return Err(FactoryError::NotInitialized);
        }
        let record = match self.pools.get(&pool_id) {
            Some(r) => r,
            None => return Err(FactoryError::PoolNotFound),
        };
        Ok(
            PoolUpgrade {
                pool_address: record.address.clone(),
                new_wasm_hash,
                event: FactoryEvent::PoolUpgraded { pool_id, pool_address: record.address.clone(), new_wasm_hash },
            },
        )
    }
}

} // verus!
