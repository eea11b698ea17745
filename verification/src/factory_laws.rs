//! Laws of the pool registry.

use vstd::prelude::*;

use crate::factory::{
    matching_in_range, page_end, records_in_range, salt_byte, scan_stop, PoolRecord, LEDGERS_PER_DAY,
    MAX_PAGE,
};

verus! {

/// Distinct pool IDs get distinct deployment salts, so each pool gets its own
/// address.
pub proof fn law_salts_are_unique(a: u32, b: u32)
    requires
        forall|i: int| 0 <= i < 32 ==> salt_byte(a, i) == salt_byte(b, i),
    ensures
        a == b,
{
    assert(salt_byte(a, 28) == salt_byte(b, 28));
    assert(salt_byte(a, 29) == salt_byte(b, 29));
    assert(salt_byte(a, 30) == salt_byte(b, 30));
    assert(salt_byte(a, 31) == salt_byte(b, 31));
    assert(a == b) by (bit_vector)
        requires
            ((a >> 24u32) & 0xffu32) as u8 == ((b >> 24u32) & 0xffu32) as u8,
            ((a >> 16u32) & 0xffu32) as u8 == ((b >> 16u32) & 0xffu32) as u8,
            ((a >> 8u32) & 0xffu32) as u8 == ((b >> 8u32) & 0xffu32) as u8,
            (a & 0xffu32) as u8 == (b & 0xffu32) as u8,
    ;
}

/// The per-ledger rate is the daily rate divided by the ledgers per day,
/// rounded down: it never credits more per day than requested, and misses
/// less than one credit per ledger.
pub proof fn law_rate_conversion_rounds_down(daily_rate: u128)
    ensures
        (daily_rate / LEDGERS_PER_DAY) * LEDGERS_PER_DAY <= daily_rate,
        daily_rate < (daily_rate / LEDGERS_PER_DAY + 1) * LEDGERS_PER_DAY,
{
    let d = daily_rate as int;
    let q = d / 17280;
    let r = d % 17280;
    vstd::arithmetic::div_mod::lemma_fundamental_div_mod(d, 17280);
    assert(q * 17280 + r == d);
}

/// A page never extends past the registry, and never spans more than
/// `MAX_PAGE` IDs.
pub proof fn law_page_is_bounded(count: u32, start_id: u32, limit: u32)
    ensures
        page_end(count, start_id, limit) <= count,
        start_id <= page_end(count, start_id, limit) ==> page_end(count, start_id, limit) - start_id <= MAX_PAGE,
        start_id <= page_end(count, start_id, limit) ==> page_end(count, start_id, limit) - start_id <= limit,
{
}

/// Every record of a page is the one stored under its ID, IDs lie in the page
/// and strictly increase, and the page holds at most one record per ID.
pub proof fn law_page_records_are_ordered(m: Map<u32, PoolRecord>, lo: int, hi: int)
    requires
        0 <= lo,
        hi <= u32::MAX + 1,
    ensures
        ({
            let s = records_in_range(m, lo, hi);
            &&& lo <= hi ==> s.len() <= hi - lo
            &&& forall|i: int| 0 <= i < s.len() ==> lo <= #[trigger] s[i].0 < hi && m.contains_key(s[i].0)
                && m[s[i].0] == s[i].1
            &&& forall|i: int, j: int| 0 <= i < j < s.len() ==> #[trigger] s[i].0 < #[trigger] s[j].0
        }),
    decreases hi - lo,
{
    if hi > lo {
        law_page_records_are_ordered(m, lo, hi - 1);
        let prev = records_in_range(m, lo, hi - 1);
        let id = (hi - 1) as u32;
        assert(id as int == hi - 1);
        if m.contains_key(id) {
            let s = prev.push((id, m[id]));
            assert forall|i: int| 0 <= i < s.len() implies lo <= #[trigger] s[i].0 < hi && m.contains_key(s[i].0)
                && m[s[i].0] == s[i].1 by {
                if i < prev.len() {
                    assert(s[i] == prev[i]);
                }
            }
            assert forall|i: int, j: int| 0 <= i < j < s.len() implies #[trigger] s[i].0 < #[trigger] s[j].0 by {
                assert(s[i] == prev[i]);
                if j < prev.len() {
                    assert(s[j] == prev[j]);
                }
            }
        }
    }
}

/// Paging is seamless: the page up to `mid` followed by the page from `mid`
/// holds exactly the records of the whole range.
pub proof fn law_consecutive_pages_cover_range(m: Map<u32, PoolRecord>, lo: int, mid: int, hi: int)
    requires
        lo <= mid <= hi,
    ensures
        records_in_range(m, lo, mid) + records_in_range(m, mid, hi) == records_in_range(m, lo, hi),
    decreases hi - mid,
{
    if hi == mid {
        assert(records_in_range(m, mid, hi) =~= Seq::<(u32, PoolRecord)>::empty());
        assert(records_in_range(m, lo, mid) + records_in_range(m, mid, hi) =~= records_in_range(m, lo, mid));
    } else {
        law_consecutive_pages_cover_range(m, lo, mid, hi - 1);
        let id = (hi - 1) as u32;
        if m.contains_key(id) {
            assert(records_in_range(m, lo, mid) + records_in_range(m, mid, hi) =~= (records_in_range(m, lo, mid)
                + records_in_range(m, mid, hi - 1)).push((id, m[id])));
        }
    }
}

/// A search by asset returns only records of that asset, each stored under
/// its ID, in ascending ID order.
pub proof fn law_asset_search_matches(m: Map<u32, PoolRecord>, asset: Seq<char>, lo: int, hi: int)
    requires
        0 <= lo,
        hi <= u32::MAX + 1,
    ensures
        ({
            let s = matching_in_range(m, asset, lo, hi);
            &&& forall|i: int| 0 <= i < s.len() ==> lo <= #[trigger] s[i].0 < hi && m.contains_key(s[i].0)
                && m[s[i].0] == s[i].1 && s[i].1.asset@ == asset
            &&& forall|i: int, j: int| 0 <= i < j < s.len() ==> #[trigger] s[i].0 < #[trigger] s[j].0
        }),
    decreases hi - lo,
{
    if hi > lo {
        law_asset_search_matches(m, asset, lo, hi - 1);
        let prev = matching_in_range(m, asset, lo, hi - 1);
        let id = (hi - 1) as u32;
        assert(id as int == hi - 1);
        if m.contains_key(id) && m[id].asset@ == asset {
            let s = prev.push((id, m[id]));
            assert forall|i: int| 0 <= i < s.len() implies lo <= #[trigger] s[i].0 < hi && m.contains_key(s[i].0)
                && m[s[i].0] == s[i].1 && s[i].1.asset@ == asset by {
                if i < prev.len() {
                    assert(s[i] == prev[i]);
                }
            }
            assert forall|i: int, j: int| 0 <= i < j < s.len() implies #[trigger] s[i].0 < #[trigger] s[j].0 by {
                assert(s[i] == prev[i]);
                if j < prev.len() {
                    assert(s[j] == prev[j]);
                }
            }
        }
    }
}

/// A created pool reads back exactly as registered, and registering it
/// leaves every other pool untouched.
pub proof fn law_registered_pool_reads_back(m: Map<u32, PoolRecord>, pool_id: u32, record: PoolRecord, other: u32)
    requires
        other != pool_id,
    ensures
        m.insert(pool_id, record).contains_key(pool_id),
        m.insert(pool_id, record)[pool_id] == record,
        m.insert(pool_id, record).contains_key(other) == m.contains_key(other),
        m.insert(pool_id, record)[other] == m[other],
{
}

/// Extending a search range by one ID adds at most one match.
proof fn lemma_matching_step(m: Map<u32, PoolRecord>, asset: Seq<char>, lo: int, hi: int)
    requires
        lo <= hi,
    ensures
        matching_in_range(m, asset, lo, hi).len() <= matching_in_range(m, asset, lo, hi + 1).len()
            <= matching_in_range(m, asset, lo, hi).len() + 1,
{
}

/// A search by asset that starts at `start` never returns more than `cap`
/// records: it stops as soon as `cap` matches are collected.
pub proof fn law_asset_page_is_bounded(
    m: Map<u32, PoolRecord>,
    asset: Seq<char>,
    cap: int,
    start: int,
    id: int,
    count: int,
)
    requires
        0 <= cap,
        start <= id <= count,
        matching_in_range(m, asset, start, id).len() <= cap,
    ensures
        matching_in_range(m, asset, start, scan_stop(m, asset, cap, start, id, count)).len() <= cap,
        id <= scan_stop(m, asset, cap, start, id, count) <= count,
    decreases count - id,
{
    if id < count && matching_in_range(m, asset, start, id).len() < cap {
        lemma_matching_step(m, asset, start, id);
        law_asset_page_is_bounded(m, asset, cap, start, id + 1, count);
    }
}

/// Searching by asset is seamless across pages: the matches up to `mid`
/// followed by the matches from `mid` are exactly the matches of the whole
/// range.
pub proof fn law_consecutive_asset_pages_cover_range(
    m: Map<u32, PoolRecord>,
    asset: Seq<char>,
    lo: int,
    mid: int,
    hi: int,
)
    requires
        lo <= mid <= hi,
    ensures
        matching_in_range(m, asset, lo, mid) + matching_in_range(m, asset, mid, hi) == matching_in_range(
            m,
            asset,
            lo,
            hi,
        ),
    decreases hi - mid,
{
    if hi == mid {
        assert(matching_in_range(m, asset, mid, hi) =~= Seq::<(u32, PoolRecord)>::empty());
        assert(matching_in_range(m, asset, lo, mid) + matching_in_range(m, asset, mid, hi) =~= matching_in_range(
            m,
            asset,
            lo,
            mid,
        ));
    } else {
        law_consecutive_asset_pages_cover_range(m, asset, lo, mid, hi - 1);
        let id = (hi - 1) as u32;
        if m.contains_key(id) && m[id].asset@ == asset {
            assert(matching_in_range(m, asset, lo, mid) + matching_in_range(m, asset, mid, hi) =~= (
            matching_in_range(m, asset, lo, mid) + matching_in_range(m, asset, mid, hi - 1)).push((id, m[id])));
        }
    }
}

} // verus!

verus! {

/// Pages are complete: every pool stored under an ID of the page's range is
/// listed in it, with its stored record.
pub proof fn law_page_lists_every_stored_pool(m: Map<u32, PoolRecord>, lo: int, hi: int, id: u32)
    requires
        0 <= lo,
        hi <= u32::MAX + 1,
        lo <= id < hi,
        m.contains_key(id),
    ensures
        exists|i: int|
            0 <= i < records_in_range(m, lo, hi).len() && #[trigger] records_in_range(m, lo, hi)[i] == (
            id,
            m[id],
        ),
    decreases hi - lo,
{
    let last = (hi - 1) as u32;
    assert(last as int == hi - 1);
    let prev = records_in_range(m, lo, hi - 1);
    assert(records_in_range(m, lo, hi) == if m.contains_key(last) {
        prev.push((last, m[last]))
    } else {
        prev
    });
    if id as int == hi - 1 {
        assert(last == id);
        assert(records_in_range(m, lo, hi)[prev.len() as int] == (id, m[id]));
    } else {
        law_page_lists_every_stored_pool(m, lo, hi - 1, id);
        let i = choose|i: int| 0 <= i < prev.len() && #[trigger] prev[i] == (id, m[id]);
        assert(records_in_range(m, lo, hi)[i] == (id, m[id]));
    }
}

/// Asset searches are complete: every pool stored under an ID of the range
/// whose staking asset is `asset` is found, with its stored record.
pub proof fn law_asset_search_finds_every_match(
    m: Map<u32, PoolRecord>,
    asset: Seq<char>,
    lo: int,
    hi: int,
    id: u32,
)
    requires
        0 <= lo,
        hi <= u32::MAX + 1,
        lo <= id < hi,
        m.contains_key(id),
        m[id].asset@ == asset,
    ensures
        exists|i: int|
            0 <= i < matching_in_range(m, asset, lo, hi).len() && #[trigger] matching_in_range(
                m,
                asset,
                lo,
                hi,
            )[i] == (id, m[id]),
    decreases hi - lo,
{
    let last = (hi - 1) as u32;
    assert(last as int == hi - 1);
    let prev = matching_in_range(m, asset, lo, hi - 1);
    assert(matching_in_range(m, asset, lo, hi) == if m.contains_key(last) && m[last].asset@ == asset {
        prev.push((last, m[last]))
    } else {
        prev
    });
    if id as int == hi - 1 {
        assert(last == id);
        assert(matching_in_range(m, asset, lo, hi)[prev.len() as int] == (id, m[id]));
    } else {
        law_asset_search_finds_every_match(m, asset, lo, hi - 1, id);
        let i = choose|i: int| 0 <= i < prev.len() && #[trigger] prev[i] == (id, m[id]);
        assert(matching_in_range(m, asset, lo, hi)[i] == (id, m[id]));
    }
}

} // verus!
