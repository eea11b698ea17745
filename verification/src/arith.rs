//! Integer helpers shared by the contracts.

use vstd::prelude::*;

verus! {

/// `x` is representable as an `i128`.
pub open spec fn fits_i128(x: int) -> bool {
    i128::MIN <= x <= i128::MAX
}

/// Integer division rounding toward zero, as Rust's `/` does on signed
/// integers (`b > 0`).
pub open spec fn div_trunc(a: int, b: int) -> int {
    if a >= 0 {
        a / b
    } else {
        -((-a) / b)
    }
}

/// Ledgers elapsed from `since` to `now`, or 0 if `now` is earlier
/// (`u32::saturating_sub`).
pub open spec fn ledgers_since(now: u32, since: u32) -> u32 {
    if now >= since {
        (now - since) as u32
    } else {
        0
    }
}

/// `u32::saturating_add`.
pub open spec fn saturating_add_u32(a: u32, b: u32) -> u32 {
    if a + b > u32::MAX {
        u32::MAX
    } else {
        (a + b) as u32
    }
}

/// Ledgers elapsed from `since` to `now`, saturating at 0.
pub fn elapsed_ledgers(now: u32, since: u32) -> (r: u32)
    ensures
        r == ledgers_since(now, since),
{
    now.saturating_sub(since)
}

} // verus!
