use vstd::prelude::*;

verus! {

/// `x` clamped into the range of `i128`.
pub open spec fn clamp_i128(x: int) -> i128 {
    if x < i128::MIN {
        i128::MIN
    } else if x > i128::MAX {
        i128::MAX
    } else {
        x as i128
    }
}

/// `a - b`, saturating at the bounds of `i128`.
pub fn sat_sub(a: i128, b: i128) -> (r: i128)
    ensures
        r == clamp_i128(a - b),
{
    match a.checked_sub(b) {
        Some(v) => v,
        None => if b > 0 {
            i128::MIN
        } else {
            i128::MAX
        },
    }
}

/// `a + b`, saturating at the bounds of `i128`.
pub fn sat_add(a: i128, b: i128) -> (r: i128)
    ensures
        r == clamp_i128(a + b),
{
    match a.checked_add(b) {
        Some(v) => v,
        None => if b > 0 {
            i128::MAX
        } else {
            i128::MIN
        },
    }
}

/// `basis * bps / 10_000`, truncated toward zero; `None` when the product overflows.
pub open spec fn bps_of(basis: i128, bps: i128) -> Option<i128> {
    match basis.checked_mul(bps) {
        Some(m) => m.checked_div(10_000),
        None => None,
    }
}

/// The gross coupon on `basis` at `yield_bps`, and the protocol fee of `fee_bps` on
/// it (no fee unless both the rate and the coupon are positive); `None` on overflow.
pub open spec fn coupon_split(basis: i128, yield_bps: i64, fee_bps: i64) -> Option<(i128, i128)> {
    match bps_of(basis, yield_bps as i128) {
        Some(gross) => if fee_bps > 0 && gross > 0 {
            match bps_of(gross, fee_bps as i128) {
                Some(fee) => Some((gross, fee)),
                None => None,
            }
        } else {
            Some((gross, 0))
        },
        None => None,
    }
}

/// Compute [`bps_of`].
pub fn apply_bps(basis: i128, bps: i128) -> (r: Option<i128>)
    ensures
        r == bps_of(basis, bps),
{
    match basis.checked_mul(bps) {
        Some(m) => m.checked_div(10_000),
        None => None,
    }
}

/// Compute [`coupon_split`].
pub fn split_coupon(basis: i128, yield_bps: i64, fee_bps: i64) -> (r: Option<(i128, i128)>)
    ensures
        r == coupon_split(basis, yield_bps, fee_bps),
{
    match apply_bps(basis, yield_bps as i128) {
        Some(gross) => if fee_bps > 0 && gross > 0 {
            match apply_bps(gross, fee_bps as i128) {
                Some(fee) => Some((gross, fee)),
                None => None,
            }
        } else {
            Some((gross, 0))
        },
        None => None,
    }
}

} // verus!
