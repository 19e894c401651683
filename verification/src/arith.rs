use vstd::prelude::*;

verus! {

/// Clamp a mathematical integer into the i64 range.
pub open spec fn clip_i64(x: int) -> i64 {
    if x > i64::MAX {
        i64::MAX
    } else if x < i64::MIN {
        i64::MIN
    } else {
        x as i64
    }
}

/// Saturating addition on i64.
pub fn sat_add_i64(a: i64, b: i64) -> (r: i64)
    ensures
        r == clip_i64(a + b),
{
    match a.checked_add(b) {
        Some(v) => v,
        None => {
            if b >= 0 {
                i64::MAX
            } else {
                i64::MIN
            }
        },
    }
}

/// Saturating multiplication on i64.
pub fn sat_mul_i64(a: i64, b: i64) -> (r: i64)
    ensures
        r == clip_i64(a * b),
{
    match a.checked_mul(b) {
        Some(v) => v,
        None => {
            proof {
                assert(a * b > i64::MAX || a * b < i64::MIN);
                assert((a > 0 && b > 0) || (a < 0 && b < 0) ==> a * b > 0) by (nonlinear_arith);
                assert((a > 0 && b < 0) || (a < 0 && b > 0) ==> a * b < 0) by (nonlinear_arith);
                assert(a == 0 || b == 0 ==> a * b == 0) by (nonlinear_arith);
            }
            if (a > 0) == (b > 0) {
                i64::MAX
            } else {
                i64::MIN
            }
        },
    }
}

/// Clamp a length into the i64 range for exposure as a gauge.
pub fn len_i64(n: usize) -> (r: i64)
    ensures
        r == clip_i64(n as int),
{
    if (n as u64) > (i64::MAX as u64) {
        i64::MAX
    } else {
        n as i64
    }
}

/// Clamp a mathematical integer into the u64 range.
pub open spec fn clip_u64(x: int) -> u64 {
    if x > u64::MAX {
        u64::MAX
    } else if x < 0 {
        0
    } else {
        x as u64
    }
}

/// Saturating addition on u64.
pub fn sat_add_u64(a: u64, b: u64) -> (r: u64)
    ensures
        r == clip_u64(a + b),
{
    match a.checked_add(b) {
        Some(v) => v,
        None => u64::MAX,
    }
}

} // verus!
