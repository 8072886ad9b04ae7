//! Basis-point arithmetic helpers for fee computation.

use vstd::prelude::*;

verus! {

/// Multiplies `value` by `bps` and divides by `divisor`, in 128-bit
/// arithmetic so that the product of two 64-bit inputs cannot overflow.
///
/// Returns `None` exactly when `divisor` is zero.
pub fn bps_mul_raw(bps: u64, value: u64, divisor: u64) -> (r: Option<u128>)
    ensures
        r == if divisor == 0 {
            None::<u128>
        } else {
            (Some((value * bps / (divisor as int)) as u128))
        },
{
    proof {
        assert((value as int) * (bps as int) <= (u64::MAX as int) * (u64::MAX as int))
            by (nonlinear_arith)
            requires
                value <= u64::MAX,
                bps <= u64::MAX,
        ;
    }
    match (value as u128).checked_mul(bps as u128) {
        Some(product) => product.checked_div(divisor as u128),
        None => None,
    }
}

/// Multiplies `value` by `bps` and divides by `divisor`, narrowing the
/// result back to 64 bits.
///
/// Returns `None` when `divisor` is zero or the quotient exceeds `u64::MAX`.
pub fn bps_mul(bps: u64, value: u64, divisor: u64) -> (r: Option<u64>)
    ensures
        r == if divisor == 0 || value * bps / (divisor as int) > u64::MAX {
            None::<u64>
        } else {
            (Some((value * bps / (divisor as int)) as u64))
        },
{
    proof {
        if divisor != 0 {
            assert(0 <= value * bps / (divisor as int) <= (u64::MAX as int) * (u64::MAX as int))
                by (nonlinear_arith)
                requires
                    value <= u64::MAX,
                    bps <= u64::MAX,
                    divisor >= 1,
            ;
        }
    }
    match bps_mul_raw(bps, value, divisor) {
        Some(q) => {
            if q <= u64::MAX as u128 {
                Some(q as u64)
            } else {
                None
            }
        },
        None => None,
    }
}

} // verus!
