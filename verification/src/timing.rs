//! Stream time. Decoders stamp frames in stream-specific units; a rational
//! time base converts those units to seconds. This crate keeps every wall
//! clock instant and every duration in whole microseconds, so a timestamp is
//! converted by `pts * num * 1000000 / den`, rounded toward zero.

use vstd::arithmetic::mul::lemma_mul_upper_bound;
use vstd::prelude::*;

verus! {

/// Rational multiplier converting stream timestamp units to seconds: one
/// timestamp unit lasts `num / den` seconds.
#[derive(Clone, Copy, Debug, PartialEq, Eq, Structural)]
pub struct TimeBase {
    pub num: u32,
    pub den: u32,
}

impl TimeBase {
    /// A time base is usable only with a nonzero denominator.
    pub open spec fn wf(self) -> bool {
        self.den > 0
    }

    /// Builds a time base, rejecting a zero denominator.
    pub fn new(num: u32, den: u32) -> (r: Option<TimeBase>)
        ensures
            match r {
                Some(tb) => tb.num == num && tb.den == den && tb.wf(),
                None => den == 0,
            },
    {
        if den == 0 {
            None
        } else {
            Some(TimeBase { num, den })
        }
    }
}

/// The microseconds a timestamp denotes: `pts * num / den` seconds, scaled
/// to microseconds and rounded toward zero.
pub open spec fn micros_of_pts(pts: int, tb: TimeBase) -> int
    recommends
        tb.wf(),
{
    if pts >= 0 {
        (pts * tb.num * 1000000) / (tb.den as int)
    } else {
        -(((-pts) * tb.num * 1000000) / (tb.den as int))
    }
}

/// Converts a stream timestamp to microseconds. `None` exactly when the
/// mathematical result does not fit a 64-bit count of microseconds.
pub fn pts_to_micros(pts: i64, tb: TimeBase) -> (r: Option<i64>)
    requires
        tb.wf(),
    ensures
        match r {
            Some(m) => m == micros_of_pts(pts as int, tb),
            None => !(i64::MIN <= micros_of_pts(pts as int, tb) <= i64::MAX),
        },
        r is Some <==> i64::MIN <= micros_of_pts(pts as int, tb) <= i64::MAX,
{
    let mag: u128 = if pts >= 0 {
        pts as u128
    } else {
        (-(pts as i128)) as u128
    };
    assert(mag <= 0x8000_0000_0000_0000u128);
    proof {
        lemma_mul_upper_bound(mag as int, 0x8000_0000_0000_0000, tb.num as int, 0xffff_ffff);
    }
    let scaled: u128 = mag * (tb.num as u128);
    let total: u128 = scaled * 1000000;
    let q: u128 = total / (tb.den as u128);
    assert(q == (mag * tb.num * 1000000) / (tb.den as int));
    if pts >= 0 {
        if q > i64::MAX as u128 {
            None
        } else {
            Some(q as i64)
        }
    } else {
        // The magnitude of a negative result may be one past `i64::MAX`.
        if q > 0x8000_0000_0000_0000u128 {
            None
        } else {
            Some((-(q as i128)) as i64)
        }
    }
}

} // verus!
