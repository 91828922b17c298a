//! Time stamps and the time base they are counted in.

use crate::avutil::rational::AVRational;
use libc::c_int;
use vstd::prelude::*;

verus! {

/// The time stamp of a frame that has none.
pub const AV_NOPTS_VALUE: i64 = i64::MIN;

/// The number of time-base units in one second.
pub const AV_TIME_BASE: c_int = 1000000;

/// The time base as a fraction of a second: one over [`AV_TIME_BASE`].
#[allow(non_snake_case)]
pub fn AV_TIME_BASE_Q() -> (q: AVRational)
    ensures
        q == (AVRational { num: 1, den: AV_TIME_BASE }),
{
    AVRational { num: 1, den: AV_TIME_BASE }
}

} // verus!
