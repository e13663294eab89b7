//! A low-and-slow traffic generation engine: many concurrent workers hold
//! connections to one receiver open and trickle small data portions on a fixed
//! cadence for a bounded test window.
//!
//! This crate is the verified core: endpoint parsing, portion loading, the
//! per-worker connect/send/retry state machine, the scheduler's decisions and
//! the thread-safe statistics aggregator. The unverified shell around it does
//! the actual socket, file and timer work and feeds the outcomes back in as
//! events.

use vstd::prelude::*;

pub mod config;
pub mod testing;
pub mod report;

verus! {

/// Converts a time span of whole seconds plus a millisecond remainder into
/// the milliseconds the engine counts in, saturating at the largest
/// representable span rather than wrapping.
pub fn duration_to_millis(secs: u64, subsec_millis: u32) -> (ms: u64)
    ensures
        secs * 1000 + subsec_millis <= u64::MAX ==> ms == secs * 1000 + subsec_millis,
        secs * 1000 + subsec_millis > u64::MAX ==> ms == u64::MAX,
{
    let sub = subsec_millis as u64;
    if secs <= (u64::MAX - sub) / 1000 {
        proof {
            assert(secs * 1000 + sub <= u64::MAX) by (nonlinear_arith)
                requires
                    secs <= (u64::MAX - sub) / 1000,
                    sub <= u64::MAX,
            ;
        }
        secs * 1000 + sub
    } else {
        proof {
            assert(secs * 1000 + sub > u64::MAX) by (nonlinear_arith)
                requires
                    secs > (u64::MAX - sub) / 1000,
                    sub <= u64::MAX,
            ;
        }
        u64::MAX
    }
}

} // verus!
