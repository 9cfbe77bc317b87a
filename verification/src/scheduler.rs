//! The fixed-interval poll loop's decisions.
//!
//! The loop itself — sleeping, signal handling, process lifetime — lives
//! outside the library. Decided here: how long to sleep between cycles (a
//! floor keeps the bot from hammering the marketplace), and what must happen
//! before the next cycle when the previous one ended with the credential
//! rejected. The loop never exits on a recoverable error.

use vstd::prelude::*;

verus! {

/// Default seconds between poll cycles when none is configured.
pub const DEFAULT_POLL_INTERVAL_SECONDS: u64 = 60;

/// Smallest allowed poll interval, in seconds.
pub const MIN_POLL_INTERVAL_SECONDS: u64 = 10;

/// Seconds to sleep between cycles: the configured interval (or the default),
/// never below the floor.
pub fn sleep_interval_seconds(configured: Option<u64>) -> (r: u64)
    ensures
        ({
            let base = match configured {
                Some(v) => v,
                None => DEFAULT_POLL_INTERVAL_SECONDS,
            };
            r == if base < MIN_POLL_INTERVAL_SECONDS {
                MIN_POLL_INTERVAL_SECONDS
            } else {
                base
            }
        }),
{
    let base = match configured {
        Some(v) => v,
        None => DEFAULT_POLL_INTERVAL_SECONDS,
    };
    if base < MIN_POLL_INTERVAL_SECONDS {
        MIN_POLL_INTERVAL_SECONDS
    } else {
        base
    }
}

/// What to do once a cycle has ended.
#[derive(Clone, Copy, Debug, PartialEq, Eq, Structural)]
pub enum CycleEnd {
    /// Renew the credential synchronously, then sleep.
    RenewThenSleep,
    /// Sleep until the next cycle.
    Sleep,
}

/// A cycle that was stopped by a credential rejection is followed by a
/// renewal before the next sleep; any other ending just waits for the next
/// cycle.
pub fn cycle_epilogue(needs_renewal: bool) -> (r: CycleEnd)
    ensures
        r == if needs_renewal {
            CycleEnd::RenewThenSleep
        } else {
            CycleEnd::Sleep
        },
{
    if needs_renewal {
        CycleEnd::RenewThenSleep
    } else {
        CycleEnd::Sleep
    }
}

} // verus!
