//! Frame clock arithmetic.
//!
//! The clock itself — a periodic sleep on the control thread — lives
//! outside this crate; here is the derivation of its period from the
//! configured frame rate, and the defaults the reference configuration
//! uses.  The clock is not required to be high-precision: cumulative
//! drift under sustained operation is an accepted limitation.

use vstd::prelude::*;

verus! {

/// Default frames per second when the configuration names none.
pub const DEFAULT_FPS: u64 = 50;

/// Default per-device throttle interval in microseconds when the
/// configuration names none: 2000 packets per second per device.
pub const DEFAULT_THROTTLE_US: u64 = 500;

/// The tick period, in milliseconds, for a configured frame rate.
pub fn frame_period_ms(fps: u64) -> (period: u64)
    requires
        1 <= fps,
    ensures
        period == 1000u64 / fps,
{
    1000 / fps
}

} // verus!
