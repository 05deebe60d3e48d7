//! Settings of the mouse mover.

use vstd::prelude::*;

verus! {

/// Settings of one mover: how long to wait between two cycles, how far the
/// cursor is displaced, and how long it stays displaced.
#[derive(Debug, Clone, Copy)]
pub struct MouseMoverConfig {
    /// Seconds to wait between two movement cycles.
    pub interval_secs: u64,
    /// Displacement of the cursor in pixels, as (dx, dy).
    pub movement_pixels: (i32, i32),
    /// Milliseconds the cursor stays displaced before it is put back.
    pub return_delay_ms: u64,
}

impl MouseMoverConfig {
    /// The invariant of the settings: no field is negative. The two durations
    /// are unsigned, so only the displacement can break it.
    pub open spec fn well_formed(&self) -> bool {
        self.movement_pixels.0 >= 0 && self.movement_pixels.1 >= 0
    }

    /// Tells whether the settings keep their invariant.
    pub fn is_well_formed(&self) -> (ok: bool)
        ensures
            ok == self.well_formed(),
    {
        self.movement_pixels.0 >= 0 && self.movement_pixels.1 >= 0
    }
}

impl Default for MouseMoverConfig {
    /// One cycle a minute, one pixel along each axis, six milliseconds
    /// displaced.
    fn default() -> (config: Self)
        ensures
            config.interval_secs == 60,
            config.movement_pixels == (1i32, 1i32),
            config.return_delay_ms == 6,
            config.well_formed(),
    {
        MouseMoverConfig { interval_secs: 60, movement_pixels: (1, 1), return_delay_ms: 6 }
    }
}

} // verus!
