//! Mouse sensitivity and movement speed.

use crate::cursor::input_counts;
use crate::cursor::input_active;
use crate::single::floor_at_zero;
use crate::single::floored;
use crate::single::is_nan;
use crate::single::is_negative;
use crate::single::rank;
use vstd::prelude::*;

verus! {

/// The pattern of 0.02.
pub const DEFAULT_SENSITIVITY: u32 = 0x3ca3_d70a;

/// The pattern of 12.0.
pub const DEFAULT_SPEED: u32 = 0x4140_0000;

/// The pattern of 3.0.
pub const DEFAULT_RUN_MULTIPLIER: u32 = 0x4040_0000;

/// The pattern of 1.0.
pub const ONE: u32 = 0x3f80_0000;

/// The settings of the camera, each number as a pattern: degrees of turn per
/// unit of mouse motion, units of travel per second, the factor on the speed
/// while running, and the flag that would keep travel level.
#[derive(Clone, Copy, Debug, PartialEq, Eq, Structural)]
pub struct MovementSettings {
    pub sensitivity: u32,
    pub speed: u32,
    pub run_multiplier: u32,
    pub lock_y: bool,
}

impl Default for MovementSettings {
    fn default() -> (settings: MovementSettings)
        ensures
            settings == (MovementSettings {
                sensitivity: DEFAULT_SENSITIVITY,
                speed: DEFAULT_SPEED,
                run_multiplier: DEFAULT_RUN_MULTIPLIER,
                lock_y: false,
            }),
    {
        MovementSettings {
            sensitivity: DEFAULT_SENSITIVITY,
            speed: DEFAULT_SPEED,
            run_multiplier: DEFAULT_RUN_MULTIPLIER,
            lock_y: false,
        }
    }
}

/// The speed kept after a turn of the wheel: while input counts the larger of
/// the raised speed and zero; otherwise the speed held so far.
pub open spec fn adjusted_speed(held: u32, active: bool, raised: u32) -> u32 {
    if active {
        floored(raised)
    } else {
        held
    }
}

impl MovementSettings {
    /// The factor on the speed: the run multiplier while running, else one.
    pub open spec fn factor_of(self, run: bool) -> u32 {
        if run {
            self.run_multiplier
        } else {
            ONE
        }
    }

    /// The factor on the speed for this frame.
    pub fn run_factor(&self, run: bool) -> (factor: u32)
        ensures
            factor == self.factor_of(run),
    {
        if run {
            self.run_multiplier
        } else {
            ONE
        }
    }
}

/// Takes one turn of the wheel: `raised` is the speed plus the scroll, as the
/// host summed them.
pub fn player_change_speed(
    settings: &mut MovementSettings,
    focused: bool,
    cursor_locked: bool,
    raised: u32,
)
    ensures
        final(settings).speed == adjusted_speed(
            old(settings).speed,
            input_counts(focused, cursor_locked),
            raised,
        ),
        final(settings).sensitivity == old(settings).sensitivity,
        final(settings).run_multiplier == old(settings).run_multiplier,
        final(settings).lock_y == old(settings).lock_y,
{
    if input_active(focused, cursor_locked) {
        settings.speed = floor_at_zero(raised);
    }
}

/// The wheel never brings the speed below zero: while input counts the speed
/// kept is a number that is not negative, whatever was summed, and a speed
/// that was not below zero never becomes so.
pub proof fn speed_is_never_below_zero(held: u32, active: bool, raised: u32)
    ensures
        active ==> !is_nan(adjusted_speed(held, active, raised)) && !is_negative(
            adjusted_speed(held, active, raised),
        ),
        !is_nan(held) && rank(held) >= 0 ==> !is_nan(adjusted_speed(held, active, raised)) && rank(
            adjusted_speed(held, active, raised),
        ) >= 0,
        active && !is_nan(raised) && rank(raised) > 0 ==> adjusted_speed(held, active, raised)
            == raised,
        !active ==> adjusted_speed(held, active, raised) == held,
{
}

} // verus!
