//! The look direction: pitch and yaw, kept from frame to frame.
//!
//! The host sums the motion of a frame onto the angles it reads here, and
//! hands the sums back; what is kept of them is decided here.

use crate::cursor::input_counts;
use crate::cursor::input_active;
use crate::motion::fresh_start;
use crate::motion::next_after;
use crate::motion::MotionReader;
use crate::single::clamp_symmetric;
use crate::single::clamped;
use crate::single::is_nan;
use crate::single::is_number;
use crate::single::magnitude;
use crate::single::rank;
use vstd::prelude::*;

verus! {

/// The pattern of 1.54, just under a quarter turn: the pitch stays within
/// this much of level, so that the view never tips over the pole.
pub const PITCH_LIMIT: u32 = 0x3fc5_1eb8;

/// The pattern is a number within the pitch limit of level.
pub open spec fn pitch_in_bounds(bits: u32) -> bool {
    !is_nan(bits) && magnitude(bits) <= PITCH_LIMIT
}

/// The pitch kept after a frame: while input counts the offered pitch, held
/// to the limit; while it does not, or where the offer is no number, the
/// pitch held so far.
pub open spec fn settled_pitch(held: u32, active: bool, offered: u32) -> u32 {
    if active && !is_nan(offered) {
        clamped(offered, PITCH_LIMIT)
    } else {
        held
    }
}

/// The yaw kept after a frame: while input counts the offered yaw as it is;
/// while it does not, or where the offer is no number, the yaw held so far.
pub open spec fn settled_yaw(held: u32, active: bool, offered: u32) -> u32 {
    if active && !is_nan(offered) {
        offered
    } else {
        held
    }
}

/// The read position in the motion stream, and the two look angles.
pub struct InputState {
    reader_motion: MotionReader,
    pitch: u32,
    yaw: u32,
}

impl InputState {
    #[verifier::type_invariant]
    spec fn angles_are_sound(self) -> bool {
        pitch_in_bounds(self.pitch) && !is_nan(self.yaw)
    }

    /// The pitch held, as a pattern.
    pub closed spec fn pitch_bits(self) -> u32 {
        self.pitch
    }

    /// The yaw held, as a pattern.
    pub closed spec fn yaw_bits(self) -> u32 {
        self.yaw
    }

    /// The number of the next motion event to take.
    pub closed spec fn next_event(self) -> u64 {
        self.reader_motion.next
    }

    /// Level, straight ahead, at the start of the motion stream.
    pub fn new() -> (state: InputState)
        ensures
            state.pitch_bits() == 0,
            state.yaw_bits() == 0,
            state.next_event() == 0,
    {
        InputState { reader_motion: MotionReader::new(), pitch: 0, yaw: 0 }
    }

    /// The pitch: always a number within the limit.
    pub fn pitch(&self) -> (bits: u32)
        ensures
            bits == self.pitch_bits(),
            pitch_in_bounds(bits),
            -rank(PITCH_LIMIT) <= rank(bits) <= rank(PITCH_LIMIT),
    {
        proof {
            use_type_invariant(self);
        }
        self.pitch
    }

    /// The yaw: always a number.
    pub fn yaw(&self) -> (bits: u32)
        ensures
            bits == self.yaw_bits(),
            !is_nan(bits),
    {
        proof {
            use_type_invariant(self);
        }
        self.yaw
    }

    /// Takes this frame's window of the motion stream. The events to sum are
    /// those from the returned index to the window's end, in their order;
    /// while input does not count the window is passed over and none is summed.
    pub fn take_motion(
        &mut self,
        focused: bool,
        cursor_locked: bool,
        oldest: u64,
        len: usize,
    ) -> (start: usize)
        requires
            oldest + len <= u64::MAX,
        ensures
            start == if input_counts(focused, cursor_locked) {
                fresh_start(old(self).next_event(), oldest, len)
            } else {
                len as int
            },
            final(self).next_event() == next_after(old(self).next_event(), oldest, len),
            final(self).pitch_bits() == old(self).pitch_bits(),
            final(self).yaw_bits() == old(self).yaw_bits(),
    {
        proof {
            use_type_invariant(&*self);
        }
        let mut reader = self.reader_motion;
        let start = reader.take(oldest, len);
        self.reader_motion = reader;
        if input_active(focused, cursor_locked) {
            start
        } else {
            len
        }
    }

    /// Settles the angles of this frame from the sums that the host offers.
    pub fn player_look(&mut self, focused: bool, cursor_locked: bool, pitch: u32, yaw: u32)
        ensures
            final(self).pitch_bits() == settled_pitch(
                old(self).pitch_bits(),
                input_counts(focused, cursor_locked),
                pitch,
            ),
            final(self).yaw_bits() == settled_yaw(
                old(self).yaw_bits(),
                input_counts(focused, cursor_locked),
                yaw,
            ),
            final(self).next_event() == old(self).next_event(),
            pitch_in_bounds(final(self).pitch_bits()),
            !is_nan(final(self).yaw_bits()),
    {
        proof {
            use_type_invariant(&*self);
        }
        if input_active(focused, cursor_locked) {
            if is_number(pitch) {
                self.pitch = clamp_symmetric(pitch, PITCH_LIMIT);
            }
            if is_number(yaw) {
                self.yaw = yaw;
            }
        }
    }
}

/// Whatever is offered, the pitch kept is a number within the limit, as
/// long as the pitch held before was.
pub proof fn pitch_stays_in_bounds(held: u32, active: bool, offered: u32)
    requires
        pitch_in_bounds(held),
    ensures
        pitch_in_bounds(settled_pitch(held, active, offered)),
        -rank(PITCH_LIMIT) <= rank(settled_pitch(held, active, offered)) <= rank(PITCH_LIMIT),
{
}

/// While input counts, an offer within the limit is kept bit for bit, and so
/// is every yaw that is a number.
pub proof fn active_input_keeps_the_offer(held_pitch: u32, held_yaw: u32, pitch: u32, yaw: u32)
    ensures
        pitch_in_bounds(pitch) ==> settled_pitch(held_pitch, true, pitch) == pitch,
        !is_nan(yaw) ==> settled_yaw(held_yaw, true, yaw) == yaw,
{
}

/// While input does not count, the angles stay as they are, whatever is offered.
pub proof fn idle_input_keeps_the_angles(held_pitch: u32, held_yaw: u32, pitch: u32, yaw: u32)
    ensures
        settled_pitch(held_pitch, false, pitch) == held_pitch,
        settled_yaw(held_yaw, false, yaw) == held_yaw,
{
}

} // verus!
