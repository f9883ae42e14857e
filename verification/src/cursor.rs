//! The cursor lock of the host window, and when input counts.

use vstd::prelude::*;

verus! {

/// The two cursor flags of the host window. Locked with the cursor hidden is
/// the captured mode, in which the camera follows the input; unlocked with the
/// cursor shown is the free mode.
#[derive(Clone, Copy, Debug, PartialEq, Eq, Structural)]
pub struct CursorState {
    pub locked: bool,
    pub visible: bool,
}

impl CursorState {
    /// The state with both flags inverted.
    pub open spec fn toggled(self) -> CursorState {
        CursorState { locked: !self.locked, visible: !self.visible }
    }
}

/// Input moves the camera only while the window has the focus and the cursor
/// is locked.
pub open spec fn input_counts(focused: bool, cursor_locked: bool) -> bool {
    focused && cursor_locked
}

/// Whether input counts in this frame.
pub fn input_active(focused: bool, cursor_locked: bool) -> (active: bool)
    ensures
        active == input_counts(focused, cursor_locked),
{
    focused && cursor_locked
}

/// Grabs or releases the cursor: inverts the lock and the visibility together.
pub fn toggle_grab_cursor(window: &mut CursorState)
    ensures
        *final(window) == old(window).toggled(),
{
    window.locked = !window.locked;
    window.visible = !window.visible;
}

/// Toggles the cursor lock in the frame in which the toggle key went down, and
/// leaves the window alone in every other frame.
pub fn grab_on_edge(toggle_just_pressed: bool, window: &mut CursorState)
    ensures
        toggle_just_pressed ==> *final(window) == old(window).toggled(),
        !toggle_just_pressed ==> *final(window) == *old(window),
{
    if toggle_just_pressed {
        toggle_grab_cursor(window);
    }
}

/// Toggling twice gives back the state it started from, and a single toggle
/// never does; the two flags stay as far apart, or as close, as they were.
pub proof fn toggle_is_involution(window: CursorState)
    ensures
        window.toggled().toggled() == window,
        window.toggled() != window,
        (window.toggled().locked == window.toggled().visible) == (window.locked
            == window.visible),
{
}

} // verus!
