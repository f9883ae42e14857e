use bevy::input::keyboard::KeyCode;
use bevy::input::Input;
use flycam::cursor::{grab_on_edge, input_active, toggle_grab_cursor, CursorState};
use flycam::keyboard::cursor_grab;

#[test]
fn toggle_inverts_both_flags() {
    let mut window = CursorState { locked: true, visible: false };
    toggle_grab_cursor(&mut window);
    assert_eq!(window, CursorState { locked: false, visible: true });
}

#[test]
fn two_toggles_return_to_locked() {
    let locked = CursorState { locked: true, visible: false };
    let mut window = locked;
    toggle_grab_cursor(&mut window);
    assert_ne!(window, locked);
    toggle_grab_cursor(&mut window);
    assert_eq!(window, locked);
}

#[test]
fn two_toggles_return_to_any_state() {
    for locked in [false, true] {
        for visible in [false, true] {
            let start = CursorState { locked, visible };
            let mut window = start;
            toggle_grab_cursor(&mut window);
            assert_eq!(window.locked, !locked);
            assert_eq!(window.visible, !visible);
            toggle_grab_cursor(&mut window);
            assert_eq!(window, start);
        }
    }
}

#[test]
fn grab_on_edge_toggles_on_the_edge_only() {
    let mut window = CursorState { locked: true, visible: false };
    grab_on_edge(false, &mut window);
    assert_eq!(window, CursorState { locked: true, visible: false });
    grab_on_edge(true, &mut window);
    assert_eq!(window, CursorState { locked: false, visible: true });
    grab_on_edge(false, &mut window);
    assert_eq!(window, CursorState { locked: false, visible: true });
    grab_on_edge(true, &mut window);
    assert_eq!(window, CursorState { locked: true, visible: false });
}

#[test]
fn input_counts_only_focused_and_locked() {
    assert!(input_active(true, true));
    assert!(!input_active(true, false));
    assert!(!input_active(false, true));
    assert!(!input_active(false, false));
}

#[test]
fn losing_focus_stops_input_without_touching_the_lock() {
    let window = CursorState { locked: true, visible: false };
    assert!(input_active(true, window.locked));
    assert!(!input_active(false, window.locked));
    assert!(window.locked);
}

#[test]
fn cursor_grab_toggles_in_the_frame_escape_goes_down() {
    let mut keys: Input<KeyCode> = Input::default();
    let mut window = CursorState { locked: true, visible: false };
    cursor_grab(&keys, &mut window);
    assert_eq!(window, CursorState { locked: true, visible: false });

    keys.press(KeyCode::Escape);
    cursor_grab(&keys, &mut window);
    assert_eq!(window, CursorState { locked: false, visible: true });

    // next frame: escape is still held, but no longer just pressed
    keys.clear();
    assert!(keys.pressed(KeyCode::Escape));
    cursor_grab(&keys, &mut window);
    assert_eq!(window, CursorState { locked: false, visible: true });

    keys.release(KeyCode::Escape);
    keys.clear();
    keys.press(KeyCode::Escape);
    cursor_grab(&keys, &mut window);
    assert_eq!(window, CursorState { locked: true, visible: false });
}

#[test]
fn cursor_grab_ignores_other_keys() {
    let mut keys: Input<KeyCode> = Input::default();
    keys.press(KeyCode::W);
    keys.press(KeyCode::LShift);
    keys.press(KeyCode::Space);
    let mut window = CursorState { locked: false, visible: true };
    cursor_grab(&keys, &mut window);
    assert_eq!(window, CursorState { locked: false, visible: true });
}
