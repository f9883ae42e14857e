//! The keyboard of the host engine, read into held keys.

use crate::cursor::grab_on_edge;
use crate::cursor::CursorState;
use crate::keys::intent_of;
use crate::keys::move_intent;
use crate::keys::Key;
use crate::keys::MoveIntent;
use bevy::input::keyboard::KeyCode;
use bevy::input::Input;
use std::hash::Hash;
use vstd::prelude::*;

verus! {

/// The engine's record of which inputs are pressed, and which went down or
/// up in this frame. Opaque here: it is read through the two functions below.
#[verifier::external_type_specification]
#[verifier::external_body]
#[verifier::reject_recursive_types(T)]
pub struct ExInput<T: Copy + Eq + Hash + Send + Sync + 'static>(bevy::input::Input<T>);

/// The engine's key codes. Opaque here.
#[verifier::external_type_specification]
#[verifier::external_body]
pub struct ExKeyCode(bevy::input::keyboard::KeyCode);

/// Those of the camera's keys whose key code, of the same name, is among the
/// inputs that the keyboard holds as pressed.
pub uninterp spec fn pressed_keys(keys: Input<KeyCode>) -> Set<Key>;

/// Those of the camera's keys whose key code, of the same name, is among the
/// inputs that the keyboard holds as just pressed: down in this frame, and
/// not down before it.
pub uninterp spec fn just_pressed_keys(keys: Input<KeyCode>) -> Set<Key>;

/// Calls `Input::pressed` with the key code of the same name as `key`.
/// Trusted: that the answer is whether that code is among the pressed inputs,
/// which is what the engine's method looks up.
#[verifier::external_body]
fn is_pressed(keys: &Input<KeyCode>, key: Key) -> (pressed: bool)
    ensures
        pressed == pressed_keys(*keys).contains(key),
{
    keys.pressed(
        match key {
            Key::W => KeyCode::W,
            Key::S => KeyCode::S,
            Key::A => KeyCode::A,
            Key::D => KeyCode::D,
            Key::LShift => KeyCode::LShift,
            Key::Escape => KeyCode::Escape,
        },
    )
}

/// Calls `Input::just_pressed` with the key code of the same name as `key`.
/// Trusted: that the answer is whether that code is among the inputs just
/// pressed, which is what the engine's method looks up.
#[verifier::external_body]
fn is_just_pressed(keys: &Input<KeyCode>, key: Key) -> (pressed: bool)
    ensures
        pressed == just_pressed_keys(*keys).contains(key),
{
    keys.just_pressed(
        match key {
            Key::W => KeyCode::W,
            Key::S => KeyCode::S,
            Key::A => KeyCode::A,
            Key::D => KeyCode::D,
            Key::LShift => KeyCode::LShift,
            Key::Escape => KeyCode::Escape,
        },
    )
}

/// Adds `key` to the list if the keyboard holds it.
fn note_if_pressed(keys: &Input<KeyCode>, key: Key, held: &mut Vec<Key>)
    requires
        old(held)@.no_duplicates(),
        !old(held)@.contains(key),
    ensures
        final(held)@.no_duplicates(),
        forall|k: Key|
            final(held)@.contains(k) <==> old(held)@.contains(k) || (k == key && pressed_keys(
                *keys,
            ).contains(key)),
{
    if is_pressed(keys, key) {
        held.push(key);
        proof {
            let before = old(held)@;
            let after = held@;
            assert(after =~= before.push(key));
            assert(after[before.len() as int] == key);
            assert forall|k: Key| after.contains(k) <==> before.contains(k) || k == key by {
                if before.contains(k) {
                    let j = choose|j: int| 0 <= j < before.len() && before[j] == k;
                    assert(after[j] == k);
                }
            }
        }
    }
}

/// The camera's keys that are held, each once.
pub fn held_keys(keys: &Input<KeyCode>) -> (held: Vec<Key>)
    ensures
        held@.to_set() == pressed_keys(*keys),
        held@.no_duplicates(),
{
    let mut held: Vec<Key> = Vec::new();
    note_if_pressed(keys, Key::W, &mut held);
    note_if_pressed(keys, Key::S, &mut held);
    note_if_pressed(keys, Key::A, &mut held);
    note_if_pressed(keys, Key::D, &mut held);
    note_if_pressed(keys, Key::LShift, &mut held);
    note_if_pressed(keys, Key::Escape, &mut held);
    proof {
        let all = pressed_keys(*keys);
        assert forall|k: Key| held@.to_set().contains(k) == all.contains(k) by {
            assert(held@.to_set().contains(k) == held@.contains(k));
        }
        assert(held@.to_set() =~= all);
    }
    held
}

/// Handles keyboard input: the direction of travel for this frame.
pub fn player_move(keys: &Input<KeyCode>, focused: bool, cursor_locked: bool) -> (intent:
    MoveIntent)
    ensures
        intent == intent_of(pressed_keys(*keys), focused, cursor_locked),
{
    let held = held_keys(keys);
    move_intent(&held, focused, cursor_locked)
}

/// Toggles the cursor lock in the frame in which escape went down.
pub fn cursor_grab(keys: &Input<KeyCode>, window: &mut CursorState)
    ensures
        *final(window) == if just_pressed_keys(*keys).contains(Key::Escape) {
            old(window).toggled()
        } else {
            *old(window)
        },
{
    let edge = is_just_pressed(keys, Key::Escape);
    grab_on_edge(edge, window);
}

} // verus!
