//! Held keys, and the direction of travel they ask for.

use crate::cursor::input_active;
use crate::cursor::input_counts;
use vstd::prelude::*;

verus! {

/// The keys that the camera listens to, by their names on the keyboard:
/// `W` and `S` travel forward and back, `A` and `D` left and right, the left
/// shift key runs, and escape toggles the cursor lock.
#[derive(Clone, Copy, Debug, PartialEq, Eq, Structural)]
pub enum Key {
    W,
    S,
    A,
    D,
    LShift,
    Escape,
}

/// What the held keys ask for: a step along the forward axis and one along
/// the right axis, each -1, 0 or 1, and whether to run.
#[derive(Clone, Copy, Debug, PartialEq, Eq, Structural)]
pub struct MoveIntent {
    pub forward: i8,
    pub right: i8,
    pub run: bool,
}

/// One axis of travel: the key towards it counts 1, the key against it -1,
/// and the two together cancel.
pub open spec fn axis(toward: bool, against: bool) -> int {
    (if toward { 1int } else { 0int }) - (if against { 1int } else { 0int })
}

/// The intent of a set of held keys; while input does not count nothing is
/// asked for.
pub open spec fn intent_of(held: Set<Key>, focused: bool, cursor_locked: bool) -> MoveIntent {
    if input_counts(focused, cursor_locked) {
        MoveIntent {
            forward: axis(held.contains(Key::W), held.contains(Key::S)) as i8,
            right: axis(held.contains(Key::D), held.contains(Key::A)) as i8,
            run: held.contains(Key::LShift),
        }
    } else {
        MoveIntent { forward: 0, right: 0, run: false }
    }
}

impl MoveIntent {
    /// Nothing is asked for along either axis.
    pub open spec fn is_still(self) -> bool {
        self.forward == 0 && self.right == 0
    }

    /// Whether the camera stays where it is.
    pub fn stands_still(&self) -> (still: bool)
        ensures
            still == self.is_still(),
    {
        self.forward == 0 && self.right == 0
    }
}

/// Reads a list of held keys into the direction of travel for this frame. A
/// key counts once, however often and wherever it is listed.
pub fn move_intent(keys: &Vec<Key>, focused: bool, cursor_locked: bool) -> (intent: MoveIntent)
    ensures
        intent == intent_of(keys@.to_set(), focused, cursor_locked),
{
    if !input_active(focused, cursor_locked) {
        return MoveIntent { forward: 0, right: 0, run: false };
    }
    let mut forward = false;
    let mut back = false;
    let mut left = false;
    let mut right = false;
    let mut run = false;
    let mut i: usize = 0;
    while i < keys.len()
        invariant
            i <= keys.len(),
            forward == keys@.take(i as int).contains(Key::W),
            back == keys@.take(i as int).contains(Key::S),
            left == keys@.take(i as int).contains(Key::A),
            right == keys@.take(i as int).contains(Key::D),
            run == keys@.take(i as int).contains(Key::LShift),
        decreases keys.len() - i,
    {
        proof {
            let before = keys@.take(i as int);
            let after = keys@.take(i + 1);
            assert(after =~= before.push(keys@[i as int]));
            assert forall|k: Key| after.contains(k) == (before.contains(k) || k == keys@[i as int]) by {
                if before.contains(k) {
                    let j = choose|j: int| 0 <= j < before.len() && before[j] == k;
                    assert(after[j] == k);
                }
                if k == keys@[i as int] {
                    assert(after[i as int] == k);
                }
            }
        }
        match keys[i] {
            Key::W => {
                forward = true;
            },
            Key::S => {
                back = true;
            },
            Key::A => {
                left = true;
            },
            Key::D => {
                right = true;
            },
            Key::LShift => {
                run = true;
            },
            Key::Escape => {},
        }
        i += 1;
    }
    proof {
        assert(keys@.take(i as int) =~= keys@);
        assert forall|k: Key| keys@.to_set().contains(k) == keys@.contains(k) by {}
    }
    let forward_step: i8 = if forward { 1 } else { 0 };
    let back_step: i8 = if back { 1 } else { 0 };
    let right_step: i8 = if right { 1 } else { 0 };
    let left_step: i8 = if left { 1 } else { 0 };
    MoveIntent { forward: forward_step - back_step, right: right_step - left_step, run }
}

/// Two keys that pull against each other cancel along their axis, whatever
/// else is held; each step is -1, 0 or 1.
pub proof fn opposite_keys_cancel(held: Set<Key>, focused: bool, cursor_locked: bool)
    ensures
        held.contains(Key::W) && held.contains(Key::S) ==> intent_of(
            held,
            focused,
            cursor_locked,
        ).forward == 0,
        held.contains(Key::A) && held.contains(Key::D) ==> intent_of(
            held,
            focused,
            cursor_locked,
        ).right == 0,
        held.contains(Key::W) == held.contains(Key::S) && held.contains(Key::A) == held.contains(
            Key::D,
        ) ==> intent_of(held, focused, cursor_locked).is_still(),
        -1 <= intent_of(held, focused, cursor_locked).forward <= 1,
        -1 <= intent_of(held, focused, cursor_locked).right <= 1,
{
}

/// While input does not count no key moves the camera.
pub proof fn idle_input_stands_still(held: Set<Key>, focused: bool, cursor_locked: bool)
    requires
        !input_counts(focused, cursor_locked),
    ensures
        intent_of(held, focused, cursor_locked).is_still(),
        !intent_of(held, focused, cursor_locked).run,
{
}

} // verus!
