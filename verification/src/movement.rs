//! Named movement actions, the keys bound to them, and the step the player
//! takes on a frame.

use crate::keyboard::{held_keys, key_held, Key};
use bevy::input::keyboard::KeyCode;
use bevy::input::Input;
use vstd::prelude::*;

verus! {

/// A movement the player can ask for.
#[derive(Clone, Copy, Debug, PartialEq, Eq, Structural)]
pub enum Action {
    MoveLeft,
    MoveRight,
    MoveUp,
    MoveDown,
}

impl Action {
    /// The arrow key bound to the action.
    pub open spec fn arrow_key(self) -> Key {
        match self {
            Action::MoveLeft => Key::Left,
            Action::MoveRight => Key::Right,
            Action::MoveUp => Key::Up,
            Action::MoveDown => Key::Down,
        }
    }

    /// The letter key bound to the action.
    pub open spec fn letter_key(self) -> Key {
        match self {
            Action::MoveLeft => Key::A,
            Action::MoveRight => Key::D,
            Action::MoveUp => Key::W,
            Action::MoveDown => Key::S,
        }
    }

    /// Whether one of the action's two keys is among `held`.
    pub open spec fn active(self, held: Set<Key>) -> bool {
        held.contains(self.arrow_key()) || held.contains(self.letter_key())
    }

    /// The two keys bound to the action: the arrow key, then the letter key.
    pub fn keys(self) -> (pair: (Key, Key))
        ensures
            pair.0 == self.arrow_key(),
            pair.1 == self.letter_key(),
    {
        match self {
            Action::MoveLeft => (Key::Left, Key::A),
            Action::MoveRight => (Key::Right, Key::D),
            Action::MoveUp => (Key::Up, Key::W),
            Action::MoveDown => (Key::Down, Key::S),
        }
    }

    /// Whether one of the action's two keys is held down.
    pub fn pressed(self, keyboard_input: &Input<KeyCode>) -> (pressed: bool)
        ensures
            pressed == self.active(held_keys(*keyboard_input)),
    {
        let (arrow, letter) = self.keys();
        key_held(keyboard_input, arrow) || key_held(keyboard_input, letter)
    }
}

/// The action that `name` stands for, if it names one.
pub open spec fn action_named(name: Seq<char>) -> Option<Action> {
    if name == "move_left"@ {
        Some(Action::MoveLeft)
    } else if name == "move_right"@ {
        Some(Action::MoveRight)
    } else if name == "move_up"@ {
        Some(Action::MoveUp)
    } else if name == "move_down"@ {
        Some(Action::MoveDown)
    } else {
        None
    }
}

/// Calls `==` of `str`, which std documents as equality of the two strings'
/// contents.
#[verifier::external_body]
fn same_text(left: &str, right: &str) -> (same: bool)
    ensures
        same == (left@ == right@),
{
    left == right
}

/// Looks an action up by its name: `move_left`, `move_right`, `move_up` or
/// `move_down`. Any other name is no action.
pub fn action_by_name(name: &str) -> (action: Option<Action>)
    ensures
        action == action_named(name@),
{
    if same_text(name, "move_left") {
        Some(Action::MoveLeft)
    } else if same_text(name, "move_right") {
        Some(Action::MoveRight)
    } else if same_text(name, "move_up") {
        Some(Action::MoveUp)
    } else if same_text(name, "move_down") {
        Some(Action::MoveDown)
    } else {
        None
    }
}

/// Whether the named action is asked for: one of its two keys is held down.
/// A name that stands for no action is never pressed.
pub fn action_pressed(name: &str, keyboard_input: &Input<KeyCode>) -> (pressed: bool)
    ensures
        pressed == match action_named(name@) {
            Some(action) => action.active(held_keys(*keyboard_input)),
            None => false,
        },
{
    match action_by_name(name) {
        Some(action) => action.pressed(keyboard_input),
        None => false,
    }
}

/// The four action names stand for four different actions.
pub proof fn action_names_distinct()
    ensures
        action_named("move_left"@) == Some(Action::MoveLeft),
        action_named("move_right"@) == Some(Action::MoveRight),
        action_named("move_up"@) == Some(Action::MoveUp),
        action_named("move_down"@) == Some(Action::MoveDown),
{
    reveal_strlit("move_left");
    reveal_strlit("move_right");
    reveal_strlit("move_up");
    reveal_strlit("move_down");
    assert("move_left"@.len() == 9);
    assert("move_right"@.len() == 10);
    assert("move_up"@.len() == 7);
    assert("move_down"@.len() == 9);
    assert("move_left"@[5] == 'l');
    assert("move_down"@[5] == 'd');
}

/// What the player does on one frame.
#[derive(Clone, Copy, Debug, PartialEq, Eq, Structural)]
pub struct Step {
    /// Horizontal direction: -1 left, 1 right, 0 neither or both.
    pub dx: i8,
    /// Vertical direction: -1 down, 1 up, 0 neither or both.
    pub dy: i8,
    /// Whether the player's sprite is mirrored after the frame.
    pub flip_x: bool,
    /// Whether the walking animation runs.
    pub moving: bool,
}

/// 1 if the condition holds, else 0.
pub open spec fn unit(on: bool) -> int {
    if on { 1 } else { 0 }
}

/// The step asked for by a set of held keys, for a sprite that was mirrored
/// or not before.
pub open spec fn step_for(held: Set<Key>, flip_x: bool) -> Step {
    let left = Action::MoveLeft.active(held);
    let right = Action::MoveRight.active(held);
    let up = Action::MoveUp.active(held);
    let down = Action::MoveDown.active(held);
    Step {
        dx: (unit(right) - unit(left)) as i8,
        dy: (unit(up) - unit(down)) as i8,
        flip_x: if right { true } else if left { false } else { flip_x },
        moving: left != right || up != down,
    }
}

/// Reads the four movement actions off the keyboard. Opposite actions cancel;
/// the sprite faces the way of the last horizontal action read, right after
/// left, and keeps its facing when there is none; the walking animation runs
/// exactly when the direction is not zero.
pub fn player_step(keyboard_input: &Input<KeyCode>, flip_x: bool) -> (step: Step)
    ensures
        step == step_for(held_keys(*keyboard_input), flip_x),
        step.moving == (step.dx != 0 || step.dy != 0),
        -1 <= step.dx <= 1,
        -1 <= step.dy <= 1,
{
    proof {
        action_names_distinct();
    }
    let mut dx: i8 = 0;
    let mut dy: i8 = 0;
    let mut flip: bool = flip_x;
    if action_pressed("move_left", keyboard_input) {
        dx -= 1;
        flip = false;
    }
    if action_pressed("move_right", keyboard_input) {
        dx += 1;
        flip = true;
    }
    if action_pressed("move_up", keyboard_input) {
        dy += 1;
    }
    if action_pressed("move_down", keyboard_input) {
        dy -= 1;
    }
    Step { dx, dy, flip_x: flip, moving: dx != 0 || dy != 0 }
}

} // verus!
