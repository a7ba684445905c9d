//! The keyboard as the game reads it: which of the game's keys are held, and
//! which went down on this frame.

use bevy::input::keyboard::KeyCode;
use bevy::input::Input;
use vstd::prelude::*;

verus! {

/// The keys the game reacts to.
#[derive(Clone, Copy, Debug, PartialEq, Eq, Structural)]
pub enum Key {
    Left,
    Right,
    Up,
    Down,
    A,
    D,
    W,
    S,
    Return,
    E,
}

/// bevy's `KeyCode`, carried through unopened.
#[verifier::external_type_specification]
#[verifier::external_body]
pub struct ExKeyCode(KeyCode);

/// bevy's `Input`, the sets of inputs that are held, that went down and that
/// went up on this frame, carried through unopened.
#[verifier::external_type_specification]
#[verifier::external_body]
#[verifier::reject_recursive_types(T)]
pub struct ExInput<T>(Input<T>);

/// The game's keys that `input` records as held down.
pub uninterp spec fn held_keys(input: Input<KeyCode>) -> Set<Key>;

/// The game's keys that `input` records as pressed on this frame.
pub uninterp spec fn fresh_keys(input: Input<KeyCode>) -> Set<Key>;

/// Calls bevy's `Input::pressed` with the key code of the same name as `key`.
/// That method looks the code up in the set of held inputs and changes nothing;
/// `held_keys` names that set, restricted to the game's keys.
#[verifier::external_body]
pub(crate) fn key_held(input: &Input<KeyCode>, key: Key) -> (held: bool)
    ensures
        held == held_keys(*input).contains(key),
{
    input.pressed(match key {
        Key::Left => KeyCode::Left,
        Key::Right => KeyCode::Right,
        Key::Up => KeyCode::Up,
        Key::Down => KeyCode::Down,
        Key::A => KeyCode::A,
        Key::D => KeyCode::D,
        Key::W => KeyCode::W,
        Key::S => KeyCode::S,
        Key::Return => KeyCode::Return,
        Key::E => KeyCode::E,
    })
}

/// Calls bevy's `Input::just_pressed` with the key code of the same name as
/// `key`. That method looks the code up in the set of inputs pressed since the
/// last clear and changes nothing; `fresh_keys` names that set, restricted to
/// the game's keys.
#[verifier::external_body]
pub(crate) fn key_fresh(input: &Input<KeyCode>, key: Key) -> (fresh: bool)
    ensures
        fresh == fresh_keys(*input).contains(key),
{
    input.just_pressed(match key {
        Key::Left => KeyCode::Left,
        Key::Right => KeyCode::Right,
        Key::Up => KeyCode::Up,
        Key::Down => KeyCode::Down,
        Key::A => KeyCode::A,
        Key::D => KeyCode::D,
        Key::W => KeyCode::W,
        Key::S => KeyCode::S,
        Key::Return => KeyCode::Return,
        Key::E => KeyCode::E,
    })
}

/// Whether the key that picks a tool up went down on this frame.
pub fn pickup_pressed(keyboard_input: &Input<KeyCode>) -> (pressed: bool)
    ensures
        pressed == fresh_keys(*keyboard_input).contains(Key::E),
{
    key_fresh(keyboard_input, Key::E)
}

/// Whether the key that uses the held tool went down on this frame.
pub fn use_pressed(keyboard_input: &Input<KeyCode>) -> (pressed: bool)
    ensures
        pressed == fresh_keys(*keyboard_input).contains(Key::Return),
{
    key_fresh(keyboard_input, Key::Return)
}

} // verus!
