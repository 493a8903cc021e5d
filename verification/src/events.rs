//! Keyboard input as the games see it, and the edge events that drive
//! the shooter's state machine.

use vstd::prelude::*;

verus! {

/// The keys the games react to; anything else folds into `Other`.
#[derive(Clone, Copy, PartialEq, Eq, Structural, Debug)]
pub enum KeyInput {
    Left,
    Right,
    Up,
    Space,
    Other,
}

/// Edge events fed to the shooter's state machine: one per key of
/// interest going down or up.
#[derive(Clone, Copy, PartialEq, Eq, Structural, Debug)]
pub enum StateEvents {
    NoneKeyPress,
    LeftKeyPress,
    LeftKeyRelease,
    RightKeyPress,
    RightKeyRelease,
    UpKeyPress,
    UpKeyRelease,
    SpaceKeyPress,
    SpaceKeyRelease,
}

/// The three phases of the shooter's game flow.
#[derive(Clone, Copy, PartialEq, Eq, Structural, Debug)]
pub enum State {
    Idle,
    GameOver,
    Menu,
}

/// A window event that matters to the games: a key going down or up.
#[derive(Clone, Copy, PartialEq, Eq, Structural, Debug)]
pub enum InputEvent {
    Pressed(KeyInput),
    Released(KeyInput),
}

/// The state-machine event raised when `key` is pressed.
pub open spec fn key_press_event(key: KeyInput) -> StateEvents {
    match key {
        KeyInput::Left => StateEvents::LeftKeyPress,
        KeyInput::Right => StateEvents::RightKeyPress,
        KeyInput::Up => StateEvents::UpKeyPress,
        KeyInput::Space => StateEvents::SpaceKeyPress,
        KeyInput::Other => StateEvents::NoneKeyPress,
    }
}

/// The state-machine event raised when `key` is released.
pub open spec fn key_release_event(key: KeyInput) -> StateEvents {
    match key {
        KeyInput::Left => StateEvents::LeftKeyRelease,
        KeyInput::Right => StateEvents::RightKeyRelease,
        KeyInput::Up => StateEvents::UpKeyRelease,
        KeyInput::Space => StateEvents::SpaceKeyRelease,
        KeyInput::Other => StateEvents::NoneKeyPress,
    }
}

pub fn keypress_to_state(key: KeyInput) -> (e: StateEvents)
    ensures
        e == key_press_event(key),
{
    match key {
        KeyInput::Left => StateEvents::LeftKeyPress,
        KeyInput::Right => StateEvents::RightKeyPress,
        KeyInput::Up => StateEvents::UpKeyPress,
        KeyInput::Space => StateEvents::SpaceKeyPress,
        KeyInput::Other => StateEvents::NoneKeyPress,
    }
}

pub fn keyrelease_to_state(key: KeyInput) -> (e: StateEvents)
    ensures
        e == key_release_event(key),
{
    match key {
        KeyInput::Left => StateEvents::LeftKeyRelease,
        KeyInput::Right => StateEvents::RightKeyRelease,
        KeyInput::Up => StateEvents::UpKeyRelease,
        KeyInput::Space => StateEvents::SpaceKeyRelease,
        KeyInput::Other => StateEvents::NoneKeyPress,
    }
}

} // verus!
