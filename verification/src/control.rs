//! The state of the four direction keys.

use vstd::prelude::*;
use vstd::string::StringExecFns;

verus! {

/// Whether a key went down or came up.
#[derive(Clone, Copy, Debug, PartialEq, Eq, Structural)]
pub enum ElementState {
    Pressed,
    Released,
}

/// The keys that a keyboard event may name, as far as the scene tells them
/// apart.
#[derive(Clone, Copy, Debug, PartialEq, Eq, Structural)]
pub enum VirtualKeyCode {
    Left,
    Right,
    Up,
    Down,
    /// Any other key.
    Other,
}

/// Which of the four direction keys are held down.
#[derive(Clone, Copy, Debug, PartialEq, Eq, Structural)]
pub struct State {
    pub move_up: bool,
    pub move_down: bool,
    pub move_left: bool,
    pub move_right: bool,
}

/// The state after a keyboard event: the named direction key is held exactly
/// if the event is a press; every other key, and an event that names no key,
/// changes nothing.
pub open spec fn after_key_input(
    before: State,
    elem_state: ElementState,
    key_code: Option<VirtualKeyCode>,
) -> State {
    let pressed = elem_state == ElementState::Pressed;
    match key_code {
        Some(VirtualKeyCode::Left) => State { move_left: pressed, ..before },
        Some(VirtualKeyCode::Right) => State { move_right: pressed, ..before },
        Some(VirtualKeyCode::Up) => State { move_up: pressed, ..before },
        Some(VirtualKeyCode::Down) => State { move_down: pressed, ..before },
        _ => before,
    }
}

/// How a flag is written.
pub open spec fn flag_text(flag: bool) -> Seq<char> {
    if flag {
        "true"@
    } else {
        "false"@
    }
}

/// How a flag is written.
fn flag(held: bool) -> (text: &'static str)
    ensures
        text@ == flag_text(held),
{
    if held {
        "true"
    } else {
        "false"
    }
}

impl State {
    /// The state written out: the four keys by name, each with its flag.
    pub open spec fn spec_describe(self) -> Seq<char> {
        "move_up: "@ + flag_text(self.move_up) + ", move_down: "@ + flag_text(self.move_down)
            + ", move_left: "@ + flag_text(self.move_left) + ", move_right: "@ + flag_text(
            self.move_right,
        )
    }

    /// The state written out, for a log.
    pub fn describe(&self) -> (text: String)
        ensures
            text@ == self.spec_describe(),
    {
        "move_up: ".to_string().concat(flag(self.move_up)).concat(", move_down: ").concat(
            flag(self.move_down),
        ).concat(", move_left: ").concat(flag(self.move_left)).concat(", move_right: ").concat(
            flag(self.move_right),
        )
    }

    /// The state in which no key is held.
    pub fn new() -> (s: State)
        ensures
            s == (State { move_up: false, move_down: false, move_left: false, move_right: false }),
            !s.is_moving(),
    {
        State { move_up: false, move_down: false, move_left: false, move_right: false }
    }

    /// Whether any direction key is held.
    pub open spec fn is_moving(self) -> bool {
        self.move_up || self.move_down || self.move_left || self.move_right
    }

    /// Whether any direction key is held.
    pub fn moving(&self) -> (m: bool)
        ensures
            m == self.is_moving(),
    {
        self.move_up || self.move_down || self.move_left || self.move_right
    }

    /// Takes in one keyboard event.
    pub fn handle_key_input(&mut self, elem_state: ElementState, key_code: Option<VirtualKeyCode>)
        ensures
            *final(self) == after_key_input(*old(self), elem_state, key_code),
    {
        let pressed = elem_state == ElementState::Pressed;
        match key_code {
            Some(k) => match k {
                VirtualKeyCode::Left => self.move_left = pressed,
                VirtualKeyCode::Right => self.move_right = pressed,
                VirtualKeyCode::Up => self.move_up = pressed,
                VirtualKeyCode::Down => self.move_down = pressed,
                VirtualKeyCode::Other => (),
            },
            None => (),
        }
    }
}

/// While a direction key is held something moves, and once it is released
/// the state is what it would be had the key never been pressed.
pub proof fn lemma_press_then_release(before: State, key: VirtualKeyCode)
    requires
        key != VirtualKeyCode::Other,
    ensures
        after_key_input(before, ElementState::Pressed, Some(key)).is_moving(),
        after_key_input(
            after_key_input(before, ElementState::Pressed, Some(key)),
            ElementState::Released,
            Some(key),
        ) == after_key_input(before, ElementState::Released, Some(key)),
{
}

} // verus!
