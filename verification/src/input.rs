//! The input sampler: the current boolean state of the three logical
//! actions, updated by the host's key-down/key-up notifications and read as
//! a single snapshot at the start of each simulation step. Unrecognized
//! keys are ignored; they are never an error.

use vstd::prelude::*;

verus! {

/// The fixed set of logical actions a player can hold.
#[derive(Clone, Copy, PartialEq, Eq, Structural, Debug)]
pub enum Action {
    MoveLeft,
    MoveRight,
    Jump,
}

/// One boolean per logical action. `Copy`, so a step takes its snapshot by
/// plain assignment: key events arriving mid-step change the next step,
/// never the one in flight.
#[derive(Clone, Copy, PartialEq, Eq, Structural, Debug)]
pub struct InputState {
    pub left: bool,
    pub right: bool,
    pub jump: bool,
}

/// The logical action a physical key identifier maps to: left arrow or the
/// `A` key move left, right arrow or the `D` key move right, space, up
/// arrow or the `W` key jump. Every other identifier maps to nothing.
pub open spec fn action_of(key: Seq<char>) -> Option<Action> {
    if key == "ArrowLeft"@ || key == "KeyA"@ {
        Some(Action::MoveLeft)
    } else if key == "ArrowRight"@ || key == "KeyD"@ {
        Some(Action::MoveRight)
    } else if key == "Space"@ || key == "ArrowUp"@ || key == "KeyW"@ {
        Some(Action::Jump)
    } else {
        None
    }
}

/// `s` with the named action set to `v`.
pub open spec fn with_action(s: InputState, a: Action, v: bool) -> InputState {
    match a {
        Action::MoveLeft => InputState { left: v, ..s },
        Action::MoveRight => InputState { right: v, ..s },
        Action::Jump => InputState { jump: v, ..s },
    }
}

/// The state after a key event: the mapped action set to `v`, or the state
/// unchanged when the key maps to nothing.
pub open spec fn applied_key(s: InputState, key: Seq<char>, v: bool) -> InputState {
    match action_of(key) {
        Some(a) => with_action(s, a, v),
        None => s,
    }
}

/// Whether action `a` is held in state `s`.
pub open spec fn action_down(s: InputState, a: Action) -> bool {
    match a {
        Action::MoveLeft => s.left,
        Action::MoveRight => s.right,
        Action::Jump => s.jump,
    }
}

impl InputState {
    /// The initial state: no action held.
    pub fn new() -> (r: InputState)
        ensures
            r == (InputState { left: false, right: false, jump: false }),
    {
        InputState { left: false, right: false, jump: false }
    }

    /// Applies a key event: sets or clears the mapped action, and ignores
    /// an unrecognized key.
    fn apply_key(&mut self, key: &str, v: bool)
        ensures
            *final(self) == applied_key(*old(self), key@, v),
    {
        if crate::strutil::str_eq(key, "ArrowLeft") || crate::strutil::str_eq(key, "KeyA") {
            self.left = v;
        } else if crate::strutil::str_eq(key, "ArrowRight") || crate::strutil::str_eq(key, "KeyD") {
            self.right = v;
        } else if crate::strutil::str_eq(key, "Space") || crate::strutil::str_eq(key, "ArrowUp")
            || crate::strutil::str_eq(key, "KeyW") {
            self.jump = v;
        }
    }

    /// Records that the key went down.
    pub fn key_down(&mut self, key: &str)
        ensures
            *final(self) == applied_key(*old(self), key@, true),
    {
        self.apply_key(key, true);
    }

    /// Records that the key was released.
    pub fn key_up(&mut self, key: &str)
        ensures
            *final(self) == applied_key(*old(self), key@, false),
    {
        self.apply_key(key, false);
    }

    /// Whether the logical action is currently held.
    pub fn is_down(&self, a: Action) -> (r: bool)
        ensures
            r == action_down(*self, a),
    {
        match a {
            Action::MoveLeft => self.left,
            Action::MoveRight => self.right,
            Action::Jump => self.jump,
        }
    }
}

} // verus!
