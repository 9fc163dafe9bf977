//! Per-tick input state.
//!
//! An input layer outside this crate resolves device bindings into named
//! actions; the control logic only ever sees, for one tick, which actions
//! are currently held.  Edge detection — "freshly pressed this tick" —
//! compares the current sample with the previous one.

use vstd::prelude::*;

verus! {

/// The named actions a player can hold down.
#[derive(Clone, Copy, Debug, PartialEq, Eq, Structural)]
pub enum PlayerAction {
    Forward,
    Backward,
    TurnLeft,
    TurnRight,
    Jump,
    SwapModel,
}

/// One tick's sampled input: the level state of every action.  It is read
/// afresh each tick and never accumulated.
#[derive(Clone, Copy, Debug, PartialEq, Eq, Structural)]
pub struct InputSnapshot {
    pub forward: bool,
    pub backward: bool,
    pub turn_left: bool,
    pub turn_right: bool,
    pub jump: bool,
    pub swap_model: bool,
}

impl InputSnapshot {
    /// Which field of the snapshot an action reads.
    pub open spec fn spec_pressed(self, action: PlayerAction) -> bool {
        match action {
            PlayerAction::Forward => self.forward,
            PlayerAction::Backward => self.backward,
            PlayerAction::TurnLeft => self.turn_left,
            PlayerAction::TurnRight => self.turn_right,
            PlayerAction::Jump => self.jump,
            PlayerAction::SwapModel => self.swap_model,
        }
    }

    /// A snapshot with nothing held.
    pub fn idle() -> (r: InputSnapshot)
        ensures
            forall|a: PlayerAction| !r.spec_pressed(a),
    {
        InputSnapshot {
            forward: false,
            backward: false,
            turn_left: false,
            turn_right: false,
            jump: false,
            swap_model: false,
        }
    }

    /// Whether the given action is held in this snapshot.
    pub fn pressed(&self, action: PlayerAction) -> (r: bool)
        ensures
            r == self.spec_pressed(action),
    {
        match action {
            PlayerAction::Forward => self.forward,
            PlayerAction::Backward => self.backward,
            PlayerAction::TurnLeft => self.turn_left,
            PlayerAction::TurnRight => self.turn_right,
            PlayerAction::Jump => self.jump,
            PlayerAction::SwapModel => self.swap_model,
        }
    }
}

/// A fresh press: held now and not held in the previous sample.
pub fn rising_edge(now: bool, before: bool) -> (r: bool)
    ensures
        r == (now && !before),
{
    now && !before
}

} // verus!
