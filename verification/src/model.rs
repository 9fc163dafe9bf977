//! The player-model swap: a two-state machine toggled by a fresh press of
//! the Swap action.
//!
//! The player wears one of two interchangeable model variants.  A rising
//! edge of Swap — pressed this tick, not pressed the tick before — replaces
//! the variant with the other one; merely holding the action does nothing.
//! Rebuilding the variant's meshes and colliders is the scene layer's work;
//! here only the tag changes.

use crate::input::rising_edge;
use vstd::prelude::*;

verus! {

/// The two interchangeable player model variants.
#[derive(Clone, Copy, Debug, PartialEq, Eq, Structural)]
pub enum PlayerModelType {
    Donut,
    Cube,
}

/// The other element of the two-variant cycle.
pub open spec fn spec_other_model(m: PlayerModelType) -> PlayerModelType {
    match m {
        PlayerModelType::Donut => PlayerModelType::Cube,
        PlayerModelType::Cube => PlayerModelType::Donut,
    }
}

/// One tick of the swap rule as a pure step function: the variant after a
/// tick that sampled Swap as `pressed`, the previous tick having sampled it
/// as `was_pressed`.
pub open spec fn spec_swap_step(
    m: PlayerModelType,
    pressed: bool,
    was_pressed: bool,
) -> PlayerModelType {
    if pressed && !was_pressed {
        spec_other_model(m)
    } else {
        m
    }
}

impl PlayerModelType {
    /// The variant this one swaps into.
    pub fn other(self) -> (r: PlayerModelType)
        ensures
            r == spec_other_model(self),
    {
        match self {
            PlayerModelType::Donut => PlayerModelType::Cube,
            PlayerModelType::Cube => PlayerModelType::Donut,
        }
    }
}

/// The variant tag a player currently wears.
#[derive(Clone, Copy, Debug, PartialEq, Eq, Structural)]
pub struct CurrentPlayerModel(pub PlayerModelType);

/// One tick of the swap rule: toggle the worn variant exactly on a rising
/// edge of Swap.  Held-but-not-fresh input changes nothing; the returned
/// flag says whether a swap fired, so the caller knows to rebuild the
/// model's scene representation.
pub fn swap_model(current: &mut CurrentPlayerModel, pressed: bool, was_pressed: bool) -> (swapped:
    bool)
    ensures
        swapped == (pressed && !was_pressed),
        final(current).0 == spec_swap_step(old(current).0, pressed, was_pressed),
        !swapped ==> *final(current) == *old(current),
{
    let fresh = rising_edge(pressed, was_pressed);
    if fresh {
        current.0 = current.0.other();
    }
    fresh
}

/// Law: the swap is an involution — the cycle has two elements, so swapping
/// twice wears the starting variant again.
pub proof fn lemma_swap_involution(m: PlayerModelType)
    ensures
        spec_other_model(spec_other_model(m)) == m,
{
}

/// Law: a swap fires only on a rising edge.  A tick whose press is not
/// fresh — held over from the previous tick, or absent — leaves the variant
/// untouched, and two ticks with fresh presses land back on the starting
/// variant.
pub proof fn lemma_swap_edges(m: PlayerModelType, pressed: bool, was_pressed: bool)
    ensures
        !(pressed && !was_pressed) ==> spec_swap_step(m, pressed, was_pressed) == m,
        spec_swap_step(spec_swap_step(m, true, false), true, false) == m,
{
    lemma_swap_involution(m);
}

} // verus!
