//! Fixed-rate control logic for a walk-and-jump character demo.
//!
//! Each tick the game samples a handful of boolean action signals, turns the
//! player's facing, computes a desired planar motion vector and a jump flag,
//! hands those to an external character controller, and eases one or two
//! follow cameras toward their targets.  This crate holds that logic as pure,
//! verified functions over fixed-point integers; the engine, physics and
//! rendering layers around it stay outside.

pub mod camera;
pub mod control;
pub mod fixed;
pub mod input;
pub mod model;
pub mod vec3;
