//! First-person player motion in fixed-point arithmetic.
//!
//! Each frame the driver hands the library what it saw: keys held, the jump
//! key's edge, mouse motion and the time passed. An
//! [`orientation::OrientationController`] turns the look input into yaw and
//! pitch, and a [`movement::MovementController`] advances a
//! [`player::PlayerState`] and its position along the basis that the new
//! orientation gives. Numbers are [`fixed::Fixed`]: billionths in an `i64`,
//! with saturating, total arithmetic.

pub mod countdown;
pub mod fixed;
pub mod frames;
pub mod input;
pub mod movement;
pub mod orientation;
pub mod player;
pub mod vec3;
