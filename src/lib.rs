//! Orbit kinematics for a small solar-system simulation, and the keyboard
//! movement rules of a player square.
//!
//! All quantities are exact integers in units that the caller picks:
//! angles are binary angles (a full turn is `2^32` units), the gravitational
//! constant is a ratio of two integers, and positions are integer grid points.

pub mod orbit;
pub mod gravity;
pub mod player;
