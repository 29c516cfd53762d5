//! Falling particle emitters: the decisions of a small scene in which waves of
//! emitters appear above the view, drift downward over time and are removed
//! once they have fallen past a floor.
//!
//! Lengths are kept in micro-units (a millionth of a world unit) and time in
//! microseconds, so that every step of the scene is exact integer arithmetic.
mod draw;
pub mod field;
