//! Simulation core of a top-down arcade shooter: a player ship that rotates
//! and thrusts, projectiles it fires, and hazardous asteroids that spawn at
//! the edges of a bounded play-field.
//!
//! All quantities are fixed-point integers in milli-units: one screen pixel
//! is 1000 milli-units, one degree is 1000 milli-degrees, and trigonometric
//! ratios are scaled by 1000. The embedding application divides by
//! `kinematics::MILLI` when presenting positions.

pub mod collision;
pub mod entities;
pub mod game;
pub mod kinematics;
pub mod rng;
