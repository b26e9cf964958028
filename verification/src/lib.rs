//! Simulation core of a reactor-management toy.
//!
//! A small set of coupled quantities (fuel, neutron flux, heat, coolant
//! water, waste) evolve under a fixed-step update rule, gated by a
//! progressive unlock mechanism (secondary coolant loop, tertiary
//! reprocessing unit), and are manipulated through discrete toggles and
//! continuous rotary dials driven by pointer gestures.
//!
//! All quantities are fixed-point numbers: an `i64` or `u64` holds a value
//! in millionths of a unit, so that every update rule is exact integer
//! arithmetic and every bound can be proved. The rendering layer receives
//! an ordered list of abstract draw primitives; turning those into vertex
//! buffers, and all platform work, happens outside this crate.

pub mod collision;
pub mod dial;
pub mod fixed;
pub mod prim;
pub mod reactor;
pub mod refinery;
pub mod tank;
pub mod vec2;
