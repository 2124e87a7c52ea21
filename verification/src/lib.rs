//! billios - A library for soil calculations
//!
//! This crate is a collection of soil related data structures and formulae.
//! The verified core lives here: integer power utilities that build the
//! power-of-ten scaling factors used when rounding formula results.

pub mod math;
