//! Math
//!
//! Numeric utilities shared by the soil formulae.

pub mod utilities;
