//! Weight-and-balance engine for light aircraft, in exact integer arithmetic.
//!
//! Arms are whole millimetres from the datum, weights whole grams and fuel
//! volumes whole millilitres, so every limit, total and classification is
//! computed without rounding error other than where a quotient is stated.

pub mod aircraft;
pub mod airport;
mod arith;
pub mod chart;
pub mod envelope;
pub mod error;
pub mod flightplan;
pub mod fuel;
pub mod geographics;
pub mod loading;
pub mod record;
mod text;
