//! The failures the library reports.

use vstd::prelude::*;

verus! {

/// Why a catalogue record could not be turned into a value.
#[allow(non_camel_case_types)]
#[derive(Debug, Clone, Copy, PartialEq, Eq, Structural)]
pub enum ParseError {
    /// The catalogue itself is missing.
    file_not_found,
    /// A column holds a value that its field cannot take.
    wrong_format,
    /// The record has fewer columns than the value needs.
    field_not_found,
    /// The catalogue has no record for the key asked for.
    record_not_found,
    unknown_error,
}

/// Why a loading operation was refused.
#[allow(non_camel_case_types)]
#[derive(Debug, PartialEq, Eq)]
pub enum BalanceError {
    /// The sheet has no station of this name.
    not_in_balance(String),
    /// More fuel was asked for than the tanks hold; carries their capacity
    /// in millilitres.
    tank_capacity_exceeded(u32),
    /// The sheet carries no weight, so it has no centre of gravity.
    undefined_center_of_gravity,
    unknown_error,
}

} // verus!
