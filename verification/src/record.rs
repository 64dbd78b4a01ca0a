//! Reading catalogue columns. A column that holds a measure holds it as a
//! whole number of thousandths of the catalogue's unit: millimetres for an
//! arm given in metres, grams for a weight given in kilograms.

use vstd::prelude::*;

verus! {

/// Whether a column can be an arm: a whole number of millimetres that the
/// arm type holds.
pub open spec fn is_arm(column: i64) -> bool {
    i32::MIN <= column <= i32::MAX
}

/// Whether a column can be an amount (a weight, a speed, a rate): a whole
/// number of thousandths, not negative, that the amount type holds.
pub open spec fn is_amount(column: i64) -> bool {
    0 <= column <= u32::MAX
}

/// The arm that a column holds, if it can be one.
pub fn read_arm(column: i64) -> (arm: Option<i32>)
    ensures
        arm is Some <==> is_arm(column),
        arm matches Some(a) ==> a == column,
{
    if -0x8000_0000 <= column && column <= 0x7fff_ffff {
        Some(column as i32)
    } else {
        None
    }
}

/// The amount that a column holds, if it can be one.
pub fn read_amount(column: i64) -> (amount: Option<u32>)
    ensures
        amount is Some <==> is_amount(column),
        amount matches Some(a) ==> a == column,
{
    if 0 <= column && column <= 0xffff_ffff {
        Some(column as u32)
    } else {
        None
    }
}

/// Whether a column of whole litres can be a volume: not negative, and in
/// millilitres still an amount that the type holds.
pub open spec fn is_litres(column: i32) -> bool {
    0 <= column && column * 1000 <= u32::MAX
}

/// The volume in millilitres that a column of whole litres holds, if it can
/// be one.
pub fn read_litres(column: i32) -> (volume: Option<u32>)
    ensures
        volume is Some <==> is_litres(column),
        volume matches Some(v) ==> v == column * 1000,
{
    if 0 <= column && column <= 4_294_967 {
        let litres: u32 = column as u32;
        Some(litres * 1000)
    } else {
        None
    }
}

} // verus!
