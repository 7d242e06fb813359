//! Column values that are not plain integers or text.

use vstd::prelude::*;

verus! {

/// `chrono::NaiveDate`, the calendar date of a `Date` column. The service
/// never looks inside a date: it carries each one from the row it was read
/// from to the row it answers with.
#[verifier::external_type_specification]
#[verifier::external_body]
pub struct ExNaiveDate(chrono::NaiveDate);

/// A `Float8` column value, held as its IEEE-754 bit pattern.
///
/// The service core does no floating-point arithmetic. It moves such values
/// unchanged, and where a query asks for a sum of them it answers with the
/// terms of that sum (see [`PriceTotal`]).
#[derive(Clone, Copy, Debug, PartialEq, Eq)]
pub struct Float8 {
    pub bits: u64,
}

impl Float8 {
    /// The value with the given bit pattern.
    pub fn from_bits(bits: u64) -> (r: Float8)
        ensures
            r.bits == bits,
    {
        Float8 { bits }
    }

    /// The bit pattern of the value.
    pub fn to_bits(&self) -> (bits: u64)
        ensures
            bits == self.bits,
    {
        self.bits
    }
}

/// One term `quantity * unit_price` of an order's total price.
#[derive(Clone, Copy, Debug, PartialEq, Eq)]
pub struct PriceTerm {
    pub quantity: i32,
    pub unit_price: Float8,
}

/// The total price of an order as the sequence of its terms, one per order
/// line, in the order of the lines. Its value is the floating-point sum of
/// `quantity * unit_price` over the terms, taken from the first term on.
#[derive(Debug, PartialEq)]
pub struct PriceTotal {
    pub terms: Vec<PriceTerm>,
}

/// A copy of an optional text.
pub fn clone_text(text: &Option<String>) -> (r: Option<String>)
    ensures
        r == *text,
{
    match text {
        Some(t) => Some(t.clone()),
        None => None,
    }
}

} // verus!
