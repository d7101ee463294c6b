//! Typed identifiers. Each wraps the 128-bit value of a UUID so that an ID of
//! one table can never be passed where an ID of another is expected.
use vstd::prelude::*;

verus! {

/// Identifier of a row in `users`.
#[derive(Debug, Clone, Copy, PartialEq, Eq, Structural, Hash)]
pub struct UserId(pub u128);

/// Identifier of a row in `customers`.
#[derive(Debug, Clone, Copy, PartialEq, Eq, Structural, Hash)]
pub struct CustomerId(pub u128);

/// Identifier of a row in `suppliers`.
#[derive(Debug, Clone, Copy, PartialEq, Eq, Structural, Hash)]
pub struct SupplierId(pub u128);

/// Identifier of a row in `orders`.
#[derive(Debug, Clone, Copy, PartialEq, Eq, Structural, Hash)]
pub struct OrderId(pub u128);

/// Identifier of a row in `quotations`.
#[derive(Debug, Clone, Copy, PartialEq, Eq, Structural, Hash)]
pub struct QuotationId(pub u128);

/// Identifier of a row in `requirements`.
#[derive(Debug, Clone, Copy, PartialEq, Eq, Structural, Hash)]
pub struct RequirementId(pub u128);

} // verus!
