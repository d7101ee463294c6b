//! Use case CreateOrderFromQuotation: always one step inside the caller's
//! transaction (quotation acceptance). The inserts are driven by the
//! application; what is inserted and what is refused is decided here.
use vstd::prelude::*;

use super::errors::OrderError;
use crate::decimal::DecimalValue;
use crate::ids::{CustomerId, SupplierId, UserId};
use crate::money::Currency;
use crate::text::str_eq;

verus! {

/// Input copied from an accepted quotation. Orders keep their own copy of
/// lines and prices so later quotation edits can never change a placed order.
pub struct NewOrderFromQuotation {
    pub customer_id: CustomerId,
    pub quotation_id: u128,
    /// The currency of every amount.
    pub currency: Currency,
    pub subtotal: DecimalValue,
    pub charges_total: DecimalValue,
    pub grand_total: DecimalValue,
    pub items: Vec<NewOrderItem>,
    pub created_by: UserId,
}

pub struct NewOrderItem {
    pub line_number: i32,
    pub product_id: Option<u128>,
    pub supplier_id: Option<SupplierId>,
    pub description: String,
    pub quantity: DecimalValue,
    pub unit_of_measure: String,
    pub unit_price: DecimalValue,
    pub line_total: DecimalValue,
}

/// An order is created only with at least one line.
pub fn check_new_order(input: &NewOrderFromQuotation) -> (r: Result<(), OrderError>)
    ensures
        r is Err <==> input.items@.len() == 0,
        r matches Err(e) ==> e == OrderError::NoItems,
{
    if input.items.len() == 0 {
        return Err(OrderError::NoItems);
    }
    Ok(())
}

/// The unique constraint that allows a single order per quotation.
pub open spec fn one_order_per_quotation() -> Seq<char> {
    "orders_quotation_id_key"@
}

/// The refusal of an order insert that violated the constraint named
/// `violated_constraint`: a second order for the same quotation. Other
/// failures are not refusals of this use case.
pub fn order_insert_refusal(violated_constraint: Option<&str>) -> (r: Option<OrderError>)
    ensures
        r is Some <==> (violated_constraint matches Some(c) && c@ == one_order_per_quotation()),
        r matches Some(e) ==> e == OrderError::AlreadyExistsForQuotation,
{
    match violated_constraint {
        Some(c) => if str_eq(c, "orders_quotation_id_key") {
            Some(OrderError::AlreadyExistsForQuotation)
        } else {
            None
        },
        None => None,
    }
}

} // verus!
