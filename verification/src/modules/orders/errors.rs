//! Errors of the orders module and how they are reported.
use vstd::prelude::*;

use super::status::OrderStatus;
use crate::error::{AppError, ErrorClass};
use crate::text::concat4;

verus! {

#[derive(Debug)]
pub enum OrderError {
    NotFound,
    InvalidTransition { from: OrderStatus, to: OrderStatus },
    CancellationReasonRequired,
    AlreadyExistsForQuotation,
    NoItems,
}

impl OrderError {
    /// The human-readable description of the error.
    pub open spec fn spec_message(self) -> Seq<char> {
        match self {
            OrderError::NotFound => "order was not found"@,
            OrderError::InvalidTransition { from, to } => "cannot change order status from "@
                + from.spec_as_str() + " to "@ + to.spec_as_str(),
            OrderError::CancellationReasonRequired => "a cancellation reason is required"@,
            OrderError::AlreadyExistsForQuotation => "an order already exists for this quotation"@,
            OrderError::NoItems => "an order must contain at least one item"@,
        }
    }

    /// The class and code under which the error is reported.
    pub open spec fn spec_report(self) -> (ErrorClass, Seq<char>) {
        match self {
            OrderError::NotFound => (ErrorClass::NotFound, "ORDER_NOT_FOUND"@),
            OrderError::InvalidTransition { .. } => (
                ErrorClass::BusinessRule,
                "ORDER_INVALID_STATUS_TRANSITION"@,
            ),
            OrderError::CancellationReasonRequired => (
                ErrorClass::BusinessRule,
                "ORDER_CANCELLATION_REASON_REQUIRED"@,
            ),
            OrderError::AlreadyExistsForQuotation => (
                ErrorClass::Conflict,
                "ORDER_ALREADY_EXISTS_FOR_QUOTATION"@,
            ),
            OrderError::NoItems => (ErrorClass::BusinessRule, "ORDER_HAS_NO_ITEMS"@),
        }
    }

    pub fn message(&self) -> (m: String)
        ensures
            m@ == self.spec_message(),
    {
        match self {
            OrderError::NotFound => "order was not found".to_owned(),
            OrderError::InvalidTransition { from, to } => concat4(
                "cannot change order status from ",
                from.as_str(),
                " to ",
                to.as_str(),
            ),
            OrderError::CancellationReasonRequired => "a cancellation reason is required".to_owned(),
            OrderError::AlreadyExistsForQuotation => "an order already exists for this quotation".to_owned(),
            OrderError::NoItems => "an order must contain at least one item".to_owned(),
        }
    }
}

impl AppError {
    /// Reports an order error: its class, stable code and message.
    pub fn from_order_error(error: OrderError) -> (e: AppError)
        ensures
            e.describes(error.spec_report().0, error.spec_report().1, error.spec_message()),
    {
        let message = error.message();
        match error {
            OrderError::NotFound => AppError::not_found("ORDER_NOT_FOUND", message),
            OrderError::InvalidTransition { .. } => AppError::business_rule(
                "ORDER_INVALID_STATUS_TRANSITION",
                message,
            ),
            OrderError::CancellationReasonRequired => AppError::business_rule(
                "ORDER_CANCELLATION_REASON_REQUIRED",
                message,
            ),
            OrderError::AlreadyExistsForQuotation => AppError::conflict(
                "ORDER_ALREADY_EXISTS_FOR_QUOTATION",
                message,
            ),
            OrderError::NoItems => AppError::business_rule("ORDER_HAS_NO_ITEMS", message),
        }
    }
}

} // verus!
