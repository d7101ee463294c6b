//! Errors of the quotations module and how they are reported.
use vstd::prelude::*;

use super::status::QuotationStatus;
use crate::error::{AppError, ErrorClass};
use crate::text::concat4;

verus! {

/// A monetary computation failed: an amount left the range a `Decimal` can
/// hold.
#[derive(Debug, Clone, Copy, PartialEq, Eq, Structural)]
pub enum MoneyError {
    Overflow,
}

impl MoneyError {
    pub open spec fn spec_message(self) -> Seq<char> {
        match self {
            MoneyError::Overflow => "amount is out of range"@,
        }
    }

    pub fn message(&self) -> (m: String)
        ensures
            m@ == self.spec_message(),
    {
        match self {
            MoneyError::Overflow => "amount is out of range".to_owned(),
        }
    }
}

#[derive(Debug, Clone, Copy, PartialEq, Eq, Structural)]
pub enum QuotationError {
    NotFound,
    InvalidTransition { from: QuotationStatus, to: QuotationStatus },
    Expired,
    NoItems,
    InvalidValidity,
    NegativeTotal,
    ConcurrentModification,
    Money(MoneyError),
}

impl QuotationError {
    pub open spec fn spec_message(self) -> Seq<char> {
        match self {
            QuotationError::NotFound => "quotation was not found"@,
            QuotationError::InvalidTransition { from, to } =>
                "cannot change quotation status from "@ + from.spec_as_str() + " to "@
                + to.spec_as_str(),
            QuotationError::Expired => "quotation has expired"@,
            QuotationError::NoItems => "quotation must contain at least one item"@,
            QuotationError::InvalidValidity => "validity date must be in the future"@,
            QuotationError::NegativeTotal => "quotation total cannot be negative"@,
            QuotationError::ConcurrentModification =>
                "quotation was modified by another request; reload and retry"@,
            QuotationError::Money(inner) => inner.spec_message(),
        }
    }

    pub open spec fn spec_report(self) -> (ErrorClass, Seq<char>) {
        match self {
            QuotationError::NotFound => (ErrorClass::NotFound, "QUOTATION_NOT_FOUND"@),
            QuotationError::InvalidTransition { .. } => (
                ErrorClass::BusinessRule,
                "QUOTATION_INVALID_STATUS_TRANSITION"@,
            ),
            QuotationError::Expired => (ErrorClass::BusinessRule, "QUOTATION_EXPIRED"@),
            QuotationError::NoItems => (ErrorClass::BusinessRule, "QUOTATION_HAS_NO_ITEMS"@),
            QuotationError::InvalidValidity => (
                ErrorClass::BusinessRule,
                "QUOTATION_INVALID_VALIDITY"@,
            ),
            QuotationError::NegativeTotal => (
                ErrorClass::BusinessRule,
                "QUOTATION_NEGATIVE_TOTAL"@,
            ),
            QuotationError::ConcurrentModification => (
                ErrorClass::Conflict,
                "QUOTATION_CONCURRENT_MODIFICATION"@,
            ),
            QuotationError::Money(_) => (ErrorClass::BusinessRule, "MONEY_INVALID"@),
        }
    }

    pub fn message(&self) -> (m: String)
        ensures
            m@ == self.spec_message(),
    {
        match self {
            QuotationError::NotFound => "quotation was not found".to_owned(),
            QuotationError::InvalidTransition { from, to } => concat4(
                "cannot change quotation status from ",
                from.as_str(),
                " to ",
                to.as_str(),
            ),
            QuotationError::Expired => "quotation has expired".to_owned(),
            QuotationError::NoItems => "quotation must contain at least one item".to_owned(),
            QuotationError::InvalidValidity => "validity date must be in the future".to_owned(),
            QuotationError::NegativeTotal => "quotation total cannot be negative".to_owned(),
            QuotationError::ConcurrentModification =>
                "quotation was modified by another request; reload and retry".to_owned(),
            QuotationError::Money(inner) => inner.message(),
        }
    }
}

impl AppError {
    /// Reports a quotation error: its class, stable code and message.
    pub fn from_quotation_error(error: QuotationError) -> (e: AppError)
        ensures
            e.describes(error.spec_report().0, error.spec_report().1, error.spec_message()),
    {
        let message = error.message();
        match error {
            QuotationError::NotFound => AppError::not_found("QUOTATION_NOT_FOUND", message),
            QuotationError::InvalidTransition { .. } => AppError::business_rule(
                "QUOTATION_INVALID_STATUS_TRANSITION",
                message,
            ),
            QuotationError::Expired => AppError::business_rule("QUOTATION_EXPIRED", message),
            QuotationError::NoItems => AppError::business_rule("QUOTATION_HAS_NO_ITEMS", message),
            QuotationError::InvalidValidity => AppError::business_rule(
                "QUOTATION_INVALID_VALIDITY",
                message,
            ),
            QuotationError::NegativeTotal => AppError::business_rule(
                "QUOTATION_NEGATIVE_TOTAL",
                message,
            ),
            QuotationError::ConcurrentModification => AppError::conflict(
                "QUOTATION_CONCURRENT_MODIFICATION",
                message,
            ),
            QuotationError::Money(_) => AppError::business_rule("MONEY_INVALID", message),
        }
    }
}

} // verus!
