//! Payment types, statuses and errors.
use vstd::prelude::*;

use crate::error::{AppError, ErrorClass};
use crate::text::{concat3, concat4};

verus! {

/// Why the payment is being made.
#[derive(Debug, Clone, Copy, PartialEq, Eq, Structural)]
pub enum PaymentType {
    Full,
    Partial,
    Advance,
    Milestone,
}

/// Status of one money movement (a row in `payments`).
#[derive(Debug, Clone, Copy, PartialEq, Eq, Structural)]
pub enum PaymentStatus {
    Pending,
    Paid,
    Failed,
    Refunded,
}

/// Settlement status of an installment (a row in `payment_schedules`), derived
/// from the confirmed payments allocated to it.
#[derive(Debug, Clone, Copy, PartialEq, Eq, Structural)]
pub enum ScheduleStatus {
    Pending,
    PartiallyPaid,
    Paid,
    Refunded,
    Cancelled,
}

impl PaymentStatus {
    /// PENDING ─► PAID | FAILED, PAID ─► REFUNDED.
    pub open spec fn spec_can_transition_to(self, next: PaymentStatus) -> bool {
        match (self, next) {
            (PaymentStatus::Pending, PaymentStatus::Paid) => true,
            (PaymentStatus::Pending, PaymentStatus::Failed) => true,
            (PaymentStatus::Paid, PaymentStatus::Refunded) => true,
            _ => false,
        }
    }

    /// The `Debug` name of the status.
    pub open spec fn spec_debug_name(self) -> Seq<char> {
        match self {
            PaymentStatus::Pending => "Pending"@,
            PaymentStatus::Paid => "Paid"@,
            PaymentStatus::Failed => "Failed"@,
            PaymentStatus::Refunded => "Refunded"@,
        }
    }

    pub fn can_transition_to(self, next: PaymentStatus) -> (r: bool)
        ensures
            r == self.spec_can_transition_to(next),
    {
        matches!(
            (self, next),
            (PaymentStatus::Pending, PaymentStatus::Paid) | (
                PaymentStatus::Pending,
                PaymentStatus::Failed,
            ) | (PaymentStatus::Paid, PaymentStatus::Refunded)
        )
    }

    fn debug_name(self) -> (s: &'static str)
        ensures
            s@ == self.spec_debug_name(),
    {
        match self {
            PaymentStatus::Pending => "Pending",
            PaymentStatus::Paid => "Paid",
            PaymentStatus::Failed => "Failed",
            PaymentStatus::Refunded => "Refunded",
        }
    }
}

/// The payment changes are exactly PENDING→PAID, PENDING→FAILED and
/// PAID→REFUNDED.
pub proof fn payment_transitions_are_the_life_cycle_edges(from: PaymentStatus, to: PaymentStatus)
    ensures
        from.spec_can_transition_to(to) <==> {
            ||| from == PaymentStatus::Pending && to == PaymentStatus::Paid
            ||| from == PaymentStatus::Pending && to == PaymentStatus::Failed
            ||| from == PaymentStatus::Paid && to == PaymentStatus::Refunded
        },
{
}

/// A refund is only possible for a paid payment.
pub proof fn refunds_require_paid(status: PaymentStatus)
    ensures
        status.spec_can_transition_to(PaymentStatus::Refunded) <==> status == PaymentStatus::Paid,
{
}

/// Failed and refunded payments never change status again.
pub proof fn failed_and_refunded_payments_are_final(status: PaymentStatus, next: PaymentStatus)
    requires
        status == PaymentStatus::Failed || status == PaymentStatus::Refunded,
    ensures
        !status.spec_can_transition_to(next),
{
}

#[derive(Debug)]
pub enum PaymentError {
    NotFound,
    InvalidTransition { from: PaymentStatus, to: PaymentStatus },
    Overpayment,
    UnknownProvider(String),
    InvalidSignature,
}

impl PaymentError {
    pub open spec fn spec_message(self) -> Seq<char> {
        match self {
            PaymentError::NotFound => "payment was not found"@,
            PaymentError::InvalidTransition { from, to } => "payment cannot change from "@
                + from.spec_debug_name() + " to "@ + to.spec_debug_name(),
            PaymentError::Overpayment => "payment amount exceeds the outstanding balance"@,
            PaymentError::UnknownProvider(provider) => "unknown payment provider `"@ + provider@
                + "`"@,
            PaymentError::InvalidSignature => "webhook signature verification failed"@,
        }
    }

    pub open spec fn spec_report(self) -> (ErrorClass, Seq<char>) {
        match self {
            PaymentError::NotFound => (ErrorClass::NotFound, "PAYMENT_NOT_FOUND"@),
            PaymentError::InvalidTransition { .. } => (
                ErrorClass::BusinessRule,
                "PAYMENT_INVALID_STATUS_TRANSITION"@,
            ),
            PaymentError::Overpayment => (ErrorClass::BusinessRule, "PAYMENT_OVERPAYMENT"@),
            PaymentError::UnknownProvider(_) => (
                ErrorClass::NotFound,
                "PAYMENT_PROVIDER_NOT_FOUND"@,
            ),
            PaymentError::InvalidSignature => (
                ErrorClass::BadRequest,
                "PAYMENT_WEBHOOK_INVALID_SIGNATURE"@,
            ),
        }
    }

    pub fn message(&self) -> (m: String)
        ensures
            m@ == self.spec_message(),
    {
        match self {
            PaymentError::NotFound => "payment was not found".to_owned(),
            PaymentError::InvalidTransition { from, to } => concat4(
                "payment cannot change from ",
                from.debug_name(),
                " to ",
                to.debug_name(),
            ),
            PaymentError::Overpayment => "payment amount exceeds the outstanding balance".to_owned(),
            PaymentError::UnknownProvider(provider) => concat3(
                "unknown payment provider `",
                provider.as_str(),
                "`",
            ),
            PaymentError::InvalidSignature => "webhook signature verification failed".to_owned(),
        }
    }
}

impl AppError {
    /// Reports a payment error: its class, stable code and message.
    pub fn from_payment_error(error: PaymentError) -> (e: AppError)
        ensures
            e.describes(error.spec_report().0, error.spec_report().1, error.spec_message()),
    {
        let message = error.message();
        match error {
            PaymentError::NotFound => AppError::not_found("PAYMENT_NOT_FOUND", message),
            PaymentError::InvalidTransition { .. } => AppError::business_rule(
                "PAYMENT_INVALID_STATUS_TRANSITION",
                message,
            ),
            PaymentError::Overpayment => AppError::business_rule("PAYMENT_OVERPAYMENT", message),
            PaymentError::UnknownProvider(_) => AppError::not_found(
                "PAYMENT_PROVIDER_NOT_FOUND",
                message,
            ),
            PaymentError::InvalidSignature => AppError::bad_request(
                "PAYMENT_WEBHOOK_INVALID_SIGNATURE",
                message,
            ),
        }
    }
}

} // verus!
