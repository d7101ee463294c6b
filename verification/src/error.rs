//! The error every use case reports to the HTTP layer: a class (which decides
//! the status code), a stable machine-readable code and a human message.
use vstd::prelude::*;

verus! {

/// How an error is reported to the client.
#[derive(Debug, Clone, Copy, PartialEq, Eq, Structural)]
pub enum ErrorClass {
    NotFound,
    BusinessRule,
    Conflict,
    BadRequest,
}

#[derive(Debug)]
pub enum AppError {
    NotFound { code: &'static str, message: String },
    BusinessRule { code: &'static str, message: String },
    Conflict { code: &'static str, message: String },
    BadRequest { code: &'static str, message: String },
    Unauthenticated { code: &'static str },
    Forbidden,
    NotImplemented,
}

impl AppError {
    /// `self` is an error of class `class` with the given code and message.
    pub open spec fn describes(self, class: ErrorClass, code: Seq<char>, message: Seq<char>) -> bool {
        match self {
            AppError::NotFound { code: c, message: m } => class == ErrorClass::NotFound && c@
                == code && m@ == message,
            AppError::BusinessRule { code: c, message: m } => class == ErrorClass::BusinessRule
                && c@ == code && m@ == message,
            AppError::Conflict { code: c, message: m } => class == ErrorClass::Conflict && c@
                == code && m@ == message,
            AppError::BadRequest { code: c, message: m } => class == ErrorClass::BadRequest && c@
                == code && m@ == message,
            _ => false,
        }
    }

    /// `self` reports a failed authentication with the given code.
    pub open spec fn is_unauthenticated(self, code: Seq<char>) -> bool {
        self matches AppError::Unauthenticated { code: c } && c@ == code
    }

    pub fn not_found(code: &'static str, message: String) -> (e: AppError)
        ensures
            e.describes(ErrorClass::NotFound, code@, message@),
    {
        AppError::NotFound { code, message }
    }

    pub fn business_rule(code: &'static str, message: String) -> (e: AppError)
        ensures
            e.describes(ErrorClass::BusinessRule, code@, message@),
    {
        AppError::BusinessRule { code, message }
    }

    pub fn conflict(code: &'static str, message: String) -> (e: AppError)
        ensures
            e.describes(ErrorClass::Conflict, code@, message@),
    {
        AppError::Conflict { code, message }
    }

    pub fn bad_request(code: &'static str, message: String) -> (e: AppError)
        ensures
            e.describes(ErrorClass::BadRequest, code@, message@),
    {
        AppError::BadRequest { code, message }
    }
}

} // verus!
