//! Authentication errors and session rules.
use vstd::prelude::*;

use crate::error::{AppError, ErrorClass};

verus! {

/// Maximum consecutive failed logins before the account is temporarily locked.
pub const MAX_FAILED_LOGIN_ATTEMPTS: i32 = 5;

/// Lock duration, in minutes, after exceeding `MAX_FAILED_LOGIN_ATTEMPTS`.
pub const LOCKOUT_MINUTES: i64 = 15;

#[derive(Debug, Clone, Copy, PartialEq, Eq, Structural)]
pub enum AuthError {
    /// Deliberately identical for "unknown email" and "wrong password" to
    /// prevent account enumeration.
    InvalidCredentials,
    EmailAlreadyRegistered,
    EmailNotVerified,
    AccountDisabled,
    AccountLocked,
    InvalidToken,
    RefreshTokenReused,
}

impl AuthError {
    pub open spec fn spec_message(self) -> Seq<char> {
        match self {
            AuthError::InvalidCredentials => "invalid email or password"@,
            AuthError::EmailAlreadyRegistered => "email address is already registered"@,
            AuthError::EmailNotVerified => "email address has not been verified"@,
            AuthError::AccountDisabled => "account is disabled"@,
            AuthError::AccountLocked => "account is temporarily locked"@,
            AuthError::InvalidToken => "token is invalid or has expired"@,
            AuthError::RefreshTokenReused => "refresh token reuse detected; session revoked"@,
        }
    }

    /// The code of an authentication failure, for the errors reported as such.
    pub open spec fn spec_unauthenticated_code(self) -> Option<Seq<char>> {
        match self {
            AuthError::InvalidCredentials => Some("INVALID_CREDENTIALS"@),
            AuthError::InvalidToken => Some("INVALID_TOKEN"@),
            AuthError::RefreshTokenReused => Some("REFRESH_TOKEN_REUSED"@),
            _ => None,
        }
    }

    /// Class and code of the other errors.
    pub open spec fn spec_report(self) -> (ErrorClass, Seq<char>) {
        match self {
            AuthError::EmailAlreadyRegistered => (ErrorClass::Conflict, "EMAIL_ALREADY_REGISTERED"@),
            AuthError::EmailNotVerified => (ErrorClass::BusinessRule, "EMAIL_NOT_VERIFIED"@),
            AuthError::AccountDisabled => (ErrorClass::BusinessRule, "ACCOUNT_DISABLED"@),
            _ => (ErrorClass::BusinessRule, "ACCOUNT_LOCKED"@),
        }
    }

    pub fn message(&self) -> (m: String)
        ensures
            m@ == self.spec_message(),
    {
        match self {
            AuthError::InvalidCredentials => "invalid email or password".to_owned(),
            AuthError::EmailAlreadyRegistered => "email address is already registered".to_owned(),
            AuthError::EmailNotVerified => "email address has not been verified".to_owned(),
            AuthError::AccountDisabled => "account is disabled".to_owned(),
            AuthError::AccountLocked => "account is temporarily locked".to_owned(),
            AuthError::InvalidToken => "token is invalid or has expired".to_owned(),
            AuthError::RefreshTokenReused => "refresh token reuse detected; session revoked".to_owned(),
        }
    }
}

impl AppError {
    /// Reports an authentication error. Credential and token failures are
    /// reported as unauthenticated, with a code only; the others carry their
    /// message.
    pub fn from_auth_error(error: AuthError) -> (e: AppError)
        ensures
            match error.spec_unauthenticated_code() {
                Some(code) => e.is_unauthenticated(code),
                None => e.describes(error.spec_report().0, error.spec_report().1, error.spec_message()),
            },
    {
        let message = error.message();
        match error {
            AuthError::InvalidCredentials => AppError::Unauthenticated { code: "INVALID_CREDENTIALS" },
            AuthError::InvalidToken => AppError::Unauthenticated { code: "INVALID_TOKEN" },
            AuthError::RefreshTokenReused => AppError::Unauthenticated { code: "REFRESH_TOKEN_REUSED" },
            AuthError::EmailAlreadyRegistered => AppError::conflict("EMAIL_ALREADY_REGISTERED", message),
            AuthError::EmailNotVerified => AppError::business_rule("EMAIL_NOT_VERIFIED", message),
            AuthError::AccountDisabled => AppError::business_rule("ACCOUNT_DISABLED", message),
            AuthError::AccountLocked => AppError::business_rule("ACCOUNT_LOCKED", message),
        }
    }
}

} // verus!
