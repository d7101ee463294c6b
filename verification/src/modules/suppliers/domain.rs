//! Supplier verification statuses and errors.
use vstd::prelude::*;

use crate::error::{AppError, ErrorClass};
use crate::text::{concat, concat3, concat4, str_eq};

verus! {

#[derive(Debug, Clone, Copy, PartialEq, Eq, Structural)]
pub enum VerificationStatus {
    Unverified,
    PendingReview,
    Verified,
    Rejected,
    Suspended,
}

impl VerificationStatus {
    /// The stored (database and API) name.
    pub open spec fn spec_as_str(self) -> Seq<char> {
        match self {
            VerificationStatus::Unverified => "UNVERIFIED"@,
            VerificationStatus::PendingReview => "PENDING_REVIEW"@,
            VerificationStatus::Verified => "VERIFIED"@,
            VerificationStatus::Rejected => "REJECTED"@,
            VerificationStatus::Suspended => "SUSPENDED"@,
        }
    }

    /// The value whose stored name is `value`, if any.
    pub open spec fn spec_parse(value: Seq<char>) -> Option<VerificationStatus> {
        if value == "UNVERIFIED"@ {
            Some(VerificationStatus::Unverified)
        } else if value == "PENDING_REVIEW"@ {
            Some(VerificationStatus::PendingReview)
        } else if value == "VERIFIED"@ {
            Some(VerificationStatus::Verified)
        } else if value == "REJECTED"@ {
            Some(VerificationStatus::Rejected)
        } else if value == "SUSPENDED"@ {
            Some(VerificationStatus::Suspended)
        } else {
            None
        }
    }

    pub fn as_str(self) -> (s: &'static str)
        ensures
            s@ == self.spec_as_str(),
    {
        match self {
            VerificationStatus::Unverified => "UNVERIFIED",
            VerificationStatus::PendingReview => "PENDING_REVIEW",
            VerificationStatus::Verified => "VERIFIED",
            VerificationStatus::Rejected => "REJECTED",
            VerificationStatus::Suspended => "SUSPENDED",
        }
    }

    /// Parses a stored name; the error names the unknown value.
    pub fn parse(value: &str) -> (r: Result<VerificationStatus, String>)
        ensures
            r matches Ok(s) ==> VerificationStatus::spec_parse(value@) == Some(s),
            r matches Err(m) ==> VerificationStatus::spec_parse(value@) is None && m@ == "unknown verification status `"@ + value@ + "`"@,
    {
        if str_eq(value, "UNVERIFIED") {
            Ok(VerificationStatus::Unverified)
        } else if str_eq(value, "PENDING_REVIEW") {
            Ok(VerificationStatus::PendingReview)
        } else if str_eq(value, "VERIFIED") {
            Ok(VerificationStatus::Verified)
        } else if str_eq(value, "REJECTED") {
            Ok(VerificationStatus::Rejected)
        } else if str_eq(value, "SUSPENDED") {
            Ok(VerificationStatus::Suspended)
        } else {
            Err(concat3("unknown verification status `", value, "`"))
        }
    }
}

impl std::str::FromStr for VerificationStatus {
    type Err = String;

    fn from_str(value: &str) -> (r: Result<VerificationStatus, String>)
        ensures
            r matches Ok(s) ==> VerificationStatus::spec_parse(value@) == Some(s),
            r matches Err(m) ==> VerificationStatus::spec_parse(value@) is None && m@ == "unknown verification status `"@
                + value@ + "`"@,
    {
        VerificationStatus::parse(value)
    }
}

/// Parsing the stored name of a verification status gives it back.
pub proof fn verification_status_string_round_trip(value: VerificationStatus)
    ensures
        VerificationStatus::spec_parse(value.spec_as_str()) == Some(value),
{
    reveal_strlit("UNVERIFIED");
    assert("UNVERIFIED"@.len() == 10 && "UNVERIFIED"@[0] == 'U' && "UNVERIFIED"@[1] == 'N');
    reveal_strlit("PENDING_REVIEW");
    assert("PENDING_REVIEW"@.len() == 14 && "PENDING_REVIEW"@[0] == 'P' && "PENDING_REVIEW"@[1] == 'E');
    reveal_strlit("VERIFIED");
    assert("VERIFIED"@.len() == 8 && "VERIFIED"@[0] == 'V' && "VERIFIED"@[1] == 'E');
    reveal_strlit("REJECTED");
    assert("REJECTED"@.len() == 8 && "REJECTED"@[0] == 'R' && "REJECTED"@[1] == 'E');
    reveal_strlit("SUSPENDED");
    assert("SUSPENDED"@.len() == 9 && "SUSPENDED"@[0] == 'S' && "SUSPENDED"@[1] == 'U');
}

impl VerificationStatus {
    /// The verification lifecycle:
    ///
    /// ```text
    /// UNVERIFIED ─► PENDING_REVIEW ─► VERIFIED ◄─► SUSPENDED
    ///                    ▲    │
    ///                    │    ▼
    ///                    └─ REJECTED
    /// ```
    pub open spec fn spec_can_transition_to(self, next: VerificationStatus) -> bool {
        match (self, next) {
            (VerificationStatus::Unverified, VerificationStatus::PendingReview) => true,
            (VerificationStatus::Rejected, VerificationStatus::PendingReview) => true,
            (VerificationStatus::PendingReview, VerificationStatus::Verified) => true,
            (VerificationStatus::PendingReview, VerificationStatus::Rejected) => true,
            (VerificationStatus::Verified, VerificationStatus::Suspended) => true,
            (VerificationStatus::Suspended, VerificationStatus::Verified) => true,
            _ => false,
        }
    }

    /// Decisions staff may record on a supplier (as opposed to supplier-initiated submission).
    pub open spec fn spec_is_review_decision(self) -> bool {
        self == VerificationStatus::Verified || self == VerificationStatus::Rejected || self
            == VerificationStatus::Suspended
    }

    pub fn can_transition_to(self, next: VerificationStatus) -> (r: bool)
        ensures
            r == self.spec_can_transition_to(next),
    {
        matches!(
            (self, next),
            (VerificationStatus::Unverified, VerificationStatus::PendingReview) | (
                VerificationStatus::Rejected,
                VerificationStatus::PendingReview,
            ) | (VerificationStatus::PendingReview, VerificationStatus::Verified) | (
                VerificationStatus::PendingReview,
                VerificationStatus::Rejected,
            ) | (VerificationStatus::Verified, VerificationStatus::Suspended) | (
                VerificationStatus::Suspended,
                VerificationStatus::Verified,
            )
        )
    }

    pub fn is_review_decision(self) -> (r: bool)
        ensures
            r == self.spec_is_review_decision(),
    {
        matches!(
            self,
            VerificationStatus::Verified | VerificationStatus::Rejected
                | VerificationStatus::Suspended
        )
    }
}

/// The verification changes are exactly: UNVERIFIED→PENDING_REVIEW,
/// REJECTED→PENDING_REVIEW, PENDING_REVIEW→VERIFIED, PENDING_REVIEW→REJECTED,
/// VERIFIED→SUSPENDED and SUSPENDED→VERIFIED.
pub proof fn verification_transitions_are_the_life_cycle_edges(
    from: VerificationStatus,
    to: VerificationStatus,
)
    ensures
        from.spec_can_transition_to(to) <==> {
            ||| from == VerificationStatus::Unverified && to == VerificationStatus::PendingReview
            ||| from == VerificationStatus::Rejected && to == VerificationStatus::PendingReview
            ||| from == VerificationStatus::PendingReview && to == VerificationStatus::Verified
            ||| from == VerificationStatus::PendingReview && to == VerificationStatus::Rejected
            ||| from == VerificationStatus::Verified && to == VerificationStatus::Suspended
            ||| from == VerificationStatus::Suspended && to == VerificationStatus::Verified
        },
{
}

/// A supplier is rejected only out of a review, and a supplier under review
/// can be rejected.
pub proof fn rejection_only_from_review(status: VerificationStatus)
    ensures
        status.spec_can_transition_to(VerificationStatus::Rejected) <==> status
            == VerificationStatus::PendingReview,
{
}

/// A supplier becomes verified only out of a review (or when a suspension is
/// lifted): never straight from UNVERIFIED or REJECTED.
pub proof fn verification_requires_review(status: VerificationStatus)
    ensures
        status.spec_can_transition_to(VerificationStatus::Verified) <==> (status
            == VerificationStatus::PendingReview || status == VerificationStatus::Suspended),
{
}

/// Only a verified supplier can be suspended.
pub proof fn suspension_only_for_verified(status: VerificationStatus)
    ensures
        status.spec_can_transition_to(VerificationStatus::Suspended) <==> status
            == VerificationStatus::Verified,
{
}

/// A supplier can only (re)enter review from UNVERIFIED or REJECTED.
pub proof fn review_entered_from_unverified_or_rejected(status: VerificationStatus)
    ensures
        status.spec_can_transition_to(VerificationStatus::PendingReview) <==> (status
            == VerificationStatus::Unverified || status == VerificationStatus::Rejected),
{
}

#[derive(Debug)]
pub enum SupplierError {
    NotFound,
    InvalidVerificationTransition { from: VerificationStatus, to: VerificationStatus },
    NotAReviewDecision(VerificationStatus),
}

impl SupplierError {
    pub open spec fn spec_message(self) -> Seq<char> {
        match self {
            SupplierError::NotFound => "supplier was not found"@,
            SupplierError::InvalidVerificationTransition { from, to } =>
                "cannot change verification status from "@ + from.spec_as_str() + " to "@
                + to.spec_as_str(),
            SupplierError::NotAReviewDecision(status) => status.spec_as_str()
                + " is not a review decision"@,
        }
    }

    pub open spec fn spec_report(self) -> (ErrorClass, Seq<char>) {
        match self {
            SupplierError::NotFound => (ErrorClass::NotFound, "SUPPLIER_NOT_FOUND"@),
            SupplierError::InvalidVerificationTransition { .. } => (
                ErrorClass::BusinessRule,
                "SUPPLIER_INVALID_VERIFICATION_TRANSITION"@,
            ),
            SupplierError::NotAReviewDecision(_) => (
                ErrorClass::BadRequest,
                "SUPPLIER_INVALID_REVIEW_DECISION"@,
            ),
        }
    }

    pub fn message(&self) -> (m: String)
        ensures
            m@ == self.spec_message(),
    {
        match self {
            SupplierError::NotFound => "supplier was not found".to_owned(),
            SupplierError::InvalidVerificationTransition { from, to } => concat4(
                "cannot change verification status from ",
                from.as_str(),
                " to ",
                to.as_str(),
            ),
            SupplierError::NotAReviewDecision(status) => concat(status.as_str(), " is not a review decision"),
        }
    }
}

impl AppError {
    /// Reports a supplier error: its class, stable code and message.
    pub fn from_supplier_error(error: SupplierError) -> (e: AppError)
        ensures
            e.describes(error.spec_report().0, error.spec_report().1, error.spec_message()),
    {
        let message = error.message();
        match error {
            SupplierError::NotFound => AppError::not_found("SUPPLIER_NOT_FOUND", message),
            SupplierError::InvalidVerificationTransition { .. } => AppError::business_rule(
                "SUPPLIER_INVALID_VERIFICATION_TRANSITION",
                message,
            ),
            SupplierError::NotAReviewDecision(_) => AppError::bad_request(
                "SUPPLIER_INVALID_REVIEW_DECISION",
                message,
            ),
        }
    }
}

} // verus!
