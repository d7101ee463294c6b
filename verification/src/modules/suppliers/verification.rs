//! Use case: VerifySupplier. The I/O (row lock, update, review history, audit)
//! is driven by the application; the decisions are taken here.
use vstd::prelude::*;

use super::domain::{SupplierError, VerificationStatus};
use crate::ids::SupplierId;

verus! {

pub struct RecordVerificationDecision {
    pub supplier_id: SupplierId,
    pub decision: VerificationStatus,
    pub notes: Option<String>,
}

#[derive(Debug, Clone, Copy, PartialEq, Eq, Structural)]
pub struct VerificationOutcome {
    pub supplier_id: SupplierId,
    pub previous: VerificationStatus,
    pub current: VerificationStatus,
}

impl RecordVerificationDecision {
    /// Staff may only record VERIFIED, REJECTED or SUSPENDED.
    pub fn check_decision(&self) -> (r: Result<(), SupplierError>)
        ensures
            r is Ok <==> self.decision.spec_is_review_decision(),
            r matches Err(e) ==> e == SupplierError::NotAReviewDecision(self.decision),
    {
        if !self.decision.is_review_decision() {
            return Err(SupplierError::NotAReviewDecision(self.decision));
        }
        Ok(())
    }

    /// Applies the decision to the supplier's current (locked) status.
    pub fn decide(&self, previous: VerificationStatus) -> (r: Result<
        VerificationOutcome,
        SupplierError,
    >)
        ensures
            r is Ok <==> previous.spec_can_transition_to(self.decision),
            r matches Ok(o) ==> o == (VerificationOutcome {
                supplier_id: self.supplier_id,
                previous,
                current: self.decision,
            }),
            r matches Err(e) ==> e == (SupplierError::InvalidVerificationTransition {
                from: previous,
                to: self.decision,
            }),
    {
        if !previous.can_transition_to(self.decision) {
            return Err(
                SupplierError::InvalidVerificationTransition { from: previous, to: self.decision },
            );
        }
        Ok(VerificationOutcome { supplier_id: self.supplier_id, previous, current: self.decision })
    }

    /// Whether the update stamps `verified_at` (it does for a VERIFIED decision).
    pub fn stamps_verified_at(&self) -> (r: bool)
        ensures
            r == (self.decision == VerificationStatus::Verified),
    {
        self.decision == VerificationStatus::Verified
    }
}

} // verus!
