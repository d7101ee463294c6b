//! Request and response shapes of the supplier verification API.
use vstd::prelude::*;

use super::domain::VerificationStatus;
use super::verification::{RecordVerificationDecision, VerificationOutcome};
use crate::ids::SupplierId;
use crate::modules::requirements::dto::{issue_if, issue_views, opt_length_ok};
use crate::validation::{length_issue, length_ok, ValidationIssue};

verus! {

pub struct VerificationDecisionRequest {
    /// One of `VERIFIED`, `REJECTED`, `SUSPENDED`.
    pub decision: VerificationStatus,
    pub notes: Option<String>,
}

#[derive(Debug, Clone, Copy, PartialEq, Eq, Structural)]
pub struct VerificationDecisionResponse {
    pub supplier_id: SupplierId,
    pub previous_status: VerificationStatus,
    pub status: VerificationStatus,
}

impl VerificationDecisionRequest {
    pub open spec fn spec_issues(&self) -> Seq<(Seq<char>, Seq<char>)> {
        issue_if(opt_length_ok(self.notes, None, Some(2000), None), "notes"@, "length"@)
    }

    /// Notes, when given, are at most 2000 characters.
    pub fn validate(&self) -> (r: Result<(), Vec<ValidationIssue>>)
        ensures
            r is Ok <==> self.spec_issues().len() == 0,
            r matches Err(issues) ==> issue_views(issues@) == self.spec_issues(),
    {
        let ok = match &self.notes {
            Some(notes) => length_ok(notes.as_str(), None, Some(2000), None),
            None => true,
        };
        if ok {
            Ok(())
        } else {
            let mut issues: Vec<ValidationIssue> = Vec::new();
            issues.push(length_issue("notes"));
            assert(issue_views(issues@) =~= self.spec_issues());
            Err(issues)
        }
    }

    /// The command recording this decision for `supplier_id`.
    pub fn into_command(self, supplier_id: SupplierId) -> (c: RecordVerificationDecision)
        ensures
            c.supplier_id == supplier_id,
            c.decision == self.decision,
            c.notes == self.notes,
    {
        RecordVerificationDecision { supplier_id, decision: self.decision, notes: self.notes }
    }
}

impl VerificationDecisionResponse {
    pub fn from_outcome(outcome: VerificationOutcome) -> (r: VerificationDecisionResponse)
        ensures
            r.supplier_id == outcome.supplier_id,
            r.previous_status == outcome.previous,
            r.status == outcome.current,
    {
        VerificationDecisionResponse {
            supplier_id: outcome.supplier_id,
            previous_status: outcome.previous,
            status: outcome.current,
        }
    }
}

} // verus!
