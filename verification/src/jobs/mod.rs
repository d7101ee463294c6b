//! Background jobs backed by the PostgreSQL `background_jobs` table.
//!
//! Jobs are enqueued inside the business transaction (transactional outbox),
//! so a job exists if and only if the change that caused it was committed.
//! Handlers must be idempotent: a job can run more than once after a crash.
pub mod worker;

use vstd::prelude::*;

verus! {

pub enum Job {
    SendEmail { to: String, template: String, variables: serde_json::Value },
    /// Fan-out after a quotation is accepted (notify customer & sales, generate PDFs).
    QuotationAccepted { quotation_id: u128, order_id: u128 },
}

impl Job {
    pub open spec fn spec_kind(&self) -> Seq<char> {
        match self {
            Job::SendEmail { .. } => "send_email"@,
            Job::QuotationAccepted { .. } => "quotation_accepted"@,
        }
    }

    /// The `kind` column (and serialized tag) of the job.
    pub fn kind(&self) -> (k: &'static str)
        ensures
            k@ == self.spec_kind(),
    {
        match self {
            Job::SendEmail { .. } => "send_email",
            Job::QuotationAccepted { .. } => "quotation_accepted",
        }
    }
}

/// The job kinds are distinct.
pub proof fn job_kinds_are_distinct(a: Job, b: Job)
    requires
        a.spec_kind() == b.spec_kind(),
    ensures
        (a is SendEmail) == (b is SendEmail),
{
    reveal_strlit("send_email");
    reveal_strlit("quotation_accepted");
    assert("send_email"@.len() == 10);
    assert("quotation_accepted"@.len() == 18);
}

} // verus!
