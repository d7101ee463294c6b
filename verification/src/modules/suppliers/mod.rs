//! Suppliers and supplier verification.
pub mod domain;
pub mod verification;

pub use domain::{SupplierError, VerificationStatus};
pub use verification::{RecordVerificationDecision, VerificationOutcome};
pub mod api;

pub use api::{VerificationDecisionRequest, VerificationDecisionResponse};
