//! Customer requirements (product sourcing requests and general requirements).
pub mod domain;
pub mod dto;
pub mod repository;

pub use domain::{RequirementKind, RequirementStatus};
pub use dto::{validate_submit_request, ListRequirementsQuery, SubmitRequirementRequest};
pub use repository::{escape_like, push_filters, FilterClause};
