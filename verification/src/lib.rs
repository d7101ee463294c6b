//! Verified domain logic of the Miracle wholesale backend: status machines,
//! configuration parsing and validation, job retry policy, query filters and
//! the decisions taken by the use cases.
pub mod config;
pub mod decimal;
pub mod error;
pub mod http;
pub mod ids;
pub mod jobs;
pub mod json;
pub mod modules;
pub mod money;
pub mod text;
pub mod validation;
