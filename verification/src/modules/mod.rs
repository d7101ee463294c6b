//! Business modules (bounded contexts).
pub mod orders;
pub mod payments;
pub mod quotations;
pub mod suppliers;
pub mod requirements;
pub mod auth;
pub mod audit;
pub mod health;
pub mod notifications;
