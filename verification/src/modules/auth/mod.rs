//! Authentication: registration, login, logout and session revocation.
pub mod domain;
pub mod dto;
pub mod sessions;

pub use domain::AuthError;
pub use dto::{
    IssuedTokens, LoginRequest, LoginUser, RegisterRequest, RegisterUser, RegistrationAccountType,
    TokenResponse,
};
pub use sessions::{resolve_principal, session_admits, Principal};
