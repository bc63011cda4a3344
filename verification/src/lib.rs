//! Authentication and authorization core for the winery services: password
//! credentials, signed session tokens, the login and registration decisions,
//! per-request authentication and the role and ownership policy.

pub mod account;
pub mod config;
pub mod error;
pub mod extractor;
pub mod ident;
pub mod json;
pub mod password;
pub mod policy;
pub mod resource;
pub mod role;
pub mod text;
pub mod token;
