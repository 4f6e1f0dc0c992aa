//! Authentication and authorization core of a small user service: error
//! taxonomy, response envelope, rate limiting, password and token handling,
//! and the account operations built on them.

pub mod clock;
pub mod email;
pub mod error;
pub mod header;
pub mod laws;
pub mod model;
pub mod password;
pub mod rate_limit;
pub mod response;
pub mod service;
pub mod store;
pub mod text;
pub mod token;
pub mod user;
