//! Authentication and authorization core of a programming-judge server:
//! credential hashing, signed-token issuance and validation, and
//! permission-gated session resolution.

pub mod auth;
pub mod cli;
pub mod credentials;
pub mod hex;
pub mod models;
pub mod replies;
pub mod services;
pub mod session;
pub mod store;
pub mod token;
