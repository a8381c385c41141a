//! Authentication core of a small blog backend: user records, password
//! hashing, signed session tokens and the access gate in front of protected
//! routes, with the registration and login flows built on them.

pub mod auth;
pub mod error;
pub mod laws;
pub mod model;
pub mod password;
pub mod store;
pub mod token;
