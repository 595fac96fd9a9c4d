//! Verified core of a content-publishing site's user authentication:
//! account creation, email ownership verification, login, and password
//! recovery, built around single-use time-bounded credential tokens.

pub mod clock;
pub mod crypto;
pub mod error;
pub mod handler;
pub mod jwt;
pub mod laws;
pub mod model;
pub mod response;
pub mod store;
