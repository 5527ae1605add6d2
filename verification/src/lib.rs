//! Server-side handling for a user name / password authentication scheme:
//! hashing and checking of credentials, and the creation of new users against
//! a storage backend that the caller supplies.

pub mod argon;
pub mod backend;
pub mod fields;
pub mod manage;
pub mod password;
