//! The response envelope, errors, request extraction rules and credentials.
pub mod response;
pub mod extractors;
pub mod validation;
pub mod password;
pub mod jwt;
