//! The user resource: payloads and service decisions.
pub mod dto;
pub mod service;
