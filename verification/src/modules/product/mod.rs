//! The product resource: payloads and service decisions.
pub mod dto;
pub mod service;
pub mod flow;
pub mod handlers;
