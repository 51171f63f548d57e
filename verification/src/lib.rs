//! A verified core for a small shop back end: slugs, request validation,
//! the error envelope, and the decisions of the category, product, post and
//! user services.
pub mod text;
pub mod ids;
pub mod decimal;
pub mod validation;
pub mod modules;
pub mod entities;
pub mod utils;
