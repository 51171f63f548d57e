//! The resources that the service exposes.
pub mod category;
pub mod post;
pub mod product;
pub mod user;
