//! User payloads.
use vstd::prelude::*;

verus! {

/// The payload that creates a user.
#[derive(Clone, Debug, PartialEq, Eq)]
pub struct CreateUserDto {
    pub name: String,
    pub email: String,
}

/// The payload that changes a user; a field left out keeps its value.
#[derive(Clone, Debug, PartialEq, Eq)]
pub struct UpdateUserDto {
    pub email: Option<String>,
    pub name: Option<String>,
}

} // verus!
