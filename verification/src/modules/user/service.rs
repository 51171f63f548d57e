//! The decisions of the user service; the caller reads and writes the rows.
use vstd::prelude::*;
use vstd::string::*;
use crate::entities::UserRow;
use crate::ids::{uuid_text, uuid_text_of};
use crate::modules::user::dto::UpdateUserDto;
use crate::utils::response::AppError;

verus! {

/// The message for a user that no row has the identifier of.
pub open spec fn missing_user_message(id: u128) -> Seq<char> {
    "User with id "@ + uuid_text_of(id) + " not found"@
}

/// The answer to a lookup by identifier, given the row found (if any).
pub fn user_by_id_result(id: u128, found: Option<UserRow>) -> (r: Result<UserRow, AppError>)
    ensures
        match found {
            Some(u) => r == Ok::<UserRow, AppError>(u),
            None => r matches Err(AppError::NotFound(m)) && m@ == missing_user_message(id),
        },
{
    match found {
        Some(u) => Ok(u),
        None => {
            let mut m = String::from_str("User with id ");
            let t = uuid_text(id);
            m.append(t.as_str());
            m.append(" not found");
            Err(AppError::NotFound(m))
        },
    }
}

/// Applies a change payload to a stored user: each given field replaces the
/// stored one, the others stay.
pub fn apply_user_update(user: UserRow, data: UpdateUserDto) -> (r: UserRow)
    ensures
        r.id == user.id,
        match data.email {
            Some(e) => r.email == e,
            None => r.email == user.email,
        },
        match data.name {
            Some(n) => r.name == n,
            None => r.name == user.name,
        },
{
    let mut u = user;
    match data.email {
        Some(v) => {
            u.email = v;
        },
        None => {},
    }
    match data.name {
        Some(v) => {
            u.name = v;
        },
        None => {},
    }
    u
}

} // verus!
