//! The decisions of the post service; the caller reads and writes the rows.
use vstd::prelude::*;
use vstd::string::*;
use crate::entities::PostRow;
use crate::text::{decimal_of, decimal_text};
use crate::utils::response::AppError;

verus! {

/// The message for a post that no row has the identifier of.
pub open spec fn missing_post_message(id: i32) -> Seq<char> {
    "Post with id "@ + decimal_of(id as int) + " not found"@
}

/// The answer to a lookup by identifier, given the row found (if any).
pub fn post_by_id_result(id: i32, found: Option<PostRow>) -> (r: Result<PostRow, AppError>)
    ensures
        match found {
            Some(p) => r == Ok::<PostRow, AppError>(p),
            None => r matches Err(AppError::NotFound(m)) && m@ == missing_post_message(id),
        },
{
    match found {
        Some(p) => Ok(p),
        None => {
            let mut m = String::from_str("Post with id ");
            let t = decimal_text(id as i64);
            m.append(t.as_str());
            m.append(" not found");
            Err(AppError::NotFound(m))
        },
    }
}

} // verus!
