//! What the product endpoints answer, given what the service returned.
use vstd::prelude::*;
use vstd::string::*;
use crate::modules::product::dto::ProductResponseDto;
use crate::utils::response::ApiResponse;

verus! {

/// The envelope of a product lookup or change: the product when there is one,
/// else a failed envelope "Product not found with provided id" (answered
/// with status 200 all the same).
pub fn product_answer(found: Option<ProductResponseDto>) -> (r: ApiResponse<Option<ProductResponseDto>>)
    ensures
        r.errors is None,
        match found {
            Some(p) => r.success && r.message is None && r.data == Some(Some(p)),
            None => !r.success && r.data is None && (r.message matches Some(m) && m@
                == "Product not found with provided id"@),
        },
{
    match found {
        Some(p) => ApiResponse::success(Some(p)),
        None => ApiResponse::error(String::from_str("Product not found with provided id")),
    }
}

} // verus!
