//! Post payloads and their rules.
use vstd::prelude::*;
use crate::validation::{
    reports, reports_concat, text_length_rule, Code,
    check_text_length, finish, outcome, text_length_errors, Field, FieldError, FieldErrorView,
    ValidationErrors,
};

verus! {

/// The payload that creates a post.
#[derive(Clone, Debug, PartialEq, Eq)]
pub struct CreatePostDto {
    pub title: String,
    pub text: String,
}

/// The failed rules of a post payload: title and text must not be empty.
pub open spec fn create_post_errors(d: CreatePostDto) -> Seq<FieldErrorView> {
    text_length_errors(Field::Title, d.title@, Some(1), None, "Title is required"@)
        + text_length_errors(Field::Text, d.text@, Some(1), None, "Text is required"@)
}

impl CreatePostDto {
    /// Checks the payload's rules; on failure every failed rule is reported.
    pub fn validate(&self) -> (r: Result<(), ValidationErrors>)
        ensures
            outcome(create_post_errors(*self), r),
    {
        let mut errs: Vec<FieldError> = Vec::new();
        check_text_length(&mut errs, Field::Title, &self.title, Some(1), None, "Title is required");
        check_text_length(&mut errs, Field::Text, &self.text, Some(1), None, "Text is required");
        assert(errs@.map_values(|e: FieldError| e@) =~= create_post_errors(*self));
        finish(errs)
    }
}

/// The rules of a post payload: it passes exactly when the title and the text
/// are not empty; each empty one is reported on its field.
pub proof fn create_post_rules(d: CreatePostDto, r: Result<(), ValidationErrors>)
    requires
        outcome(create_post_errors(d), r),
    ensures
        r is Ok <==> (d.title@.len() >= 1 && d.text@.len() >= 1),
        d.title@.len() == 0 ==> (r matches Err(e) && reports(
            e@,
            Field::Title,
            Code::Length,
            Some(1),
            None,
            Some("Title is required"@),
        )),
        d.text@.len() == 0 ==> (r matches Err(e) && reports(
            e@,
            Field::Text,
            Code::Length,
            Some(1),
            None,
            Some("Text is required"@),
        )),
{
    broadcast use reports_concat, text_length_rule;

}

} // verus!
