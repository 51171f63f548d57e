//! Category payloads and their rules.
use vstd::prelude::*;
use crate::entities::{opt_text, CategoryRow};
use crate::validation::{
    reports, reports_concat, text_length_rule, Code,
    check_opt_text_length, check_text_length, finish, opt_text_length_errors, outcome,
    text_length_errors, Field, FieldError, FieldErrorView, ValidationErrors,
};

verus! {

/// The payload that creates a category.
#[derive(Clone, Debug, PartialEq, Eq)]
pub struct CreateCategoryDto {
    pub name: String,
    pub image: String,
    pub description: Option<String>,
}

/// The payload that changes a category; absent fields stay as they are.
#[derive(Clone, Debug, PartialEq, Eq)]
pub struct UpdateCategoryDto {
    pub name: Option<String>,
    pub image: Option<String>,
    pub description: Option<String>,
}

/// The rule message of a category name.
pub open spec fn name_message() -> Seq<char> {
    "Category name must be at least 3 characters long or max 100"@
}

/// The rule message of a category image.
pub open spec fn image_message() -> Seq<char> {
    "Category description must be at least 3 characters long or max 3000"@
}

/// The rule message of a category description.
pub open spec fn description_message() -> Seq<char> {
    "Category description must be at least 3 characters long or max 100"@
}

/// The failed rules of a creation payload: name 3 to 100 characters, image
/// at least 3, description (when given) 3 to 100.
pub open spec fn create_category_errors(d: CreateCategoryDto) -> Seq<FieldErrorView> {
    text_length_errors(Field::Name, d.name@, Some(3), Some(100), name_message())
        + text_length_errors(Field::Image, d.image@, Some(3), None, image_message())
        + opt_text_length_errors(Field::Description, d.description, Some(3), Some(100), description_message())
}

/// The failed rules of a change payload: the creation rules on the fields given.
pub open spec fn update_category_errors(d: UpdateCategoryDto) -> Seq<FieldErrorView> {
    opt_text_length_errors(Field::Name, d.name, Some(3), Some(100), name_message())
        + opt_text_length_errors(Field::Image, d.image, Some(3), None, image_message())
        + opt_text_length_errors(Field::Description, d.description, Some(3), Some(100), description_message())
}

impl CreateCategoryDto {
    /// Checks the payload's rules; on failure every failed rule is reported.
    pub fn validate(&self) -> (r: Result<(), ValidationErrors>)
        ensures
            outcome(create_category_errors(*self), r),
    {
        let mut errs: Vec<FieldError> = Vec::new();
        check_text_length(&mut errs, Field::Name, &self.name, Some(3), Some(100),
            "Category name must be at least 3 characters long or max 100");
        check_text_length(&mut errs, Field::Image, &self.image, Some(3), None,
            "Category description must be at least 3 characters long or max 3000");
        check_opt_text_length(&mut errs, Field::Description, &self.description, Some(3), Some(100),
            "Category description must be at least 3 characters long or max 100");
        assert(errs@.map_values(|e: FieldError| e@) =~= create_category_errors(*self));
        finish(errs)
    }
}

impl UpdateCategoryDto {
    /// Checks the rules of the fields that are given.
    pub fn validate(&self) -> (r: Result<(), ValidationErrors>)
        ensures
            outcome(update_category_errors(*self), r),
    {
        let mut errs: Vec<FieldError> = Vec::new();
        check_opt_text_length(&mut errs, Field::Name, &self.name, Some(3), Some(100),
            "Category name must be at least 3 characters long or max 100");
        check_opt_text_length(&mut errs, Field::Image, &self.image, Some(3), None,
            "Category description must be at least 3 characters long or max 3000");
        check_opt_text_length(&mut errs, Field::Description, &self.description, Some(3), Some(100),
            "Category description must be at least 3 characters long or max 100");
        assert(errs@.map_values(|e: FieldError| e@) =~= update_category_errors(*self));
        finish(errs)
    }
}

/// The rules of a category creation payload: it passes exactly when the name
/// has 3 to 100 characters, the image at least 3 and a given description 3 to
/// 100; each broken rule is reported on its field with its bounds and message.
pub proof fn create_category_rules(d: CreateCategoryDto, r: Result<(), ValidationErrors>)
    requires
        outcome(create_category_errors(d), r),
    ensures
        r is Ok <==> (3 <= d.name@.len() <= 100 && 3 <= d.image@.len() && (d.description matches Some(
            t,
        ) ==> 3 <= t@.len() <= 100)),
        !(3 <= d.name@.len() <= 100) ==> (r matches Err(e) && reports(
            e@,
            Field::Name,
            Code::Length,
            Some(3),
            Some(100),
            Some("Category name must be at least 3 characters long or max 100"@),
        )),
        d.image@.len() < 3 ==> (r matches Err(e) && reports(
            e@,
            Field::Image,
            Code::Length,
            Some(3),
            None,
            Some("Category description must be at least 3 characters long or max 3000"@),
        )),
        (d.description matches Some(t) && !(3 <= t@.len() <= 100)) ==> (r matches Err(e) && reports(
            e@,
            Field::Description,
            Code::Length,
            Some(3),
            Some(100),
            Some("Category description must be at least 3 characters long or max 100"@),
        )),
{
    broadcast use reports_concat, text_length_rule;

}

/// The rules of a category change payload: each given field is held to its
/// creation rule (name 3 to 100 characters, image at least 3, description 3
/// to 100) and absent fields are not checked; each broken rule is reported on
/// its field with its bounds and message.
pub proof fn update_category_rules(d: UpdateCategoryDto, r: Result<(), ValidationErrors>)
    requires
        outcome(update_category_errors(d), r),
    ensures
        r is Ok <==> ((d.name matches Some(n) ==> 3 <= n@.len() <= 100) && (d.image matches Some(t)
            ==> 3 <= t@.len()) && (d.description matches Some(t) ==> 3 <= t@.len() <= 100)),
        (d.name matches Some(n) && !(3 <= n@.len() <= 100)) ==> (r matches Err(e) && reports(
            e@,
            Field::Name,
            Code::Length,
            Some(3),
            Some(100),
            Some("Category name must be at least 3 characters long or max 100"@),
        )),
        (d.image matches Some(t) && t@.len() < 3) ==> (r matches Err(e) && reports(
            e@,
            Field::Image,
            Code::Length,
            Some(3),
            None,
            Some("Category description must be at least 3 characters long or max 3000"@),
        )),
        (d.description matches Some(t) && !(3 <= t@.len() <= 100)) ==> (r matches Err(e) && reports(
            e@,
            Field::Description,
            Code::Length,
            Some(3),
            Some(100),
            Some("Category description must be at least 3 characters long or max 100"@),
        )),
{
    broadcast use reports_concat, text_length_rule;

}


/// A category as the category endpoints answer with it.
#[derive(Debug)]
pub struct CategoryResponseDto {
    pub id: u128,
    pub name: String,
    pub description: Option<String>,
    pub image: String,
    pub created_at: chrono::NaiveDateTime,
    pub updated_at: chrono::NaiveDateTime,
    pub deleted_at: Option<chrono::NaiveDateTime>,
}

/// The answer describes the record: every field but the slug, unchanged.
pub open spec fn describes(r: CategoryResponseDto, c: CategoryRow) -> bool {
    &&& r.id == c.id
    &&& r.name@ == c.name@
    &&& opt_text(r.description) == opt_text(c.description)
    &&& r.image@ == c.image@
    &&& r.created_at == c.created_at
    &&& r.updated_at == c.updated_at
    &&& r.deleted_at == c.deleted_at
}

impl CategoryResponseDto {
    /// The answer for a stored category.
    pub fn new(category: CategoryRow) -> (r: Self)
        ensures
            r.id == category.id,
            r.name == category.name,
            r.description == category.description,
            r.image == category.image,
            r.created_at == category.created_at,
            r.updated_at == category.updated_at,
            r.deleted_at == category.deleted_at,
            describes(r, category),
    {
        CategoryResponseDto {
            id: category.id,
            name: category.name,
            description: category.description,
            image: category.image,
            created_at: category.created_at,
            updated_at: category.updated_at,
            deleted_at: category.deleted_at,
        }
    }
}

} // verus!
