//! The decisions of the category service. The database work (finding,
//! inserting, updating and deleting rows, transactions) is done by the
//! caller; these functions decide what to write and what to answer.
use vstd::prelude::*;
use vstd::string::*;
use crate::entities::{opt_text, CategoryRow};
use crate::ids::{uuid_text, uuid_text_of};
use crate::modules::category::dto::{
    describes, CategoryResponseDto, CreateCategoryDto, UpdateCategoryDto,
};
use crate::text::{slug_of, slugify};
use crate::utils::response::AppError;

verus! {

/// The message for a category that no row has the identifier of.
pub open spec fn missing_id_message(id: u128) -> Seq<char> {
    "Category not found with id: "@ + uuid_text_of(id)
}

/// The message for a category that no row has the slug of.
pub open spec fn missing_slug_message(slug: Seq<char>) -> Seq<char> {
    "Category not found with slug: "@ + slug
}

/// The answer to a lookup by identifier, given the row found (if any).
pub fn category_by_id_result(id: u128, found: Option<CategoryRow>) -> (r: Result<
    CategoryResponseDto,
    AppError,
>)
    ensures
        match found {
            Some(c) => r matches Ok(d) && describes(d, c),
            None => r matches Err(AppError::NotFound(m)) && m@ == missing_id_message(id),
        },
{
    match found {
        Some(c) => Ok(CategoryResponseDto::new(c)),
        None => {
            let mut m = String::from_str("Category not found with id: ");
            let t = uuid_text(id);
            m.append(t.as_str());
            Err(AppError::NotFound(m))
        },
    }
}

/// The answer to a lookup by slug, given the row found (if any): a missing
/// slug is an error, not an empty answer.
pub fn category_by_slug_result(slug: &str, found: Option<CategoryRow>) -> (r: Result<
    Option<CategoryResponseDto>,
    AppError,
>)
    ensures
        match found {
            Some(c) => r matches Ok(Some(d)) && describes(d, c),
            None => r matches Err(AppError::NotFound(m)) && m@ == missing_slug_message(slug@),
        },
{
    match found {
        Some(c) => Ok(Some(CategoryResponseDto::new(c))),
        None => {
            let mut m = String::from_str("Category not found with slug: ");
            m.append(slug);
            Err(AppError::NotFound(m))
        },
    }
}

/// Whether a slug lookup shows the slug in use: only a lookup that succeeded
/// and found a row does (a failed lookup counts as free).
pub fn slug_taken(lookup: &Result<Option<CategoryResponseDto>, AppError>) -> (r: bool)
    ensures
        r == (lookup matches Ok(Some(_))),
{
    match lookup {
        Ok(Some(_)) => true,
        _ => false,
    }
}

/// The answers for the listed rows, in the same order.
pub fn category_responses(rows: Vec<CategoryRow>) -> (r: Vec<CategoryResponseDto>)
    ensures
        r@.len() == rows@.len(),
        forall|i: int| 0 <= i < rows@.len() ==> describes(#[trigger] r@[i], rows@[i]),
{
    let ghost orig = rows@;
    let mut rows = rows;
    let mut out: Vec<CategoryResponseDto> = Vec::new();
    while rows.len() > 0
        invariant
            out@.len() <= orig.len(),
            rows@ == orig.subrange(out@.len() as int, orig.len() as int),
            forall|i: int| 0 <= i < out@.len() ==> describes(#[trigger] out@[i], orig[i]),
        decreases rows@.len(),
    {
        let c = rows.remove(0);
        out.push(CategoryResponseDto::new(c));
        assert(rows@ =~= orig.subrange(out@.len() as int, orig.len() as int));
    }
    out
}

/// `r` is category `c` with the change payload applied: every given field
/// replaces the stored one, a new name also gives the slug of that name, and
/// the identifier and timestamps stay.
pub open spec fn applies_category_changes(r: CategoryRow, c: CategoryRow, data: UpdateCategoryDto) -> bool {
    &&& r.id == c.id
    &&& match data.name {
        Some(n) => r.name@ == n@ && r.slug@ == slug_of(n@),
        None => r.name@ == c.name@ && r.slug@ == c.slug@,
    }
    &&& match data.description {
        Some(t) => opt_text(r.description) == Some(t@),
        None => opt_text(r.description) == opt_text(c.description),
    }
    &&& match data.image {
        Some(t) => r.image@ == t@,
        None => r.image@ == c.image@,
    }
    &&& r.created_at == c.created_at
    &&& r.updated_at == c.updated_at
    &&& r.deleted_at == c.deleted_at
}

/// Applies a change payload to a stored category.
pub fn apply_category_update(category: CategoryRow, data: UpdateCategoryDto) -> (r: CategoryRow)
    ensures
        applies_category_changes(r, category, data),
{
    let mut c = category;
    match data.name {
        Some(v) => {
            let slug = slugify(v.as_str());
            c.slug = slug;
            c.name = v;
        },
        None => {},
    }
    match data.description {
        Some(v) => {
            c.description = Some(v);
        },
        None => {},
    }
    match data.image {
        Some(v) => {
            c.image = v;
        },
        None => {},
    }
    c
}

/// A category read after an update shows each given field with its new value
/// and every other field as it was; the stored slug follows a new name.
pub proof fn read_after_category_update(
    c: CategoryRow,
    data: UpdateCategoryDto,
    updated: CategoryRow,
    shown: CategoryResponseDto,
)
    requires
        applies_category_changes(updated, c, data),
        describes(shown, updated),
    ensures
        shown.id == c.id,
        shown.name@ == (match data.name {
            Some(n) => n@,
            None => c.name@,
        }),
        updated.slug@ == (match data.name {
            Some(n) => slug_of(n@),
            None => c.slug@,
        }),
        opt_text(shown.description) == (match data.description {
            Some(t) => Some(t@),
            None => opt_text(c.description),
        }),
        shown.image@ == (match data.image {
            Some(t) => t@,
            None => c.image@,
        }),
        shown.created_at == c.created_at,
{
}

/// Applying one change payload twice leaves the category as applying it once.
pub proof fn category_update_twice_is_update_once(
    c: CategoryRow,
    data: UpdateCategoryDto,
    once: CategoryRow,
    twice: CategoryRow,
)
    requires
        applies_category_changes(once, c, data),
        applies_category_changes(twice, once, data),
    ensures
        applies_category_changes(twice, c, data),
{
}

/// The fields of a category to insert; the database fills the rest
/// (`updated_at` defaults to now, `deleted_at` to none, and an absent
/// description is left unset).
#[derive(Debug)]
pub struct NewCategory {
    pub id: u128,
    pub name: String,
    pub image: String,
    pub description: Option<String>,
    pub slug: String,
    pub created_at: chrono::NaiveDateTime,
}

/// The message when the slug of a new category is already used.
pub open spec fn duplicate_message() -> Seq<char> {
    "category already exists"@
}

/// The row that a creation payload inserts under identifier `id` at time
/// `now`: the payload's fields and the slug of its name.
pub open spec fn new_category_from(
    c: NewCategory,
    data: CreateCategoryDto,
    id: u128,
    now: chrono::NaiveDateTime,
) -> bool {
    &&& c.id == id
    &&& c.name@ == data.name@
    &&& c.image@ == data.image@
    &&& opt_text(c.description) == opt_text(data.description)
    &&& c.slug@ == slug_of(data.name@)
    &&& c.created_at == now
}

/// A stored category row holds the fields of the row that was inserted (the
/// database fills the update time, the deletion mark and, when none was
/// given, the description).
pub open spec fn holds_new_category(stored: CategoryRow, n: NewCategory) -> bool {
    &&& stored.id == n.id
    &&& stored.name@ == n.name@
    &&& stored.image@ == n.image@
    &&& stored.slug@ == n.slug@
    &&& stored.created_at == n.created_at
    &&& (n.description matches Some(t) ==> opt_text(stored.description) == Some(t@))
}

/// A category read after its creation shows the payload's name, image and
/// description, and is stored under the slug of its name.
pub proof fn read_after_category_create(
    data: CreateCategoryDto,
    id: u128,
    now: chrono::NaiveDateTime,
    inserted: NewCategory,
    stored: CategoryRow,
    shown: CategoryResponseDto,
)
    requires
        new_category_from(inserted, data, id, now),
        holds_new_category(stored, inserted),
        describes(shown, stored),
    ensures
        shown.id == id,
        shown.name@ == data.name@,
        shown.image@ == data.image@,
        data.description is Some ==> opt_text(shown.description) == opt_text(data.description),
        stored.slug@ == slug_of(data.name@),
        shown.created_at == now,
{
}

/// Decides a creation: refused when the name's slug is taken, otherwise the
/// row to insert with the fresh identifier and the current time.
pub fn new_category(data: CreateCategoryDto, taken: bool, id: u128, now: chrono::NaiveDateTime) -> (r: Result<
    NewCategory,
    AppError,
>)
    ensures
        if taken {
            r matches Err(AppError::BadRequest(m)) && m@ == duplicate_message()
        } else {
            r matches Ok(c) && new_category_from(c, data, id, now)
        },
{
    if taken {
        return Err(AppError::BadRequest(String::from_str("category already exists")));
    }
    let slug = slugify(data.name.as_str());
    Ok(NewCategory {
        id,
        name: data.name,
        image: data.image,
        description: data.description,
        slug,
        created_at: now,
    })
}

} // verus!
