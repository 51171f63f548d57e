//! The creation of a category as a step machine: the slug that is looked up
//! is the slug that is inserted, and a taken slug stops the creation.
use vstd::prelude::*;
use vstd::string::*;
use crate::entities::CategoryRow;
use crate::modules::category::dto::{describes, CategoryResponseDto, CreateCategoryDto};
use crate::modules::category::service::{
    duplicate_message, new_category, new_category_from, slug_taken, NewCategory,
};
use crate::text::{slug_of, slugify};
use crate::utils::response::AppError;

verus! {

/// What a creation asks for next, or its answer.
#[derive(Debug)]
pub enum CategoryCreateAction {
    /// Look up the category with this slug.
    FindSlug(String),
    /// Insert this category row.
    Insert(NewCategory),
    /// Commit the transaction.
    Commit,
    /// The creation's answer.
    Answer(Result<CategoryResponseDto, AppError>),
}

/// What the database answered to the last action.
pub enum CategoryCreateEvent {
    /// The answer of the slug lookup (a failed lookup counts as a free slug).
    SlugLookup(Result<Option<CategoryResponseDto>, AppError>),
    /// The row as inserted.
    Inserted(CategoryRow),
    /// The commit succeeded.
    Written,
    /// The last action failed in the database, with the database's error text.
    Failed(String),
}

/// Where a creation stands, with what it still needs.
pub enum CategoryCreateStage {
    AwaitSlug { data: CreateCategoryDto, id: u128, now: chrono::NaiveDateTime, slug: String },
    AwaitInsert { id: u128, slug: String },
    AwaitCommit { row: CategoryRow },
    Done,
}

/// The creation of one category.
pub struct CategoryCreation {
    pub stage: CategoryCreateStage,
}

/// Whether the event is the answer to the action that the stage is waiting
/// for; the inserted row has the identifier and slug that were inserted.
pub open spec fn category_create_answers(s: CategoryCreateStage, e: CategoryCreateEvent) -> bool {
    match s {
        CategoryCreateStage::AwaitSlug { .. } => e is SlugLookup,
        CategoryCreateStage::AwaitInsert { id, slug } => match e {
            CategoryCreateEvent::Inserted(row) => row.id == id && row.slug@ == slug@,
            _ => false,
        },
        CategoryCreateStage::AwaitCommit { .. } => e is Written,
        CategoryCreateStage::Done => false,
    }
}

/// Whether the event may follow the stage: the awaited answer, or a database
/// failure of the action asked for (while the creation is not done).
pub open spec fn category_create_expects(s: CategoryCreateStage, e: CategoryCreateEvent) -> bool {
    if e is Failed {
        !(s is Done)
    } else {
        category_create_answers(s, e)
    }
}

/// What the stage holds is consistent: the slug is that of the payload's name.
pub open spec fn category_create_wf(s: CategoryCreateStage) -> bool {
    match s {
        CategoryCreateStage::AwaitSlug { data, slug, .. } => slug@ == slug_of(data.name@),
        _ => true,
    }
}

/// The number of steps left at most.
pub open spec fn category_create_left(s: CategoryCreateStage) -> nat {
    match s {
        CategoryCreateStage::AwaitSlug { .. } => 3,
        CategoryCreateStage::AwaitInsert { .. } => 2,
        CategoryCreateStage::AwaitCommit { .. } => 1,
        CategoryCreateStage::Done => 0,
    }
}

impl CategoryCreation {
    /// Starts a creation under the fresh identifier `id` at time `now`: first
    /// look up the slug of the payload's name.
    pub fn start(data: CreateCategoryDto, id: u128, now: chrono::NaiveDateTime) -> (r: (
        CategoryCreation,
        CategoryCreateAction,
    ))
        ensures
            category_create_wf(r.0.stage),
            r.1 matches CategoryCreateAction::FindSlug(s) && s@ == slug_of(data.name@),
            r.0.stage matches CategoryCreateStage::AwaitSlug { data: d, id: i, now: n, slug }
                && d == data && i == id && n == now && slug@ == slug_of(data.name@),
    {
        let slug = slugify(data.name.as_str());
        let asked = slug.clone();
        (
            CategoryCreation { stage: CategoryCreateStage::AwaitSlug { data, id, now, slug } },
            CategoryCreateAction::FindSlug(asked),
        )
    }

    /// One step: a slug that the lookup found refuses the creation; otherwise
    /// the row is inserted under the looked-up slug, the transaction is
    /// committed and the inserted row is the answer. A database failure
    /// answers its error and commits nothing.
    pub fn step(self, event: CategoryCreateEvent) -> (r: (CategoryCreation, CategoryCreateAction))
        requires
            category_create_expects(self.stage, event),
            category_create_wf(self.stage),
        ensures
            category_create_wf(r.0.stage),
            category_create_left(r.0.stage) < category_create_left(self.stage),
            (r.1 is Answer) == (r.0.stage is Done),
            event matches CategoryCreateEvent::Failed(t) ==> r.1 == CategoryCreateAction::Answer(
                Err(AppError::DbError(t)),
            ),
            !(event is Failed) ==> match self.stage {
                CategoryCreateStage::AwaitSlug { data, id, now, slug } => match event {
                    CategoryCreateEvent::SlugLookup(lookup) => if slug_taken_spec(lookup) {
                        r.1 matches CategoryCreateAction::Answer(Err(AppError::BadRequest(m)))
                            && m@ == duplicate_message()
                    } else {
                        &&& r.1 matches CategoryCreateAction::Insert(c)
                        &&& new_category_from(c, data, id, now)
                        &&& c.slug@ == slug@
                        &&& r.0.stage matches CategoryCreateStage::AwaitInsert { id: i, slug: s }
                        &&& i == id
                        &&& s@ == slug@
                    },
                    _ => false,
                },
                CategoryCreateStage::AwaitInsert { .. } => match event {
                    CategoryCreateEvent::Inserted(row) => r.1 is Commit && r.0.stage
                        == (CategoryCreateStage::AwaitCommit { row }),
                    _ => false,
                },
                CategoryCreateStage::AwaitCommit { row } => r.1 matches CategoryCreateAction::Answer(
                    Ok(d),
                ) && describes(d, row),
                CategoryCreateStage::Done => false,
            },
    {
        let done = CategoryCreation { stage: CategoryCreateStage::Done };
        let event = match event {
            CategoryCreateEvent::Failed(text) => {
                return (done, CategoryCreateAction::Answer(Err(AppError::DbError(text))));
            },
            other => other,
        };
        match self.stage {
            CategoryCreateStage::AwaitSlug { data, id, now, slug } => match event {
                CategoryCreateEvent::SlugLookup(lookup) => {
                    let taken = slug_taken(&lookup);
                    match new_category(data, taken, id, now) {
                        Ok(c) => {
                            let s = slug.clone();
                            (
                                CategoryCreation { stage: CategoryCreateStage::AwaitInsert { id, slug: s } },
                                CategoryCreateAction::Insert(c),
                            )
                        },
                        Err(e) => (done, CategoryCreateAction::Answer(Err(e))),
                    }
                },
                _ => (done, CategoryCreateAction::Commit),
            },
            CategoryCreateStage::AwaitInsert { .. } => match event {
                CategoryCreateEvent::Inserted(row) => (
                    CategoryCreation { stage: CategoryCreateStage::AwaitCommit { row } },
                    CategoryCreateAction::Commit,
                ),
                _ => (done, CategoryCreateAction::Commit),
            },
            CategoryCreateStage::AwaitCommit { row } => (
                done,
                CategoryCreateAction::Answer(Ok(CategoryResponseDto::new(row))),
            ),
            CategoryCreateStage::Done => (done, CategoryCreateAction::Commit),
        }
    }
}

/// Whether a slug lookup shows the slug in use (what [`slug_taken`] tests).
pub open spec fn slug_taken_spec(lookup: Result<Option<CategoryResponseDto>, AppError>) -> bool {
    lookup matches Ok(Some(_))
}

/// No two stored categories share a slug.
pub open spec fn slugs_unique(rows: Seq<CategoryRow>) -> bool {
    forall|i: int, j: int| 0 <= i < j < rows.len() ==> rows[i].slug@ != rows[j].slug@
}

/// The lookup answered from the stored categories: it found a row exactly
/// when some stored category has the slug.
pub open spec fn lookup_reflects(
    rows: Seq<CategoryRow>,
    slug: Seq<char>,
    lookup: Result<Option<CategoryResponseDto>, AppError>,
) -> bool {
    &&& lookup is Ok
    &&& (lookup matches Ok(Some(_))) <==> exists|i: int| 0 <= i < rows.len() && rows[i].slug@ == slug
}

/// A creation keeps slugs unique: when the slug lookup answered from the
/// stored categories and did not find the slug, adding the row inserted under
/// that slug leaves no two categories with one slug. (A failed lookup counts
/// as a free slug, so this holds only of lookups that answered.)
pub proof fn create_keeps_slugs_unique(
    rows: Seq<CategoryRow>,
    slug: Seq<char>,
    lookup: Result<Option<CategoryResponseDto>, AppError>,
    inserted: CategoryRow,
)
    requires
        slugs_unique(rows),
        lookup_reflects(rows, slug, lookup),
        !slug_taken_spec(lookup),
        inserted.slug@ == slug,
    ensures
        slugs_unique(rows.push(inserted)),
{
    let all = rows.push(inserted);
    assert forall|i: int, j: int| 0 <= i < j < all.len() implies all[i].slug@ != all[j].slug@ by {
        if j == rows.len() {
            assert(rows[i].slug@ != slug);
        } else {
            assert(all[i] == rows[i] && all[j] == rows[j]);
        }
    }
}

} // verus!
