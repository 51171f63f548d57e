//! The product service's operations as step machines: each step takes what
//! the database answered and says what to do next, until the operation's
//! answer is known. The caller performs every action inside one transaction
//! and stops at the first database error.
use vstd::prelude::*;
use vstd::string::*;
use crate::entities::{CategoryRow, ProductFeatureRow, ProductImageRow, ProductRow};
use crate::modules::product::dto::{
    shows_features, shows_images, shows_product, CreateProductDto, ProductResponseDto,
    UpdateProductDto,
};
use crate::modules::product::service::{
    assemble_products, first_with_id, has_category, last_category, matching_features,
    matching_images, applies_changes, apply_product_update, build_product_response, missing_category,
    missing_category_message, new_product, new_product_from, split_update, NewProduct,
    ProductChanges,
};
use crate::utils::response::AppError;

verus! {

// ---------------------------------------------------------------------------
// Lookup by identifier
// ---------------------------------------------------------------------------

/// What the lookup asks for next, or its answer.
#[derive(Debug)]
pub enum LookupAction {
    /// Read the product with this identifier.
    FindProduct(u128),
    /// Read the category with this identifier.
    FindCategory(u128),
    /// Read the images of the product with this identifier.
    LoadImages(u128),
    /// Read the feature lines of the product with this identifier.
    LoadFeatures(u128),
    /// The lookup's answer: the product, or none when it or its category is missing.
    Answer(Option<ProductResponseDto>),
}

/// What the database answered to the last action.
pub enum LookupEvent {
    Product(Option<ProductRow>),
    Category(Option<CategoryRow>),
    Images(Vec<ProductImageRow>),
    Features(Vec<ProductFeatureRow>),
}

/// Where a lookup stands, with what it has read so far.
pub enum LookupStage {
    AwaitProduct(u128),
    AwaitCategory(ProductRow),
    AwaitImages(ProductRow, CategoryRow),
    AwaitFeatures(ProductRow, CategoryRow, Vec<ProductImageRow>),
    Done,
}

/// A lookup of one product by identifier.
pub struct ProductLookup {
    pub stage: LookupStage,
}

/// Whether the event is the answer to the action that the stage is waiting for: a
/// product row found has the identifier asked for, and a category row found
/// has the product's category identifier.
pub open spec fn lookup_expects(s: LookupStage, e: LookupEvent) -> bool {
    match s {
        LookupStage::AwaitProduct(id) => match e {
            LookupEvent::Product(found) => found matches Some(p) ==> p.id == id,
            _ => false,
        },
        LookupStage::AwaitCategory(p) => match e {
            LookupEvent::Category(found) => found matches Some(c) ==> c.id == p.category_id,
            _ => false,
        },
        LookupStage::AwaitImages(_, _) => e is Images,
        LookupStage::AwaitFeatures(_, _, _) => e is Features,
        LookupStage::Done => false,
    }
}

/// What the stage has read so far is consistent: the category read is the
/// product's.
pub open spec fn lookup_wf(s: LookupStage) -> bool {
    match s {
        LookupStage::AwaitImages(p, c) => c.id == p.category_id,
        LookupStage::AwaitFeatures(p, c, _) => c.id == p.category_id,
        _ => true,
    }
}

/// The number of steps left at most.
pub open spec fn lookup_left(s: LookupStage) -> nat {
    match s {
        LookupStage::AwaitProduct(_) => 4,
        LookupStage::AwaitCategory(_) => 3,
        LookupStage::AwaitImages(_, _) => 2,
        LookupStage::AwaitFeatures(_, _, _) => 1,
        LookupStage::Done => 0,
    }
}

impl ProductLookup {
    /// Starts a lookup: first read the product.
    pub fn start(id: u128) -> (r: (ProductLookup, LookupAction))
        ensures
            r.0.stage == LookupStage::AwaitProduct(id),
            r.1 == LookupAction::FindProduct(id),
    {
        (ProductLookup { stage: LookupStage::AwaitProduct(id) }, LookupAction::FindProduct(id))
    }

    /// One step: a missing product or category ends the lookup with no
    /// answer; otherwise the category, the images and the feature lines are
    /// read in turn and the answer is built from them.
    pub fn step(self, event: LookupEvent) -> (r: (ProductLookup, LookupAction))
        requires
            lookup_expects(self.stage, event),
            lookup_wf(self.stage),
        ensures
            lookup_wf(r.0.stage),
            lookup_left(r.0.stage) < lookup_left(self.stage),
            (r.1 is Answer) == (r.0.stage is Done),
            match self.stage {
                LookupStage::AwaitProduct(_) => match event {
                    LookupEvent::Product(None) => r.1 == LookupAction::Answer(None),
                    LookupEvent::Product(Some(p)) => r.0.stage == LookupStage::AwaitCategory(p)
                        && r.1 == LookupAction::FindCategory(p.category_id),
                    _ => false,
                },
                LookupStage::AwaitCategory(p) => match event {
                    LookupEvent::Category(None) => r.1 == LookupAction::Answer(None),
                    LookupEvent::Category(Some(c)) => r.0.stage == LookupStage::AwaitImages(p, c)
                        && r.1 == LookupAction::LoadImages(p.id),
                    _ => false,
                },
                LookupStage::AwaitImages(p, c) => match event {
                    LookupEvent::Images(is) => r.0.stage == LookupStage::AwaitFeatures(p, c, is)
                        && r.1 == LookupAction::LoadFeatures(p.id),
                    _ => false,
                },
                LookupStage::AwaitFeatures(p, c, is) => match event {
                    LookupEvent::Features(fs) => r.1 matches LookupAction::Answer(Some(a))
                        && shows_product(a, p, c) && a.category.id == p.category_id && shows_images(a.product_images@, is@, false)
                        && shows_features(a.product_features@, fs@, true),
                    _ => false,
                },
                LookupStage::Done => false,
            },
    {
        let done = ProductLookup { stage: LookupStage::Done };
        match self.stage {
            LookupStage::AwaitProduct(_) => match event {
                LookupEvent::Product(None) => (done, LookupAction::Answer(None)),
                LookupEvent::Product(Some(p)) => {
                    let cid = p.category_id;
                    (ProductLookup { stage: LookupStage::AwaitCategory(p) }, LookupAction::FindCategory(cid))
                },
                _ => (done, LookupAction::Answer(None)),
            },
            LookupStage::AwaitCategory(p) => match event {
                LookupEvent::Category(None) => (done, LookupAction::Answer(None)),
                LookupEvent::Category(Some(c)) => {
                    let pid = p.id;
                    (ProductLookup { stage: LookupStage::AwaitImages(p, c) }, LookupAction::LoadImages(pid))
                },
                _ => (done, LookupAction::Answer(None)),
            },
            LookupStage::AwaitImages(p, c) => match event {
                LookupEvent::Images(is) => {
                    let pid = p.id;
                    (
                        ProductLookup { stage: LookupStage::AwaitFeatures(p, c, is) },
                        LookupAction::LoadFeatures(pid),
                    )
                },
                _ => (done, LookupAction::Answer(None)),
            },
            LookupStage::AwaitFeatures(p, c, is) => match event {
                LookupEvent::Features(fs) => {
                    let a = build_product_response(p, &c, &is, &fs);
                    (done, LookupAction::Answer(Some(a)))
                },
                _ => (done, LookupAction::Answer(None)),
            },
            LookupStage::Done => (done, LookupAction::Answer(None)),
        }
    }
}


// ---------------------------------------------------------------------------
// Change
// ---------------------------------------------------------------------------

/// What a change asks for next, or its answer.
#[derive(Debug)]
pub enum UpdateAction {
    /// Read the product with this identifier.
    FindProduct(u128),
    /// Read the category with this identifier.
    FindCategory(u128),
    /// Store this product row.
    SaveProduct(ProductRow),
    /// Delete every image of the product.
    ClearImages(u128),
    /// Insert one image per address for the product, each under a fresh identifier.
    InsertImages(u128, Vec<String>),
    /// Delete every feature line of the product.
    ClearFeatures(u128),
    /// Insert one feature line per name for the product, each under a fresh identifier.
    InsertFeatures(u128, Vec<String>),
    /// Commit the transaction.
    Commit,
    /// Look the product up again (see [`ProductLookup`]).
    Reload(u128),
    /// The change's answer.
    Answer(Result<Option<ProductResponseDto>, AppError>),
}

/// What the database answered to the last action.
pub enum UpdateEvent {
    Product(Option<ProductRow>),
    Category(Option<CategoryRow>),
    /// The row as stored.
    Saved(ProductRow),
    /// A write or the commit succeeded.
    Written,
    /// The answer of the lookup after the commit.
    Reloaded(Option<ProductResponseDto>),
    /// The last action failed in the database, with the database's error text.
    Failed(String),
}

/// Where a change stands, with what it still has to write.
pub enum UpdateStage {
    AwaitProduct {
        id: u128,
        changes: ProductChanges,
        images: Option<Vec<String>>,
        features: Option<Vec<String>>,
    },
    AwaitCategory {
        product: ProductRow,
        category_id: u128,
        changes: ProductChanges,
        images: Option<Vec<String>>,
        features: Option<Vec<String>>,
    },
    AwaitSave { pid: u128, images: Option<Vec<String>>, features: Option<Vec<String>> },
    AwaitImagesCleared { pid: u128, images: Vec<String>, features: Option<Vec<String>> },
    AwaitImagesInserted { pid: u128, features: Option<Vec<String>> },
    AwaitFeaturesCleared { pid: u128, features: Vec<String> },
    AwaitFeaturesInserted { pid: u128 },
    AwaitCommit { pid: u128 },
    AwaitReload,
    Done,
}

/// A change of one product.
pub struct ProductUpdate {
    pub stage: UpdateStage,
}

/// Whether the event is the answer to the action that the stage is waiting for: a
/// product row found has the identifier asked for, a category row found has
/// the category identifier asked for, and the saved row is the product's.
pub open spec fn update_answers(s: UpdateStage, e: UpdateEvent) -> bool {
    match s {
        UpdateStage::AwaitProduct { id, .. } => match e {
            UpdateEvent::Product(found) => found matches Some(p) ==> p.id == id,
            _ => false,
        },
        UpdateStage::AwaitCategory { category_id, .. } => match e {
            UpdateEvent::Category(found) => found matches Some(c) ==> c.id == category_id,
            _ => false,
        },
        UpdateStage::AwaitSave { pid, .. } => match e {
            UpdateEvent::Saved(row) => row.id == pid,
            _ => false,
        },
        UpdateStage::AwaitImagesCleared { .. } => e is Written,
        UpdateStage::AwaitImagesInserted { .. } => e is Written,
        UpdateStage::AwaitFeaturesCleared { .. } => e is Written,
        UpdateStage::AwaitFeaturesInserted { .. } => e is Written,
        UpdateStage::AwaitCommit { .. } => e is Written,
        UpdateStage::AwaitReload => e is Reloaded,
        UpdateStage::Done => false,
    }
}

/// Whether the event may follow the stage: the awaited answer, or a database
/// failure of the action asked for (while the operation is not done).
pub open spec fn update_expects(s: UpdateStage, e: UpdateEvent) -> bool {
    if e is Failed {
        !(s is Done)
    } else {
        update_answers(s, e)
    }
}

/// The number of steps left at most.
pub open spec fn update_left(s: UpdateStage) -> nat {
    match s {
        UpdateStage::AwaitProduct { .. } => 9,
        UpdateStage::AwaitCategory { .. } => 8,
        UpdateStage::AwaitSave { .. } => 7,
        UpdateStage::AwaitImagesCleared { .. } => 6,
        UpdateStage::AwaitImagesInserted { .. } => 5,
        UpdateStage::AwaitFeaturesCleared { .. } => 4,
        UpdateStage::AwaitFeaturesInserted { .. } => 3,
        UpdateStage::AwaitCommit { .. } => 2,
        UpdateStage::AwaitReload => 1,
        UpdateStage::Done => 0,
    }
}

/// After the images are settled: replace the feature lines when given, else commit.
pub open spec fn after_images(pid: u128, features: Option<Vec<String>>) -> (UpdateStage, UpdateAction) {
    match features {
        Some(fs) => (UpdateStage::AwaitFeaturesCleared { pid, features: fs }, UpdateAction::ClearFeatures(pid)),
        None => (UpdateStage::AwaitCommit { pid }, UpdateAction::Commit),
    }
}

/// After the row is saved: replace the images when given, then the feature lines.
pub open spec fn after_save(pid: u128, images: Option<Vec<String>>, features: Option<Vec<String>>) -> (
    UpdateStage,
    UpdateAction,
) {
    match images {
        Some(is) => (UpdateStage::AwaitImagesCleared { pid, images: is, features }, UpdateAction::ClearImages(pid)),
        None => after_images(pid, features),
    }
}

fn next_after_images(pid: u128, features: Option<Vec<String>>) -> (r: (ProductUpdate, UpdateAction))
    ensures
        (r.0.stage, r.1) == after_images(pid, features),
{
    match features {
        Some(fs) => (
            ProductUpdate { stage: UpdateStage::AwaitFeaturesCleared { pid, features: fs } },
            UpdateAction::ClearFeatures(pid),
        ),
        None => (ProductUpdate { stage: UpdateStage::AwaitCommit { pid } }, UpdateAction::Commit),
    }
}

fn next_after_save(pid: u128, images: Option<Vec<String>>, features: Option<Vec<String>>) -> (r: (
    ProductUpdate,
    UpdateAction,
))
    ensures
        (r.0.stage, r.1) == after_save(pid, images, features),
{
    match images {
        Some(is) => (
            ProductUpdate { stage: UpdateStage::AwaitImagesCleared { pid, images: is, features } },
            UpdateAction::ClearImages(pid),
        ),
        None => next_after_images(pid, features),
    }
}

impl ProductUpdate {
    /// Starts a change: first read the product.
    pub fn start(id: u128, data: UpdateProductDto) -> (r: (ProductUpdate, UpdateAction))
        ensures
            r.1 == UpdateAction::FindProduct(id),
            r.0.stage matches UpdateStage::AwaitProduct { id: asked, changes, images, features } && asked
                == id && changes.name
                == data.name && changes.category_id == data.category_id && changes.description
                == data.description && changes.long_description == data.long_description
                && changes.price == data.price && changes.compared_at_price
                == data.compared_at_price && changes.review_count == data.review_count
                && changes.rating == data.rating && changes.sku == data.sku && changes.tagline
                == data.tagline && changes.stock == data.stock && changes.is_featured
                == data.is_featured && changes.is_new == data.is_new && changes.is_best_seller
                == data.is_best_seller && (match data.product_images {
                Some(dis) => images matches Some(us) && us@.len() == dis@.len() && forall|i: int|
                    0 <= i < us@.len() ==> #[trigger] us@[i]@ == dis@[i].image_url@,
                None => images is None,
            }) && (match data.product_features {
                Some(dfs) => features matches Some(ns) && ns@.len() == dfs@.len() && forall|i: int|
                    0 <= i < ns@.len() ==> #[trigger] ns@[i]@ == dfs@[i].name@,
                None => features is None,
            }),
    {
        let (changes, images, features) = split_update(data);
        (ProductUpdate { stage: UpdateStage::AwaitProduct { id, changes, images, features } }, UpdateAction::FindProduct(id))
    }

    /// One step. A missing product answers "none"; a named category that does
    /// not exist answers an error; otherwise the changed row is saved, the
    /// given image and feature lists replace the stored ones (empty lists only
    /// clear), the transaction is committed and the product is read again.
    pub fn step(self, event: UpdateEvent) -> (r: (ProductUpdate, UpdateAction))
        requires
            update_expects(self.stage, event),
        ensures
            update_left(r.0.stage) < update_left(self.stage),
            (r.1 is Answer) == (r.0.stage is Done),
            event matches UpdateEvent::Failed(t) ==> r.1 == UpdateAction::Answer(Err(AppError::DbError(t))),
            !(event is Failed) ==> match self.stage {
                UpdateStage::AwaitProduct { changes, images, features, .. } => match event {
                    UpdateEvent::Product(None) => r.1 == UpdateAction::Answer(Ok(None)),
                    UpdateEvent::Product(Some(p)) => match changes.category_id {
                        Some(cid) => r.1 == UpdateAction::FindCategory(cid) && r.0.stage
                            == (UpdateStage::AwaitCategory {
                            product: p,
                            category_id: cid,
                            changes,
                            images,
                            features,
                        }),
                        None => r.1 matches UpdateAction::SaveProduct(row) && applies_changes(
                            row,
                            p,
                            changes,
                        ) && r.0.stage == (UpdateStage::AwaitSave { pid: p.id, images, features }),
                    },
                    _ => false,
                },
                UpdateStage::AwaitCategory { product, category_id, changes, images, features } => match event {
                    UpdateEvent::Category(None) => r.1 matches UpdateAction::Answer(
                        Err(AppError::NotFound(m)),
                    ) && m@ == missing_category_message(category_id),
                    UpdateEvent::Category(Some(_)) => r.1 matches UpdateAction::SaveProduct(row)
                        && applies_changes(row, product, changes) && r.0.stage == (
                    UpdateStage::AwaitSave { pid: product.id, images, features }),
                    _ => false,
                },
                UpdateStage::AwaitSave { pid, images, features } => match event {
                    UpdateEvent::Saved(_) => (r.0.stage, r.1) == after_save(pid, images, features),
                    _ => false,
                },
                UpdateStage::AwaitImagesCleared { pid, images, features } => if images@.len() > 0 {
                    r.1 == UpdateAction::InsertImages(pid, images) && r.0.stage == (
                    UpdateStage::AwaitImagesInserted { pid, features })
                } else {
                    (r.0.stage, r.1) == after_images(pid, features)
                },
                UpdateStage::AwaitImagesInserted { pid, features } => (r.0.stage, r.1)
                    == after_images(pid, features),
                UpdateStage::AwaitFeaturesCleared { pid, features } => if features@.len() > 0 {
                    r.1 == UpdateAction::InsertFeatures(pid, features) && r.0.stage == (
                    UpdateStage::AwaitFeaturesInserted { pid })
                } else {
                    r.1 == UpdateAction::Commit && r.0.stage == (UpdateStage::AwaitCommit { pid })
                },
                UpdateStage::AwaitFeaturesInserted { pid } => r.1 == UpdateAction::Commit
                    && r.0.stage == (UpdateStage::AwaitCommit { pid }),
                UpdateStage::AwaitCommit { pid } => r.1 == UpdateAction::Reload(pid) && r.0.stage
                    is AwaitReload,
                UpdateStage::AwaitReload => match event {
                    UpdateEvent::Reloaded(a) => r.1 == UpdateAction::Answer(Ok(a)),
                    _ => false,
                },
                UpdateStage::Done => false,
            },
    {
        let event = match event {
            UpdateEvent::Failed(text) => {
                return (
                    ProductUpdate { stage: UpdateStage::Done },
                    UpdateAction::Answer(Err(AppError::DbError(text))),
                );
            },
            other => other,
        };
        let done = ProductUpdate { stage: UpdateStage::Done };
        match self.stage {
            UpdateStage::AwaitProduct { changes, images, features, .. } => match event {
                UpdateEvent::Product(None) => (done, UpdateAction::Answer(Ok(None))),
                UpdateEvent::Product(Some(p)) => match changes.category_id {
                    Some(cid) => (
                        ProductUpdate {
                            stage: UpdateStage::AwaitCategory {
                                product: p,
                                category_id: cid,
                                changes,
                                images,
                                features,
                            },
                        },
                        UpdateAction::FindCategory(cid),
                    ),
                    None => {
                        let pid = p.id;
                        let row = apply_product_update(p, changes);
                        (
                            ProductUpdate { stage: UpdateStage::AwaitSave { pid, images, features } },
                            UpdateAction::SaveProduct(row),
                        )
                    },
                },
                _ => (done, UpdateAction::Answer(Ok(None))),
            },
            UpdateStage::AwaitCategory { product, category_id, changes, images, features } => match event {
                UpdateEvent::Category(None) => (done, UpdateAction::Answer(Err(missing_category(category_id)))),
                UpdateEvent::Category(Some(_)) => {
                    let pid = product.id;
                    let row = apply_product_update(product, changes);
                    (
                        ProductUpdate { stage: UpdateStage::AwaitSave { pid, images, features } },
                        UpdateAction::SaveProduct(row),
                    )
                },
                _ => (done, UpdateAction::Answer(Ok(None))),
            },
            UpdateStage::AwaitSave { pid, images, features } => match event {
                UpdateEvent::Saved(_) => next_after_save(pid, images, features),
                _ => (done, UpdateAction::Answer(Ok(None))),
            },
            UpdateStage::AwaitImagesCleared { pid, images, features } => {
                if images.len() > 0 {
                    (
                        ProductUpdate { stage: UpdateStage::AwaitImagesInserted { pid, features } },
                        UpdateAction::InsertImages(pid, images),
                    )
                } else {
                    next_after_images(pid, features)
                }
            },
            UpdateStage::AwaitImagesInserted { pid, features } => next_after_images(pid, features),
            UpdateStage::AwaitFeaturesCleared { pid, features } => {
                if features.len() > 0 {
                    (
                        ProductUpdate { stage: UpdateStage::AwaitFeaturesInserted { pid } },
                        UpdateAction::InsertFeatures(pid, features),
                    )
                } else {
                    (ProductUpdate { stage: UpdateStage::AwaitCommit { pid } }, UpdateAction::Commit)
                }
            },
            UpdateStage::AwaitFeaturesInserted { pid } => (
                ProductUpdate { stage: UpdateStage::AwaitCommit { pid } },
                UpdateAction::Commit,
            ),
            UpdateStage::AwaitCommit { pid } => (
                ProductUpdate { stage: UpdateStage::AwaitReload },
                UpdateAction::Reload(pid),
            ),
            UpdateStage::AwaitReload => match event {
                UpdateEvent::Reloaded(a) => (done, UpdateAction::Answer(Ok(a))),
                _ => (done, UpdateAction::Answer(Ok(None))),
            },
            UpdateStage::Done => (done, UpdateAction::Answer(Ok(None))),
        }
    }
}


// ---------------------------------------------------------------------------
// Creation
// ---------------------------------------------------------------------------

/// What a creation asks for next, or its answer.
#[derive(Debug)]
pub enum CreateAction {
    /// Insert this product row.
    InsertProduct(NewProduct),
    /// Insert one image per address for the product, each under a fresh identifier.
    InsertImages(u128, Vec<String>),
    /// Insert one feature line per name for the product, each under a fresh identifier.
    InsertFeatures(u128, Vec<String>),
    /// Commit the transaction.
    Commit,
    /// Look the product up (see [`ProductLookup`]).
    Reload(u128),
    /// The creation's answer: the product as the lookup found it, or the
    /// database error that stopped it (nothing is committed then).
    Answer(Result<Option<ProductResponseDto>, AppError>),
}

/// What the database answered to the last action.
pub enum CreateEvent {
    /// The product row as inserted.
    Inserted(ProductRow),
    /// A write or the commit succeeded.
    Written,
    /// The answer of the lookup after the commit.
    Reloaded(Option<ProductResponseDto>),
    /// The last action failed in the database, with the database's error text.
    Failed(String),
}

/// Where a creation stands, with what it still has to write.
pub enum CreateStage {
    AwaitInsert { id: u128, images: Vec<String>, features: Vec<String> },
    AwaitImages { pid: u128, features: Vec<String> },
    AwaitFeatures { pid: u128 },
    AwaitCommit { pid: u128 },
    AwaitReload,
    Done,
}

/// The creation of one product.
pub struct ProductCreation {
    pub stage: CreateStage,
}

/// Whether the event is the answer to the action that the stage is waiting for; the
/// inserted row has the identifier that the creation chose.
pub open spec fn create_answers(s: CreateStage, e: CreateEvent) -> bool {
    match s {
        CreateStage::AwaitInsert { id, .. } => match e {
            CreateEvent::Inserted(row) => row.id == id,
            _ => false,
        },
        CreateStage::AwaitImages { .. } => e is Written,
        CreateStage::AwaitFeatures { .. } => e is Written,
        CreateStage::AwaitCommit { .. } => e is Written,
        CreateStage::AwaitReload => e is Reloaded,
        CreateStage::Done => false,
    }
}

/// Whether the event may follow the stage: the awaited answer, or a database
/// failure of the action asked for (while the operation is not done).
pub open spec fn create_expects(s: CreateStage, e: CreateEvent) -> bool {
    if e is Failed {
        !(s is Done)
    } else {
        create_answers(s, e)
    }
}

/// The number of steps left at most.
pub open spec fn create_left(s: CreateStage) -> nat {
    match s {
        CreateStage::AwaitInsert { .. } => 5,
        CreateStage::AwaitImages { .. } => 4,
        CreateStage::AwaitFeatures { .. } => 3,
        CreateStage::AwaitCommit { .. } => 2,
        CreateStage::AwaitReload => 1,
        CreateStage::Done => 0,
    }
}

/// After the images: insert the feature lines when there are any, else commit.
pub open spec fn create_after_images(pid: u128, features: Vec<String>) -> (CreateStage, CreateAction) {
    if features@.len() > 0 {
        (CreateStage::AwaitFeatures { pid }, CreateAction::InsertFeatures(pid, features))
    } else {
        (CreateStage::AwaitCommit { pid }, CreateAction::Commit)
    }
}

fn create_next_after_images(pid: u128, features: Vec<String>) -> (r: (ProductCreation, CreateAction))
    ensures
        (r.0.stage, r.1) == create_after_images(pid, features),
{
    if features.len() > 0 {
        (ProductCreation { stage: CreateStage::AwaitFeatures { pid } }, CreateAction::InsertFeatures(pid, features))
    } else {
        (ProductCreation { stage: CreateStage::AwaitCommit { pid } }, CreateAction::Commit)
    }
}

impl ProductCreation {
    /// Starts a creation under the fresh identifier `id`: first insert the row.
    pub fn start(data: CreateProductDto, id: u128) -> (r: (ProductCreation, CreateAction))
        ensures
            r.1 matches CreateAction::InsertProduct(row) && new_product_from(row, data, id),
            r.0.stage matches CreateStage::AwaitInsert { id: fresh, images, features } && fresh == id
                && images@.len()
                == data.product_images@.len() && (forall|i: int|
                0 <= i < images@.len() ==> #[trigger] images@[i]@ == data.product_images@[i].image_url@)
                && features@.len() == data.product_features@.len() && (forall|i: int|
                0 <= i < features@.len() ==> #[trigger] features@[i]@
                    == data.product_features@[i].name@),
    {
        let (row, images, features) = new_product(data, id);
        (ProductCreation { stage: CreateStage::AwaitInsert { id, images, features } }, CreateAction::InsertProduct(row))
    }

    /// One step: after the row, the images and then the feature lines are
    /// inserted (a list with no entries is skipped), the transaction is
    /// committed and the product is read back as the answer.
    pub fn step(self, event: CreateEvent) -> (r: (ProductCreation, CreateAction))
        requires
            create_expects(self.stage, event),
        ensures
            create_left(r.0.stage) < create_left(self.stage),
            (r.1 is Answer) == (r.0.stage is Done),
            event matches CreateEvent::Failed(t) ==> r.1 == CreateAction::Answer(Err(AppError::DbError(t))),
            !(event is Failed) ==> match self.stage {
                CreateStage::AwaitInsert { images, features, .. } => match event {
                    CreateEvent::Inserted(p) => if images@.len() > 0 {
                        r.1 == CreateAction::InsertImages(p.id, images) && r.0.stage == (
                        CreateStage::AwaitImages { pid: p.id, features })
                    } else {
                        (r.0.stage, r.1) == create_after_images(p.id, features)
                    },
                    _ => false,
                },
                CreateStage::AwaitImages { pid, features } => (r.0.stage, r.1)
                    == create_after_images(pid, features),
                CreateStage::AwaitFeatures { pid } => r.1 == CreateAction::Commit && r.0.stage == (
                CreateStage::AwaitCommit { pid }),
                CreateStage::AwaitCommit { pid } => r.1 == CreateAction::Reload(pid) && r.0.stage
                    is AwaitReload,
                CreateStage::AwaitReload => match event {
                    CreateEvent::Reloaded(a) => r.1 == CreateAction::Answer(Ok(a)),
                    _ => false,
                },
                CreateStage::Done => false,
            },
    {
        let event = match event {
            CreateEvent::Failed(text) => {
                return (
                    ProductCreation { stage: CreateStage::Done },
                    CreateAction::Answer(Err(AppError::DbError(text))),
                );
            },
            other => other,
        };
        let done = ProductCreation { stage: CreateStage::Done };
        match self.stage {
            CreateStage::AwaitInsert { images, features, .. } => match event {
                CreateEvent::Inserted(p) => {
                    if images.len() > 0 {
                        (
                            ProductCreation { stage: CreateStage::AwaitImages { pid: p.id, features } },
                            CreateAction::InsertImages(p.id, images),
                        )
                    } else {
                        create_next_after_images(p.id, features)
                    }
                },
                _ => (done, CreateAction::Answer(Ok(None))),
            },
            CreateStage::AwaitImages { pid, features } => create_next_after_images(pid, features),
            CreateStage::AwaitFeatures { pid } => (
                ProductCreation { stage: CreateStage::AwaitCommit { pid } },
                CreateAction::Commit,
            ),
            CreateStage::AwaitCommit { pid } => (
                ProductCreation { stage: CreateStage::AwaitReload },
                CreateAction::Reload(pid),
            ),
            CreateStage::AwaitReload => match event {
                CreateEvent::Reloaded(a) => (done, CreateAction::Answer(Ok(a))),
                _ => (done, CreateAction::Answer(Ok(None))),
            },
            CreateStage::Done => (done, CreateAction::Answer(Ok(None))),
        }
    }
}

// ---------------------------------------------------------------------------
// Deletion
// ---------------------------------------------------------------------------

/// What a deletion asks for next, or its answer.
#[derive(Debug)]
pub enum DeleteAction {
    /// Delete every image of the product.
    ClearImages(u128),
    /// Delete every feature line of the product.
    ClearFeatures(u128),
    /// Delete the product row.
    DeleteProduct(u128),
    /// Commit the transaction.
    Commit,
    /// The deletion's answer (an error leaves the transaction uncommitted).
    Answer(Result<String, AppError>),
}

/// What the database answered to the last action.
pub enum DeleteEvent {
    /// A write or the commit succeeded.
    Written,
    /// The product delete succeeded, removing this many rows.
    Deleted(u64),
    /// The last action failed in the database, with the database's error text.
    Failed(String),
}

/// Where a deletion stands.
pub enum DeleteStage {
    AwaitImagesCleared { pid: u128 },
    AwaitFeaturesCleared { pid: u128 },
    AwaitDelete,
    AwaitCommit,
    Done,
}

/// The deletion of one product with its images and feature lines.
pub struct ProductDeletion {
    pub stage: DeleteStage,
}

/// Whether the event is the answer to the action that the stage is waiting for.
pub open spec fn delete_answers(s: DeleteStage, e: DeleteEvent) -> bool {
    match s {
        DeleteStage::AwaitImagesCleared { .. } => e is Written,
        DeleteStage::AwaitFeaturesCleared { .. } => e is Written,
        DeleteStage::AwaitDelete => e is Deleted,
        DeleteStage::AwaitCommit => e is Written,
        DeleteStage::Done => false,
    }
}

/// Whether the event may follow the stage: the awaited answer, or a database
/// failure of the action asked for (while the operation is not done).
pub open spec fn delete_expects(s: DeleteStage, e: DeleteEvent) -> bool {
    if e is Failed {
        !(s is Done)
    } else {
        delete_answers(s, e)
    }
}

/// The number of steps left at most.
pub open spec fn delete_left(s: DeleteStage) -> nat {
    match s {
        DeleteStage::AwaitImagesCleared { .. } => 4,
        DeleteStage::AwaitFeaturesCleared { .. } => 3,
        DeleteStage::AwaitDelete => 2,
        DeleteStage::AwaitCommit => 1,
        DeleteStage::Done => 0,
    }
}

impl ProductDeletion {
    /// Starts a deletion: first the product's images.
    pub fn start(id: u128) -> (r: (ProductDeletion, DeleteAction))
        ensures
            r.0.stage == (DeleteStage::AwaitImagesCleared { pid: id }),
            r.1 == DeleteAction::ClearImages(id),
    {
        (ProductDeletion { stage: DeleteStage::AwaitImagesCleared { pid: id } }, DeleteAction::ClearImages(id))
    }

    /// One step: images, then feature lines, then the row are deleted; when no
    /// row was deleted the answer is "Product not found" and nothing is
    /// committed, otherwise the transaction is committed.
    pub fn step(self, event: DeleteEvent) -> (r: (ProductDeletion, DeleteAction))
        requires
            delete_expects(self.stage, event),
        ensures
            delete_left(r.0.stage) < delete_left(self.stage),
            (r.1 is Answer) == (r.0.stage is Done),
            event matches DeleteEvent::Failed(t) ==> r.1 == DeleteAction::Answer(Err(AppError::DbError(t))),
            !(event is Failed) ==> match self.stage {
                DeleteStage::AwaitImagesCleared { pid } => r.1 == DeleteAction::ClearFeatures(pid)
                    && r.0.stage == (DeleteStage::AwaitFeaturesCleared { pid }),
                DeleteStage::AwaitFeaturesCleared { pid } => r.1 == DeleteAction::DeleteProduct(pid)
                    && r.0.stage is AwaitDelete,
                DeleteStage::AwaitDelete => match event {
                    DeleteEvent::Deleted(n) => if n == 0 {
                        r.1 matches DeleteAction::Answer(Err(AppError::NotFound(m))) && m@
                            == "Product not found"@
                    } else {
                        r.1 == DeleteAction::Commit && r.0.stage is AwaitCommit
                    },
                    _ => false,
                },
                DeleteStage::AwaitCommit => r.1 matches DeleteAction::Answer(Ok(m)) && m@
                    == "Product deleted successfully"@,
                DeleteStage::Done => false,
            },
    {
        let event = match event {
            DeleteEvent::Failed(text) => {
                return (
                    ProductDeletion { stage: DeleteStage::Done },
                    DeleteAction::Answer(Err(AppError::DbError(text))),
                );
            },
            other => other,
        };
        let done = ProductDeletion { stage: DeleteStage::Done };
        match self.stage {
            DeleteStage::AwaitImagesCleared { pid } => (
                ProductDeletion { stage: DeleteStage::AwaitFeaturesCleared { pid } },
                DeleteAction::ClearFeatures(pid),
            ),
            DeleteStage::AwaitFeaturesCleared { pid } => (
                ProductDeletion { stage: DeleteStage::AwaitDelete },
                DeleteAction::DeleteProduct(pid),
            ),
            DeleteStage::AwaitDelete => match event {
                DeleteEvent::Deleted(n) => {
                    if n == 0 {
                        (
                            done,
                            DeleteAction::Answer(
                                Err(AppError::NotFound(String::from_str("Product not found"))),
                            ),
                        )
                    } else {
                        (ProductDeletion { stage: DeleteStage::AwaitCommit }, DeleteAction::Commit)
                    }
                },
                _ => (ProductDeletion { stage: DeleteStage::AwaitCommit }, DeleteAction::Commit),
            },
            DeleteStage::AwaitCommit => (
                done,
                DeleteAction::Answer(Ok(String::from_str("Product deleted successfully"))),
            ),
            DeleteStage::Done => (done, DeleteAction::Answer(Ok(String::from_str("Product deleted successfully")))),
        }
    }
}


// ---------------------------------------------------------------------------
// Listing
// ---------------------------------------------------------------------------

/// What the listing asks for next, or its answer.
#[derive(Debug)]
pub enum ListingAction {
    /// Read every product that is not marked deleted.
    FindProducts,
    /// Read the categories with these identifiers.
    LoadCategories(Vec<u128>),
    /// Read the images of the products with these identifiers.
    LoadImages(Vec<u128>),
    /// Read the feature lines of the products with these identifiers.
    LoadFeatures(Vec<u128>),
    /// The listing.
    Answer(Vec<ProductResponseDto>),
}

/// What the database answered to the last action.
pub enum ListingEvent {
    Products(Vec<ProductRow>),
    Categories(Vec<CategoryRow>),
    Images(Vec<ProductImageRow>),
    Features(Vec<ProductFeatureRow>),
}

/// Where a listing stands, with what it has read so far.
pub enum ListingStage {
    AwaitProducts,
    AwaitCategories { products: Vec<ProductRow>, ids: Vec<u128> },
    AwaitImages { products: Vec<ProductRow>, ids: Vec<u128>, categories: Vec<CategoryRow> },
    AwaitFeatures {
        products: Vec<ProductRow>,
        categories: Vec<CategoryRow>,
        images: Vec<ProductImageRow>,
    },
    Done,
}

/// The listing of all products that are not marked deleted.
pub struct ProductListing {
    pub stage: ListingStage,
}

/// Whether the event is the answer to the action that the stage is waiting for; the
/// categories read must include the category of every listed product (the
/// listing cannot show a product without one).
pub open spec fn listing_expects(s: ListingStage, e: ListingEvent) -> bool {
    match s {
        ListingStage::AwaitProducts => e is Products,
        ListingStage::AwaitCategories { products, ids } => match e {
            ListingEvent::Categories(cs) => forall|i: int|
                0 <= i < products@.len() ==> has_category(cs@, #[trigger] products@[i].category_id),
            _ => false,
        },
        ListingStage::AwaitImages { .. } => e is Images,
        ListingStage::AwaitFeatures { .. } => e is Features,
        ListingStage::Done => false,
    }
}

/// What the stage has read so far is consistent.
pub open spec fn listing_wf(s: ListingStage) -> bool {
    match s {
        ListingStage::AwaitCategories { products, ids } => ids@ == products@.map_values(
            |p: ProductRow| p.id,
        ),
        ListingStage::AwaitImages { products, ids, categories } => ids@ == products@.map_values(
            |p: ProductRow| p.id,
        ) && forall|i: int|
            0 <= i < products@.len() ==> has_category(categories@, #[trigger] products@[i].category_id),
        ListingStage::AwaitFeatures { products, categories, images } => forall|i: int|
            0 <= i < products@.len() ==> has_category(categories@, #[trigger] products@[i].category_id),
        _ => true,
    }
}

/// The number of steps left at most.
pub open spec fn listing_left(s: ListingStage) -> nat {
    match s {
        ListingStage::AwaitProducts => 4,
        ListingStage::AwaitCategories { .. } => 3,
        ListingStage::AwaitImages { .. } => 2,
        ListingStage::AwaitFeatures { .. } => 1,
        ListingStage::Done => 0,
    }
}

/// The identifiers of the products, in order.
fn product_ids(ps: &Vec<ProductRow>) -> (r: Vec<u128>)
    ensures
        r@ == ps@.map_values(|p: ProductRow| p.id),
{
    let mut out: Vec<u128> = Vec::new();
    let mut i: usize = 0;
    while i < ps.len()
        invariant
            i <= ps@.len(),
            out@ == ps@.subrange(0, i as int).map_values(|p: ProductRow| p.id),
        decreases ps@.len() - i,
    {
        out.push(ps[i].id);
        i = i + 1;
        assert(out@ =~= ps@.subrange(0, i as int).map_values(|p: ProductRow| p.id));
    }
    assert(ps@.subrange(0, i as int) =~= ps@);
    out
}

/// The category identifiers of the products, in order (repeats kept).
fn category_ids(ps: &Vec<ProductRow>) -> (r: Vec<u128>)
    ensures
        r@ == ps@.map_values(|p: ProductRow| p.category_id),
{
    let mut out: Vec<u128> = Vec::new();
    let mut i: usize = 0;
    while i < ps.len()
        invariant
            i <= ps@.len(),
            out@ == ps@.subrange(0, i as int).map_values(|p: ProductRow| p.category_id),
        decreases ps@.len() - i,
    {
        out.push(ps[i].category_id);
        i = i + 1;
        assert(out@ =~= ps@.subrange(0, i as int).map_values(|p: ProductRow| p.category_id));
    }
    assert(ps@.subrange(0, i as int) =~= ps@);
    out
}

/// A copy of a list of identifiers.
fn copy_ids(ids: &Vec<u128>) -> (r: Vec<u128>)
    ensures
        r@ == ids@,
{
    let mut out: Vec<u128> = Vec::new();
    let mut i: usize = 0;
    while i < ids.len()
        invariant
            i <= ids@.len(),
            out@ == ids@.subrange(0, i as int),
        decreases ids@.len() - i,
    {
        out.push(ids[i]);
        i = i + 1;
        assert(out@ =~= ids@.subrange(0, i as int));
    }
    assert(ids@.subrange(0, i as int) =~= ids@);
    out
}

impl ProductListing {
    /// Starts a listing: first read the products that are not marked deleted.
    pub fn start() -> (r: (ProductListing, ListingAction))
        ensures
            r.0.stage is AwaitProducts,
            r.1 is FindProducts,
    {
        (ProductListing { stage: ListingStage::AwaitProducts }, ListingAction::FindProducts)
    }

    /// One step: no products answers an empty listing at once; otherwise the
    /// categories (by the products' category identifiers), images and feature
    /// lines (by the products' identifiers) are read, and the listing is
    /// assembled as [`assemble_products`] does.
    pub fn step(self, event: ListingEvent) -> (r: (ProductListing, ListingAction))
        requires
            listing_expects(self.stage, event),
            listing_wf(self.stage),
        ensures
            listing_wf(r.0.stage),
            listing_left(r.0.stage) < listing_left(self.stage),
            (r.1 is Answer) == (r.0.stage is Done),
            match self.stage {
                ListingStage::AwaitProducts => match event {
                    ListingEvent::Products(ps) => if ps@.len() == 0 {
                        r.1 matches ListingAction::Answer(v) && v@.len() == 0
                    } else {
                        &&& r.1 matches ListingAction::LoadCategories(cids)
                        &&& cids@ == ps@.map_values(|p: ProductRow| p.category_id)
                        &&& r.0.stage matches ListingStage::AwaitCategories { products, ids }
                        &&& products == ps
                    },
                    _ => false,
                },
                ListingStage::AwaitCategories { products, ids } => match event {
                    ListingEvent::Categories(cs) => {
                        &&& r.1 matches ListingAction::LoadImages(again)
                        &&& again@ == ids@
                        &&& r.0.stage matches ListingStage::AwaitImages { products: ps2, ids: ids2, categories }
                        &&& ps2 == products
                        &&& ids2 == ids
                        &&& categories == cs
                    },
                    _ => false,
                },
                ListingStage::AwaitImages { products, ids, categories } => match event {
                    ListingEvent::Images(is) => {
                        &&& r.1 == ListingAction::LoadFeatures(ids)
                        &&& r.0.stage == (ListingStage::AwaitFeatures { products, categories, images: is })
                    },
                    _ => false,
                },
                ListingStage::AwaitFeatures { products, categories, images } => match event {
                    ListingEvent::Features(fs) => {
                        &&& r.1 matches ListingAction::Answer(v)
                        &&& v@.len() == products@.len()
                        &&& forall|i: int| 0 <= i < products@.len() ==> shows_product(
                            #[trigger] v@[i],
                            products@[i],
                            categories@[last_category(categories@, products@[i].category_id)],
                        )
                        &&& forall|i: int| 0 <= i < products@.len() ==> if first_with_id(products@, i) {
                            shows_images(
                                (#[trigger] v@[i]).product_images@,
                                matching_images(images@, products@[i].id, images@.len()),
                                true,
                            ) && shows_features(
                                v@[i].product_features@,
                                matching_features(fs@, products@[i].id, fs@.len()),
                                false,
                            )
                        } else {
                            v@[i].product_images@.len() == 0 && v@[i].product_features@.len() == 0
                        }
                    },
                    _ => false,
                },
                ListingStage::Done => false,
            },
    {
        let done = ProductListing { stage: ListingStage::Done };
        match self.stage {
            ListingStage::AwaitProducts => match event {
                ListingEvent::Products(ps) => {
                    if ps.len() == 0 {
                        (done, ListingAction::Answer(Vec::new()))
                    } else {
                        let ids = product_ids(&ps);
                        let cids = category_ids(&ps);
                        (
                            ProductListing { stage: ListingStage::AwaitCategories { products: ps, ids } },
                            ListingAction::LoadCategories(cids),
                        )
                    }
                },
                _ => (done, ListingAction::Answer(Vec::new())),
            },
            ListingStage::AwaitCategories { products, ids } => match event {
                ListingEvent::Categories(cs) => {
                    let again = copy_ids(&ids);
                    (
                        ProductListing {
                            stage: ListingStage::AwaitImages { products, ids, categories: cs },
                        },
                        ListingAction::LoadImages(again),
                    )
                },
                _ => (done, ListingAction::Answer(Vec::new())),
            },
            ListingStage::AwaitImages { products, ids, categories } => match event {
                ListingEvent::Images(is) => (
                    ProductListing {
                        stage: ListingStage::AwaitFeatures { products, categories, images: is },
                    },
                    ListingAction::LoadFeatures(ids),
                ),
                _ => (done, ListingAction::Answer(Vec::new())),
            },
            ListingStage::AwaitFeatures { products, categories, images } => match event {
                ListingEvent::Features(fs) => {
                    let v = assemble_products(products, &categories, &images, &fs);
                    (done, ListingAction::Answer(v))
                },
                _ => (done, ListingAction::Answer(Vec::new())),
            },
            ListingStage::Done => (done, ListingAction::Answer(Vec::new())),
        }
    }
}

} // verus!
