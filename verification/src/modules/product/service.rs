//! The decisions of the product service. The database work is done by the
//! caller; these functions say what to read and write next and build the
//! answers from the rows that came back.
use std::collections::HashMap;
use vstd::prelude::*;
use vstd::string::*;
use crate::decimal::Price;
use crate::entities::{CategoryRow, ProductFeatureRow, ProductImageRow, ProductRow};
use crate::ids::{uuid_text, uuid_text_of};
use crate::modules::product::dto::{
    flag, shows_category, shows_features, shows_images, shows_product, CategoryResponseDto,
    CreateProductDto, CreateProductFeatureDto, CreateProductImageDto, ProductFeatureResponseDto,
    ProductImageResponseDto, ProductResponseDto, UpdateProductDto,
};
use crate::text::{slug_of, slugify};
use crate::utils::response::AppError;

verus! {

/// The stored images of product `pid` among the first `n` rows, in order.
pub open spec fn matching_images(rows: Seq<ProductImageRow>, pid: u128, n: nat) -> Seq<
    ProductImageRow,
>
    decreases n,
{
    if n == 0 {
        seq![]
    } else if rows[n - 1].product_id == pid {
        matching_images(rows, pid, (n - 1) as nat).push(rows[n - 1])
    } else {
        matching_images(rows, pid, (n - 1) as nat)
    }
}

/// The stored feature lines of product `pid` among the first `n` rows, in order.
pub open spec fn matching_features(rows: Seq<ProductFeatureRow>, pid: u128, n: nat) -> Seq<
    ProductFeatureRow,
>
    decreases n,
{
    if n == 0 {
        seq![]
    } else if rows[n - 1].product_id == pid {
        matching_features(rows, pid, (n - 1) as nat).push(rows[n - 1])
    } else {
        matching_features(rows, pid, (n - 1) as nat)
    }
}

/// Some listed category has the identifier.
pub open spec fn has_category(cs: Seq<CategoryRow>, id: u128) -> bool {
    exists|k: int| 0 <= k < cs.len() && cs[k].id == id
}

/// `k` is the last listed category with the identifier.
pub open spec fn is_last_with_id(cs: Seq<CategoryRow>, id: u128, k: int) -> bool {
    0 <= k < cs.len() && cs[k].id == id && forall|j: int| k < j < cs.len() ==> cs[j].id != id
}

/// The position of the last listed category with the identifier (a later
/// row with the same identifier replaces an earlier one).
pub open spec fn last_category(cs: Seq<CategoryRow>, id: u128) -> int {
    choose|k: int| is_last_with_id(cs, id, k)
}

/// No earlier listed product has the identifier of product `i`.
pub open spec fn first_with_id(ps: Seq<ProductRow>, i: int) -> bool {
    forall|j: int| 0 <= j < i ==> ps[j].id != ps[i].id
}

/// A product's category as answers show it.
pub fn category_summary(c: &CategoryRow) -> (r: CategoryResponseDto)
    ensures
        shows_category(r, *c),
{
    CategoryResponseDto {
        id: c.id,
        name: c.name.clone(),
        slug: c.slug.clone(),
        description: match &c.description {
            Some(d) => Some(d.clone()),
            None => None,
        },
        image: c.image.clone(),
    }
}

/// The images as answers show them; `own_id` picks the image's identifier,
/// otherwise the product's.
pub fn image_responses(rows: &Vec<ProductImageRow>, own_id: bool) -> (r: Vec<ProductImageResponseDto>)
    ensures
        shows_images(r@, rows@, own_id),
{
    let mut out: Vec<ProductImageResponseDto> = Vec::new();
    let mut i: usize = 0;
    while i < rows.len()
        invariant
            i <= rows@.len(),
            shows_images(out@, rows@.subrange(0, i as int), own_id),
        decreases rows@.len() - i,
    {
        let row = &rows[i];
        let id = if own_id {
            row.id
        } else {
            row.product_id
        };
        out.push(ProductImageResponseDto { id, image_url: row.image_url.clone() });
        i = i + 1;
    }
    assert(rows@.subrange(0, i as int) =~= rows@);
    out
}

/// The feature lines as answers show them; `own_id` picks the line's
/// identifier, otherwise the product's.
pub fn feature_responses(rows: &Vec<ProductFeatureRow>, own_id: bool) -> (r: Vec<
    ProductFeatureResponseDto,
>)
    ensures
        shows_features(r@, rows@, own_id),
{
    let mut out: Vec<ProductFeatureResponseDto> = Vec::new();
    let mut i: usize = 0;
    while i < rows.len()
        invariant
            i <= rows@.len(),
            shows_features(out@, rows@.subrange(0, i as int), own_id),
        decreases rows@.len() - i,
    {
        let row = &rows[i];
        let id = if own_id {
            row.id
        } else {
            row.product_id
        };
        out.push(ProductFeatureResponseDto::new(id, row.name.clone()));
        i = i + 1;
    }
    assert(rows@.subrange(0, i as int) =~= rows@);
    out
}

/// A stored flag, with an absent value read as false.
fn read_flag(b: Option<bool>) -> (r: bool)
    ensures
        r == flag(b),
{
    match b {
        Some(v) => v,
        None => false,
    }
}

impl ProductResponseDto {
    /// The answer for a stored product with its category, images and feature lines.
    pub fn new(
        p: ProductRow,
        category: &CategoryRow,
        product_images: Vec<ProductImageResponseDto>,
        product_features: Vec<ProductFeatureResponseDto>,
    ) -> (r: Self)
        ensures
            shows_product(r, p, *category),
            r.product_images == product_images,
            r.product_features == product_features,
    {
        ProductResponseDto {
            id: p.id,
            name: p.name,
            slug: p.slug,
            category: category_summary(category),
            description: p.description,
            long_description: p.long_description,
            price: p.price,
            compared_at_price: p.compared_at_price,
            review_count: p.review_count,
            rating: p.rating,
            sku: p.sku,
            tagline: p.tagline,
            stock: p.stock,
            is_new: read_flag(p.is_new),
            is_featured: read_flag(p.is_featured),
            is_best_seller: read_flag(p.is_best_seller),
            product_images,
            product_features,
            created_at: p.created_at,
            updated_at: p.updated_at,
            deleted_at: p.deleted_at,
        }
    }
}

/// The answer for one product looked up by identifier, from its category and
/// the image and feature rows stored for it. As the lookup builds it, each
/// image shows the product's identifier and each feature line its own.
pub fn build_product_response(
    product: ProductRow,
    category: &CategoryRow,
    images: &Vec<ProductImageRow>,
    features: &Vec<ProductFeatureRow>,
) -> (r: ProductResponseDto)
    ensures
        shows_product(r, product, *category),
        shows_images(r.product_images@, images@, false),
        shows_features(r.product_features@, features@, true),
{
    let product_images = image_responses(images, false);
    let product_features = feature_responses(features, true);
    ProductResponseDto::new(product, category, product_images, product_features)
}

/// The images that a listing map holds for product `pid` (none when absent).
pub open spec fn listed_images(m: Map<u128, Vec<ProductImageResponseDto>>, pid: u128) -> Seq<
    ProductImageResponseDto,
> {
    if m.contains_key(pid) {
        m[pid]@
    } else {
        seq![]
    }
}

/// The feature lines that a listing map holds for product `pid` (none when absent).
pub open spec fn listed_features(m: Map<u128, Vec<ProductFeatureResponseDto>>, pid: u128) -> Seq<
    ProductFeatureResponseDto,
> {
    if m.contains_key(pid) {
        m[pid]@
    } else {
        seq![]
    }
}

/// The images grouped by product, each with its own identifier, in stored order.
fn image_map(rows: &Vec<ProductImageRow>) -> (m: HashMap<u128, Vec<ProductImageResponseDto>>)
    ensures
        forall|pid: u128|
            shows_images(
                #[trigger] listed_images(m@, pid),
                matching_images(rows@, pid, rows@.len()),
                true,
            ),
{
    broadcast use vstd::std_specs::hash::group_hash_axioms;

    let mut m: HashMap<u128, Vec<ProductImageResponseDto>> = HashMap::new();
    let mut i: usize = 0;
    while i < rows.len()
        invariant
            i <= rows@.len(),
            forall|pid: u128|
                shows_images(
                    #[trigger] listed_images(m@, pid),
                    matching_images(rows@, pid, i as nat),
                    true,
                ),
        decreases rows@.len() - i,
    {
        let ghost before = m@;
        let row = &rows[i];
        let pid = row.product_id;
        let mut list = match m.remove(&pid) {
            Some(v) => v,
            None => Vec::new(),
        };
        assert(list@ == listed_images(before, pid));
        list.push(ProductImageResponseDto { id: row.id, image_url: row.image_url.clone() });
        m.insert(pid, list);
        proof {
            assert forall|q: u128|
                shows_images(
                    #[trigger] listed_images(m@, q),
                    matching_images(rows@, q, (i + 1) as nat),
                    true,
                ) by {
                if q != pid {
                    assert(listed_images(m@, q) == listed_images(before, q));
                } else {
                    assert(shows_images(listed_images(before, q), matching_images(rows@, q, i as nat), true));
                }
            }
        }
        i = i + 1;
    }
    m
}

/// The feature lines grouped by product, each shown with the product's
/// identifier, in stored order.
fn feature_map(rows: &Vec<ProductFeatureRow>) -> (m: HashMap<u128, Vec<ProductFeatureResponseDto>>)
    ensures
        forall|pid: u128|
            shows_features(
                #[trigger] listed_features(m@, pid),
                matching_features(rows@, pid, rows@.len()),
                false,
            ),
{
    broadcast use vstd::std_specs::hash::group_hash_axioms;

    let mut m: HashMap<u128, Vec<ProductFeatureResponseDto>> = HashMap::new();
    let mut i: usize = 0;
    while i < rows.len()
        invariant
            i <= rows@.len(),
            forall|pid: u128|
                shows_features(
                    #[trigger] listed_features(m@, pid),
                    matching_features(rows@, pid, i as nat),
                    false,
                ),
        decreases rows@.len() - i,
    {
        let ghost before = m@;
        let row = &rows[i];
        let pid = row.product_id;
        let mut list = match m.remove(&pid) {
            Some(v) => v,
            None => Vec::new(),
        };
        assert(list@ == listed_features(before, pid));
        list.push(ProductFeatureResponseDto::new(row.product_id, row.name.clone()));
        m.insert(pid, list);
        proof {
            assert forall|q: u128|
                shows_features(
                    #[trigger] listed_features(m@, q),
                    matching_features(rows@, q, (i + 1) as nat),
                    false,
                ) by {
                if q != pid {
                    assert(listed_features(m@, q) == listed_features(before, q));
                } else {
                    assert(shows_features(listed_features(before, q), matching_features(rows@, q, i as nat), false));
                }
            }
        }
        i = i + 1;
    }
    m
}

/// Only one position can be the last listed category with an identifier.
proof fn last_with_id_unique(cs: Seq<CategoryRow>, id: u128, k: int)
    requires
        is_last_with_id(cs, id, k),
    ensures
        k == last_category(cs, id),
{
    let c = last_category(cs, id);
    assert(is_last_with_id(cs, id, c));
    if c < k {
        assert(cs[k].id != id);
    } else if c > k {
        assert(cs[c].id != id);
    }
}

/// The categories by identifier: the position of the last listed category
/// with each identifier (a later row replaces an earlier one).
fn category_map(cs: &Vec<CategoryRow>) -> (m: HashMap<u128, usize>)
    ensures
        forall|id: u128| #[trigger] m@.contains_key(id) <==> has_category(cs@, id),
        forall|id: u128| #[trigger] m@.contains_key(id) ==> m@[id] as int == last_category(cs@, id),
{
    broadcast use vstd::std_specs::hash::group_hash_axioms;

    let mut m: HashMap<u128, usize> = HashMap::new();
    let mut i: usize = 0;
    while i < cs.len()
        invariant
            i <= cs@.len(),
            forall|id: u128|
                #[trigger] m@.contains_key(id) <==> exists|k: int| 0 <= k < i && cs@[k].id == id,
            forall|id: u128|
                #[trigger] m@.contains_key(id) ==> m@[id] < i && cs@[m@[id] as int].id == id && forall|
                    j: int,
                | m@[id] < j < i ==> cs@[j].id != id,
        decreases cs@.len() - i,
    {
        let ghost before = m@;
        let id = cs[i].id;
        m.insert(id, i);
        proof {
            assert forall|q: u128|
                #[trigger] m@.contains_key(q) <==> exists|k: int| 0 <= k < i + 1 && cs@[k].id == q by {
                if q != id {
                    if exists|k: int| 0 <= k < i + 1 && cs@[k].id == q {
                        let k = choose|k: int| 0 <= k < i + 1 && cs@[k].id == q;
                        assert(k < i);
                    }
                }
            }
            assert forall|q: u128| #[trigger] m@.contains_key(q) implies m@[q] < i + 1 && cs@[m@[q] as int].id == q
                && forall|j: int| m@[q] < j < i + 1 ==> cs@[j].id != q by {
                if q != id {
                    assert(before.contains_key(q));
                }
            }
        }
        i = i + 1;
    }
    proof {
        assert forall|id: u128| #[trigger] m@.contains_key(id) implies m@[id] as int == last_category(cs@, id) by {
            assert(is_last_with_id(cs@, id, m@[id] as int));
            last_with_id_unique(cs@, id, m@[id] as int);
        }
        assert forall|id: u128| #[trigger] m@.contains_key(id) <==> has_category(cs@, id) by {
            if has_category(cs@, id) {
                let k = choose|k: int| 0 <= k < cs@.len() && cs@[k].id == id;
                assert(exists|k2: int| 0 <= k2 < i && cs@[k2].id == id);
            }
        }
    }
    m
}

/// The product listing, from the listed products, the categories, images and
/// feature lines that were read for them. Each product shows the last listed
/// category with its category identifier, and its own images and feature
/// lines in stored order; a product whose identifier was already listed gets
/// no images or feature lines (they were handed to the first one).
pub fn assemble_products(
    products: Vec<ProductRow>,
    categories: &Vec<CategoryRow>,
    images: &Vec<ProductImageRow>,
    features: &Vec<ProductFeatureRow>,
) -> (r: Vec<ProductResponseDto>)
    requires
        forall|i: int|
            0 <= i < products@.len() ==> has_category(categories@, #[trigger] products@[i].category_id),
    ensures
        r@.len() == products@.len(),
        forall|i: int|
            0 <= i < products@.len() ==> shows_product(
                #[trigger] r@[i],
                products@[i],
                categories@[last_category(categories@, products@[i].category_id)],
            ),
        forall|i: int|
            0 <= i < products@.len() ==> if first_with_id(products@, i) {
                shows_images(
                    (#[trigger] r@[i]).product_images@,
                    matching_images(images@, products@[i].id, images@.len()),
                    true,
                ) && shows_features(
                    r@[i].product_features@,
                    matching_features(features@, products@[i].id, features@.len()),
                    false,
                )
            } else {
                r@[i].product_images@.len() == 0 && r@[i].product_features@.len() == 0
            },
{
    broadcast use vstd::std_specs::hash::group_hash_axioms;

    let category_at = category_map(categories);
    let mut image_lists = image_map(images);
    let mut feature_lists = feature_map(features);
    let ghost orig = products@;
    let mut rest = products;
    let mut out: Vec<ProductResponseDto> = Vec::new();
    while rest.len() > 0
        invariant
            out@.len() <= orig.len(),
            rest@ == orig.subrange(out@.len() as int, orig.len() as int),
            forall|id: u128| #[trigger] category_at@.contains_key(id) <==> has_category(categories@, id),
            forall|id: u128|
                #[trigger] category_at@.contains_key(id) ==> category_at@[id] as int == last_category(
                    categories@,
                    id,
                ),
            forall|pid: u128|
                (exists|j: int| 0 <= j < out@.len() && orig[j].id == pid) ==> (#[trigger] listed_images(
                    image_lists@,
                    pid,
                )).len() == 0 && listed_features(feature_lists@, pid).len() == 0,
            forall|pid: u128|
                !(exists|j: int| 0 <= j < out@.len() && orig[j].id == pid) ==> shows_images(
                    #[trigger] listed_images(image_lists@, pid),
                    matching_images(images@, pid, images@.len()),
                    true,
                ) && shows_features(
                    listed_features(feature_lists@, pid),
                    matching_features(features@, pid, features@.len()),
                    false,
                ),
            forall|i: int|
                0 <= i < orig.len() ==> has_category(categories@, #[trigger] orig[i].category_id),
            forall|i: int|
                0 <= i < out@.len() ==> shows_product(
                    #[trigger] out@[i],
                    orig[i],
                    categories@[last_category(categories@, orig[i].category_id)],
                ),
            forall|i: int|
                0 <= i < out@.len() ==> if first_with_id(orig, i) {
                    shows_images(
                        (#[trigger] out@[i]).product_images@,
                        matching_images(images@, orig[i].id, images@.len()),
                        true,
                    ) && shows_features(
                        out@[i].product_features@,
                        matching_features(features@, orig[i].id, features@.len()),
                        false,
                    )
                } else {
                    out@[i].product_images@.len() == 0 && out@[i].product_features@.len() == 0
                },
        decreases rest@.len(),
    {
        let ghost i = out@.len() as int;
        let ghost images_before = image_lists@;
        let ghost features_before = feature_lists@;
        let p = rest.remove(0);
        assert(p == orig[i]);
        assert(has_category(categories@, orig[i].category_id));
        assert(category_at@.contains_key(p.category_id));
        let k: usize = match category_at.get(&p.category_id) {
            Some(k) => *k,
            None => 0,
        };
        proof {
            last_category_exists(categories@, orig[i].category_id);
        }
        assert(k as int == last_category(categories@, orig[i].category_id));
        let pid = p.id;
        let product_images = match image_lists.remove(&pid) {
            Some(v) => v,
            None => Vec::new(),
        };
        let product_features = match feature_lists.remove(&pid) {
            Some(v) => v,
            None => Vec::new(),
        };
        assert(product_images@ == listed_images(images_before, pid));
        assert(product_features@ == listed_features(features_before, pid));
        proof {
            if first_with_id(orig, i) {
                assert(!(exists|j: int| 0 <= j < i && orig[j].id == pid));
            } else {
                let j = choose|j: int| 0 <= j < i && orig[j].id == orig[i].id;
                assert(exists|j2: int| 0 <= j2 < i && orig[j2].id == pid);
            }
            assert forall|q: u128|
                (exists|j: int| 0 <= j < i + 1 && orig[j].id == q) implies (#[trigger] listed_images(
                    image_lists@,
                    q,
                )).len() == 0 && listed_features(feature_lists@, q).len() == 0 by {
                if q != pid {
                    let j = choose|j: int| 0 <= j < i + 1 && orig[j].id == q;
                    assert(j < i);
                    assert(listed_images(image_lists@, q) == listed_images(images_before, q));
                    assert(listed_features(feature_lists@, q) == listed_features(features_before, q));
                }
            }
            assert forall|q: u128|
                !(exists|j: int| 0 <= j < i + 1 && orig[j].id == q) implies shows_images(
                    #[trigger] listed_images(image_lists@, q),
                    matching_images(images@, q, images@.len()),
                    true,
                ) && shows_features(
                    listed_features(feature_lists@, q),
                    matching_features(features@, q, features@.len()),
                    false,
                ) by {
                assert(orig[i].id != q);
                assert(!(exists|j: int| 0 <= j < i && orig[j].id == q));
                assert(listed_images(image_lists@, q) == listed_images(images_before, q));
                assert(listed_features(feature_lists@, q) == listed_features(features_before, q));
            }
        }
        let item = ProductResponseDto::new(p, &categories[k], product_images, product_features);
        out.push(item);
        assert(rest@ =~= orig.subrange(out@.len() as int, orig.len() as int));
    }
    out
}

/// The scalar changes of a product change payload.
#[derive(Clone, Debug, PartialEq, Eq)]
pub struct ProductChanges {
    pub name: Option<String>,
    pub category_id: Option<u128>,
    pub description: Option<String>,
    pub long_description: Option<String>,
    pub price: Option<Price>,
    pub compared_at_price: Option<Price>,
    pub review_count: Option<i32>,
    pub rating: Option<i32>,
    pub sku: Option<String>,
    pub tagline: Option<String>,
    pub stock: Option<i32>,
    pub is_featured: Option<bool>,
    pub is_new: Option<bool>,
    pub is_best_seller: Option<bool>,
}

/// A text field after an optional change.
pub open spec fn changed_text(old: String, new: Option<String>) -> Seq<char> {
    match new {
        Some(v) => v@,
        None => old@,
    }
}

/// A value after an optional change.
pub open spec fn changed<T>(old: T, new: Option<T>) -> T {
    match new {
        Some(v) => v,
        None => old,
    }
}

/// A stored flag after an optional change: a given value is stored as present.
pub open spec fn changed_flag(old: Option<bool>, new: Option<bool>) -> Option<bool> {
    match new {
        Some(v) => Some(v),
        None => old,
    }
}

/// `r` is product `p` with the changes applied: every given field replaces the
/// stored one, a new name also gives a new slug, and the identifier and
/// timestamps stay.
pub open spec fn applies_changes(r: ProductRow, p: ProductRow, c: ProductChanges) -> bool {
    &&& r.id == p.id
    &&& r.name@ == changed_text(p.name, c.name)
    &&& r.slug@ == (match c.name {
        Some(n) => slug_of(n@),
        None => p.slug@,
    })
    &&& r.category_id == changed(p.category_id, c.category_id)
    &&& r.description@ == changed_text(p.description, c.description)
    &&& r.long_description@ == changed_text(p.long_description, c.long_description)
    &&& r.price == changed(p.price, c.price)
    &&& r.compared_at_price == changed(p.compared_at_price, c.compared_at_price)
    &&& r.review_count == changed(p.review_count, c.review_count)
    &&& r.rating == changed(p.rating, c.rating)
    &&& r.sku@ == changed_text(p.sku, c.sku)
    &&& r.tagline@ == changed_text(p.tagline, c.tagline)
    &&& r.stock == changed(p.stock, c.stock)
    &&& r.is_new == changed_flag(p.is_new, c.is_new)
    &&& r.is_featured == changed_flag(p.is_featured, c.is_featured)
    &&& r.is_best_seller == changed_flag(p.is_best_seller, c.is_best_seller)
    &&& r.created_at == p.created_at
    &&& r.updated_at == p.updated_at
    &&& r.deleted_at == p.deleted_at
}

/// A product read after an update shows each given field with its new value
/// and every other field as it was; a new name also shows the slug of that
/// name, and an absent flag reads as false.
pub proof fn read_after_update(
    p: ProductRow,
    c: ProductChanges,
    updated: ProductRow,
    category: CategoryRow,
    shown: ProductResponseDto,
)
    requires
        applies_changes(updated, p, c),
        shows_product(shown, updated, category),
    ensures
        shown.id == p.id,
        shown.name@ == changed_text(p.name, c.name),
        shown.slug@ == (match c.name {
            Some(n) => slug_of(n@),
            None => p.slug@,
        }),
        shown.description@ == changed_text(p.description, c.description),
        shown.long_description@ == changed_text(p.long_description, c.long_description),
        shown.price == changed(p.price, c.price),
        shown.compared_at_price == changed(p.compared_at_price, c.compared_at_price),
        shown.review_count == changed(p.review_count, c.review_count),
        shown.rating == changed(p.rating, c.rating),
        shown.sku@ == changed_text(p.sku, c.sku),
        shown.tagline@ == changed_text(p.tagline, c.tagline),
        shown.stock == changed(p.stock, c.stock),
        shown.is_new == flag(changed_flag(p.is_new, c.is_new)),
        shown.is_featured == flag(changed_flag(p.is_featured, c.is_featured)),
        shown.is_best_seller == flag(changed_flag(p.is_best_seller, c.is_best_seller)),
        shown.created_at == p.created_at,
{
}

/// What a change does to a stored product: each given field takes the given
/// value (a new name also the slug of that name, a named category moves the
/// product to it, a given flag is stored as present), each absent field keeps
/// its value, and the identifier and timestamps stay.
pub proof fn update_sets_given_fields(p: ProductRow, c: ProductChanges, r: ProductRow)
    requires
        applies_changes(r, p, c),
    ensures
        r.id == p.id,
        c.name matches Some(n) ==> r.name@ == n@ && r.slug@ == slug_of(n@),
        c.name is None ==> r.name@ == p.name@ && r.slug@ == p.slug@,
        c.category_id matches Some(k) ==> r.category_id == k,
        c.category_id is None ==> r.category_id == p.category_id,
        c.description matches Some(t) ==> r.description@ == t@,
        c.description is None ==> r.description@ == p.description@,
        c.long_description matches Some(t) ==> r.long_description@ == t@,
        c.long_description is None ==> r.long_description@ == p.long_description@,
        c.sku matches Some(t) ==> r.sku@ == t@,
        c.sku is None ==> r.sku@ == p.sku@,
        c.tagline matches Some(t) ==> r.tagline@ == t@,
        c.tagline is None ==> r.tagline@ == p.tagline@,
        c.price matches Some(v) ==> r.price == v,
        c.price is None ==> r.price == p.price,
        c.compared_at_price matches Some(v) ==> r.compared_at_price == v,
        c.compared_at_price is None ==> r.compared_at_price == p.compared_at_price,
        c.review_count matches Some(v) ==> r.review_count == v,
        c.review_count is None ==> r.review_count == p.review_count,
        c.rating matches Some(v) ==> r.rating == v,
        c.rating is None ==> r.rating == p.rating,
        c.stock matches Some(v) ==> r.stock == v,
        c.stock is None ==> r.stock == p.stock,
        c.is_new matches Some(b) ==> r.is_new == Some(b),
        c.is_new is None ==> r.is_new == p.is_new,
        c.is_featured matches Some(b) ==> r.is_featured == Some(b),
        c.is_featured is None ==> r.is_featured == p.is_featured,
        c.is_best_seller matches Some(b) ==> r.is_best_seller == Some(b),
        c.is_best_seller is None ==> r.is_best_seller == p.is_best_seller,
        r.created_at == p.created_at,
        r.updated_at == p.updated_at,
        r.deleted_at == p.deleted_at,
{
}

/// Applying one change payload twice leaves the product as applying it once.
pub proof fn update_twice_is_update_once(p: ProductRow, c: ProductChanges, once: ProductRow, twice: ProductRow)
    requires
        applies_changes(once, p, c),
        applies_changes(twice, once, c),
    ensures
        applies_changes(twice, p, c),
{
}

/// Replaces a text when a new one is given.
fn set_text(field: &mut String, new: Option<String>)
    ensures
        final(field)@ == changed_text(*old(field), new),
{
    match new {
        Some(v) => {
            *field = v;
        },
        None => {},
    }
}

/// Applies the scalar changes of a change payload to a stored product.
pub fn apply_product_update(product: ProductRow, c: ProductChanges) -> (r: ProductRow)
    ensures
        applies_changes(r, product, c),
{
    let mut p = product;
    match c.name {
        Some(name) => {
            let slug = slugify(name.as_str());
            p.name = name;
            p.slug = slug;
        },
        None => {},
    }
    match c.category_id {
        Some(v) => {
            p.category_id = v;
        },
        None => {},
    }
    set_text(&mut p.description, c.description);
    set_text(&mut p.long_description, c.long_description);
    match c.price {
        Some(v) => {
            p.price = v;
        },
        None => {},
    }
    match c.compared_at_price {
        Some(v) => {
            p.compared_at_price = v;
        },
        None => {},
    }
    match c.review_count {
        Some(v) => {
            p.review_count = v;
        },
        None => {},
    }
    match c.rating {
        Some(v) => {
            p.rating = v;
        },
        None => {},
    }
    set_text(&mut p.sku, c.sku);
    set_text(&mut p.tagline, c.tagline);
    match c.stock {
        Some(v) => {
            p.stock = v;
        },
        None => {},
    }
    match c.is_new {
        Some(v) => {
            p.is_new = Some(v);
        },
        None => {},
    }
    match c.is_featured {
        Some(v) => {
            p.is_featured = Some(v);
        },
        None => {},
    }
    match c.is_best_seller {
        Some(v) => {
            p.is_best_seller = Some(v);
        },
        None => {},
    }
    p
}

/// The fields of a product to insert; the database fills the timestamps.
#[derive(Debug)]
pub struct NewProduct {
    pub id: u128,
    pub slug: String,
    pub name: String,
    pub tagline: String,
    pub description: String,
    pub long_description: String,
    pub price: Price,
    pub compared_at_price: Price,
    pub category_id: u128,
    pub rating: i32,
    pub review_count: i32,
    pub stock: i32,
    pub sku: String,
    pub is_new: Option<bool>,
    pub is_featured: Option<bool>,
    pub is_best_seller: Option<bool>,
}

/// The product row that a creation payload inserts under identifier `id`:
/// the payload's fields, the slug of its name, and the flags stored as present.
pub open spec fn new_product_from(r: NewProduct, d: CreateProductDto, id: u128) -> bool {
    &&& r.id == id
    &&& r.slug@ == slug_of(d.name@)
    &&& r.name@ == d.name@
    &&& r.tagline@ == d.tagline@
    &&& r.description@ == d.description@
    &&& r.long_description@ == d.long_description@
    &&& r.price == d.price
    &&& r.compared_at_price == d.compared_at_price
    &&& r.category_id == d.category_id
    &&& r.rating == d.rating
    &&& r.review_count == d.review_count
    &&& r.stock == d.stock
    &&& r.sku@ == d.sku@
    &&& r.is_new == Some(d.is_new)
    &&& r.is_featured == Some(d.is_featured)
    &&& r.is_best_seller == Some(d.is_best_seller)
}

/// A stored product row holds the fields of the row that was inserted (the
/// database adds the timestamps).
pub open spec fn holds_new_product(stored: ProductRow, n: NewProduct) -> bool {
    &&& stored.id == n.id
    &&& stored.slug@ == n.slug@
    &&& stored.name@ == n.name@
    &&& stored.tagline@ == n.tagline@
    &&& stored.description@ == n.description@
    &&& stored.long_description@ == n.long_description@
    &&& stored.price == n.price
    &&& stored.compared_at_price == n.compared_at_price
    &&& stored.category_id == n.category_id
    &&& stored.rating == n.rating
    &&& stored.review_count == n.review_count
    &&& stored.stock == n.stock
    &&& stored.sku@ == n.sku@
    &&& stored.is_new == n.is_new
    &&& stored.is_featured == n.is_featured
    &&& stored.is_best_seller == n.is_best_seller
}

/// A product read after its creation shows the payload: its fields, the slug
/// of its name, its flags as given, under the identifier it was created with.
pub proof fn read_after_create(
    d: CreateProductDto,
    id: u128,
    inserted: NewProduct,
    stored: ProductRow,
    category: CategoryRow,
    shown: ProductResponseDto,
)
    requires
        new_product_from(inserted, d, id),
        holds_new_product(stored, inserted),
        shows_product(shown, stored, category),
    ensures
        shown.id == id,
        shown.name@ == d.name@,
        shown.slug@ == slug_of(d.name@),
        shown.tagline@ == d.tagline@,
        shown.description@ == d.description@,
        shown.long_description@ == d.long_description@,
        shown.price == d.price,
        shown.compared_at_price == d.compared_at_price,
        shown.rating == d.rating,
        shown.review_count == d.review_count,
        shown.stock == d.stock,
        shown.sku@ == d.sku@,
        shown.is_new == d.is_new,
        shown.is_featured == d.is_featured,
        shown.is_best_seller == d.is_best_seller,
{
}

/// When some listed category has the identifier, there is a last one.
proof fn last_category_exists(cs: Seq<CategoryRow>, id: u128)
    requires
        has_category(cs, id),
    ensures
        is_last_with_id(cs, id, last_category(cs, id)),
    decreases cs.len(),
{
    let n = cs.len();
    if cs[n - 1].id == id {
        assert(is_last_with_id(cs, id, n - 1));
    } else {
        let k = choose|k: int| 0 <= k < cs.len() && cs[k].id == id;
        let rest = cs.drop_last();
        assert(rest[k].id == id);
        last_category_exists(rest, id);
        let j = last_category(rest, id);
        assert(rest[j] == cs[j]);
        assert forall|l: int| j < l < cs.len() implies cs[l].id != id by {
            if l < n - 1 {
                assert(rest[l] == cs[l]);
            }
        }
        assert(is_last_with_id(cs, id, j));
    }
}

/// A created product shows up in a later listing exactly once, with the
/// payload's fields, the slug of its name and its category. The listing read
/// the stored products (each identifier once: it is the primary key), among
/// them the row that the creation inserted, and its categories.
pub proof fn listed_after_create(
    d: CreateProductDto,
    id: u128,
    inserted: NewProduct,
    products: Seq<ProductRow>,
    k: int,
    categories: Seq<CategoryRow>,
    listed: Seq<ProductResponseDto>,
)
    requires
        new_product_from(inserted, d, id),
        0 <= k < products.len(),
        holds_new_product(products[k], inserted),
        forall|i: int, j: int|
            0 <= i < j < products.len() ==> products[i].id != products[j].id,
        has_category(categories, products[k].category_id),
        listed.len() == products.len(),
        forall|i: int|
            0 <= i < products.len() ==> shows_product(
                #[trigger] listed[i],
                products[i],
                categories[last_category(categories, products[i].category_id)],
            ),
    ensures
        forall|i: int| 0 <= i < listed.len() ==> ((#[trigger] listed[i]).id == id <==> i == k),
        listed[k].name@ == d.name@,
        listed[k].slug@ == slug_of(d.name@),
        listed[k].price == d.price,
        listed[k].category.id == d.category_id,
{
    assert forall|i: int| 0 <= i < listed.len() implies ((#[trigger] listed[i]).id == id <==> i == k) by {
        assert(shows_product(listed[i], products[i], categories[last_category(categories, products[i].category_id)]));
        if i < k {
            assert(products[i].id != products[k].id);
        } else if i > k {
            assert(products[k].id != products[i].id);
        }
    }
    assert(shows_product(listed[k], products[k], categories[last_category(categories, products[k].category_id)]));
    last_category_exists(categories, products[k].category_id);
}

/// Splits a creation payload into the product row to insert and its image
/// addresses and feature names, in payload order.
pub fn new_product(d: CreateProductDto, id: u128) -> (r: (NewProduct, Vec<String>, Vec<String>))
    ensures
        new_product_from(r.0, d, id),
        r.1@.len() == d.product_images@.len(),
        forall|i: int| 0 <= i < r.1@.len() ==> #[trigger] r.1@[i]@ == d.product_images@[i].image_url@,
        r.2@.len() == d.product_features@.len(),
        forall|i: int| 0 <= i < r.2@.len() ==> #[trigger] r.2@[i]@ == d.product_features@[i].name@,
{
    let slug = slugify(d.name.as_str());
    let urls = image_urls(&d.product_images);
    let names = feature_names(&d.product_features);
    let row = NewProduct {
        id,
        slug,
        name: d.name,
        tagline: d.tagline,
        description: d.description,
        long_description: d.long_description,
        price: d.price,
        compared_at_price: d.compared_at_price,
        category_id: d.category_id,
        rating: d.rating,
        review_count: d.review_count,
        stock: d.stock,
        sku: d.sku,
        is_new: Some(d.is_new),
        is_featured: Some(d.is_featured),
        is_best_seller: Some(d.is_best_seller),
    };
    (row, urls, names)
}

/// The addresses of the images, in order.
pub fn image_urls(images: &Vec<CreateProductImageDto>) -> (r: Vec<String>)
    ensures
        r@.len() == images@.len(),
        forall|i: int| 0 <= i < r@.len() ==> #[trigger] r@[i]@ == images@[i].image_url@,
{
    let mut out: Vec<String> = Vec::new();
    let mut i: usize = 0;
    while i < images.len()
        invariant
            i <= images@.len(),
            out@.len() == i,
            forall|k: int| 0 <= k < i ==> #[trigger] out@[k]@ == images@[k].image_url@,
        decreases images@.len() - i,
    {
        out.push(images[i].image_url.clone());
        i = i + 1;
    }
    out
}

/// The names of the feature lines, in order.
pub fn feature_names(features: &Vec<CreateProductFeatureDto>) -> (r: Vec<String>)
    ensures
        r@.len() == features@.len(),
        forall|i: int| 0 <= i < r@.len() ==> #[trigger] r@[i]@ == features@[i].name@,
{
    let mut out: Vec<String> = Vec::new();
    let mut i: usize = 0;
    while i < features.len()
        invariant
            i <= features@.len(),
            out@.len() == i,
            forall|k: int| 0 <= k < i ==> #[trigger] out@[k]@ == features@[k].name@,
        decreases features@.len() - i,
    {
        out.push(features[i].name.clone());
        i = i + 1;
    }
    out
}

/// The scalar changes of a change payload, with its image and feature lists
/// (as addresses and names) when given.
pub fn split_update(d: UpdateProductDto) -> (r: (ProductChanges, Option<Vec<String>>, Option<Vec<String>>))
    ensures
        r.0.name == d.name,
        r.0.category_id == d.category_id,
        r.0.description == d.description,
        r.0.long_description == d.long_description,
        r.0.price == d.price,
        r.0.compared_at_price == d.compared_at_price,
        r.0.review_count == d.review_count,
        r.0.rating == d.rating,
        r.0.sku == d.sku,
        r.0.tagline == d.tagline,
        r.0.stock == d.stock,
        r.0.is_featured == d.is_featured,
        r.0.is_new == d.is_new,
        r.0.is_best_seller == d.is_best_seller,
        match d.product_images {
            Some(is) => r.1 matches Some(us) && us@.len() == is@.len() && forall|i: int|
                0 <= i < us@.len() ==> #[trigger] us@[i]@ == is@[i].image_url@,
            None => r.1 is None,
        },
        match d.product_features {
            Some(fs) => r.2 matches Some(ns) && ns@.len() == fs@.len() && forall|i: int|
                0 <= i < ns@.len() ==> #[trigger] ns@[i]@ == fs@[i].name@,
            None => r.2 is None,
        },
{
    let urls = match &d.product_images {
        Some(is) => Some(image_urls(is)),
        None => None,
    };
    let names = match &d.product_features {
        Some(fs) => Some(feature_names(fs)),
        None => None,
    };
    let changes = ProductChanges {
        name: d.name,
        category_id: d.category_id,
        description: d.description,
        long_description: d.long_description,
        price: d.price,
        compared_at_price: d.compared_at_price,
        review_count: d.review_count,
        rating: d.rating,
        sku: d.sku,
        tagline: d.tagline,
        stock: d.stock,
        is_featured: d.is_featured,
        is_new: d.is_new,
        is_best_seller: d.is_best_seller,
    };
    (changes, urls, names)
}

/// The message when a change names a category that does not exist.
pub open spec fn missing_category_message(id: u128) -> Seq<char> {
    "Category not found with provided id: "@ + uuid_text_of(id)
}

/// The error when a change names a category that does not exist.
pub fn missing_category(id: u128) -> (r: AppError)
    ensures
        r matches AppError::NotFound(m) && m@ == missing_category_message(id),
{
    let mut m = String::from_str("Category not found with provided id: ");
    let t = uuid_text(id);
    m.append(t.as_str());
    AppError::NotFound(m)
}

} // verus!
