//! Product payloads and their rules.
use vstd::prelude::*;
use crate::decimal::Price;
use crate::entities::{opt_text, CategoryRow, ProductFeatureRow, ProductImageRow, ProductRow};
use crate::validation::{
    id_rule, price_rule, range_rule, reports, reports_concat, reports_item, reports_item_concat,
    text_length_rule,
    check_id, check_opt_id, check_opt_price, check_opt_range, check_opt_text_length, check_price,
    check_range, check_text_length, finish, id_errors, is_url, opt_id_errors, opt_price_errors,
    opt_range_errors, opt_text_length_errors, outcome, price_errors, range_errors,
    text_length_errors, url_ok, Code, Field, FieldError, FieldErrorView, Param, ParamView,
    ValidationErrors,
};

verus! {

/// One feature line of a product payload.
#[derive(Clone, Debug, PartialEq, Eq)]
pub struct CreateProductFeatureDto {
    pub name: String,
}

/// One image of a product payload.
#[derive(Clone, Debug, PartialEq, Eq)]
pub struct CreateProductImageDto {
    pub image_url: String,
}

/// The payload that creates a product.
#[derive(Clone, Debug, PartialEq, Eq)]
pub struct CreateProductDto {
    pub name: String,
    pub category_id: u128,
    pub description: String,
    pub long_description: String,
    pub price: Price,
    pub compared_at_price: Price,
    pub review_count: i32,
    pub rating: i32,
    pub sku: String,
    pub tagline: String,
    pub stock: i32,
    pub is_featured: bool,
    pub is_new: bool,
    pub is_best_seller: bool,
    pub product_features: Vec<CreateProductFeatureDto>,
    pub product_images: Vec<CreateProductImageDto>,
}

/// The payload that changes a product; absent fields stay as they are, and a
/// given feature or image list replaces the product's list.
#[derive(Clone, Debug, PartialEq, Eq)]
pub struct UpdateProductDto {
    pub name: Option<String>,
    pub category_id: Option<u128>,
    pub description: Option<String>,
    pub long_description: Option<String>,
    pub price: Option<Price>,
    pub compared_at_price: Option<Price>,
    pub review_count: Option<i32>,
    pub rating: Option<i32>,
    pub sku: Option<String>,
    pub tagline: Option<String>,
    pub stock: Option<i32>,
    pub is_featured: Option<bool>,
    pub is_new: Option<bool>,
    pub is_best_seller: Option<bool>,
    pub product_features: Option<Vec<CreateProductFeatureDto>>,
    pub product_images: Option<Vec<CreateProductImageDto>>,
}

/// The failed rules of a feature line: its name must not be empty.
pub open spec fn feature_errors(f: CreateProductFeatureDto) -> Seq<FieldErrorView> {
    text_length_errors(Field::Name, f.name@, Some(1), None, "Feature name is required"@)
}

/// The failed rules of an image: its address must parse as a URL.
pub open spec fn image_errors(i: CreateProductImageDto) -> Seq<FieldErrorView> {
    if is_url(i.image_url@) {
        seq![]
    } else {
        seq![
            FieldErrorView {
                field: Field::ImageUrl,
                item: None,
                code: Code::Url,
                message: Some("Invalid image URL"@),
                min: None,
                max: None,
                value: ParamView::Text(i.image_url@),
            },
        ]
    }
}

/// Errors of the element at index `i` of list field `outer`, filed under that field.
pub open spec fn nest(outer: Field, i: int, errs: Seq<FieldErrorView>) -> Seq<FieldErrorView> {
    errs.map_values(
        |e: FieldErrorView|
            FieldErrorView {
                field: outer,
                item: Some((i as usize, e.field)),
                code: e.code,
                message: e.message,
                min: e.min,
                max: e.max,
                value: e.value,
            },
    )
}

/// The element errors of the first `n` feature lines, in order.
pub open spec fn features_nested_errors(fs: Seq<CreateProductFeatureDto>, n: nat) -> Seq<
    FieldErrorView,
>
    decreases n,
{
    if n == 0 {
        seq![]
    } else {
        features_nested_errors(fs, (n - 1) as nat) + nest(
            Field::ProductFeatures,
            n - 1,
            feature_errors(fs[n - 1]),
        )
    }
}

/// The element errors of the first `n` images, in order.
pub open spec fn images_nested_errors(is: Seq<CreateProductImageDto>, n: nat) -> Seq<
    FieldErrorView,
>
    decreases n,
{
    if n == 0 {
        seq![]
    } else {
        images_nested_errors(is, (n - 1) as nat) + nest(
            Field::ProductImages,
            n - 1,
            image_errors(is[n - 1]),
        )
    }
}

/// The error of the "at least one" rule on a list field.
pub open spec fn nonempty_list_errors(field: Field, len: int, message: Seq<char>) -> Seq<
    FieldErrorView,
> {
    if len >= 1 {
        seq![]
    } else {
        seq![
            FieldErrorView {
                field,
                item: None,
                code: Code::Length,
                message: Some(message),
                min: Some(1),
                max: None,
                value: ParamView::EmptyList,
            },
        ]
    }
}

/// The failed rules of a product creation payload, field by field in
/// declaration order.
pub open spec fn create_product_errors(d: CreateProductDto) -> Seq<FieldErrorView> {
    text_length_errors(Field::Name, d.name@, Some(1), Some(100), "product_id is required"@)
        + id_errors(Field::CategoryId, d.category_id)
        + text_length_errors(Field::Description, d.description@, Some(1), Some(200), "description is required"@)
        + text_length_errors(Field::LongDescription, d.long_description@, Some(1), Some(500), "long description is required"@)
        + price_errors(Field::Price, d.price)
        + price_errors(Field::ComparedAtPrice, d.compared_at_price)
        + range_errors(Field::ReviewCount, d.review_count as int, Some(1), None, "review count is required"@)
        + range_errors(Field::Rating, d.rating as int, Some(1), Some(5), "rating is required"@)
        + text_length_errors(Field::Sku, d.sku@, Some(1), Some(50), "sku is required"@)
        + text_length_errors(Field::Tagline, d.tagline@, Some(1), Some(50), "tagline is required"@)
        + range_errors(Field::Stock, d.stock as int, Some(1), None, "stock is required"@)
        + nonempty_list_errors(Field::ProductFeatures, d.product_features@.len() as int, "At least one feature is required"@)
        + features_nested_errors(d.product_features@, d.product_features@.len())
        + nonempty_list_errors(Field::ProductImages, d.product_images@.len() as int, "At least one image is required"@)
        + images_nested_errors(d.product_images@, d.product_images@.len())
}

/// The failed rules of a product change payload: the creation rules on the
/// scalar fields that are given; the lists are not checked.
pub open spec fn update_product_errors(d: UpdateProductDto) -> Seq<FieldErrorView> {
    opt_text_length_errors(Field::Name, d.name, Some(1), Some(100), "product name is required"@)
        + opt_id_errors(Field::CategoryId, d.category_id)
        + opt_text_length_errors(Field::Description, d.description, Some(1), Some(200), "description is required"@)
        + opt_text_length_errors(Field::LongDescription, d.long_description, Some(1), Some(500), "long description is required"@)
        + opt_price_errors(Field::Price, d.price)
        + opt_price_errors(Field::ComparedAtPrice, d.compared_at_price)
        + opt_range_errors(Field::ReviewCount, d.review_count, Some(1), None, "review count is required"@)
        + opt_range_errors(Field::Rating, d.rating, Some(1), Some(5), "rating is required"@)
        + opt_text_length_errors(Field::Sku, d.sku, Some(1), Some(50), "sku is required"@)
        + opt_text_length_errors(Field::Tagline, d.tagline, Some(1), Some(50), "tagline is required"@)
        + opt_range_errors(Field::Stock, d.stock, Some(1), None, "stock is required"@)
}

impl CreateProductFeatureDto {
    /// Checks the feature line's rule.
    pub fn validate(&self) -> (r: Result<(), ValidationErrors>)
        ensures
            outcome(feature_errors(*self), r),
    {
        let mut errs: Vec<FieldError> = Vec::new();
        check_text_length(&mut errs, Field::Name, &self.name, Some(1), None, "Feature name is required");
        assert(errs@.map_values(|e: FieldError| e@) =~= feature_errors(*self));
        finish(errs)
    }
}

impl CreateProductImageDto {
    /// Checks the image's rule.
    pub fn validate(&self) -> (r: Result<(), ValidationErrors>)
        ensures
            outcome(image_errors(*self), r),
    {
        let mut errs: Vec<FieldError> = Vec::new();
        if !url_ok(&self.image_url) {
            errs.push(
                FieldError {
                    field: Field::ImageUrl,
                    item: None,
                    code: Code::Url,
                    message: Some("Invalid image URL"),
                    min: None,
                    max: None,
                    value: Param::Text(self.image_url.clone()),
                },
            );
        }
        assert(errs@.map_values(|e: FieldError| e@) =~= image_errors(*self));
        finish(errs)
    }
}

/// Appends the errors of one list element, filed under the list field.
fn append_nested(errs: &mut Vec<FieldError>, outer: Field, i: usize, inner: &Vec<FieldError>)
    ensures
        final(errs)@.map_values(|e: FieldError| e@) == old(errs)@.map_values(|e: FieldError| e@)
            + nest(outer, i as int, inner@.map_values(|e: FieldError| e@)),
{
    let ghost before = errs@.map_values(|e: FieldError| e@);
    let ghost target = nest(outer, i as int, inner@.map_values(|e: FieldError| e@));
    let mut k: usize = 0;
    while k < inner.len()
        invariant
            k <= inner@.len(),
            target == nest(outer, i as int, inner@.map_values(|e: FieldError| e@)),
            errs@.map_values(|e: FieldError| e@) == before + target.subrange(0, k as int),
        decreases inner@.len() - k,
    {
        let e = &inner[k];
        let fe = FieldError {
            field: outer,
            item: Some((i, e.field)),
            code: e.code,
            message: e.message,
            min: e.min,
            max: e.max,
            value: e.value.duplicate(),
        };
        let ghost fev = fe@;
        let ghost prev = errs@;
        assert(fev == target[k as int]);
        errs.push(fe);
        assert(errs@.map_values(|e: FieldError| e@) =~= prev.map_values(|e: FieldError| e@).push(fev));
        assert(target.subrange(0, k + 1) =~= target.subrange(0, k as int).push(fev));
        k = k + 1;
        assert(errs@.map_values(|e: FieldError| e@) =~= before + target.subrange(0, k as int));
    }
    assert(target.subrange(0, k as int) =~= target);
}

/// Appends the element errors of every feature line.
fn check_features(errs: &mut Vec<FieldError>, fs: &Vec<CreateProductFeatureDto>)
    ensures
        final(errs)@.map_values(|e: FieldError| e@) == old(errs)@.map_values(|e: FieldError| e@)
            + features_nested_errors(fs@, fs@.len()),
{
    let ghost before = errs@.map_values(|e: FieldError| e@);
    let mut i: usize = 0;
    while i < fs.len()
        invariant
            i <= fs@.len(),
            errs@.map_values(|e: FieldError| e@) == before + features_nested_errors(fs@, i as nat),
        decreases fs@.len() - i,
    {
        let ghost mid = errs@.map_values(|e: FieldError| e@);
        match fs[i].validate() {
            Ok(()) => {
                assert(nest(Field::ProductFeatures, i as int, feature_errors(fs@[i as int])) =~= seq![]);
            },
            Err(inner) => {
                append_nested(errs, Field::ProductFeatures, i, &inner.errors);
            },
        }
        i = i + 1;
        assert(errs@.map_values(|e: FieldError| e@) =~= before + features_nested_errors(fs@, i as nat));
    }
}

/// Appends the element errors of every image.
fn check_images(errs: &mut Vec<FieldError>, is: &Vec<CreateProductImageDto>)
    ensures
        final(errs)@.map_values(|e: FieldError| e@) == old(errs)@.map_values(|e: FieldError| e@)
            + images_nested_errors(is@, is@.len()),
{
    let ghost before = errs@.map_values(|e: FieldError| e@);
    let mut i: usize = 0;
    while i < is.len()
        invariant
            i <= is@.len(),
            errs@.map_values(|e: FieldError| e@) == before + images_nested_errors(is@, i as nat),
        decreases is@.len() - i,
    {
        match is[i].validate() {
            Ok(()) => {
                assert(nest(Field::ProductImages, i as int, image_errors(is@[i as int])) =~= seq![]);
            },
            Err(inner) => {
                append_nested(errs, Field::ProductImages, i, &inner.errors);
            },
        }
        i = i + 1;
        assert(errs@.map_values(|e: FieldError| e@) =~= before + images_nested_errors(is@, i as nat));
    }
}

/// Appends the error of the "at least one" rule on a list field.
fn check_nonempty(errs: &mut Vec<FieldError>, field: Field, len: usize, message: &'static str)
    ensures
        final(errs)@.map_values(|e: FieldError| e@) == old(errs)@.map_values(|e: FieldError| e@)
            + nonempty_list_errors(field, len as int, message@),
{
    let ghost before = errs@.map_values(|e: FieldError| e@);
    if len < 1 {
        errs.push(
            FieldError {
                field,
                item: None,
                code: Code::Length,
                message: Some(message),
                min: Some(1),
                max: None,
                value: Param::EmptyList,
            },
        );
    }
    assert(errs@.map_values(|e: FieldError| e@) =~= before + nonempty_list_errors(field, len as int, message@));
}

impl CreateProductDto {
    /// Checks every rule of the payload, the feature lines and images included.
    pub fn validate(&self) -> (r: Result<(), ValidationErrors>)
        ensures
            outcome(create_product_errors(*self), r),
    {
        let mut errs: Vec<FieldError> = Vec::new();
        check_text_length(&mut errs, Field::Name, &self.name, Some(1), Some(100), "product_id is required");
        check_id(&mut errs, Field::CategoryId, self.category_id);
        check_text_length(&mut errs, Field::Description, &self.description, Some(1), Some(200), "description is required");
        check_text_length(&mut errs, Field::LongDescription, &self.long_description, Some(1), Some(500), "long description is required");
        check_price(&mut errs, Field::Price, self.price);
        check_price(&mut errs, Field::ComparedAtPrice, self.compared_at_price);
        check_range(&mut errs, Field::ReviewCount, self.review_count as i64, Some(1), None, "review count is required");
        check_range(&mut errs, Field::Rating, self.rating as i64, Some(1), Some(5), "rating is required");
        check_text_length(&mut errs, Field::Sku, &self.sku, Some(1), Some(50), "sku is required");
        check_text_length(&mut errs, Field::Tagline, &self.tagline, Some(1), Some(50), "tagline is required");
        check_range(&mut errs, Field::Stock, self.stock as i64, Some(1), None, "stock is required");
        check_nonempty(&mut errs, Field::ProductFeatures, self.product_features.len(), "At least one feature is required");
        check_features(&mut errs, &self.product_features);
        check_nonempty(&mut errs, Field::ProductImages, self.product_images.len(), "At least one image is required");
        check_images(&mut errs, &self.product_images);
        assert(errs@.map_values(|e: FieldError| e@) =~= create_product_errors(*self));
        finish(errs)
    }
}

impl UpdateProductDto {
    /// Checks the rules of the scalar fields that are given.
    pub fn validate(&self) -> (r: Result<(), ValidationErrors>)
        ensures
            outcome(update_product_errors(*self), r),
    {
        let mut errs: Vec<FieldError> = Vec::new();
        check_opt_text_length(&mut errs, Field::Name, &self.name, Some(1), Some(100), "product name is required");
        check_opt_id(&mut errs, Field::CategoryId, self.category_id);
        check_opt_text_length(&mut errs, Field::Description, &self.description, Some(1), Some(200), "description is required");
        check_opt_text_length(&mut errs, Field::LongDescription, &self.long_description, Some(1), Some(500), "long description is required");
        check_opt_price(&mut errs, Field::Price, self.price);
        check_opt_price(&mut errs, Field::ComparedAtPrice, self.compared_at_price);
        check_opt_range(&mut errs, Field::ReviewCount, self.review_count, Some(1), None, "review count is required");
        check_opt_range(&mut errs, Field::Rating, self.rating, Some(1), Some(5), "rating is required");
        check_opt_text_length(&mut errs, Field::Sku, &self.sku, Some(1), Some(50), "sku is required");
        check_opt_text_length(&mut errs, Field::Tagline, &self.tagline, Some(1), Some(50), "tagline is required");
        check_opt_range(&mut errs, Field::Stock, self.stock, Some(1), None, "stock is required");
        assert(errs@.map_values(|e: FieldError| e@) =~= update_product_errors(*self));
        finish(errs)
    }
}


/// The rule of a feature line: it passes exactly when the name is not empty;
/// an empty name is reported on the name.
pub proof fn feature_rules(f: CreateProductFeatureDto, r: Result<(), ValidationErrors>)
    requires
        outcome(feature_errors(f), r),
    ensures
        r is Ok <==> f.name@.len() >= 1,
        f.name@.len() == 0 ==> (r matches Err(e) && reports(
            e@,
            Field::Name,
            Code::Length,
            Some(1),
            None,
            Some("Feature name is required"@),
        )),
{
    broadcast use text_length_rule;

}

/// The rule of an image: it passes exactly when the address is a URL; any
/// other address is reported on the address.
pub proof fn image_rules(i: CreateProductImageDto, r: Result<(), ValidationErrors>)
    requires
        outcome(image_errors(i), r),
    ensures
        r is Ok <==> is_url(i.image_url@),
        !is_url(i.image_url@) ==> (r matches Err(e) && reports(
            e@,
            Field::ImageUrl,
            Code::Url,
            None,
            None,
            Some("Invalid image URL"@),
        )),
{
    if !is_url(i.image_url@) {
        assert(image_errors(i)[0].field == Field::ImageUrl);
    }
}

/// The element rules of the first `n` feature lines report nothing exactly
/// when each of those names is given; an empty name is reported on its line.
pub proof fn features_nested_rules(fs: Seq<CreateProductFeatureDto>, n: nat)
    requires
        n <= fs.len(),
    ensures
        features_nested_errors(fs, n).len() == 0 <==> forall|k: int|
            0 <= k < n ==> (#[trigger] fs[k]).name@.len() >= 1,
        forall|k: int|
            0 <= k < n && (#[trigger] fs[k]).name@.len() == 0 ==> reports_item(
                features_nested_errors(fs, n),
                Field::ProductFeatures,
                k,
                Field::Name,
                Code::Length,
                Some("Feature name is required"@),
            ),
    decreases n,
{
    broadcast use reports_item_concat, text_length_rule;

    if n > 0 {
        features_nested_rules(fs, (n - 1) as nat);
        let m = (n - 1) as int;
        let last = nest(Field::ProductFeatures, m, feature_errors(fs[m]));
        assert(last.len() == feature_errors(fs[m]).len());
        if fs[m].name@.len() == 0 {
            assert(last[0].item == Some((m as usize, Field::Name)));
            assert(reports_item(last, Field::ProductFeatures, m, Field::Name, Code::Length, Some("Feature name is required"@)));
        }
        assert(features_nested_errors(fs, n) == features_nested_errors(fs, (n - 1) as nat) + last);
    }
}

/// The element rules of the first `n` images report nothing exactly when each
/// of those addresses is a URL; any other address is reported on its image.
pub proof fn images_nested_rules(is: Seq<CreateProductImageDto>, n: nat)
    requires
        n <= is.len(),
    ensures
        images_nested_errors(is, n).len() == 0 <==> forall|k: int|
            0 <= k < n ==> is_url((#[trigger] is[k]).image_url@),
        forall|k: int|
            0 <= k < n && !is_url((#[trigger] is[k]).image_url@) ==> reports_item(
                images_nested_errors(is, n),
                Field::ProductImages,
                k,
                Field::ImageUrl,
                Code::Url,
                Some("Invalid image URL"@),
            ),
    decreases n,
{
    broadcast use reports_item_concat;

    if n > 0 {
        images_nested_rules(is, (n - 1) as nat);
        let m = (n - 1) as int;
        let last = nest(Field::ProductImages, m, image_errors(is[m]));
        assert(last.len() == image_errors(is[m]).len());
        if !is_url(is[m].image_url@) {
            assert(last[0].item == Some((m as usize, Field::ImageUrl)));
            assert(reports_item(last, Field::ProductImages, m, Field::ImageUrl, Code::Url, Some("Invalid image URL"@)));
        }
        assert(images_nested_errors(is, n) == images_nested_errors(is, (n - 1) as nat) + last);
    }
}

/// The rules of a product creation payload. It passes exactly when: the name
/// has 1 to 100 characters; the category is not the nil identifier; the
/// description has 1 to 200 characters and the long description 1 to 500;
/// both prices are above zero; the review count is at least 1 and the rating
/// 1 to 5; the SKU and the tagline have 1 to 50 characters; the stock is at
/// least 1; there is at least one feature line and one image; every feature
/// name is given and every image address is a URL. Each broken rule is
/// reported on its field (or on its list element) with its bounds and message.
pub proof fn create_product_rules(d: CreateProductDto, r: Result<(), ValidationErrors>)
    requires
        outcome(create_product_errors(d), r),
    ensures
        r is Ok <==> (1 <= d.name@.len() <= 100 && d.category_id != 0 && 1 <= d.description@.len()
            <= 200 && 1 <= d.long_description@.len() <= 500 && d.price.mantissa > 0
            && d.compared_at_price.mantissa > 0 && d.review_count >= 1 && 1 <= d.rating <= 5 && 1
            <= d.sku@.len() <= 50 && 1 <= d.tagline@.len() <= 50 && d.stock >= 1
            && d.product_features@.len() >= 1 && d.product_images@.len() >= 1 && (forall|k: int|
            0 <= k < d.product_features@.len() ==> (#[trigger] d.product_features@[k]).name@.len()
                >= 1) && (forall|k: int|
            0 <= k < d.product_images@.len() ==> is_url((#[trigger] d.product_images@[k]).image_url@))),
        (!(1 <= d.name@.len() <= 100)) ==> (r matches Err(e) && reports(
            e@,
            Field::Name,
            Code::Length,
            Some(1),
            Some(100),
            Some("product_id is required"@),
        )),
        (d.category_id == 0) ==> (r matches Err(e) && reports(
            e@,
            Field::CategoryId,
            Code::InvalidUuid,
            None,
            None,
            None,
        )),
        (!(1 <= d.description@.len() <= 200)) ==> (r matches Err(e) && reports(
            e@,
            Field::Description,
            Code::Length,
            Some(1),
            Some(200),
            Some("description is required"@),
        )),
        (!(1 <= d.long_description@.len() <= 500)) ==> (r matches Err(e) && reports(
            e@,
            Field::LongDescription,
            Code::Length,
            Some(1),
            Some(500),
            Some("long description is required"@),
        )),
        (d.price.mantissa <= 0) ==> (r matches Err(e) && reports(
            e@,
            Field::Price,
            Code::InvalidPrice,
            None,
            None,
            None,
        )),
        (d.compared_at_price.mantissa <= 0) ==> (r matches Err(e) && reports(
            e@,
            Field::ComparedAtPrice,
            Code::InvalidPrice,
            None,
            None,
            None,
        )),
        (d.review_count < 1) ==> (r matches Err(e) && reports(
            e@,
            Field::ReviewCount,
            Code::Range,
            Some(1),
            None,
            Some("review count is required"@),
        )),
        (!(1 <= d.rating <= 5)) ==> (r matches Err(e) && reports(
            e@,
            Field::Rating,
            Code::Range,
            Some(1),
            Some(5),
            Some("rating is required"@),
        )),
        (!(1 <= d.sku@.len() <= 50)) ==> (r matches Err(e) && reports(
            e@,
            Field::Sku,
            Code::Length,
            Some(1),
            Some(50),
            Some("sku is required"@),
        )),
        (!(1 <= d.tagline@.len() <= 50)) ==> (r matches Err(e) && reports(
            e@,
            Field::Tagline,
            Code::Length,
            Some(1),
            Some(50),
            Some("tagline is required"@),
        )),
        (d.stock < 1) ==> (r matches Err(e) && reports(
            e@,
            Field::Stock,
            Code::Range,
            Some(1),
            None,
            Some("stock is required"@),
        )),
        (d.product_features@.len() == 0) ==> (r matches Err(e) && reports(
            e@,
            Field::ProductFeatures,
            Code::Length,
            Some(1),
            None,
            Some("At least one feature is required"@),
        )),
        (d.product_images@.len() == 0) ==> (r matches Err(e) && reports(
            e@,
            Field::ProductImages,
            Code::Length,
            Some(1),
            None,
            Some("At least one image is required"@),
        )),
        forall|k: int|
            0 <= k < d.product_features@.len() && (#[trigger] d.product_features@[k]).name@.len() == 0
                ==> (r matches Err(e) && reports_item(
                e@,
                Field::ProductFeatures,
                k,
                Field::Name,
                Code::Length,
                Some("Feature name is required"@),
            )),
        forall|k: int|
            0 <= k < d.product_images@.len() && !is_url((#[trigger] d.product_images@[k]).image_url@)
                ==> (r matches Err(e) && reports_item(
                e@,
                Field::ProductImages,
                k,
                Field::ImageUrl,
                Code::Url,
                Some("Invalid image URL"@),
            )),
{
    broadcast use reports_concat, reports_item_concat, text_length_rule, range_rule, id_rule, price_rule;

    features_nested_rules(d.product_features@, d.product_features@.len());
    images_nested_rules(d.product_images@, d.product_images@.len());
    let fe = nonempty_list_errors(Field::ProductFeatures, d.product_features@.len() as int, "At least one feature is required"@);
    let ie = nonempty_list_errors(Field::ProductImages, d.product_images@.len() as int, "At least one image is required"@);
    if d.product_features@.len() == 0 {
        assert(fe[0].field == Field::ProductFeatures);
    }
    if d.product_images@.len() == 0 {
        assert(ie[0].field == Field::ProductImages);
    }
}

/// The rules of a product change payload: each given field is held to its
/// creation rule, absent fields and the image and feature lists are not
/// checked, and each broken rule is reported on its field with its bounds and
/// message.
pub proof fn update_product_rules(d: UpdateProductDto, r: Result<(), ValidationErrors>)
    requires
        outcome(update_product_errors(d), r),
    ensures
        r is Ok <==> ((d.name matches Some(v) ==> 1 <= v@.len() <= 100) && (d.category_id matches Some(
            v,
        ) ==> v != 0) && (d.description matches Some(v) ==> 1 <= v@.len() <= 200) && (
        d.long_description matches Some(v) ==> 1 <= v@.len() <= 500) && (d.price matches Some(v)
            ==> v.mantissa > 0) && (d.compared_at_price matches Some(v) ==> v.mantissa > 0) && (
        d.review_count matches Some(v) ==> v >= 1) && (d.rating matches Some(v) ==> 1 <= v <= 5) && (
        d.sku matches Some(v) ==> 1 <= v@.len() <= 50) && (d.tagline matches Some(v) ==> 1 <= v@.len()
            <= 50) && (d.stock matches Some(v) ==> v >= 1)),
        (d.name matches Some(v) && !(1 <= v@.len() <= 100)) ==> (r matches Err(e) && reports(
            e@,
            Field::Name,
            Code::Length,
            Some(1),
            Some(100),
            Some("product name is required"@),
        )),
        (d.category_id matches Some(v) && v == 0) ==> (r matches Err(e) && reports(
            e@,
            Field::CategoryId,
            Code::InvalidUuid,
            None,
            None,
            None,
        )),
        (d.description matches Some(v) && !(1 <= v@.len() <= 200)) ==> (r matches Err(e) && reports(
            e@,
            Field::Description,
            Code::Length,
            Some(1),
            Some(200),
            Some("description is required"@),
        )),
        (d.long_description matches Some(v) && !(1 <= v@.len() <= 500)) ==> (r matches Err(e) && reports(
            e@,
            Field::LongDescription,
            Code::Length,
            Some(1),
            Some(500),
            Some("long description is required"@),
        )),
        (d.price matches Some(v) && v.mantissa <= 0) ==> (r matches Err(e) && reports(
            e@,
            Field::Price,
            Code::InvalidPrice,
            None,
            None,
            None,
        )),
        (d.compared_at_price matches Some(v) && v.mantissa <= 0) ==> (r matches Err(e) && reports(
            e@,
            Field::ComparedAtPrice,
            Code::InvalidPrice,
            None,
            None,
            None,
        )),
        (d.review_count matches Some(v) && v < 1) ==> (r matches Err(e) && reports(
            e@,
            Field::ReviewCount,
            Code::Range,
            Some(1),
            None,
            Some("review count is required"@),
        )),
        (d.rating matches Some(v) && !(1 <= v <= 5)) ==> (r matches Err(e) && reports(
            e@,
            Field::Rating,
            Code::Range,
            Some(1),
            Some(5),
            Some("rating is required"@),
        )),
        (d.sku matches Some(v) && !(1 <= v@.len() <= 50)) ==> (r matches Err(e) && reports(
            e@,
            Field::Sku,
            Code::Length,
            Some(1),
            Some(50),
            Some("sku is required"@),
        )),
        (d.tagline matches Some(v) && !(1 <= v@.len() <= 50)) ==> (r matches Err(e) && reports(
            e@,
            Field::Tagline,
            Code::Length,
            Some(1),
            Some(50),
            Some("tagline is required"@),
        )),
        (d.stock matches Some(v) && v < 1) ==> (r matches Err(e) && reports(
            e@,
            Field::Stock,
            Code::Range,
            Some(1),
            None,
            Some("stock is required"@),
        )),
{
    broadcast use reports_concat, text_length_rule, range_rule, id_rule, price_rule;

}

/// The category of a product, as product answers show it.
#[derive(Debug)]
pub struct CategoryResponseDto {
    pub id: u128,
    pub name: String,
    pub slug: String,
    pub description: Option<String>,
    pub image: String,
}

/// An image of a product, as product answers show it.
#[derive(Clone, Debug, PartialEq, Eq)]
pub struct ProductImageResponseDto {
    pub id: u128,
    pub image_url: String,
}

/// A feature line of a product, as product answers show it.
#[derive(Clone, Debug, PartialEq, Eq)]
pub struct ProductFeatureResponseDto {
    pub id: u128,
    pub name: String,
}

impl ProductFeatureResponseDto {
    /// A feature line with the given identifier and name.
    pub fn new(id: u128, name: String) -> (r: Self)
        ensures
            r.id == id,
            r.name == name,
    {
        ProductFeatureResponseDto { id, name }
    }
}

/// A product as the product endpoints answer with it.
#[derive(Debug)]
pub struct ProductResponseDto {
    pub id: u128,
    pub name: String,
    pub slug: String,
    pub category: CategoryResponseDto,
    pub description: String,
    pub long_description: String,
    pub price: Price,
    pub compared_at_price: Price,
    pub review_count: i32,
    pub rating: i32,
    pub sku: String,
    pub tagline: String,
    pub stock: i32,
    pub is_new: bool,
    pub is_featured: bool,
    pub is_best_seller: bool,
    pub product_images: Vec<ProductImageResponseDto>,
    pub product_features: Vec<ProductFeatureResponseDto>,
    pub created_at: chrono::NaiveDateTime,
    pub updated_at: chrono::NaiveDateTime,
    pub deleted_at: Option<chrono::NaiveDateTime>,
}

/// A stored flag, with an absent value read as false.
pub open spec fn flag(b: Option<bool>) -> bool {
    match b {
        Some(v) => v,
        None => false,
    }
}

/// The answer's category shows the stored category.
pub open spec fn shows_category(r: CategoryResponseDto, c: CategoryRow) -> bool {
    &&& r.id == c.id
    &&& r.name@ == c.name@
    &&& r.slug@ == c.slug@
    &&& opt_text(r.description) == opt_text(c.description)
    &&& r.image@ == c.image@
}

/// The answer shows the stored product's own fields and its category.
pub open spec fn shows_product(r: ProductResponseDto, p: ProductRow, c: CategoryRow) -> bool {
    &&& r.id == p.id
    &&& r.name@ == p.name@
    &&& r.slug@ == p.slug@
    &&& shows_category(r.category, c)
    &&& r.description@ == p.description@
    &&& r.long_description@ == p.long_description@
    &&& r.price == p.price
    &&& r.compared_at_price == p.compared_at_price
    &&& r.review_count == p.review_count
    &&& r.rating == p.rating
    &&& r.sku@ == p.sku@
    &&& r.tagline@ == p.tagline@
    &&& r.stock == p.stock
    &&& r.is_new == flag(p.is_new)
    &&& r.is_featured == flag(p.is_featured)
    &&& r.is_best_seller == flag(p.is_best_seller)
    &&& r.created_at == p.created_at
    &&& r.updated_at == p.updated_at
    &&& r.deleted_at == p.deleted_at
}

/// The listed images show the stored images in order; each shows the image
/// row's own identifier when `own_id`, else the product's identifier.
pub open spec fn shows_images(
    r: Seq<ProductImageResponseDto>,
    rows: Seq<ProductImageRow>,
    own_id: bool,
) -> bool {
    &&& r.len() == rows.len()
    &&& forall|i: int|
        0 <= i < rows.len() ==> (#[trigger] r[i]).image_url@ == rows[i].image_url@ && r[i].id == (
        if own_id {
            rows[i].id
        } else {
            rows[i].product_id
        })
}

/// The listed feature lines show the stored lines in order; each shows the
/// line's own identifier when `own_id`, else the product's identifier.
pub open spec fn shows_features(
    r: Seq<ProductFeatureResponseDto>,
    rows: Seq<ProductFeatureRow>,
    own_id: bool,
) -> bool {
    &&& r.len() == rows.len()
    &&& forall|i: int|
        0 <= i < rows.len() ==> (#[trigger] r[i]).name@ == rows[i].name@ && r[i].id == (if own_id {
            rows[i].id
        } else {
            rows[i].product_id
        })
}

} // verus!
