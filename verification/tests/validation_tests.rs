use shop_api::decimal::Price;
use shop_api::modules::category::dto::{CreateCategoryDto, UpdateCategoryDto};
use shop_api::modules::post::dto::CreatePostDto;
use shop_api::modules::product::dto::{
    CreateProductDto, CreateProductFeatureDto, CreateProductImageDto, UpdateProductDto,
};
use shop_api::validation::{length_ok, range_ok, validate_decimal, validate_uuid, Code, Field, Param};

fn category(name: &str, image: &str, description: Option<&str>) -> CreateCategoryDto {
    CreateCategoryDto {
        name: name.to_string(),
        image: image.to_string(),
        description: description.map(|d| d.to_string()),
    }
}

fn price(m: i128) -> Price {
    Price { mantissa: m, scale: 2 }
}

fn product() -> CreateProductDto {
    CreateProductDto {
        name: "Desk Lamp".to_string(),
        category_id: 7,
        description: "A lamp".to_string(),
        long_description: "A lamp for the desk".to_string(),
        price: price(1999),
        compared_at_price: price(2499),
        review_count: 3,
        rating: 4,
        sku: "LAMP-1".to_string(),
        tagline: "Bright".to_string(),
        stock: 10,
        is_featured: false,
        is_new: true,
        is_best_seller: false,
        product_features: vec![CreateProductFeatureDto { name: "LED".to_string() }],
        product_images: vec![CreateProductImageDto { image_url: "https://example.com/lamp.png".to_string() }],
    }
}

fn no_changes() -> UpdateProductDto {
    UpdateProductDto {
        name: None,
        category_id: None,
        description: None,
        long_description: None,
        price: None,
        compared_at_price: None,
        review_count: None,
        rating: None,
        sku: None,
        tagline: None,
        stock: None,
        is_featured: None,
        is_new: None,
        is_best_seller: None,
        product_features: None,
        product_images: None,
    }
}

#[test]
fn category_payload_within_rules_passes() {
    assert!(category("Lamps", "lamp.png", Some("All lamps")).validate().is_ok());
    assert!(category("Lamps", "lamp.png", None).validate().is_ok());
}

#[test]
fn category_name_too_short_is_reported() {
    let errs = category("ab", "lamp.png", None).validate().unwrap_err();
    assert_eq!(errs.errors.len(), 1);
    let e = &errs.errors[0];
    assert_eq!(e.field, Field::Name);
    assert_eq!(e.code, Code::Length);
    assert_eq!(e.min, Some(3));
    assert_eq!(e.max, Some(100));
    assert_eq!(e.message, Some("Category name must be at least 3 characters long or max 100"));
    assert_eq!(e.value, Param::Text("ab".to_string()));
}

#[test]
fn category_every_failed_rule_in_field_order() {
    let long = "x".repeat(101);
    let errs = category(&long, "ab", Some("no")).validate().unwrap_err();
    let fields: Vec<Field> = errs.errors.iter().map(|e| e.field).collect();
    assert_eq!(fields, vec![Field::Name, Field::Image, Field::Description]);
    assert_eq!(errs.errors[1].max, None);
}

#[test]
fn category_name_length_counts_characters() {
    assert!(category("Äöü", "lamp.png", None).validate().is_ok());
}

#[test]
fn category_update_checks_only_given_fields() {
    let none = UpdateCategoryDto { name: None, image: None, description: None };
    assert!(none.validate().is_ok());
    let short = UpdateCategoryDto { name: Some("ab".to_string()), image: None, description: None };
    let errs = short.validate().unwrap_err();
    assert_eq!(errs.errors.len(), 1);
    assert_eq!(errs.errors[0].field, Field::Name);
}

#[test]
fn post_requires_title_and_text() {
    let ok = CreatePostDto { title: "Hi".to_string(), text: "Body".to_string() };
    assert!(ok.validate().is_ok());
    let empty = CreatePostDto { title: String::new(), text: String::new() };
    let errs = empty.validate().unwrap_err();
    assert_eq!(errs.errors.len(), 2);
    assert_eq!(errs.errors[0].field, Field::Title);
    assert_eq!(errs.errors[0].message, Some("Title is required"));
    assert_eq!(errs.errors[1].field, Field::Text);
    assert_eq!(errs.errors[1].message, Some("Text is required"));
}

#[test]
fn feature_name_must_not_be_empty() {
    assert!(CreateProductFeatureDto { name: "LED".to_string() }.validate().is_ok());
    let errs = CreateProductFeatureDto { name: String::new() }.validate().unwrap_err();
    assert_eq!(errs.errors[0].message, Some("Feature name is required"));
}

#[test]
fn image_url_must_be_a_url() {
    assert!(CreateProductImageDto { image_url: "https://example.com/a.png".to_string() }.validate().is_ok());
    let errs = CreateProductImageDto { image_url: "not a url".to_string() }.validate().unwrap_err();
    assert_eq!(errs.errors.len(), 1);
    assert_eq!(errs.errors[0].code, Code::Url);
    assert_eq!(errs.errors[0].field, Field::ImageUrl);
    assert_eq!(errs.errors[0].message, Some("Invalid image URL"));
}

#[test]
fn product_payload_within_rules_passes() {
    assert!(product().validate().is_ok());
}

#[test]
fn product_nil_category_is_invalid_uuid() {
    let mut p = product();
    p.category_id = 0;
    let errs = p.validate().unwrap_err();
    assert_eq!(errs.errors.len(), 1);
    assert_eq!(errs.errors[0].field, Field::CategoryId);
    assert_eq!(errs.errors[0].code, Code::InvalidUuid);
    assert_eq!(errs.errors[0].message, None);
}

#[test]
fn product_price_must_be_positive() {
    let mut p = product();
    p.price = price(0);
    p.compared_at_price = price(-5);
    let errs = p.validate().unwrap_err();
    assert_eq!(errs.errors.len(), 2);
    assert_eq!(errs.errors[0].code, Code::InvalidPrice);
    assert_eq!(errs.errors[0].field, Field::Price);
    assert_eq!(errs.errors[1].field, Field::ComparedAtPrice);
    assert_eq!(errs.errors[1].value, Param::Amount(price(-5)));
}

#[test]
fn product_rating_out_of_range() {
    let mut p = product();
    p.rating = 6;
    let errs = p.validate().unwrap_err();
    assert_eq!(errs.errors.len(), 1);
    assert_eq!(errs.errors[0].code, Code::Range);
    assert_eq!(errs.errors[0].min, Some(1));
    assert_eq!(errs.errors[0].max, Some(5));
    assert_eq!(errs.errors[0].value, Param::Int(6));
}

#[test]
fn product_lists_must_not_be_empty() {
    let mut p = product();
    p.product_features = vec![];
    p.product_images = vec![];
    let errs = p.validate().unwrap_err();
    assert_eq!(errs.errors.len(), 2);
    assert_eq!(errs.errors[0].field, Field::ProductFeatures);
    assert_eq!(errs.errors[0].value, Param::EmptyList);
    assert_eq!(errs.errors[0].message, Some("At least one feature is required"));
    assert_eq!(errs.errors[1].field, Field::ProductImages);
    assert_eq!(errs.errors[1].message, Some("At least one image is required"));
}

#[test]
fn product_element_errors_are_nested_under_their_list() {
    let mut p = product();
    p.product_images.push(CreateProductImageDto { image_url: "nope".to_string() });
    p.product_features.insert(0, CreateProductFeatureDto { name: String::new() });
    let errs = p.validate().unwrap_err();
    assert_eq!(errs.errors.len(), 2);
    assert_eq!(errs.errors[0].field, Field::ProductFeatures);
    assert_eq!(errs.errors[0].item, Some((0, Field::Name)));
    assert_eq!(errs.errors[1].field, Field::ProductImages);
    assert_eq!(errs.errors[1].item, Some((1, Field::ImageUrl)));
    assert_eq!(errs.errors[1].code, Code::Url);
}

#[test]
fn product_update_checks_only_given_fields() {
    assert!(no_changes().validate().is_ok());
    let mut d = no_changes();
    d.rating = Some(0);
    d.stock = Some(0);
    let errs = d.validate().unwrap_err();
    let fields: Vec<Field> = errs.errors.iter().map(|e| e.field).collect();
    assert_eq!(fields, vec![Field::Rating, Field::Stock]);
}

#[test]
fn product_update_does_not_check_lists() {
    let mut d = no_changes();
    d.product_images = Some(vec![CreateProductImageDto { image_url: "nope".to_string() }]);
    d.product_features = Some(vec![]);
    assert!(d.validate().is_ok());
}

#[test]
fn uuid_and_price_rules() {
    assert_eq!(validate_uuid(&0), Err(Code::InvalidUuid));
    assert_eq!(validate_uuid(&1), Ok(()));
    assert_eq!(validate_decimal(&price(1)), Ok(()));
    assert_eq!(validate_decimal(&price(0)), Err(Code::InvalidPrice));
}

#[test]
fn length_and_range_bounds_are_inclusive() {
    assert!(length_ok("abc", Some(3), Some(3)));
    assert!(!length_ok("ab", Some(3), None));
    assert!(length_ok("äöü", Some(3), Some(3)));
    assert!(range_ok(5, Some(1), Some(5)));
    assert!(!range_ok(0, Some(1), None));
}

#[test]
fn field_and_code_names() {
    assert_eq!(Field::CategoryId.as_str(), "category_id");
    assert_eq!(Field::ImageUrl.as_str(), "image_url");
    assert_eq!(Code::InvalidUuid.as_str(), "invalid_uuid");
    assert_eq!(Code::Length.as_str(), "length");
}

#[test]
fn reported_parameters_of_failed_rules() {
    let errs = category("ab", "lamp.png", None).validate().unwrap_err();
    let params = shop_api::validation::error_params(&errs.errors[0]);
    assert_eq!(
        params,
        vec![
            ("min", Param::Int(3)),
            ("max", Param::Int(100)),
            ("value", Param::Text("ab".to_string())),
        ]
    );
    let url = CreateProductImageDto { image_url: "nope".to_string() }.validate().unwrap_err();
    assert_eq!(
        shop_api::validation::error_params(&url.errors[0]),
        vec![("value", Param::Text("nope".to_string()))]
    );
}
