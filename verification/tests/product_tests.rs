use chrono::NaiveDateTime;
use shop_api::decimal::Price;
use shop_api::entities::{CategoryRow, ProductFeatureRow, ProductImageRow, ProductRow};
use shop_api::modules::product::dto::{
    CreateProductDto, CreateProductFeatureDto, CreateProductImageDto, ProductFeatureResponseDto,
    UpdateProductDto,
};
use shop_api::modules::product::service::{
    apply_product_update, assemble_products, build_product_response, category_summary,
    feature_names, image_urls, missing_category, new_product, split_update, ProductChanges,
};
use shop_api::modules::product::handlers::product_answer;
use shop_api::utils::response::AppError;

fn at(day: u32) -> NaiveDateTime {
    chrono::NaiveDate::from_ymd_opt(2024, 2, day).unwrap().and_hms_opt(8, 30, 0).unwrap()
}

fn price(m: i128) -> Price {
    Price { mantissa: m, scale: 2 }
}

fn cat(id: u128, name: &str) -> CategoryRow {
    CategoryRow {
        id,
        name: name.to_string(),
        slug: name.to_lowercase(),
        description: None,
        image: "c.png".to_string(),
        created_at: at(1),
        updated_at: at(1),
        deleted_at: None,
    }
}

fn prod(id: u128, category_id: u128, name: &str) -> ProductRow {
    ProductRow {
        id,
        name: name.to_string(),
        slug: name.to_lowercase(),
        category_id,
        description: "d".to_string(),
        long_description: "ld".to_string(),
        price: price(1000),
        compared_at_price: price(1200),
        review_count: 2,
        rating: 4,
        sku: "S-1".to_string(),
        tagline: "t".to_string(),
        stock: 5,
        is_new: Some(true),
        is_featured: None,
        is_best_seller: Some(false),
        created_at: at(2),
        updated_at: at(3),
        deleted_at: None,
    }
}

fn image(id: u128, product_id: u128, url: &str) -> ProductImageRow {
    ProductImageRow { id, product_id, image_url: url.to_string() }
}

fn feature(id: u128, product_id: u128, name: &str) -> ProductFeatureRow {
    ProductFeatureRow { id, product_id, name: name.to_string() }
}

fn no_changes() -> ProductChanges {
    ProductChanges {
        name: None,
        category_id: None,
        description: None,
        long_description: None,
        price: None,
        compared_at_price: None,
        review_count: None,
        rating: None,
        sku: None,
        tagline: None,
        stock: None,
        is_featured: None,
        is_new: None,
        is_best_seller: None,
    }
}

#[test]
fn lookup_answer_shows_product_category_and_lists() {
    let images = vec![image(100, 1, "a.png"), image(101, 1, "b.png")];
    let features = vec![feature(200, 1, "Fast")];
    let r = build_product_response(prod(1, 9, "Lamp"), &cat(9, "Lights"), &images, &features);
    assert_eq!(r.id, 1);
    assert_eq!(r.name, "Lamp");
    assert_eq!(r.category.id, 9);
    assert_eq!(r.category.name, "Lights");
    assert_eq!(r.category.slug, "lights");
    assert!(r.is_new);
    assert!(!r.is_featured);
    assert!(!r.is_best_seller);
    assert_eq!(r.price, price(1000));
    assert_eq!(r.created_at, at(2));
    // Images show the product's identifier, feature lines their own.
    assert_eq!(r.product_images.len(), 2);
    assert_eq!(r.product_images[0].id, 1);
    assert_eq!(r.product_images[1].image_url, "b.png");
    assert_eq!(r.product_features, vec![ProductFeatureResponseDto::new(200, "Fast".to_string())]);
}

#[test]
fn listing_joins_each_product_with_its_rows() {
    let products = vec![prod(1, 9, "Lamp"), prod(2, 8, "Chair")];
    let categories = vec![cat(8, "Seats"), cat(9, "Lights")];
    let images = vec![image(100, 2, "chair.png"), image(101, 1, "lamp.png"), image(102, 2, "chair2.png")];
    let features = vec![feature(200, 1, "Bright"), feature(201, 2, "Soft")];
    let out = assemble_products(products, &categories, &images, &features);
    assert_eq!(out.len(), 2);
    assert_eq!(out[0].category.name, "Lights");
    assert_eq!(out[1].category.name, "Seats");
    // Listing images show their own identifiers, feature lines the product's.
    assert_eq!(out[0].product_images.len(), 1);
    assert_eq!(out[0].product_images[0].id, 101);
    let chair_urls: Vec<&str> = out[1].product_images.iter().map(|i| i.image_url.as_str()).collect();
    assert_eq!(chair_urls, vec!["chair.png", "chair2.png"]);
    assert_eq!(out[1].product_features, vec![ProductFeatureResponseDto::new(2, "Soft".to_string())]);
}

#[test]
fn listing_takes_the_last_category_with_the_identifier() {
    let categories = vec![cat(9, "First"), cat(9, "Second")];
    let out = assemble_products(vec![prod(1, 9, "Lamp")], &categories, &vec![], &vec![]);
    assert_eq!(out[0].category.name, "Second");
}

#[test]
fn listing_gives_rows_only_to_the_first_of_repeated_products() {
    let products = vec![prod(1, 9, "Lamp"), prod(1, 9, "Lamp")];
    let images = vec![image(100, 1, "a.png")];
    let features = vec![feature(200, 1, "Bright")];
    let out = assemble_products(products, &vec![cat(9, "Lights")], &images, &features);
    assert_eq!(out[0].product_images.len(), 1);
    assert_eq!(out[0].product_features.len(), 1);
    assert!(out[1].product_images.is_empty());
    assert!(out[1].product_features.is_empty());
}

#[test]
fn category_summary_shows_the_slug() {
    let s = category_summary(&cat(4, "Tools"));
    assert_eq!(s.id, 4);
    assert_eq!(s.slug, "tools");
    assert_eq!(s.image, "c.png");
}

#[test]
fn update_replaces_given_fields_and_reslugs() {
    let mut c = no_changes();
    c.name = Some("Desk Lamp".to_string());
    c.price = Some(price(900));
    c.is_featured = Some(true);
    c.stock = Some(0);
    let r = apply_product_update(prod(1, 9, "Lamp"), c);
    assert_eq!(r.id, 1);
    assert_eq!(r.name, "Desk Lamp");
    assert_eq!(r.slug, "desk-lamp");
    assert_eq!(r.price, price(900));
    assert_eq!(r.is_featured, Some(true));
    assert_eq!(r.stock, 0);
    assert_eq!(r.sku, "S-1");
    assert_eq!(r.is_new, Some(true));
    assert_eq!(r.updated_at, at(3));
}

#[test]
fn update_without_changes_keeps_the_row() {
    let r = apply_product_update(prod(1, 9, "Lamp"), no_changes());
    assert_eq!(r.name, "Lamp");
    assert_eq!(r.slug, "lamp");
    assert_eq!(r.category_id, 9);
    assert_eq!(r.is_featured, None);
}

#[test]
fn read_after_product_update_shows_new_values() {
    let mut c = no_changes();
    c.tagline = Some("Brighter".to_string());
    c.is_best_seller = Some(true);
    let updated = apply_product_update(prod(1, 9, "Lamp"), c);
    let shown = build_product_response(updated, &cat(9, "Lights"), &vec![], &vec![]);
    assert_eq!(shown.tagline, "Brighter");
    assert!(shown.is_best_seller);
    assert_eq!(shown.name, "Lamp");
}

fn create_dto() -> CreateProductDto {
    CreateProductDto {
        name: "Office Chair".to_string(),
        category_id: 8,
        description: "d".to_string(),
        long_description: "ld".to_string(),
        price: price(5000),
        compared_at_price: price(6000),
        review_count: 1,
        rating: 5,
        sku: "CH-1".to_string(),
        tagline: "Sit".to_string(),
        stock: 3,
        is_featured: true,
        is_new: false,
        is_best_seller: false,
        product_features: vec![
            CreateProductFeatureDto { name: "Wheels".to_string() },
            CreateProductFeatureDto { name: "Armrests".to_string() },
        ],
        product_images: vec![CreateProductImageDto { image_url: "https://x.test/c.png".to_string() }],
    }
}

#[test]
fn new_product_splits_the_payload() {
    let (row, urls, names) = new_product(create_dto(), 55);
    assert_eq!(row.id, 55);
    assert_eq!(row.slug, "office-chair");
    assert_eq!(row.name, "Office Chair");
    assert_eq!(row.is_featured, Some(true));
    assert_eq!(row.is_new, Some(false));
    assert_eq!(row.category_id, 8);
    assert_eq!(urls, vec!["https://x.test/c.png".to_string()]);
    assert_eq!(names, vec!["Wheels".to_string(), "Armrests".to_string()]);
}

#[test]
fn image_urls_and_feature_names_keep_order() {
    let d = create_dto();
    assert_eq!(image_urls(&d.product_images), vec!["https://x.test/c.png".to_string()]);
    assert_eq!(feature_names(&d.product_features), vec!["Wheels".to_string(), "Armrests".to_string()]);
    assert!(image_urls(&vec![]).is_empty());
}

#[test]
fn split_update_separates_lists() {
    let d = UpdateProductDto {
        name: Some("N".to_string()),
        category_id: None,
        description: None,
        long_description: None,
        price: None,
        compared_at_price: None,
        review_count: None,
        rating: Some(3),
        sku: None,
        tagline: None,
        stock: None,
        is_featured: None,
        is_new: None,
        is_best_seller: None,
        product_features: None,
        product_images: Some(vec![CreateProductImageDto { image_url: "u".to_string() }]),
    };
    let (c, urls, names) = split_update(d);
    assert_eq!(c.name.as_deref(), Some("N"));
    assert_eq!(c.rating, Some(3));
    assert_eq!(urls, Some(vec!["u".to_string()]));
    assert_eq!(names, None);
}

#[test]
fn missing_category_message_names_the_uuid() {
    match missing_category(0xffffffffffffffffffffffffffffffff) {
        AppError::NotFound(m) => assert_eq!(
            m,
            "Category not found with provided id: ffffffff-ffff-ffff-ffff-ffffffffffff"
        ),
        other => panic!("unexpected {:?}", other),
    }
}

#[test]
fn product_answer_for_found_and_missing() {
    let shown = build_product_response(prod(1, 9, "Lamp"), &cat(9, "Lights"), &vec![], &vec![]);
    let found = product_answer(Some(shown));
    assert!(found.success);
    assert!(found.message.is_none());
    assert_eq!(found.data.as_ref().unwrap().as_ref().unwrap().id, 1);
    let missing = product_answer(None);
    assert!(!missing.success);
    assert!(missing.data.is_none());
    assert_eq!(missing.message.as_deref(), Some("Product not found with provided id"));
}

#[test]
fn applying_a_change_twice_equals_once() {
    let change = || {
        let mut c = no_changes();
        c.name = Some("Floor Lamp".to_string());
        c.rating = Some(5);
        c
    };
    let once = apply_product_update(prod(1, 9, "Lamp"), change());
    let twice = apply_product_update(apply_product_update(prod(1, 9, "Lamp"), change()), change());
    assert_eq!(twice.name, once.name);
    assert_eq!(twice.slug, "floor-lamp");
    assert_eq!(twice.rating, once.rating);
    assert_eq!(twice.sku, once.sku);
}

#[test]
fn read_after_create_shows_the_payload() {
    let (row, _, _) = new_product(create_dto(), 31);
    let stored = ProductRow {
        id: row.id,
        name: row.name.clone(),
        slug: row.slug.clone(),
        category_id: row.category_id,
        description: row.description.clone(),
        long_description: row.long_description.clone(),
        price: row.price,
        compared_at_price: row.compared_at_price,
        review_count: row.review_count,
        rating: row.rating,
        sku: row.sku.clone(),
        tagline: row.tagline.clone(),
        stock: row.stock,
        is_new: row.is_new,
        is_featured: row.is_featured,
        is_best_seller: row.is_best_seller,
        created_at: at(5),
        updated_at: at(5),
        deleted_at: None,
    };
    let shown = build_product_response(stored, &cat(8, "Seats"), &vec![], &vec![]);
    assert_eq!(shown.id, 31);
    assert_eq!(shown.name, "Office Chair");
    assert_eq!(shown.slug, "office-chair");
    assert!(shown.is_featured);
    assert!(!shown.is_new);
    assert_eq!(shown.price, price(5000));
}

#[test]
fn created_product_is_listed_once() {
    let (row, _, _) = new_product(create_dto(), 40);
    let stored = ProductRow {
        id: row.id,
        name: row.name.clone(),
        slug: row.slug.clone(),
        category_id: row.category_id,
        description: row.description.clone(),
        long_description: row.long_description.clone(),
        price: row.price,
        compared_at_price: row.compared_at_price,
        review_count: row.review_count,
        rating: row.rating,
        sku: row.sku.clone(),
        tagline: row.tagline.clone(),
        stock: row.stock,
        is_new: row.is_new,
        is_featured: row.is_featured,
        is_best_seller: row.is_best_seller,
        created_at: at(5),
        updated_at: at(5),
        deleted_at: None,
    };
    let products = vec![prod(1, 9, "Lamp"), stored];
    let out = assemble_products(products, &vec![cat(9, "Lights"), cat(8, "Seats")], &vec![], &vec![]);
    let hits: Vec<_> = out.iter().filter(|x| x.id == 40).collect();
    assert_eq!(hits.len(), 1);
    assert_eq!(hits[0].slug, "office-chair");
    assert_eq!(hits[0].category.id, 8);
}
