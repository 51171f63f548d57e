use chrono::NaiveDateTime;
use shop_api::decimal::Price;
use shop_api::entities::{CategoryRow, ProductFeatureRow, ProductImageRow, ProductRow};
use shop_api::modules::product::dto::{
    CreateProductDto, CreateProductFeatureDto, CreateProductImageDto, UpdateProductDto,
};
use shop_api::modules::product::flow::{
    CreateAction, CreateEvent, DeleteAction, DeleteEvent, ListingAction, ListingEvent, LookupAction,
    LookupEvent, ProductCreation, ProductDeletion, ProductListing, ProductLookup, ProductUpdate,
    UpdateAction, UpdateEvent,
};
use shop_api::utils::response::AppError;

fn at(day: u32) -> NaiveDateTime {
    chrono::NaiveDate::from_ymd_opt(2024, 3, day).unwrap().and_hms_opt(0, 0, 0).unwrap()
}

fn price(m: i128) -> Price {
    Price { mantissa: m, scale: 2 }
}

fn cat(id: u128) -> CategoryRow {
    CategoryRow {
        id,
        name: "Lights".to_string(),
        slug: "lights".to_string(),
        description: None,
        image: "c.png".to_string(),
        created_at: at(1),
        updated_at: at(1),
        deleted_at: None,
    }
}

fn prod(id: u128, category_id: u128) -> ProductRow {
    ProductRow {
        id,
        name: "Lamp".to_string(),
        slug: "lamp".to_string(),
        category_id,
        description: "d".to_string(),
        long_description: "ld".to_string(),
        price: price(1000),
        compared_at_price: price(1200),
        review_count: 2,
        rating: 4,
        sku: "S-1".to_string(),
        tagline: "t".to_string(),
        stock: 5,
        is_new: None,
        is_featured: None,
        is_best_seller: None,
        created_at: at(2),
        updated_at: at(3),
        deleted_at: None,
    }
}

fn no_changes() -> UpdateProductDto {
    UpdateProductDto {
        name: None,
        category_id: None,
        description: None,
        long_description: None,
        price: None,
        compared_at_price: None,
        review_count: None,
        rating: None,
        sku: None,
        tagline: None,
        stock: None,
        is_featured: None,
        is_new: None,
        is_best_seller: None,
        product_features: None,
        product_images: None,
    }
}

#[test]
fn lookup_runs_product_category_images_features() {
    let (m, a) = ProductLookup::start(1);
    assert!(matches!(a, LookupAction::FindProduct(1)));
    let (m, a) = m.step(LookupEvent::Product(Some(prod(1, 9))));
    assert!(matches!(a, LookupAction::FindCategory(9)));
    let (m, a) = m.step(LookupEvent::Category(Some(cat(9))));
    assert!(matches!(a, LookupAction::LoadImages(1)));
    let (m, a) = m.step(LookupEvent::Images(vec![ProductImageRow {
        id: 50,
        product_id: 1,
        image_url: "a.png".to_string(),
    }]));
    assert!(matches!(a, LookupAction::LoadFeatures(1)));
    let (_, a) = m.step(LookupEvent::Features(vec![ProductFeatureRow {
        id: 60,
        product_id: 1,
        name: "Dim".to_string(),
    }]));
    match a {
        LookupAction::Answer(Some(p)) => {
            assert_eq!(p.id, 1);
            assert_eq!(p.category.id, 9);
            assert_eq!(p.product_images[0].id, 1);
            assert_eq!(p.product_features[0].id, 60);
        }
        other => panic!("unexpected {:?}", other),
    }
}

#[test]
fn lookup_of_missing_product_or_category_answers_none() {
    let (m, _) = ProductLookup::start(1);
    let (_, a) = m.step(LookupEvent::Product(None));
    assert!(matches!(a, LookupAction::Answer(None)));
    let (m, _) = ProductLookup::start(1);
    let (m, _) = m.step(LookupEvent::Product(Some(prod(1, 9))));
    let (_, a) = m.step(LookupEvent::Category(None));
    assert!(matches!(a, LookupAction::Answer(None)));
}

#[test]
fn update_of_missing_product_answers_none() {
    let (m, a) = ProductUpdate::start(4, no_changes());
    assert!(matches!(a, UpdateAction::FindProduct(4)));
    let (_, a) = m.step(UpdateEvent::Product(None));
    assert!(matches!(a, UpdateAction::Answer(Ok(None))));
}

#[test]
fn update_with_unknown_category_is_not_found() {
    let mut d = no_changes();
    d.category_id = Some(0x10);
    let (m, _) = ProductUpdate::start(4, d);
    let (m, a) = m.step(UpdateEvent::Product(Some(prod(4, 9))));
    assert!(matches!(a, UpdateAction::FindCategory(0x10)));
    let (_, a) = m.step(UpdateEvent::Category(None));
    match a {
        UpdateAction::Answer(Err(AppError::NotFound(m))) => assert_eq!(
            m,
            "Category not found with provided id: 00000000-0000-0000-0000-000000000010"
        ),
        other => panic!("unexpected {:?}", other),
    }
}

#[test]
fn update_replaces_lists_then_commits_and_reloads() {
    let mut d = no_changes();
    d.name = Some("Big Lamp".to_string());
    d.product_images = Some(vec![CreateProductImageDto { image_url: "n.png".to_string() }]);
    d.product_features = Some(vec![]);
    let (m, _) = ProductUpdate::start(4, d);
    let (m, a) = m.step(UpdateEvent::Product(Some(prod(4, 9))));
    let saved = match a {
        UpdateAction::SaveProduct(row) => {
            assert_eq!(row.slug, "big-lamp");
            row
        }
        other => panic!("unexpected {:?}", other),
    };
    let (m, a) = m.step(UpdateEvent::Saved(saved));
    assert!(matches!(a, UpdateAction::ClearImages(4)));
    let (m, a) = m.step(UpdateEvent::Written);
    match &a {
        UpdateAction::InsertImages(4, urls) => assert_eq!(urls, &vec!["n.png".to_string()]),
        other => panic!("unexpected {:?}", other),
    }
    let (m, a) = m.step(UpdateEvent::Written);
    assert!(matches!(a, UpdateAction::ClearFeatures(4)));
    // An empty feature list only clears.
    let (m, a) = m.step(UpdateEvent::Written);
    assert!(matches!(a, UpdateAction::Commit));
    let (m, a) = m.step(UpdateEvent::Written);
    assert!(matches!(a, UpdateAction::Reload(4)));
    let (_, a) = m.step(UpdateEvent::Reloaded(None));
    assert!(matches!(a, UpdateAction::Answer(Ok(None))));
}

#[test]
fn update_without_lists_goes_straight_to_commit() {
    let (m, _) = ProductUpdate::start(4, no_changes());
    let (m, a) = m.step(UpdateEvent::Product(Some(prod(4, 9))));
    let saved = match a {
        UpdateAction::SaveProduct(row) => row,
        other => panic!("unexpected {:?}", other),
    };
    let (_, a) = m.step(UpdateEvent::Saved(saved));
    assert!(matches!(a, UpdateAction::Commit));
}

fn create_dto(features: Vec<CreateProductFeatureDto>) -> CreateProductDto {
    CreateProductDto {
        name: "Desk Lamp".to_string(),
        category_id: 9,
        description: "d".to_string(),
        long_description: "ld".to_string(),
        price: price(100),
        compared_at_price: price(200),
        review_count: 1,
        rating: 1,
        sku: "s".to_string(),
        tagline: "t".to_string(),
        stock: 1,
        is_featured: false,
        is_new: true,
        is_best_seller: false,
        product_features: features,
        product_images: vec![],
    }
}

#[test]
fn creation_inserts_row_lists_commits_and_reloads() {
    let (m, a) = ProductCreation::start(
        create_dto(vec![CreateProductFeatureDto { name: "Dim".to_string() }]),
        77,
    );
    match &a {
        CreateAction::InsertProduct(row) => {
            assert_eq!(row.id, 77);
            assert_eq!(row.slug, "desk-lamp");
        }
        other => panic!("unexpected {:?}", other),
    }
    // No images: straight to the feature lines.
    let (m, a) = m.step(CreateEvent::Inserted(prod(77, 9)));
    match &a {
        CreateAction::InsertFeatures(77, names) => assert_eq!(names, &vec!["Dim".to_string()]),
        other => panic!("unexpected {:?}", other),
    }
    let (m, a) = m.step(CreateEvent::Written);
    assert!(matches!(a, CreateAction::Commit));
    let (m, a) = m.step(CreateEvent::Written);
    assert!(matches!(a, CreateAction::Reload(77)));
    let (_, a) = m.step(CreateEvent::Reloaded(None));
    assert!(matches!(a, CreateAction::Answer(Ok(None))));
}

#[test]
fn creation_without_lists_commits_after_the_row() {
    let (m, _) = ProductCreation::start(create_dto(vec![]), 5);
    let (_, a) = m.step(CreateEvent::Inserted(prod(5, 9)));
    assert!(matches!(a, CreateAction::Commit));
}

#[test]
fn deletion_clears_lists_then_deletes_and_commits() {
    let (m, a) = ProductDeletion::start(3);
    assert!(matches!(a, DeleteAction::ClearImages(3)));
    let (m, a) = m.step(DeleteEvent::Written);
    assert!(matches!(a, DeleteAction::ClearFeatures(3)));
    let (m, a) = m.step(DeleteEvent::Written);
    assert!(matches!(a, DeleteAction::DeleteProduct(3)));
    let (m, a) = m.step(DeleteEvent::Deleted(1));
    assert!(matches!(a, DeleteAction::Commit));
    let (_, a) = m.step(DeleteEvent::Written);
    match a {
        DeleteAction::Answer(Ok(m)) => assert_eq!(m, "Product deleted successfully"),
        other => panic!("unexpected {:?}", other),
    }
}

#[test]
fn deletion_of_missing_product_is_not_found() {
    let (m, _) = ProductDeletion::start(3);
    let (m, _) = m.step(DeleteEvent::Written);
    let (m, _) = m.step(DeleteEvent::Written);
    let (_, a) = m.step(DeleteEvent::Deleted(0));
    match a {
        DeleteAction::Answer(Err(AppError::NotFound(m))) => assert_eq!(m, "Product not found"),
        other => panic!("unexpected {:?}", other),
    }
}

#[test]
fn listing_with_no_products_answers_empty() {
    let (m, a) = ProductListing::start();
    assert!(matches!(a, ListingAction::FindProducts));
    let (_, a) = m.step(ListingEvent::Products(vec![]));
    match a {
        ListingAction::Answer(v) => assert!(v.is_empty()),
        other => panic!("unexpected {:?}", other),
    }
}

#[test]
fn listing_reads_categories_images_features() {
    let (m, _) = ProductListing::start();
    let (m, a) = m.step(ListingEvent::Products(vec![prod(1, 9), prod(2, 9)]));
    match &a {
        ListingAction::LoadCategories(ids) => assert_eq!(ids, &vec![9u128, 9]),
        other => panic!("unexpected {:?}", other),
    }
    let (m, a) = m.step(ListingEvent::Categories(vec![cat(9)]));
    match &a {
        ListingAction::LoadImages(ids) => assert_eq!(ids, &vec![1u128, 2]),
        other => panic!("unexpected {:?}", other),
    }
    let (m, a) = m.step(ListingEvent::Images(vec![]));
    match &a {
        ListingAction::LoadFeatures(ids) => assert_eq!(ids, &vec![1u128, 2]),
        other => panic!("unexpected {:?}", other),
    }
    let (_, a) = m.step(ListingEvent::Features(vec![ProductFeatureRow {
        id: 8,
        product_id: 2,
        name: "Tall".to_string(),
    }]));
    match a {
        ListingAction::Answer(v) => {
            assert_eq!(v.len(), 2);
            assert!(v[0].product_features.is_empty());
            assert_eq!(v[1].product_features[0].id, 2);
            assert_eq!(v[1].product_features[0].name, "Tall");
        }
        other => panic!("unexpected {:?}", other),
    }
}

#[test]
fn update_failure_answers_the_database_error_without_commit() {
    let mut d = no_changes();
    d.product_images = Some(vec![CreateProductImageDto { image_url: "n.png".to_string() }]);
    let (m, _) = ProductUpdate::start(4, d);
    let (m, a) = m.step(UpdateEvent::Product(Some(prod(4, 9))));
    let saved = match a {
        UpdateAction::SaveProduct(row) => row,
        other => panic!("unexpected {:?}", other),
    };
    let (m, _) = m.step(UpdateEvent::Saved(saved));
    let (_, a) = m.step(UpdateEvent::Failed("disk full".to_string()));
    match a {
        UpdateAction::Answer(Err(AppError::DbError(t))) => assert_eq!(t, "disk full"),
        other => panic!("unexpected {:?}", other),
    }
}

#[test]
fn creation_failure_answers_the_database_error_without_commit() {
    let (m, _) = ProductCreation::start(create_dto(vec![]), 5);
    let (_, a) = m.step(CreateEvent::Failed("violates foreign key".to_string()));
    match a {
        CreateAction::Answer(Err(AppError::DbError(t))) => assert_eq!(t, "violates foreign key"),
        other => panic!("unexpected {:?}", other),
    }
}

#[test]
fn failed_commit_of_a_creation_is_an_error() {
    let (m, _) = ProductCreation::start(create_dto(vec![]), 5);
    let (m, a) = m.step(CreateEvent::Inserted(prod(5, 9)));
    assert!(matches!(a, CreateAction::Commit));
    let (_, a) = m.step(CreateEvent::Failed("connection lost".to_string()));
    assert!(matches!(a, CreateAction::Answer(Err(AppError::DbError(_)))));
}

#[test]
fn deletion_failure_answers_the_database_error() {
    let (m, _) = ProductDeletion::start(3);
    let (_, a) = m.step(DeleteEvent::Failed("locked".to_string()));
    match a {
        DeleteAction::Answer(Err(AppError::DbError(t))) => assert_eq!(t, "locked"),
        other => panic!("unexpected {:?}", other),
    }
}
