use shop_api::modules::category::flow::{CategoryCreateAction, CategoryCreateEvent, CategoryCreation};
use chrono::NaiveDateTime;
use shop_api::entities::CategoryRow;
use shop_api::modules::category::dto::{CategoryResponseDto, CreateCategoryDto, UpdateCategoryDto};
use shop_api::modules::category::service::{
    apply_category_update, category_by_id_result, category_by_slug_result, category_responses,
    new_category, slug_taken,
};
use shop_api::utils::response::AppError;

fn at(day: u32) -> NaiveDateTime {
    chrono::NaiveDate::from_ymd_opt(2024, 1, day).unwrap().and_hms_opt(12, 0, 0).unwrap()
}

fn row(id: u128, name: &str) -> CategoryRow {
    CategoryRow {
        id,
        name: name.to_string(),
        slug: shop_api::text::slugify(name),
        description: Some("Things".to_string()),
        image: "img.png".to_string(),
        created_at: at(1),
        updated_at: at(2),
        deleted_at: None,
    }
}

#[test]
fn lookup_by_id_describes_the_row() {
    let r = category_by_id_result(5, Some(row(5, "Garden Tools"))).unwrap();
    assert_eq!(r.id, 5);
    assert_eq!(r.name, "Garden Tools");
    assert_eq!(r.description.as_deref(), Some("Things"));
    assert_eq!(r.image, "img.png");
    assert_eq!(r.created_at, at(1));
    assert_eq!(r.updated_at, at(2));
    assert_eq!(r.deleted_at, None);
}

#[test]
fn lookup_by_id_of_missing_row_is_not_found_with_uuid_text() {
    let id: u128 = 0x67e5504410b1426f9247bb680e5fe0c8;
    match category_by_id_result(id, None) {
        Err(AppError::NotFound(m)) => {
            assert_eq!(m, "Category not found with id: 67e55044-10b1-426f-9247-bb680e5fe0c8")
        }
        other => panic!("unexpected {:?}", other),
    }
}

#[test]
fn lookup_by_slug_missing_is_an_error() {
    match category_by_slug_result("garden-tools", None) {
        Err(AppError::NotFound(m)) => assert_eq!(m, "Category not found with slug: garden-tools"),
        other => panic!("unexpected {:?}", other),
    }
    let found = category_by_slug_result("garden-tools", Some(row(1, "Garden Tools"))).unwrap();
    assert_eq!(found.unwrap().name, "Garden Tools");
}

#[test]
fn slug_taken_only_for_found_rows() {
    let found: Result<Option<CategoryResponseDto>, AppError> =
        Ok(Some(CategoryResponseDto::new(row(1, "Garden"))));
    assert!(slug_taken(&found));
    let none: Result<Option<CategoryResponseDto>, AppError> = Ok(None);
    assert!(!slug_taken(&none));
    let failed: Result<Option<CategoryResponseDto>, AppError> =
        Err(AppError::NotFound("x".to_string()));
    assert!(!slug_taken(&failed));
}

#[test]
fn listing_keeps_row_order() {
    let out = category_responses(vec![row(1, "Alpha"), row(2, "Beta"), row(3, "Gamma")]);
    let names: Vec<&str> = out.iter().map(|c| c.name.as_str()).collect();
    assert_eq!(names, vec!["Alpha", "Beta", "Gamma"]);
    assert_eq!(out[2].id, 3);
}

#[test]
fn update_with_new_name_changes_the_slug() {
    let data = UpdateCategoryDto { name: Some("Kitchen Ware".to_string()), image: None, description: None };
    let r = apply_category_update(row(9, "Garden Tools"), data);
    assert_eq!(r.id, 9);
    assert_eq!(r.name, "Kitchen Ware");
    assert_eq!(r.slug, "kitchen-ware");
    assert_eq!(r.image, "img.png");
    assert_eq!(r.description.as_deref(), Some("Things"));
    assert_eq!(r.created_at, at(1));
}

#[test]
fn update_without_name_keeps_name_and_slug() {
    let data = UpdateCategoryDto {
        name: None,
        image: Some("new.png".to_string()),
        description: Some("Other things".to_string()),
    };
    let r = apply_category_update(row(9, "Garden Tools"), data);
    assert_eq!(r.name, "Garden Tools");
    assert_eq!(r.slug, "garden-tools");
    assert_eq!(r.image, "new.png");
    assert_eq!(r.description.as_deref(), Some("Other things"));
}

#[test]
fn read_after_update_shows_the_new_values() {
    let data = UpdateCategoryDto { name: Some("Tools".to_string()), image: None, description: None };
    let updated = apply_category_update(row(4, "Garden Tools"), data);
    let shown = category_by_id_result(4, Some(updated)).unwrap();
    assert_eq!(shown.name, "Tools");
    assert_eq!(shown.image, "img.png");
}

#[test]
fn creation_with_free_slug_builds_the_row() {
    let data = CreateCategoryDto {
        name: "Garden Tools".to_string(),
        image: "g.png".to_string(),
        description: None,
    };
    let c = new_category(data, false, 77, at(3)).unwrap();
    assert_eq!(c.id, 77);
    assert_eq!(c.name, "Garden Tools");
    assert_eq!(c.slug, "garden-tools");
    assert_eq!(c.image, "g.png");
    assert_eq!(c.description, None);
    assert_eq!(c.created_at, at(3));
}

#[test]
fn creation_with_taken_slug_is_refused() {
    let data = CreateCategoryDto { name: "Garden".to_string(), image: "g.png".to_string(), description: None };
    match new_category(data, true, 1, at(3)) {
        Err(AppError::BadRequest(m)) => assert_eq!(m, "category already exists"),
        other => panic!("unexpected {:?}", other),
    }
}

#[test]
fn row_duplicate_copies_every_field() {
    let r = row(3, "Lamps");
    let d = r.duplicate();
    assert_eq!(d.id, 3);
    assert_eq!(d.name, r.name);
    assert_eq!(d.slug, "lamps");
    assert_eq!(d.description, r.description);
}

#[test]
fn applying_a_category_change_twice_equals_once() {
    let data = || UpdateCategoryDto { name: Some("Power Tools".to_string()), image: None, description: None };
    let once = apply_category_update(row(2, "Tools"), data());
    let twice = apply_category_update(apply_category_update(row(2, "Tools"), data()), data());
    assert_eq!(twice.name, once.name);
    assert_eq!(twice.slug, "power-tools");
    assert_eq!(twice.image, once.image);
}

#[test]
fn read_after_category_create_shows_the_payload() {
    let data = CreateCategoryDto {
        name: "Bath Room".to_string(),
        image: "b.png".to_string(),
        description: Some("Towels".to_string()),
    };
    let c = new_category(data, false, 12, at(4)).unwrap();
    let stored = CategoryRow {
        id: c.id,
        name: c.name.clone(),
        slug: c.slug.clone(),
        description: c.description.clone(),
        image: c.image.clone(),
        created_at: c.created_at,
        updated_at: at(4),
        deleted_at: None,
    };
    assert_eq!(stored.slug, "bath-room");
    let shown = category_by_id_result(12, Some(stored)).unwrap();
    assert_eq!(shown.name, "Bath Room");
    assert_eq!(shown.description.as_deref(), Some("Towels"));
    assert_eq!(shown.created_at, at(4));
}

fn create_payload(name: &str) -> CreateCategoryDto {
    CreateCategoryDto { name: name.to_string(), image: "g.png".to_string(), description: None }
}

#[test]
fn category_creation_looks_up_then_inserts_the_same_slug() {
    let (m, a) = CategoryCreation::start(create_payload("Garden Tools"), 21, at(6));
    match &a {
        CategoryCreateAction::FindSlug(s) => assert_eq!(s, "garden-tools"),
        other => panic!("unexpected {:?}", other),
    }
    let (m, a) = m.step(CategoryCreateEvent::SlugLookup(Ok(None)));
    let row = match a {
        CategoryCreateAction::Insert(c) => {
            assert_eq!(c.slug, "garden-tools");
            assert_eq!(c.id, 21);
            CategoryRow {
                id: c.id,
                name: c.name,
                slug: c.slug,
                description: c.description,
                image: c.image,
                created_at: c.created_at,
                updated_at: at(6),
                deleted_at: None,
            }
        }
        other => panic!("unexpected {:?}", other),
    };
    let (m, a) = m.step(CategoryCreateEvent::Inserted(row));
    assert!(matches!(a, CategoryCreateAction::Commit));
    let (_, a) = m.step(CategoryCreateEvent::Written);
    match a {
        CategoryCreateAction::Answer(Ok(d)) => assert_eq!(d.name, "Garden Tools"),
        other => panic!("unexpected {:?}", other),
    }
}

#[test]
fn category_creation_with_found_slug_is_refused() {
    let (m, _) = CategoryCreation::start(create_payload("Garden"), 1, at(6));
    let found = Ok(Some(CategoryResponseDto::new(row(2, "Garden"))));
    let (_, a) = m.step(CategoryCreateEvent::SlugLookup(found));
    match a {
        CategoryCreateAction::Answer(Err(AppError::BadRequest(m))) => assert_eq!(m, "category already exists"),
        other => panic!("unexpected {:?}", other),
    }
}

#[test]
fn category_creation_failed_lookup_counts_as_free_and_failed_insert_is_an_error() {
    let (m, _) = CategoryCreation::start(create_payload("Garden"), 1, at(6));
    let (m, a) = m.step(CategoryCreateEvent::SlugLookup(Err(AppError::DbError("timeout".to_string()))));
    assert!(matches!(a, CategoryCreateAction::Insert(_)));
    let (_, a) = m.step(CategoryCreateEvent::Failed("duplicate key".to_string()));
    match a {
        CategoryCreateAction::Answer(Err(AppError::DbError(t))) => assert_eq!(t, "duplicate key"),
        other => panic!("unexpected {:?}", other),
    }
}
