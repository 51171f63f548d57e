use shop_api::entities::{PostRow, Roles, UserRow};
use shop_api::modules::post::service::post_by_id_result;
use shop_api::modules::user::dto::UpdateUserDto;
use shop_api::modules::user::service::{apply_user_update, user_by_id_result};
use shop_api::utils::response::AppError;

fn user() -> UserRow {
    UserRow { id: 1, name: "Ann".to_string(), email: "ann@example.com".to_string() }
}

#[test]
fn post_lookup_found_and_missing() {
    let p = PostRow { id: 3, title: "T".to_string(), text: "X".to_string() };
    assert_eq!(post_by_id_result(3, Some(p.clone())).unwrap(), p);
    match post_by_id_result(-12, None) {
        Err(AppError::NotFound(m)) => assert_eq!(m, "Post with id -12 not found"),
        other => panic!("unexpected {:?}", other),
    }
}

#[test]
fn user_lookup_missing_names_the_uuid() {
    match user_by_id_result(1, None) {
        Err(AppError::NotFound(m)) => {
            assert_eq!(m, "User with id 00000000-0000-0000-0000-000000000001 not found")
        }
        other => panic!("unexpected {:?}", other),
    }
    assert_eq!(user_by_id_result(1, Some(user())).unwrap(), user());
}

#[test]
fn user_update_replaces_given_fields_only() {
    let u = apply_user_update(user(), UpdateUserDto { email: Some("a@b.c".to_string()), name: None });
    assert_eq!(u, UserRow { id: 1, name: "Ann".to_string(), email: "a@b.c".to_string() });
    let v = apply_user_update(user(), UpdateUserDto { email: None, name: Some("Bo".to_string()) });
    assert_eq!(v.name, "Bo");
    assert_eq!(v.email, "ann@example.com");
}

#[test]
fn role_names() {
    assert_eq!(Roles::Admin.as_str(), "admin");
    assert_eq!(Roles::User.as_str(), "user");
}
