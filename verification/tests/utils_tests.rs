use shop_api::utils::extractors::{classify_serde_error, parse_serde_error, payload_rejection};
use shop_api::utils::jwt::{build_claims, encode_failure, verify_failure};
use shop_api::utils::password::{bad_hash, hash_failure, hash_password, verify_password};
use shop_api::utils::response::{ApiResponse, AppError, ErrorDetails};
use shop_api::utils::validation::{accept_validated, json_rejection_error, JsonFailure};
use shop_api::validation::{Code, Field, FieldError, Param, ValidationErrors};

fn entry(r: &(String, ErrorDetails)) -> (String, String) {
    match &r.1 {
        ErrorDetails::Entry { key, detail } => (key.clone(), detail.clone()),
        other => panic!("unexpected {:?}", other),
    }
}

fn one_error() -> ValidationErrors {
    ValidationErrors {
        errors: vec![FieldError {
            field: Field::Name,
            item: None,
            code: Code::Length,
            message: Some("too short"),
            min: Some(3),
            max: None,
            value: Param::Text("ab".to_string()),
        }],
    }
}

#[test]
fn missing_field_names_the_field() {
    let r = parse_serde_error("Failed to deserialize the JSON body into the target type: missing field `image` at line 1 column 20");
    assert_eq!(r.0, "The 'image' field is required");
    assert_eq!(entry(&r), ("image".to_string(), "This field is required".to_string()));
}

#[test]
fn missing_field_without_backquotes_is_general() {
    let r = parse_serde_error("Missing Field somewhere");
    assert_eq!(r.0, "Missing required field");
    assert_eq!(entry(&r), ("general".to_string(), "Missing required field".to_string()));
}

#[test]
fn invalid_type_with_field() {
    let r = parse_serde_error("invalid type: integer `5`, expected a string");
    assert_eq!(r.0, "The '5' field has an invalid value");
    assert_eq!(entry(&r), ("5".to_string(), "Invalid value provided".to_string()));
}

#[test]
fn invalid_value_without_field() {
    let r = parse_serde_error("Invalid value: null, expected a string at line 1 column 16");
    assert_eq!(r.0, "Invalid field value");
    assert_eq!(entry(&r), ("general".to_string(), "Invalid field value".to_string()));
}

#[test]
fn unknown_field_with_and_without_field() {
    let r = parse_serde_error("unknown field `colour`, expected one of `name`, `image`");
    assert_eq!(r.0, "Unknown field 'colour`, expected one of `name`, `image'");
    let r2 = parse_serde_error("unknown field");
    assert_eq!(r2.0, "Unknown field provided");
    assert_eq!(entry(&r2), ("general".to_string(), "Unknown field provided".to_string()));
}

#[test]
fn single_backquote_is_no_field() {
    let r = parse_serde_error("missing field `name");
    assert_eq!(r.0, "Missing required field");
}

#[test]
fn other_errors_are_invalid_payload() {
    let r = parse_serde_error("EOF while parsing an object");
    assert_eq!(r.0, "Invalid request payload");
    assert_eq!(entry(&r), ("general".to_string(), "Invalid request body".to_string()));
}

#[test]
fn missing_field_phrase_wins_over_others() {
    let r = classify_serde_error("missing field `a`; unknown field `b`", "missing field `a`; unknown field `b`");
    assert_eq!(r.0, "The 'a`; unknown field `b' field is required");
}

#[test]
fn payload_rejection_is_a_bad_request_envelope() {
    let (status, body) = payload_rejection("missing field `name`");
    assert_eq!(status, 400);
    assert!(!body.success);
    assert_eq!(body.message.as_deref(), Some("The 'name' field is required"));
    assert!(body.data.is_none());
    assert_eq!(
        body.errors,
        Some(ErrorDetails::Entry { key: "name".to_string(), detail: "This field is required".to_string() })
    );
}

#[test]
fn envelopes() {
    let ok = ApiResponse::success(5u32);
    assert!(ok.success);
    assert_eq!(ok.data, Some(5));
    assert!(ok.message.is_none() && ok.errors.is_none());
    let err: ApiResponse<u32> = ApiResponse::error("boom".to_string());
    assert!(!err.success);
    assert_eq!(err.message.as_deref(), Some("boom"));
    let v: ApiResponse<u32> = ApiResponse::validation_error(one_error());
    assert_eq!(v.message.as_deref(), Some("Validation failed"));
    assert_eq!(v.errors, Some(ErrorDetails::Fields(one_error())));
}

#[test]
fn error_statuses_and_messages() {
    let (s, b) = AppError::NotFound("no".to_string()).into_parts::<()>();
    assert_eq!(s, 404);
    assert_eq!(b.message.as_deref(), Some("no"));
    let (s, _) = AppError::Internal("x".to_string()).into_parts::<()>();
    assert_eq!(s, 500);
    let (s, _) = AppError::BadRequest("x".to_string()).into_parts::<()>();
    assert_eq!(s, 400);
    let (s, b) = AppError::ValidationError(one_error()).into_parts::<()>();
    assert_eq!(s, 400);
    assert_eq!(b.message.as_deref(), Some("Validation failed"));
    assert_eq!(b.errors, Some(ErrorDetails::Fields(one_error())));
    let (s, b) = AppError::Unauthorized("who".to_string()).into_parts::<()>();
    assert_eq!(s, 401);
    assert_eq!(b.message.as_deref(), Some("who"));
    let (s, _) = AppError::Forbidden("no".to_string()).into_parts::<()>();
    assert_eq!(s, 403);
    let (s, b) = AppError::DbError("connection refused".to_string()).into_parts::<()>();
    assert_eq!(s, 500);
    assert_eq!(b.message.as_deref(), Some("connection refused"));
    assert!(b.data.is_none());
}

#[test]
fn validation_errors_convert_into_app_error() {
    let e: AppError = one_error().into();
    assert_eq!(e, AppError::ValidationError(one_error()));
}

#[test]
fn json_rejections() {
    assert_eq!(
        json_rejection_error(JsonFailure::Data("bad".to_string())),
        AppError::BadRequest("bad".to_string())
    );
    assert_eq!(
        json_rejection_error(JsonFailure::Syntax("eof".to_string())),
        AppError::BadRequest("eof".to_string())
    );
    assert_eq!(json_rejection_error(JsonFailure::Other), AppError::BadRequest("Invalid JSON".to_string()));
}

#[test]
fn accepted_and_refused_payloads() {
    let ok = accept_validated(7u8, Ok(())).ok().unwrap();
    assert_eq!(ok.0, 7);
    match accept_validated(7u8, Err(one_error())) {
        Err(AppError::ValidationError(e)) => assert_eq!(e, one_error()),
        _ => panic!("expected a validation error"),
    }
}

#[test]
fn password_hash_then_verify() {
    let h = hash_password("correct horse").unwrap();
    assert_ne!(h, "correct horse");
    assert!(h.starts_with("$argon2id$v=19$m=19456,t=2,p=1$"));
    let salt = &h["$argon2id$v=19$m=19456,t=2,p=1$".len()..][..22];
    assert!(salt.chars().all(|c| c.is_ascii_alphanumeric() || c == '+' || c == '/'));
    assert_eq!(h.as_bytes()["$argon2id$v=19$m=19456,t=2,p=1$".len() + 22], b'$');
    assert_eq!(verify_password("correct horse", &h).unwrap(), true);
    assert_eq!(verify_password("wrong horse", &h).unwrap(), false);
}

#[test]
fn two_hashes_of_one_password_differ() {
    let a = hash_password("pw").unwrap();
    let b = hash_password("pw").unwrap();
    assert_ne!(a, b);
}

#[test]
fn malformed_hash_is_an_internal_error() {
    match verify_password("pw", "not a hash") {
        Err(AppError::Internal(m)) => assert!(m.starts_with("bad hash: ")),
        other => panic!("unexpected {:?}", other),
    }
}

#[test]
fn password_error_texts() {
    assert_eq!(hash_failure("salt".to_string()), AppError::Internal("hash error: salt".to_string()));
    assert_eq!(bad_hash("x".to_string()), AppError::Internal("bad hash: x".to_string()));
}

#[test]
fn claims_for_a_user() {
    let c = build_claims(0x67e5504410b1426f9247bb680e5fe0c8, "admin", 1_700_000_000, 900);
    assert_eq!(c.sub, "67e55044-10b1-426f-9247-bb680e5fe0c8");
    assert_eq!(c.role, "admin");
    assert_eq!(c.iat, 1_700_000_000);
    assert_eq!(c.exp, 1_700_000_900);
}

#[test]
fn jwt_error_texts() {
    assert_eq!(encode_failure("key".to_string()), AppError::Internal("jwt encode: key".to_string()));
    assert_eq!(verify_failure(), AppError::Unauthorized("invalid or expired token".to_string()));
}

#[test]
fn empty_and_long_passwords_hash() {
    let h = hash_password("").unwrap();
    assert_eq!(verify_password("", &h).unwrap(), true);
    let long = "p".repeat(1000);
    let h2 = hash_password(&long).unwrap();
    assert_eq!(verify_password(&long, &h2).unwrap(), true);
    assert_eq!(verify_password("", &h2).unwrap(), false);
}
