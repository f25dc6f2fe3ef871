use user_service::dto::{UserRequest, UserResponse};
use user_service::error::AppError;
use user_service::password::PasswordError;
use user_service::response::{ApiError, ApiResponse};
use user_service::user_service::RegistrationError;
use user_service::username::UserNameError;

#[test]
fn error_into_result() {
    let resp: ApiResponse<String> = ApiResponse::error(404, "Not found", "NOT_FOUND".to_string());
    assert!(resp.is_client_error());
    let res = resp.into_result();
    assert!(res.is_err());
    let errs = res.err().unwrap();
    assert_eq!(errs.len(), 1);
    assert_eq!(errs[0], ApiError::new(404, "Not found"));
}

#[test]
fn map_data() {
    let resp = ApiResponse::ok(2);
    let mapped = resp.map(|n| n * 3);
    assert_eq!(mapped.data, Some(6));
    assert!(mapped.is_success());
}

#[test]
fn test_ok_envelope_shape() {
    let resp = ApiResponse::ok("payload");
    assert_eq!(resp.status, Some(200));
    assert_eq!(resp.message.as_deref(), Some("Success"));
    assert_eq!(resp.data, Some("payload"));
    assert!(resp.errors.is_none());
    assert!(resp.is_success());
    assert!(!resp.is_client_error());
    assert!(!resp.is_server_error());
}

#[test]
fn test_created_envelope_shape() {
    let resp = ApiResponse::created(7u64);
    assert_eq!(resp.status, Some(201));
    assert_eq!(resp.message.as_deref(), Some("Created successfully."));
    assert_eq!(resp.data, Some(7));
    assert!(resp.is_success());
}

#[test]
fn test_no_content_envelope_shape() {
    let resp: ApiResponse<()> = ApiResponse::no_content();
    assert_eq!(resp.status, Some(204));
    assert!(resp.message.is_none());
    assert!(resp.data.is_none());
    assert!(resp.errors.is_none());
}

#[test]
fn test_into_result_of_empty_envelope() {
    let resp: ApiResponse<String> = ApiResponse::new(Some(500), None, None, None);
    let errs = resp.into_result().err().unwrap();
    assert_eq!(errs.len(), 1);
    assert_eq!(errs[0].code, 500);
    assert_eq!(errs[0].message, "no data");

    let bare: ApiResponse<String> = ApiResponse::new(None, Some("gone".to_string()), None, None);
    let errs = bare.into_result().err().unwrap();
    assert_eq!(errs[0].code, 0);
    assert_eq!(errs[0].message, "gone");
}

#[test]
fn test_with_errors_defaults_to_bad_request() {
    let errs = vec![ApiError::new(422, "bad field")];
    let resp: ApiResponse<()> = ApiResponse::with_errors(errs.clone());
    assert_eq!(resp.status, Some(400));
    assert_eq!(resp.errors, Some(errs));
}

#[test]
fn test_with_errors_status_keeps_status() {
    let errs = vec![ApiError::new(503, "down")];
    let resp: ApiResponse<()> = ApiResponse::with_errors_status(503, errs);
    assert_eq!(resp.status, Some(503));
    assert!(resp.is_server_error());
}

#[test]
fn test_registration_error_maps_to_bad_request() {
    let e = RegistrationError::Identity(UserNameError::TooShort);
    let app = AppError::of_registration(&e);
    assert!(matches!(app, AppError::BadRequest(_)));
    assert_eq!(
        AppError::of_registration(&e).message(),
        "Username too short (min 3 characters)"
    );
    let conflict = AppError::of_registration(&RegistrationError::Conflict);
    assert_eq!(conflict.message(), "Username already exists");
    let cred = AppError::of_registration(&RegistrationError::Credential(PasswordError::TooShort));
    assert_eq!(cred.message(), "Password too short");
}

#[test]
fn test_dto_shapes_carry_fields() {
    let request = UserRequest {
        username: "alice_01".to_string(),
        password: "correcthorsebattery".to_string(),
        email: "Alice@Test.com".to_string(),
    };
    assert_eq!(request.username, "alice_01");
    let response = UserResponse { id: "550e8400-e29b-41d4-a716-446655440000".to_string() };
    assert_eq!(response.id.len(), 36);
}

#[test]
fn test_unavailable_maps_to_generic_server_error() {
    let e = RegistrationError::Unavailable("connection refused".to_string());
    let app = AppError::of_registration(&e);
    assert!(matches!(app, AppError::InternalServerError(_)));
    // the raw infrastructure cause is not shown to the caller
    assert_eq!(app.message(), "service temporarily unavailable");
}
