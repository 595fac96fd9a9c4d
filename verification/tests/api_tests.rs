use blogverse_auth::error::AppError;
use blogverse_auth::model::{User, UserResponse};
use blogverse_auth::response::{ApiResponse, ApiResponseWithStatus, EmptyData};

#[test]
fn success_responses() {
    let r = ApiResponse::success(7u64);
    assert!(r.success);
    assert!(r.message.is_none());
    assert_eq!(r.data, Some(7));

    let r = ApiResponse::success_with_message("done".to_string(), 9u64);
    assert!(r.success);
    assert_eq!(r.message.as_deref(), Some("done"));
    assert_eq!(r.data, Some(9));

    let r: ApiResponse<u64> = ApiResponse::error("broken".to_string());
    assert!(!r.success);
    assert_eq!(r.message.as_deref(), Some("broken"));
    assert!(r.data.is_none());

    let r = ApiResponse::ok("fine".to_string());
    assert!(r.success);
    assert_eq!(r.message.as_deref(), Some("fine"));
    assert!(r.data.is_none());
}

#[test]
fn status_wrappers() {
    let r = ApiResponse::success(1u64).created();
    assert_eq!(r.status, 201);
    assert!(r.response.success);

    assert_eq!(ApiResponse::success(1u64).accepted().status, 202);
    assert_eq!(ApiResponse::success(1u64).no_content().status, 204);
    assert_eq!(ApiResponse::success(1u64).with_status(418).status, 418);

    let r = ApiResponse::created_ok("made".to_string());
    assert_eq!(r.status, 201);
    assert_eq!(r.response.message.as_deref(), Some("made"));

    let r: ApiResponseWithStatus<EmptyData> =
        ApiResponseWithStatus::new(503, ApiResponse::error("down".to_string()));
    assert_eq!(r.status, 503);
    assert!(!r.response.success);
}

#[test]
fn error_taxonomy_codes_and_messages() {
    assert_eq!(AppError::InternalServerError.status_code(), 500);
    assert_eq!(AppError::InternalServerError.message(), "Internal Server Error");
    assert_eq!(AppError::BadRequest("bad".to_string()).status_code(), 400);
    assert_eq!(AppError::BadRequest("bad".to_string()).message(), "bad");
    assert_eq!(AppError::Unauthorized.status_code(), 401);
    assert_eq!(AppError::Unauthorized.message(), "Unauthorized");
    assert_eq!(AppError::NotFound("gone".to_string()).status_code(), 404);
    assert_eq!(AppError::Conflict("dup".to_string()).status_code(), 409);
    assert_eq!(AppError::UnprocessableEntity("nope".to_string()).status_code(), 422);
}

#[test]
fn public_projection_omits_the_hash() {
    let user = User {
        id: 3,
        username: "carol".to_string(),
        email: "c@x.com".to_string(),
        bio: Some("writes".to_string()),
        image: None,
        password_hash: "$argon2id$secret".to_string(),
        email_verified: true,
        created_at: 1,
        updated_at: 2,
    };
    let public = UserResponse::from(user);
    assert_eq!(public.id, 3);
    assert_eq!(public.username, "carol");
    assert_eq!(public.email, "c@x.com");
    assert_eq!(public.bio.as_deref(), Some("writes"));
    assert!(public.image.is_none());
    assert!(public.email_verified);
}
