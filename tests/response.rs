use diet_backend::response::{ApiError, ApiResponse, JsonResponse};

#[test]
fn error_messages() {
    assert_eq!(ApiError::AccessDenied.to_string(), "Access denied (user cannot access the requested resource)");
    assert_eq!(ApiError::NotLoggedIn.to_string(), "User is not logged in (missing session_id)");
    assert_eq!(ApiError::DuplicateDiet.to_string(), "Failed to duplicate diet (try again)");
}

#[test]
fn response_envelopes() {
    match ApiResponse::<i32>::err(ApiError::QueryFood) {
        ApiResponse::Failure(f) => assert_eq!(f.err, "Failed to query food (try again)"),
        ApiResponse::Success(_) => panic!("expected a failure"),
    }
    assert!(matches!(ApiResponse::ok(5), ApiResponse::Success(5)));
    assert_eq!(JsonResponse::ok().err, "");
    assert_eq!(JsonResponse::err("bad".to_string()).err, "bad");
}
