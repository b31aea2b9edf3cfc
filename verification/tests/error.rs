use book_manager::shared::error::{
    AppError, BAD_REQUEST, INTERNAL_SERVER_ERROR, NOT_FOUND, UNAUTHORIZED,
};

#[test]
fn the_status_constants_are_the_http_numbers() {
    assert_eq!(BAD_REQUEST, 400);
    assert_eq!(UNAUTHORIZED, 401);
    assert_eq!(NOT_FOUND, 404);
    assert_eq!(INTERNAL_SERVER_ERROR, 500);
}

#[test]
fn a_missing_record_is_reported_as_404() {
    assert_eq!(AppError::EntityNotFound("book".to_string()).status_code(), 404);
}

#[test]
fn a_broken_rule_is_reported_as_400() {
    assert_eq!(AppError::ValidationError(garde::Report::new()).status_code(), 400);
}

#[test]
fn both_failures_of_authentication_are_reported_as_401() {
    assert_eq!(AppError::UnauthenticatedError.status_code(), 401);
    assert_eq!(AppError::UnauthorizedError.status_code(), 401);
}

#[test]
fn failures_inside_are_reported_as_500() {
    let refused = redis::Client::open("no url at all").unwrap_err();
    assert_eq!(AppError::KeyValueStoreError(refused).status_code(), 500);
    assert_eq!(AppError::ConversionEntityError("x".to_string()).status_code(), 500);
}

#[test]
fn a_store_error_converts_to_the_key_value_store_error() {
    let refused = redis::Client::open("no url at all").unwrap_err();
    let text = refused.to_string();
    match AppError::from(refused) {
        AppError::KeyValueStoreError(inner) => assert_eq!(inner.to_string(), text),
        _ => panic!("the store's error must be wrapped"),
    }
}

#[test]
fn a_report_converts_to_the_validation_error() {
    let mut report = garde::Report::new();
    report.append(garde::Path::new("name"), garde::Error::new("too short"));
    match AppError::from(report) {
        AppError::ValidationError(inner) => {
            let entries: Vec<(String, String)> = inner
                .iter()
                .map(|(path, error)| (path.to_string(), error.message().to_string()))
                .collect();
            assert_eq!(entries, vec![("name".to_string(), "too short".to_string())]);
        }
        _ => panic!("the report must be wrapped"),
    }
}
