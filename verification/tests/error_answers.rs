use example_indexer::api::error::{text_marks_not_found, Error};

fn service_error(text: &str) -> anyhow::Error {
    anyhow::Error::msg(text.to_string())
}

fn json_error() -> serde_json::Error {
    serde_json::from_str::<u8>("not json").unwrap_err()
}

#[test]
fn not_found_texts_are_recognised() {
    assert!(text_marks_not_found("user not found"));
    assert!(text_marks_not_found("cant find pool 0:abc"));
    assert!(text_marks_not_found("none pair for tokens"));
    assert!(!text_marks_not_found("connection refused"));
    assert!(!text_marks_not_found("Not Found"));
    assert!(!text_marks_not_found(""));
    assert!(!text_marks_not_found("not foun"));
}

#[test]
fn missing_object_becomes_not_found() {
    let err = Error::from_anyhow(service_error("pair not found"));
    assert!(matches!(err, Error::NotFound));
    assert_eq!(err.status_code(), 404);
    assert_eq!(err.reason(), "not found");
}

#[test]
fn other_service_error_is_kept() {
    let err = Error::from_anyhow(service_error("timeout"));
    assert!(matches!(err, Error::Anyhow(_)));
    assert_eq!(err.status_code(), 500);
    assert_eq!(err.reason(), "an internal server error occurred: timeout");
    assert_eq!(err.detail(), "timeout");
}

#[test]
fn classify_goes_by_the_given_text() {
    let err = Error::classify(service_error("anything"), "cant find pool");
    assert!(matches!(err, Error::NotFound));
    let err = Error::classify(service_error("pool not found"), "other");
    assert!(matches!(err, Error::Anyhow(_)));
}

#[test]
fn status_codes_of_each_variant() {
    assert_eq!(Error::Sqlx(sqlx::Error::RowNotFound).status_code(), 500);
    assert_eq!(Error::Anyhow(service_error("x")).status_code(), 500);
    assert_eq!(Error::Decode(hex::FromHexError::OddLength).status_code(), 400);
    assert_eq!(Error::Serde(json_error()).status_code(), 400);
    assert_eq!(Error::NotFound.status_code(), 404);
}

#[test]
fn reasons_of_each_variant() {
    assert_eq!(Error::Sqlx(sqlx::Error::RowNotFound).reason(), "an error occurred with the database");
    assert_eq!(Error::Decode(hex::FromHexError::OddLength).reason(), "hex error occurred");
    assert_eq!(Error::Serde(json_error()).reason(), "serde error occurred");
    assert_eq!(Error::NotFound.reason(), "not found");
    assert_eq!(Error::NotFound.reason_with("ignored"), "not found");
    assert_eq!(
        Error::Anyhow(service_error("x")).reason_with("boom"),
        "an internal server error occurred: boom"
    );
}

#[test]
fn which_errors_are_logged() {
    assert!(Error::Sqlx(sqlx::Error::RowNotFound).logs_on_response());
    assert!(Error::Decode(hex::FromHexError::OddLength).logs_on_response());
    assert!(Error::Serde(json_error()).logs_on_response());
    assert!(!Error::NotFound.logs_on_response());
    assert!(Error::Anyhow(service_error("db down")).logs_on_response());
    assert!(!Error::Anyhow(service_error("empty result")).logs_on_response());
    assert!(!Error::Anyhow(service_error("x")).logged_with("list is empty"));
}

#[test]
fn outside_errors_convert_to_their_variants() {
    assert!(matches!(Error::from(sqlx::Error::RowNotFound), Error::Sqlx(_)));
    assert!(matches!(Error::from(hex::FromHexError::OddLength), Error::Decode(_)));
    assert!(matches!(Error::from(json_error()), Error::Serde(_)));
}

#[test]
fn same_kind_errors_get_the_same_answer() {
    let a = Error::Sqlx(sqlx::Error::RowNotFound);
    let b = Error::Sqlx(sqlx::Error::PoolTimedOut);
    assert_eq!(a.status_code(), b.status_code());
    assert_eq!(a.reason(), b.reason());
    assert_eq!(a.reason(), "an error occurred with the database");
    let a = Error::Decode(hex::FromHexError::OddLength);
    let b = Error::Decode(hex::FromHexError::InvalidStringLength);
    assert_eq!(a.status_code(), b.status_code());
    assert_eq!(a.reason(), b.reason());
    assert_eq!(Error::Serde(json_error()).reason(), "serde error occurred");
}
