use std::io::{Error, ErrorKind};

use better_ls::errors::{exhaustive_io_error_mapping, BetterLsError, IoErrorCategory};

#[test]
fn maps_not_found() {
    let e = exhaustive_io_error_mapping(Error::new(ErrorKind::NotFound, "x"), "file".to_string());
    assert!(matches!(e, BetterLsError::NotFound(ref c) if c == "file"));
    assert_eq!(e.message(), "Entry not found: file");
    assert!(e.source().is_none());
}

#[test]
fn maps_permission_denied() {
    let e = exhaustive_io_error_mapping(
        Error::new(ErrorKind::PermissionDenied, "x"),
        "dir".to_string(),
    );
    assert!(matches!(e, BetterLsError::Unauthorized(ref c) if c == "dir"));
    assert_eq!(e.message(), "Unauthorized access: dir");
}

#[test]
fn maps_other_errors_to_unknown() {
    let e = exhaustive_io_error_mapping(Error::new(ErrorKind::Other, "boom"), "dir".to_string());
    assert!(matches!(e, BetterLsError::Unknown(_)));
    assert_eq!(e.message(), "Unknown error! boom");
    assert_eq!(e.source().map(|s| s.to_string()), Some("boom".to_string()));
}

#[test]
fn from_category_is_exact() {
    let e = BetterLsError::from_category(
        IoErrorCategory::PermissionDenied,
        Error::new(ErrorKind::NotFound, "x"),
        "c".to_string(),
    );
    assert!(matches!(e, BetterLsError::Unauthorized(ref c) if c == "c"));
}
