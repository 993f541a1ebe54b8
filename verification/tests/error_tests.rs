use simplefileshare::error::ErrorKind;

#[test]
fn each_failure_has_its_status() {
    assert_eq!(ErrorKind::Unauthorized.status_code(), 401);
    assert_eq!(ErrorKind::Forbidden.status_code(), 403);
    assert_eq!(ErrorKind::BadRequest.status_code(), 400);
    assert_eq!(ErrorKind::PayloadTooLarge.status_code(), 413);
    assert_eq!(ErrorKind::NotFound.status_code(), 404);
    assert_eq!(ErrorKind::InternalError.status_code(), 500);
}

#[test]
fn each_failure_has_its_fixed_text() {
    assert_eq!(ErrorKind::Unauthorized.message(), "Unauthorized");
    assert_eq!(ErrorKind::Forbidden.message(), "403 For Biden");
    assert_eq!(ErrorKind::BadRequest.message(), "400 Bad Request");
    assert_eq!(ErrorKind::PayloadTooLarge.message(), "File too LARGE");
    assert_eq!(ErrorKind::NotFound.message(), "404 Not Found");
    assert_eq!(ErrorKind::InternalError.message(), "500 Server Internal Error");
}

#[test]
fn no_two_failures_share_a_status() {
    let kinds = [
        ErrorKind::Unauthorized,
        ErrorKind::Forbidden,
        ErrorKind::BadRequest,
        ErrorKind::PayloadTooLarge,
        ErrorKind::NotFound,
        ErrorKind::InternalError,
    ];
    for a in kinds {
        for b in kinds {
            assert_eq!(a.status_code() == b.status_code(), a == b);
        }
        assert!((400..600).contains(&a.status_code()));
    }
}
