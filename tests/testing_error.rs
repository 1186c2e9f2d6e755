use leptos_cache::TestingLibraryError;
use leptos_cache::TestingLibraryErrorTrait;

#[test]
fn error_kinds_are_told_apart() {
    let nf = TestingLibraryError::not_found("id", "x".to_string());
    let more = TestingLibraryError::more_than_one("text", "y".to_string());
    assert!(nf.is_not_found() && !nf.is_more_than_one());
    assert!(more.is_more_than_one() && !more.is_not_found());
    assert_eq!(nf, TestingLibraryError::NotFound { method: "id", ident: "x".to_string() });
}

#[test]
fn results_report_their_error_kind() {
    let ok: Result<u8, TestingLibraryError> = Ok(1);
    assert!(!ok.is_not_found() && !ok.is_more_than_one());
    let err: Result<u8, TestingLibraryError> = Err(TestingLibraryError::not_found("id", "x".to_string()));
    assert!(err.is_not_found() && !err.is_more_than_one());
    let err2: Result<u8, TestingLibraryError> = Err(TestingLibraryError::more_than_one("id", "x".to_string()));
    assert!(err2.is_more_than_one());
}
