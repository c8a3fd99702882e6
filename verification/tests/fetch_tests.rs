use tinymemory::fetch::read_error;
use tinymemory::service::MemoryError;

#[test]
fn a_size_limit_failure_is_reported_as_budget_exceeded() {
    let error = read_error(
        "https://example.com/",
        "response body exceeds 8-byte limit (Content-Length=9)",
    );
    assert!(matches!(error, MemoryError::BudgetExceeded(_)), "got {error:?}");
}

#[test]
fn an_interrupted_read_is_reported_as_unreachable_not_budget_exceeded() {
    let error = read_error(
        "https://example.com/",
        "failed to read response body: connection reset",
    );
    assert!(matches!(error, MemoryError::Unreachable(_)), "got {error:?}");
}

#[test]
fn a_read_error_names_the_url_and_the_cause() {
    match read_error("https://example.com/", "failed to read response body: reset") {
        MemoryError::Unreachable(message) => {
            assert_eq!(message, "https://example.com/: failed to read response body: reset")
        }
        other => panic!("got {other:?}"),
    }
}
