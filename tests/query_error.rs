use rqe_iterators::query_error::{QueryError, QueryErrorCode, Warnings};

#[test]
fn code_texts() {
    assert_eq!(QueryErrorCode::Success.to_c_str(), "Success (not an error)");
    assert_eq!(
        QueryErrorCode::TimedOut.to_c_str(),
        "SEARCH_TIMED_OUT: Timeout limit was reached"
    );
    assert_eq!(
        QueryErrorCode::GeoFormat.to_c_str(),
        r#"SEARCH_GEO_FORMAT: Invalid lon/lat format. Use "lon lat" or "lon,lat""#
    );
    assert_eq!(
        QueryErrorCode::OutOfMemory.to_c_str(),
        "SEARCH_OUT_OF_MEMORY: Not enough memory available to execute the query"
    );
}

#[test]
fn only_success_is_ok() {
    assert!(QueryErrorCode::Success.is_ok());
    assert!(!QueryErrorCode::Generic.is_ok());
    assert!(QueryErrorCode::default().is_ok());
}

#[test]
fn first_error_wins() {
    let mut e = QueryError::default();
    assert!(e.is_ok());
    e.set_code(QueryErrorCode::Syntax);
    assert_eq!(e.code(), QueryErrorCode::Syntax);
    e.set_code(QueryErrorCode::Limit);
    assert_eq!(e.code(), QueryErrorCode::Syntax);
    e.set_code_and_message(QueryErrorCode::NoDoc, Some("late".to_string()));
    assert_eq!(e.code(), QueryErrorCode::Syntax);
    assert!(e.public_message().is_none());
}

#[test]
fn code_and_message_sets_both_messages() {
    let mut e = QueryError::default();
    e.set_code_and_message(QueryErrorCode::NoIndex, Some("idx".to_string()));
    assert_eq!(e.code(), QueryErrorCode::NoIndex);
    assert_eq!(e.public_message(), Some("idx"));
    assert_eq!(e.private_message(), Some("idx"));
    e.set_private_message(Some("secret".to_string()));
    assert_eq!(e.private_message(), Some("secret"));
    assert_eq!(e.public_message(), Some("idx"));
}

#[test]
fn warnings_and_clear() {
    let mut e = QueryError::default();
    assert!(!e.warnings().out_of_memory());
    e.warnings_mut().set_out_of_memory();
    assert!(e.warnings().out_of_memory());
    assert!(!e.warnings().reached_max_prefix_expansions());
    e.warnings_mut().set_reached_max_prefix_expansions();
    assert!(e.warnings().reached_max_prefix_expansions());
    e.set_code_and_message(QueryErrorCode::Generic, Some("x".to_string()));
    e.clear();
    assert!(e.is_ok());
    assert!(e.public_message().is_none());
    assert!(e.private_message().is_none());
    assert_eq!(*e.warnings(), Warnings::default());
}
