use flat_error::{ExtendedError, FlatError, SourceError};

// ------------------------------------------------------------------------------------------------
// Test Fixtures
// ------------------------------------------------------------------------------------------------

fn my_error() -> SourceError {
    SourceError::new("test_lib::MyError".to_string(), "MyError!".to_string())
}

fn chained_error() -> SourceError {
    let inner = SourceError::new("test_lib::Inner".to_string(), "inner".to_string());
    SourceError::with_cause("test_lib::Outer".to_string(), "outer".to_string(), inner)
}

// ------------------------------------------------------------------------------------------------
// Integration Tests
// ------------------------------------------------------------------------------------------------

#[test]
fn test_my_error() {
    assert_eq!(my_error().message(), "MyError!".to_string());
}

#[test]
fn test_my_error_as_flat() {
    let err = FlatError::from_any(&my_error());
    assert_eq!(err.to_compact_string(), "MyError!".to_string());
}

#[test]
fn test_my_error_as_flat_alt() {
    let err = FlatError::from_any(&my_error());
    assert_eq!(
        err.to_verbose_string(),
        "MyError! (original type: `test_lib::MyError`)".to_string()
    );
}

#[test]
fn test_my_error_type_name() {
    let err = FlatError::from_any(&my_error());
    assert_eq!(err.original_type_name(), "test_lib::MyError");
}

#[test]
fn test_compact_equals_message() {
    let source = chained_error();
    let err = FlatError::from_any(&source);
    assert_eq!(err.to_compact_string(), source.message());
}

#[test]
fn test_snapshot_outlives_source() {
    let err = {
        let source = my_error();
        FlatError::from_any(&source)
    };
    assert_eq!(err.to_compact_string(), "MyError!".to_string());
    assert_eq!(err.original_type_name(), "test_lib::MyError");
}

#[test]
fn test_chain_depth_preserved() {
    let deepest = SourceError::new("test_lib::C".to_string(), "c".to_string());
    let middle = SourceError::with_cause("test_lib::B".to_string(), "b".to_string(), deepest);
    let top = SourceError::with_cause("test_lib::A".to_string(), "a".to_string(), middle);
    let err = FlatError::from_any(&top);
    let first = err.flat_source().expect("depth three has a first cause");
    let second = first.flat_source().expect("depth three has a second cause");
    assert!(second.flat_source().is_none());
    assert_eq!(first.to_compact_string(), "b".to_string());
    assert_eq!(second.to_compact_string(), "c".to_string());
}

#[test]
fn test_capture_deterministic() {
    let source = chained_error();
    assert_eq!(FlatError::from_any(&source), FlatError::from_any(&source));
}

#[test]
fn test_distinct_messages_unequal() {
    let a = FlatError::from_any(&SourceError::new("L".to_string(), "one".to_string()));
    let b = FlatError::from_any(&SourceError::new("L".to_string(), "two".to_string()));
    assert_ne!(a, b);
}

#[test]
fn test_distinct_labels_unequal() {
    let a = FlatError::from_any(&SourceError::new("L1".to_string(), "same".to_string()));
    let b = FlatError::from_any(&SourceError::new("L2".to_string(), "same".to_string()));
    assert_ne!(a, b);
}

#[test]
fn test_distinct_cause_chains_unequal() {
    let with_cause = FlatError::from_any(&chained_error());
    let without_cause = FlatError::from_any(&SourceError::new(
        "test_lib::Outer".to_string(),
        "outer".to_string(),
    ));
    assert_ne!(with_cause, without_cause);
}

#[test]
fn test_clone_equal_and_independent() {
    let original = FlatError::from_any(&chained_error());
    let copy = original.clone();
    assert_eq!(copy, original);
    drop(original);
    assert_eq!(copy.to_compact_string(), "outer".to_string());
}

#[test]
fn test_chained_verbose_rendering() {
    let err = FlatError::from_any(&chained_error());
    assert_eq!(
        err.to_verbose_string(),
        "outer (source: inner, original type: `test_lib::Outer`)".to_string()
    );
    assert_eq!(
        err.flat_source().unwrap().to_compact_string(),
        "inner".to_string()
    );
}

#[test]
fn test_verbose_discloses_single_level() {
    let deepest = SourceError::new("test_lib::C".to_string(), "c".to_string());
    let middle = SourceError::with_cause("test_lib::B".to_string(), "b".to_string(), deepest);
    let top = SourceError::with_cause("test_lib::A".to_string(), "a".to_string(), middle);
    let err = FlatError::from_any(&top);
    assert_eq!(
        err.to_verbose_string(),
        "a (source: b, original type: `test_lib::A`)".to_string()
    );
}

#[test]
fn test_type_label_nonempty() {
    let err = FlatError::from_any(&my_error());
    assert!(!err.original_type_name().is_empty());
}

#[test]
fn test_recapture_of_snapshot() {
    let once = FlatError::from_any(&chained_error());
    let twice = FlatError::from_any(&once);
    assert_eq!(twice, once);
    assert_eq!(twice.to_verbose_string(), once.to_verbose_string());
}

#[test]
fn test_source_error_accessors() {
    let source = chained_error();
    assert_eq!(source.type_label(), "test_lib::Outer".to_string());
    assert_eq!(source.message(), "outer".to_string());
    let cause = source.cause().expect("a chained failure has a cause");
    assert_eq!(cause.message(), "inner".to_string());
    assert!(cause.cause().is_none());
}

#[test]
fn test_source_error_equality_and_clone() {
    let a = chained_error();
    let b = chained_error();
    assert_eq!(a, b);
    assert_eq!(a.clone(), b);
    assert_ne!(a, my_error());
}

#[test]
fn test_empty_message_rendering() {
    let err = FlatError::from_any(&SourceError::new("L".to_string(), "".to_string()));
    assert_eq!(err.to_compact_string(), "".to_string());
    assert_eq!(err.to_verbose_string(), " (original type: `L`)".to_string());
}
