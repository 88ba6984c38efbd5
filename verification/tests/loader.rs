use config_loader::LoadError;
use config_loader::load_from_read;
use config_loader::load_str;

#[test]
fn loads_two_sentences() {
    let record = load_str("sentences:\n  - \"a\"\n  - \"b\"\n").unwrap();
    assert_eq!(record.sentences(), &vec!["a".to_string(), "b".to_string()]);
    assert_eq!(record.len(), 2);
}

#[test]
fn loads_unquoted_sentences() {
    let record = load_str("sentences:\n  - hello\n  - world\n").unwrap();
    assert_eq!(record.sentences(), &vec!["hello".to_string(), "world".to_string()]);
}

#[test]
fn keeps_order_and_duplicates() {
    let record = load_str("sentences:\n  - x\n  - x\n  - y\n").unwrap();
    assert_eq!(
        record.sentences(),
        &vec!["x".to_string(), "x".to_string(), "y".to_string()]
    );
}

#[test]
fn empty_sequence_is_valid() {
    let record = load_str("sentences: []\n").unwrap();
    assert_eq!(record.len(), 0);
}

#[test]
fn scalar_sentences_is_schema_mismatch() {
    let err = load_str("sentences: \"a\"").unwrap_err();
    assert!(matches!(err, LoadError::SchemaMismatch { .. }));
}

#[test]
fn mapping_sentences_is_schema_mismatch() {
    let err = load_str("sentences:\n  a: b\n").unwrap_err();
    assert!(matches!(err, LoadError::SchemaMismatch { .. }));
}

#[test]
fn number_element_is_schema_mismatch() {
    let err = load_str("sentences:\n  - a\n  - 1\n").unwrap_err();
    assert!(matches!(err, LoadError::SchemaMismatch { .. }));
}

#[test]
fn missing_key_is_schema_mismatch() {
    let err = load_str("other_key: 1").unwrap_err();
    assert!(matches!(err, LoadError::SchemaMismatch { .. }));
}

#[test]
fn top_level_sequence_is_schema_mismatch() {
    let err = load_str("- a\n- b\n").unwrap_err();
    assert!(matches!(err, LoadError::SchemaMismatch { .. }));
}

#[test]
fn empty_document_is_schema_mismatch() {
    let err = load_str("").unwrap_err();
    assert!(matches!(err, LoadError::SchemaMismatch { .. }));
}

#[test]
fn other_keys_are_walked_past() {
    let record = load_str("first: 1\nsecond: [x]\nsentences:\n  - a\n").unwrap();
    assert_eq!(record.sentences(), &vec!["a".to_string()]);
}

#[test]
fn truncated_sequence_is_parse_error() {
    let err = load_str("sentences: [").unwrap_err();
    assert!(matches!(err, LoadError::ParseError { .. }));
}

#[test]
fn tab_indentation_is_parse_error() {
    let err = load_str("sentences:\n\t- a\n").unwrap_err();
    assert!(matches!(err, LoadError::ParseError { .. }));
}

#[test]
fn failed_read_is_io_failure() {
    let err = load_from_read(Err("does_not_exist.yaml: no such file".to_string())).unwrap_err();
    assert!(matches!(err, LoadError::IoFailure { .. }));
    assert_eq!(err.cause().as_str(), "does_not_exist.yaml: no such file");
}

#[test]
fn successful_read_is_loaded() {
    let record = load_from_read(Ok("sentences:\n  - a\n".to_string())).unwrap();
    assert_eq!(record.sentences(), &vec!["a".to_string()]);
}

#[test]
fn record_is_consumable_in_order() {
    let record = load_str("sentences:\n  - first\n  - second\n").unwrap();
    assert_eq!(record.get(0).unwrap().as_str(), "first");
    assert_eq!(record.get(1).unwrap().as_str(), "second");
    assert!(record.get(2).is_none());
    let sentences = record.into_sentences();
    assert_eq!(sentences, vec!["first".to_string(), "second".to_string()]);
}

#[test]
fn loading_twice_gives_identical_content() {
    let text = "sentences:\n  - once\n  - again\n";
    let first = load_str(text).unwrap();
    let second = load_str(text).unwrap();
    assert_eq!(first.sentences(), second.sentences());
}
