//! Tests of label key normalization.

use gcp_metrics_exporter::labels::normalize_label_key;

fn is_legal(s: &str) -> bool {
    let mut chars = s.chars();
    match chars.next() {
        None => return false,
        Some(c) => {
            if !(c.is_ascii_alphabetic() || c == '_') {
                return false;
            }
        },
    }
    s.chars().all(|c| c.is_ascii_alphanumeric() || c == '_')
}

#[test]
fn test_normalize_label_key_legal_key_unchanged() {
    assert_eq!(normalize_label_key("abc_123"), "abc_123");
    assert_eq!(normalize_label_key("_private"), "_private");
    assert_eq!(normalize_label_key("CamelCase9"), "CamelCase9");
}

#[test]
fn test_invalid_label_keys() {
    assert_eq!(normalize_label_key("1some.invalid$\\key"), "key_1some_invalid__key");
}

#[test]
fn test_normalize_label_key_replaces_illegal_characters() {
    assert_eq!(normalize_label_key("service.name"), "service_name");
    assert_eq!(normalize_label_key("a-b c"), "a_b_c");
    assert_eq!(normalize_label_key("héllo"), "h_llo");
}

#[test]
fn test_normalize_label_key_prefixes_illegal_start() {
    assert_eq!(normalize_label_key("9lives"), "key_9lives");
    assert_eq!(normalize_label_key(".dot"), "key__dot");
    assert_eq!(normalize_label_key(""), "key_");
}

#[test]
fn test_normalize_label_key_output_is_legal() {
    for key in ["", "abc", "9x", "1some.invalid$\\key", "---", "münchen", "a b"] {
        assert!(is_legal(&normalize_label_key(key)), "illegal result for {:?}", key);
    }
}

#[test]
fn test_normalize_label_key_idempotent() {
    for key in ["", "abc", "9x", "1some.invalid$\\key", "---", "münchen", "_ok", "A1"] {
        let once = normalize_label_key(key);
        let twice = normalize_label_key(&once);
        assert_eq!(once, twice, "not idempotent for {:?}", key);
    }
}
