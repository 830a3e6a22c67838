use mtl_vision::text::{chars_of, contains_str, decimal_string};

#[test]
fn contains_finds_substrings() {
    assert!(contains_str("glm-ocr:latest", "glm-ocr"));
    assert!(contains_str("library/glm-ocr", "glm-ocr"));
    assert!(!contains_str("llama3:8b", "glm-ocr"));
    assert!(!contains_str("glm-oc", "glm-ocr"));
    assert!(contains_str("", ""));
    assert!(contains_str("x", ""));
}

#[test]
fn decimal_string_matches_to_string() {
    for n in [0u64, 1, 9, 10, 42, 100, 12345, u64::MAX] {
        assert_eq!(decimal_string(n), n.to_string());
    }
}

#[test]
fn chars_of_lists_characters() {
    assert_eq!(chars_of("aé𝄞"), vec!['a', 'é', '𝄞']);
}
