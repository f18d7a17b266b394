use attest::lang::{contains_ignoring_case, find_lang_code, search_langs};

fn menu() -> Vec<(String, String)> {
    vec![
        ("C++ 20 (gcc 12.2)".to_string(), "5001".to_string()),
        ("Python (CPython 3.11.4)".to_string(), "5055".to_string()),
        ("Python (PyPy 3.10)".to_string(), "5078".to_string()),
        ("Rust (rustc 1.70.0)".to_string(), "5054".to_string()),
    ]
}

#[test]
fn lang_code_by_exact_name() {
    assert_eq!(find_lang_code(&menu(), "Rust (rustc 1.70.0)"), Some("5054".to_string()));
    assert_eq!(find_lang_code(&menu(), "rust (rustc 1.70.0)"), None);
    assert_eq!(find_lang_code(&menu(), "Rust"), None);
}

#[test]
fn lang_search_ignores_ascii_case() {
    assert_eq!(
        search_langs(&menu(), "PYTHON"),
        vec!["Python (CPython 3.11.4)".to_string(), "Python (PyPy 3.10)".to_string()]
    );
    assert_eq!(search_langs(&menu(), "rust"), vec!["Rust (rustc 1.70.0)".to_string()]);
    assert!(search_langs(&menu(), "haskell").is_empty());
    assert_eq!(search_langs(&menu(), "").len(), 4);
}

#[test]
fn substring_ignoring_case() {
    assert!(contains_ignoring_case("Hello World", "o w"));
    assert!(contains_ignoring_case("abc", ""));
    assert!(!contains_ignoring_case("ab", "abc"));
    assert!(!contains_ignoring_case("abc", "abd"));
}

