use file_identify::extensions::{
    check_keys_disjoint, check_keys_have_one_encoding, check_rows_have_no_encoding,
    get_extension_tags, get_extensions_need_binary_check_tags, get_name_tags,
    EXTENSIONS_NEED_BINARY_CHECK_TAGS, EXTENSION_TAGS, NAME_TAGS,
};
use file_identify::interpreters::get_interpreter_tags;

#[test]
fn test_extensions_have_binary_or_text() {
    assert!(check_keys_have_one_encoding(&EXTENSION_TAGS));
}

#[test]
fn test_names_have_binary_or_text() {
    assert!(check_keys_have_one_encoding(&NAME_TAGS));
}

#[test]
fn test_need_binary_check_do_not_specify_text_binary() {
    assert!(check_rows_have_no_encoding(&EXTENSIONS_NEED_BINARY_CHECK_TAGS));
}

#[test]
fn test_mutually_exclusive_check_types() {
    assert!(check_keys_disjoint(&EXTENSION_TAGS, &EXTENSIONS_NEED_BINARY_CHECK_TAGS));
}

#[test]
fn test_checks_reject_bad_tables() {
    let both = [("x", "text"), ("x", "binary"), ("y", "text")];
    assert!(!check_keys_have_one_encoding(&both));
    let neither = [("x", "python")];
    assert!(!check_keys_have_one_encoding(&neither));
    assert!(!check_rows_have_no_encoding(&[("x", "binary")]));
    assert!(!check_keys_disjoint(&[("a", "t"), ("b", "t")], &[("c", "t"), ("b", "u")]));
    assert!(check_keys_disjoint(&[("a", "t")], &[("c", "t")]));
}

#[test]
fn test_table_lookups() {
    let py = get_extension_tags("py");
    assert_eq!(py.len(), 2);
    assert!(py.contains("python") && py.contains("text"));
    assert!(get_extension_tags("PY").is_empty());
    let plist = get_extensions_need_binary_check_tags("plist");
    assert_eq!(plist.len(), 1);
    assert!(plist.contains("plist"));
    let cargo = get_name_tags("Cargo.toml");
    assert!(cargo.contains("cargo") && cargo.contains("toml") && cargo.contains("text"));
    let bash = get_interpreter_tags("bash");
    assert_eq!(bash.len(), 2);
    assert!(bash.contains("shell") && bash.contains("bash"));
    assert!(get_interpreter_tags("python3.11").is_empty());
}
