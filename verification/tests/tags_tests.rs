use file_identify::tags::{
    all_tags, encoding_tags, is_encoding_tag, is_mode_tag, is_type_tag, mode_tags, tags_from_array,
    tags_to_json, type_tags, TagSet,
};

#[test]
fn test_all_basic_tags_exist() {
    assert!(type_tags().contains("file"));
    assert!(type_tags().contains("directory"));
    assert!(mode_tags().contains("executable"));
    assert!(encoding_tags().contains("text"));
}

#[test]
fn test_tag_groups_are_disjoint() {
    assert!(type_tags().is_disjoint(&mode_tags()));
    assert!(type_tags().is_disjoint(&encoding_tags()));
    assert!(mode_tags().is_disjoint(&encoding_tags()));
}

#[test]
fn test_all_tags_contains_basics() {
    let all = all_tags();
    // type tags
    assert!(all.contains("file"));
    assert!(all.contains("directory"));
    // mode tags
    assert!(all.contains("executable"));
    assert!(all.contains("non-executable"));
    // encoding tags
    assert!(all.contains("text"));
    assert!(all.contains("binary"));
    // language tags from extensions
    assert!(all.contains("python"));
    assert!(all.contains("rust"));
    assert!(all.contains("javascript"));
    assert!(all.contains("json"));
    // tags from interpreters
    assert!(all.contains("shell"));
    assert!(all.contains("ruby"));
    assert!(all.contains("perl"));
}

#[test]
fn test_all_tags_does_not_contain_garbage() {
    assert!(!all_tags().contains("notarealtag"));
}

#[test]
fn test_tag_group_predicates() {
    for t in ["directory", "file", "symlink", "socket"] {
        assert!(is_type_tag(t));
        assert!(!is_mode_tag(t));
        assert!(!is_encoding_tag(t));
    }
    for t in ["executable", "non-executable"] {
        assert!(is_mode_tag(t));
        assert!(!is_type_tag(t));
    }
    for t in ["text", "binary"] {
        assert!(is_encoding_tag(t));
        assert!(!is_type_tag(t));
    }
    assert!(!is_type_tag("python"));
    assert!(!is_type_tag("File"));
}

#[test]
fn test_tag_set_insert_and_contains() {
    let mut tags = TagSet::new();
    assert!(tags.is_empty());
    assert!(tags.insert("text"));
    assert!(!tags.insert("text"));
    assert!(tags.insert("python"));
    assert_eq!(tags.len(), 2);
    assert!(tags.contains("text"));
    assert!(tags.contains("python"));
    assert!(!tags.contains("binary"));
    assert!(!tags.is_empty());
}

#[test]
fn test_tag_set_extend_is_union() {
    let mut a = tags_from_array(&["text", "python"]);
    let b = tags_from_array(&["python", "python3", "text"]);
    a.extend(&b);
    assert_eq!(a.len(), 3);
    assert!(a.contains("python3"));
    assert!(!a.is_disjoint(&b));
    let c = tags_from_array(&["binary"]);
    assert!(a.is_disjoint(&c));
}

#[test]
fn test_tags_from_array_removes_duplicates() {
    let tags = tags_from_array(&["a", "b", "a", "a"]);
    assert_eq!(tags.len(), 2);
    let v = tags.to_vec();
    assert_eq!(v, vec!["a", "b"]);
    let copy = tags.clone();
    assert_eq!(copy.to_vec(), v);
}

#[test]
fn test_tags_to_json() {
    assert_eq!(tags_to_json(&[]), "[]");
    assert_eq!(tags_to_json(&["text"]), "[\"text\"]");
    assert_eq!(
        tags_to_json(&["file", "non-executable", "rust", "text"]),
        "[\"file\", \"non-executable\", \"rust\", \"text\"]"
    );
}
