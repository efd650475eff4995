use file_identify::shebang::{parse_shebang, ShebangTuple};

fn tuple(items: &[&str]) -> ShebangTuple {
    ShebangTuple::from_vec(items.iter().map(|s| s.to_string()).collect())
}

#[test]
fn test_parse_shebang_basic() {
    let components = parse_shebang(b"#!/usr/bin/python");
    assert_eq!(components, tuple(&["/usr/bin/python"]));

    let components = parse_shebang(b"#!/usr/bin/env python");
    assert_eq!(components, tuple(&["python"]));
}

#[test]
fn test_parse_shebang_env_with_flags() {
    let components = parse_shebang(b"#!/usr/bin/env -S python -u");
    assert_eq!(components, tuple(&["python", "-u"]));
}

#[test]
fn test_parse_shebang_spaces() {
    let components = parse_shebang(b"#! /usr/bin/python");
    assert_eq!(components, tuple(&["/usr/bin/python"]));

    let components = parse_shebang(b"#!/usr/bin/foo  python");
    assert_eq!(components, tuple(&["/usr/bin/foo", "python"]));
}

#[test]
fn test_parse_shebang_no_shebang() {
    let components = parse_shebang(b"import sys");
    assert!(components.is_empty());

    let components = parse_shebang(b"");
    assert!(components.is_empty());
}

#[test]
fn test_parse_shebang_invalid_utf8() {
    let components = parse_shebang(&[0x23, 0x21, 0xf9, 0x93, 0x01, 0x42, 0xcd]);
    assert!(components.is_empty());
}

#[test]
fn test_shebang_incomplete() {
    let shebang_incomplete = parse_shebang(b"#!   \n");
    assert!(shebang_incomplete.is_empty());
}

#[test]
fn test_comprehensive_shebang_parsing() {
    let test_cases = vec![
        "",
        "#!/usr/bin/python",
        "#!/usr/bin/env python",
        "#! /usr/bin/python",
        "#!/usr/bin/foo  python",
        "#!/usr/bin/env -S python -u",
        "#!/usr/bin/env",
        "#!/usr/bin/env -S",
    ];

    for input in test_cases {
        let components = parse_shebang(input.as_bytes());

        match input {
            "" => assert!(components.is_empty()),
            "#!/usr/bin/python" => assert_eq!(components, tuple(&["/usr/bin/python"])),
            "#!/usr/bin/env python" => assert_eq!(components, tuple(&["python"])),
            "#! /usr/bin/python" => assert_eq!(components, tuple(&["/usr/bin/python"])),
            "#!/usr/bin/foo  python" => {
                assert_eq!(components, tuple(&["/usr/bin/foo", "python"]))
            }
            "#!/usr/bin/env -S python -u" => {
                assert_eq!(components, tuple(&["python", "-u"]))
            }
            "#!/usr/bin/env" => {
                assert!(
                    components.is_empty(),
                    "Got components: {:?} for input: '{}'",
                    components,
                    input
                );
            }
            "#!/usr/bin/env -S" => {
                assert!(
                    components.is_empty(),
                    "Got components: {:?} for input: '{}'",
                    components,
                    input
                );
            }
            _ => {}
        }
    }
}

#[test]
fn test_invalid_utf8_shebang() {
    let invalid_utf8_cases = vec![
        &[0xf9, 0x93, 0x01, 0x42, 0xcd][..],
        &[0x23, 0x21, 0xf9, 0x93, 0x01, 0x42, 0xcd][..],
        &[0x23, 0x21, 0x00, 0x00, 0x00, 0x00][..],
    ];

    for input in invalid_utf8_cases {
        let components = parse_shebang(input);
        assert!(components.is_empty());
    }
}

#[test]
fn test_shebang_reads_only_first_line() {
    let components = parse_shebang(b"#!/bin/sh -e\r\n#!/usr/bin/python\n");
    assert_eq!(components, tuple(&["/bin/sh", "-e"]));
    assert!(parse_shebang(b"\n#!/bin/sh").is_empty());
}

#[test]
fn test_shebang_tabs_and_trailing_space() {
    let components = parse_shebang(b"#!\t/bin/bash\t-x  \n");
    assert_eq!(components, tuple(&["/bin/bash", "-x"]));
}

#[test]
fn test_shebang_rejects_control_and_non_ascii() {
    assert!(parse_shebang(b"#!/bin/sh\x07\n").is_empty());
    assert!(parse_shebang("#!/usr/bin/pythön".as_bytes()).is_empty());
    // Unicode white space around the command is trimmed away.
    let components = parse_shebang("#!\u{3000}/bin/sh\u{3000}".as_bytes());
    assert_eq!(components, tuple(&["/bin/sh"]));
}

#[test]
fn test_shebang_many_words() {
    let components = parse_shebang(b"#!/usr/bin/env -S a b c d e f g");
    assert_eq!(components, tuple(&["a", "b", "c", "d", "e", "f", "g"]));
    assert_eq!(components.len(), 7);
    assert_eq!(components.get(6), Some("g"));
    assert_eq!(components.get(7), None);
}

#[test]
fn test_shebang_line_is_cut_at_limit() {
    let mut content = b"#!/bin/".to_vec();
    content.extend(std::iter::repeat(b'x').take(2000));
    let components = parse_shebang(&content);
    assert_eq!(components.len(), 1);
    assert_eq!(components.first().unwrap().len(), 1024 - 2);
}

#[test]
fn test_shebang_tuple_accessors() {
    let empty = ShebangTuple::new();
    assert!(empty.is_empty());
    assert_eq!(empty.first(), None);
    assert_eq!(empty, ShebangTuple::default());

    let t = tuple(&["python", "-u"]);
    assert_eq!(t.len(), 2);
    assert_eq!(t.first(), Some("python"));
    assert_eq!(t.get(1), Some("-u"));
    assert_eq!(t.as_slice(), &["python".to_string(), "-u".to_string()][..]);
    let collected: Vec<&String> = t.iter().collect();
    assert_eq!(collected, vec!["python", "-u"]);
    assert_eq!(t.clone().into_vec(), vec!["python".to_string(), "-u".to_string()]);
}

#[test]
fn test_shebang_tuple_display() {
    assert_eq!(ShebangTuple::new().to_display_string(), "()");
    assert_eq!(tuple(&["python"]).to_display_string(), "('python',)");
    assert_eq!(tuple(&["python", "-u"]).to_display_string(), "('python', '-u')");
}

#[test]
fn test_shebang_tuple_from_vec() {
    let v = vec!["bash".to_string(), "-e".to_string()];
    let t: ShebangTuple = ShebangTuple::from(v.clone());
    assert_eq!(t, ShebangTuple::from_vec(v.clone()));
    assert_eq!(t.into_vec(), v);
}
