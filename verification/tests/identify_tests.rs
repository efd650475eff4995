use file_identify::identify::{
    analyze_content_encoding, analyze_permissions_by_extension, analyze_file_type, analyze_filename_and_shebang, analyze_permissions,
    needs_content_encoding, needs_head, needs_shebang, regular_file_tags, regular_path_tags,
    tags_from_info, CustomExtensions,
    FileIdentifier, FileInfo,
};
use file_identify::names::{is_text, tags_from_filename, tags_from_interpreter};
use file_identify::shebang::parse_shebang;
use file_identify::tags::{tags_from_array, FileKind};

// Test tags_from_filename with various scenarios
#[test]
fn test_tags_from_filename_basic() {
    let tags = tags_from_filename("file.py");
    assert!(tags.contains("text"));
    assert!(tags.contains("python"));
}

#[test]
fn test_tags_from_filename_special_names() {
    let tags = tags_from_filename("Dockerfile");
    assert!(tags.contains("dockerfile"));
    assert!(tags.contains("text"));

    let tags = tags_from_filename("Makefile");
    assert!(tags.contains("makefile"));
    assert!(tags.contains("text"));

    let tags = tags_from_filename("Cargo.toml");
    assert!(tags.contains("toml"));
    assert!(tags.contains("cargo"));
}

#[test]
fn test_tags_from_filename_case_insensitive_extension() {
    let tags = tags_from_filename("image.JPG");
    assert!(tags.contains("binary"));
    assert!(tags.contains("image"));
    assert!(tags.contains("jpeg"));
}

#[test]
fn test_tags_from_filename_precedence() {
    // setup.cfg should match by name, not .cfg extension
    let tags = tags_from_filename("setup.cfg");
    assert!(tags.contains("ini"));
}

#[test]
fn test_tags_from_filename_complex_names() {
    let tags = tags_from_filename("Dockerfile.xenial");
    assert!(tags.contains("dockerfile"));

    let tags = tags_from_filename("README.md");
    assert!(tags.contains("markdown"));
    assert!(tags.contains("plain-text"));
}

#[test]
fn test_tags_from_filename_unrecognized() {
    let tags = tags_from_filename("unknown.xyz");
    assert!(tags.is_empty());

    let tags = tags_from_filename("noextension");
    assert!(tags.is_empty());
}

#[test]
fn test_multiple_extensions() {
    let tags = tags_from_filename("backup.tar.gz");
    assert!(tags.contains("binary"));
    assert!(tags.contains("gzip"));
}

#[test]
fn test_tags_from_filename_edge_cases() {
    // A name that starts with a dot has no extension of its own.
    let tags = tags_from_filename(".bashrc");
    assert!(tags.contains("bash") && tags.contains("shell") && tags.contains("text"));
    assert!(tags_from_filename(".py").is_empty());
    assert!(tags_from_filename("").is_empty());
    // Names are matched exactly; extensions ignore case.
    assert!(tags_from_filename("dockerfile").is_empty());
    let tags = tags_from_filename("MAIN.RS");
    assert!(tags.contains("rust"));
    // The name match and the extension both contribute.
    let tags = tags_from_filename("Dockerfile.txt");
    assert!(tags.contains("dockerfile") && tags.contains("plain-text"));
    // An extension whose encoding is read from content gives no encoding tag.
    let tags = tags_from_filename("Info.plist");
    assert_eq!(tags.len(), 1);
    assert!(tags.contains("plist"));
    // A path: the directories are dropped before names are looked up.
    let tags = tags_from_filename("src/lib.rs");
    assert!(tags.contains("rust"));
    let tags = tags_from_filename("some/dir/Dockerfile");
    assert!(tags.contains("dockerfile") && tags.contains("text"));
    assert_eq!(tags.len(), tags_from_filename("Dockerfile").len());
    let tags = tags_from_filename("a.b/Makefile");
    assert!(tags.contains("makefile"));
    assert!(tags_from_filename("Dockerfile/x").is_empty());
}

// Test tags_from_interpreter
#[test]
fn test_tags_from_interpreter_basic() {
    let tags = tags_from_interpreter("python3");
    assert!(tags.contains("python"));
    assert!(tags.contains("python3"));
}

#[test]
fn test_tags_from_interpreter_versioned() {
    let tags = tags_from_interpreter("python3.11.2");
    assert!(tags.contains("python"));
    assert!(tags.contains("python3"));

    let tags = tags_from_interpreter("php8.1");
    assert!(tags.contains("php"));
    assert!(tags.contains("php8"));
}

#[test]
fn test_tags_from_interpreter_with_path() {
    let tags = tags_from_interpreter("/usr/bin/python3");
    assert!(tags.contains("python"));
    assert!(tags.contains("python3"));
}

#[test]
fn test_tags_from_interpreter_unrecognized() {
    let tags = tags_from_interpreter("unknown-interpreter");
    assert!(tags.is_empty());

    let tags = tags_from_interpreter("");
    assert!(tags.is_empty());
}

#[test]
fn test_tags_from_interpreter_directories_ignored() {
    for dir in ["", "/bin", "/usr/local/bin", "relative/dir"] {
        let path = format!("{}/bash", dir);
        let tags = tags_from_interpreter(&path);
        assert_eq!(tags.len(), 2);
        assert!(tags.contains("shell") && tags.contains("bash"));
    }
    assert!(tags_from_interpreter("/usr/bin/").is_empty());
    assert!(tags_from_interpreter("python.").len() == 1);
    assert!(tags_from_interpreter(".python").is_empty());
}

// Test is_text function
#[test]
fn test_is_text_basic() {
    assert!(is_text(b"hello world"));
    assert!(is_text(b""));
    assert!(!is_text(b"hello\x00world"));
}

#[test]
fn test_is_text_unicode() {
    assert!(is_text("éóñəå  ⊂(◉‿◉)つ(ノ≥∇≤)ノ".as_bytes()));
    assert!(is_text(r"¯\_(ツ)_/¯".as_bytes()));
    assert!(is_text("♪┏(・o･)┛♪┗ ( ･o･) ┓♪".as_bytes()));
}

#[test]
fn test_is_text_binary_data() {
    // ELF header
    assert!(!is_text(&[0x7f, 0x45, 0x4c, 0x46, 0x02, 0x01, 0x01]));
    // Random binary data
    assert!(!is_text(&[0x43, 0x92, 0xd9, 0x0f, 0xaf, 0x32, 0x2c]));
}

#[test]
fn test_is_text_reads_only_head() {
    let mut content = vec![b'a'; 1024];
    content.push(0);
    assert!(is_text(&content));
    content[1023] = 0;
    assert!(!is_text(&content));
    for b in [7u8, 8, 9, 10, 11, 12, 13, 27] {
        assert!(is_text(&[b]));
    }
    for b in [0u8, 1, 6, 14, 26, 28, 31, 0x7f] {
        assert!(!is_text(&[b]));
    }
}

// Tests for tags_from_info (I/O-free API)

#[test]
fn test_tags_from_info_regular_file() {
    let info = FileInfo {
        filename: "script.py",
        file_kind: FileKind::Regular,
        is_executable: false,
        content: Some(b"print('hello')"),
    };
    let tags = tags_from_info(&info);
    assert!(tags.contains("file"));
    assert!(tags.contains("non-executable"));
    assert!(tags.contains("python"));
    assert!(tags.contains("text"));
}

#[test]
fn test_tags_from_info_directory() {
    let info = FileInfo {
        filename: "src",
        file_kind: FileKind::Directory,
        is_executable: false,
        content: None,
    };
    let tags = tags_from_info(&info);
    assert!(tags.contains("directory"));
    assert_eq!(tags.len(), 1);
}

#[test]
fn test_tags_from_info_symlink() {
    let info = FileInfo {
        filename: "link",
        file_kind: FileKind::Symlink,
        is_executable: false,
        content: None,
    };
    let tags = tags_from_info(&info);
    assert!(tags.contains("symlink"));
    assert_eq!(tags.len(), 1);
}

#[test]
fn test_tags_from_info_socket() {
    let info = FileInfo {
        filename: "sock",
        file_kind: FileKind::Socket,
        is_executable: false,
        content: None,
    };
    let tags = tags_from_info(&info);
    assert!(tags.contains("socket"));
    assert_eq!(tags.len(), 1);
}

#[test]
fn test_tags_from_info_executable_with_shebang() {
    let info = FileInfo {
        filename: "my-script",
        file_kind: FileKind::Regular,
        is_executable: true,
        content: Some(b"#!/usr/bin/env python3\nprint('hello')"),
    };
    let tags = tags_from_info(&info);
    assert!(tags.contains("file"));
    assert!(tags.contains("executable"));
    assert!(tags.contains("python"));
    assert!(tags.contains("python3"));
    assert!(tags.contains("text"));
}

#[test]
fn test_tags_from_info_binary_content() {
    let info = FileInfo {
        filename: "data.bin",
        file_kind: FileKind::Regular,
        is_executable: false,
        content: Some(&[0x7f, 0x45, 0x4c, 0x46, 0x00]),
    };
    let tags = tags_from_info(&info);
    assert!(tags.contains("file"));
    assert!(tags.contains("binary"));
}

#[test]
fn test_tags_from_info_no_content() {
    let info = FileInfo {
        filename: "unknown",
        file_kind: FileKind::Regular,
        is_executable: false,
        content: None,
    };
    let tags = tags_from_info(&info);
    assert!(tags.contains("file"));
    assert!(tags.contains("non-executable"));
    // No encoding tag since no content was provided
    assert!(!tags.contains("text"));
    assert!(!tags.contains("binary"));
}

#[test]
fn test_tags_from_info_extension_provides_encoding() {
    let info = FileInfo {
        filename: "app.js",
        file_kind: FileKind::Regular,
        is_executable: false,
        content: None,
    };
    let tags = tags_from_info(&info);
    assert!(tags.contains("javascript"));
    assert!(tags.contains("text"));
}

#[test]
fn test_tags_from_info_extension_encoding_wins_over_content() {
    let info = FileInfo {
        filename: "image.png",
        file_kind: FileKind::Regular,
        is_executable: false,
        content: Some(b"plain words"),
    };
    let tags = tags_from_info(&info);
    assert!(tags.contains("binary"));
    assert!(!tags.contains("text"));
    assert_eq!(tags.len(), 5);
}

#[test]
fn test_tags_from_info_non_executable_ignores_shebang() {
    let info = FileInfo {
        filename: "script",
        file_kind: FileKind::Regular,
        is_executable: false,
        content: Some(b"#!/bin/bash\necho hi"),
    };
    let tags = tags_from_info(&info);
    assert!(!tags.contains("bash"));
    assert!(tags.contains("text"));
    assert_eq!(tags.len(), 3);
}

#[test]
fn test_tags_from_info_recognized_name_skips_shebang() {
    let info = FileInfo {
        filename: "run.py",
        file_kind: FileKind::Regular,
        is_executable: true,
        content: Some(b"#!/bin/bash\n"),
    };
    let tags = tags_from_info(&info);
    assert!(tags.contains("python"));
    assert!(!tags.contains("bash"));
}

#[test]
fn test_identify_from_with_custom_extensions() {
    let mut custom = CustomExtensions::new();
    custom.insert("myext".to_string(), tags_from_array(&["text", "custom-lang"]));

    let identifier = FileIdentifier::new().with_custom_extensions(custom);
    let info = FileInfo {
        filename: "code.myext",
        file_kind: FileKind::Regular,
        is_executable: false,
        content: Some(b"some code"),
    };
    let tags = identifier.identify_from(&info);
    assert!(tags.contains("custom-lang"));
    assert!(tags.contains("text"));
}

#[test]
fn test_identify_from_skip_content() {
    let identifier = FileIdentifier::new().skip_content_analysis();
    let info = FileInfo {
        filename: "unknown",
        file_kind: FileKind::Regular,
        is_executable: false,
        content: Some(b"hello world"),
    };
    let tags = identifier.identify_from(&info);
    assert!(!tags.contains("text"));
    assert!(!tags.contains("binary"));
}

#[test]
fn test_identify_from_skip_shebang() {
    let identifier = FileIdentifier::new().skip_shebang_analysis();
    let info = FileInfo {
        filename: "my-script",
        file_kind: FileKind::Regular,
        is_executable: true,
        content: Some(b"#!/usr/bin/env python3\nprint('hello')"),
    };
    let tags = identifier.identify_from(&info);
    assert!(!tags.contains("python"));
    // Still detects text encoding
    assert!(tags.contains("text"));
}

#[test]
fn test_custom_extension_takes_precedence() {
    let mut custom = CustomExtensions::new();
    custom.insert("py".to_string(), tags_from_array(&["snake"]));
    let identifier = FileIdentifier::new().with_custom_extensions(custom);
    let info = FileInfo {
        filename: "Tool.PY",
        file_kind: FileKind::Regular,
        is_executable: true,
        content: Some(b"#!/bin/bash\n"),
    };
    let tags = identifier.identify_from(&info);
    assert!(tags.contains("snake"));
    assert!(!tags.contains("python"));
    assert!(!tags.contains("bash"));
    assert!(tags.contains("text"));
    assert_eq!(tags.len(), 4);
}

#[test]
fn test_custom_extensions_later_insert_replaces() {
    let mut custom = CustomExtensions::new();
    assert!(custom.get("a").is_none());
    custom.insert("a".to_string(), tags_from_array(&["one"]));
    custom.insert("b".to_string(), tags_from_array(&["two"]));
    custom.insert("a".to_string(), tags_from_array(&["three"]));
    let a = custom.get("a").unwrap();
    assert_eq!(a.len(), 1);
    assert!(a.contains("three"));
    assert!(custom.get("b").unwrap().contains("two"));
    assert!(custom.get("c").is_none());
}

#[test]
fn test_default_identifier_matches_tags_from_info() {
    let contents: [Option<&[u8]>; 4] = [
        None,
        Some(b"#!/bin/sh\n"),
        Some(&[0u8, 1, 2]),
        Some(b"plain"),
    ];
    for name in ["a.py", "Makefile", "script", "x.plist", "noext"] {
        for kind in [FileKind::Regular, FileKind::Directory, FileKind::Symlink, FileKind::Socket] {
            for exec in [false, true] {
                for content in contents {
                    let info = FileInfo { filename: name, file_kind: kind, is_executable: exec, content };
                    let a = tags_from_info(&info).to_vec();
                    let b = FileIdentifier::new().identify_from(&info).to_vec();
                    let mut a = a.clone();
                    let mut b = b.clone();
                    a.sort();
                    b.sort();
                    assert_eq!(a, b);
                }
            }
        }
    }
}

#[test]
fn test_path_steps() {
    assert!(analyze_file_type(FileKind::Regular).is_none());
    let dir = analyze_file_type(FileKind::Directory).unwrap();
    assert_eq!(dir.len(), 1);
    assert!(dir.contains("directory"));
    assert!(analyze_file_type(FileKind::Socket).unwrap().contains("socket"));
    assert!(analyze_permissions(0o755));
    assert!(analyze_permissions(0o100));
    assert!(analyze_permissions(0o001));
    assert!(!analyze_permissions(0o644));

    let base = regular_file_tags(true);
    assert!(base.contains("file") && base.contains("executable"));
    assert_eq!(base.len(), 2);

    assert!(needs_shebang(Some("script"), true));
    assert!(!needs_shebang(Some("script"), false));
    assert!(!needs_shebang(Some("script.py"), true));
    assert!(!needs_shebang(None, true));

    let shebang = parse_shebang(b"#!/usr/bin/env ruby\n");
    let tags = analyze_filename_and_shebang(Some("script"), true, Some(&shebang));
    assert!(tags.contains("ruby"));
    let tags = analyze_filename_and_shebang(Some("script"), false, Some(&shebang));
    assert!(tags.is_empty());
    let tags = analyze_filename_and_shebang(None, true, Some(&shebang));
    assert!(tags.is_empty());

    assert!(needs_content_encoding(&base));
    let enc = analyze_content_encoding(&base, false);
    assert!(enc.contains("binary") && enc.len() == 1);
    let named = tags_from_filename("a.js");
    assert!(!needs_content_encoding(&named));
    assert!(analyze_content_encoding(&named, false).is_empty());
}

#[test]
fn test_configured_path_steps() {
    let identifier = FileIdentifier::new().skip_shebang_analysis();
    assert!(!identifier.needs_shebang(Some("script"), true));
    let shebang = parse_shebang(b"#!/bin/zsh\n");
    assert!(identifier
        .analyze_filename_and_shebang_configured(Some("script"), true, Some(&shebang))
        .is_empty());
    let plain = FileIdentifier::new();
    assert!(plain.needs_shebang(Some("script"), true));
    let tags = plain.analyze_filename_and_shebang_configured(Some("script"), true, Some(&shebang));
    assert!(tags.contains("zsh") && tags.contains("shell"));
}

#[test]
fn test_plist_encoding_from_content() {
    let binary_plist = [
        0x62, 0x70, 0x6c, 0x69, 0x73, 0x74, 0x30, 0x30, // "bplist00"
        0xd1, 0x01, 0x02, 0x5f, 0x10, 0x0f,
    ];
    let info = FileInfo {
        filename: "test.plist",
        file_kind: FileKind::Regular,
        is_executable: false,
        content: Some(&binary_plist),
    };
    let tags = tags_from_info(&info);
    assert!(tags.contains("plist"));
    assert!(tags.contains("binary"));

    let text_plist = br#"<?xml version="1.0" encoding="UTF-8"?>
<plist version="1.0">
<dict>
    <key>TestKey</key>
    <string>TestValue</string>
</dict>
</plist>"#;
    let info = FileInfo { content: Some(text_plist), ..info };
    let tags = tags_from_info(&info);
    assert!(tags.contains("plist"));
    assert!(tags.contains("text"));
}

#[test]
fn test_empty_content_is_text() {
    let info = FileInfo {
        filename: "empty",
        file_kind: FileKind::Regular,
        is_executable: false,
        content: Some(b""),
    };
    let tags = tags_from_info(&info);
    assert!(tags.contains("file"));
    assert!(tags.contains("text"));
    assert!(tags.contains("non-executable"));
}

#[test]
fn test_identifier_chaining_from_info() {
    let identifier = FileIdentifier::new()
        .skip_content_analysis()
        .skip_shebang_analysis();
    let info = FileInfo {
        filename: "test.unknown",
        file_kind: FileKind::Regular,
        is_executable: true,
        content: Some(b"#!/bin/sh\ncontent"),
    };
    let tags = identifier.identify_from(&info);
    assert!(tags.contains("file"));
    assert!(tags.contains("executable"));
    assert_eq!(tags.len(), 2);
    let copy = identifier.clone();
    assert_eq!(copy.identify_from(&info).len(), 2);
    let defaults = FileIdentifier::default();
    assert!(defaults.identify_from(&info).contains("shell"));
}

#[test]
fn test_permissions_by_extension() {
    assert!(analyze_permissions_by_extension("setup.exe"));
    assert!(analyze_permissions_by_extension("RUN.BAT"));
    assert!(analyze_permissions_by_extension("dir/tool.Cmd"));
    assert!(!analyze_permissions_by_extension("script.sh"));
    assert!(!analyze_permissions_by_extension("exe"));
}

#[test]
fn test_binary_executable_shebang_ignored() {
    let content: &[u8] = b"#!/bin/sh\n\x00";
    let info = FileInfo {
        filename: "my-script",
        file_kind: FileKind::Regular,
        is_executable: true,
        content: Some(content),
    };
    let mut tags = tags_from_info(&info).to_vec();
    tags.sort();
    assert_eq!(tags, vec!["binary", "executable", "file"]);
    let mut tags = FileIdentifier::new().identify_from(&info).to_vec();
    tags.sort();
    assert_eq!(tags, vec!["binary", "executable", "file"]);
    // The same line in a text file names its interpreter.
    let info = FileInfo { content: Some(b"#!/bin/sh\necho hi\n"), ..info };
    let tags = tags_from_info(&info);
    assert!(tags.contains("shell") && tags.contains("sh") && tags.contains("text"));
}

#[test]
fn test_regular_path_steps() {
    // A name that gives its encoding needs no read at all.
    assert!(!needs_head(Some("main.rs"), true));
    // An unrecognized executable needs its first bytes, then its shebang.
    assert!(needs_head(Some("my-script"), true));
    assert!(needs_head(Some("data"), false));
    let shebang = parse_shebang(b"#!/bin/sh\n");
    let mut tags = regular_path_tags(Some("my-script"), true, Some(&shebang), Some(false)).to_vec();
    tags.sort();
    assert_eq!(tags, vec!["binary", "executable", "file"]);
    let tags = regular_path_tags(Some("my-script"), true, Some(&shebang), Some(true));
    assert!(tags.contains("shell") && tags.contains("text"));
    let tags = regular_path_tags(Some("main.rs"), false, None, None);
    assert!(tags.contains("rust") && tags.contains("text") && tags.contains("non-executable"));

    let id = FileIdentifier::new().skip_content_analysis();
    assert!(id.needs_head(Some("my-script"), true));
    assert!(!id.needs_head(Some("data"), false));
    let tags = id.identify_regular(Some("my-script"), true, Some(&shebang), Some(true));
    assert!(tags.contains("shell") && !tags.contains("text"));
    let tags = id.identify_regular(Some("my-script"), true, Some(&shebang), Some(false));
    assert_eq!(tags.len(), 2);
    let tags = FileIdentifier::new().identify_regular(Some("my-script"), true, Some(&shebang), Some(true));
    assert!(tags.contains("shell") && tags.contains("text"));
}
