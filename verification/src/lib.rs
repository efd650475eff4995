//! Identification of file types by name, extension, content and shebang line.
//!
//! A file gets a set of tags: its kind (`file`, `directory`, `symlink`,
//! `socket`), whether it may be executed (`executable`, `non-executable`), its
//! encoding (`text`, `binary`) and its language or format (`python`, `json`,
//! ...). The functions here work on what is known about a file; reading it
//! from disk is left to the caller.

pub mod error;
pub mod extensions;
pub mod identify;
pub mod interpreters;
pub mod laws;
pub mod names;
pub mod shebang;
pub mod table_facts;
pub mod table_order;
pub mod tags;
pub mod text;

pub use error::IdentifyError;
pub use identify::{
    analyze_content_encoding, analyze_file_type, analyze_filename_and_shebang, analyze_permissions,
    needs_content_encoding, needs_shebang, regular_file_tags, tags_from_info, CustomExtensions,
    FileIdentifier, FileInfo,
};
pub use names::{is_text, tags_from_filename, tags_from_interpreter};
pub use shebang::{parse_shebang, ShebangTuple};
pub use tags::{FileKind, TagSet};
