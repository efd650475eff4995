//! Identification of a file from what is known about it: its kind, its mode,
//! its name and (optionally) its content.

use vstd::prelude::*;

use crate::names::{
    filename_tags, interpreter_tags, is_text, is_text_content, tags_from_filename,
    tags_from_interpreter,
};
use crate::shebang::{parse_shebang, shebang_components, ShebangTuple};
use crate::tags::{
    FileKind, TagSet, BINARY, DIRECTORY, EXECUTABLE, FILE, NON_EXECUTABLE, SOCKET, SYMLINK, TEXT,
};
use crate::text::{extension_of, lower_case, file_extension, str_eq, to_lowercase};

verus! {

/// Pre-loaded information about a file, for identification without any I/O.
#[derive(Debug, Clone, Copy)]
pub struct FileInfo<'a> {
    /// The file's name (its last path component).
    pub filename: &'a str,
    /// The kind of file-system entry.
    pub file_kind: FileKind,
    /// Whether the file may be executed.
    pub is_executable: bool,
    /// The file's content, for shebang and encoding analysis; `None` skips both.
    pub content: Option<&'a [u8]>,
}

/// The bytes of optional content.
pub open spec fn content_view(content: Option<&[u8]>) -> Option<Seq<u8>> {
    match content {
        Some(c) => Some(c@),
        None => None,
    }
}

/// Tags for file extensions chosen by the user, looked up by the extension in
/// lower case. A later entry for an extension replaces an earlier one.
#[derive(Debug)]
pub struct CustomExtensions {
    entries: Vec<(String, TagSet)>,
}

/// The map that a list of entries describes, later entries winning.
pub open spec fn entries_map(entries: Seq<(String, TagSet)>) -> Map<Seq<char>, Set<Seq<char>>>
    decreases entries.len(),
{
    if entries.len() == 0 {
        Map::empty()
    } else {
        entries_map(entries.drop_last()).insert(entries.last().0@, entries.last().1@)
    }
}

/// Entry lists whose keys and tags read the same describe the same map.
proof fn lemma_entries_map_same_views(a: Seq<(String, TagSet)>, b: Seq<(String, TagSet)>)
    requires
        a.len() == b.len(),
        forall|i: int| 0 <= i < a.len() ==> (#[trigger] a[i]).0@ == b[i].0@ && a[i].1@ == b[i].1@,
    ensures
        entries_map(a) == entries_map(b),
    decreases a.len(),
{
    if a.len() > 0 {
        lemma_entries_map_same_views(a.drop_last(), b.drop_last());
    }
}

impl Clone for CustomExtensions {
    fn clone(&self) -> (r: CustomExtensions)
        ensures
            r@ == self@,
    {
        let mut entries: Vec<(String, TagSet)> = Vec::new();
        let mut i: usize = 0;
        while i < self.entries.len()
            invariant
                0 <= i <= self.entries@.len(),
                entries@.len() == i,
                forall|j: int| 0 <= j < i ==> (#[trigger] entries@[j]).0@ == self.entries@[j].0@ && entries@[j].1@ == self.entries@[j].1@,
            decreases self.entries@.len() - i,
        {
            let entry = &self.entries[i];
            entries.push((entry.0.clone(), entry.1.clone()));
            i = i + 1;
        }
        proof {
            lemma_entries_map_same_views(entries@, self.entries@);
        }
        CustomExtensions { entries }
    }
}

impl View for CustomExtensions {
    type V = Map<Seq<char>, Set<Seq<char>>>;

    closed spec fn view(&self) -> Map<Seq<char>, Set<Seq<char>>> {
        entries_map(self.entries@)
    }
}

impl CustomExtensions {
    /// No custom extension.
    pub fn new() -> (r: CustomExtensions)
        ensures
            r@ == Map::<Seq<char>, Set<Seq<char>>>::empty(),
    {
        CustomExtensions { entries: Vec::new() }
    }

    /// Gives the extension `ext` the tags `tags`.
    pub fn insert(&mut self, ext: String, tags: TagSet)
        ensures
            final(self)@ == old(self)@.insert(ext@, tags@),
    {
        let ghost before = self.entries@;
        self.entries.push((ext, tags));
        assert(self.entries@.drop_last() =~= before);
    }

    /// The tags of the extension `ext`, if it has some.
    pub fn get(&self, ext: &str) -> (r: Option<&TagSet>)
        ensures
            r is Some <==> self@.contains_key(ext@),
            r matches Some(t) ==> t@ == self@[ext@],
    {
        let mut k: usize = self.entries.len();
        assert(self.entries@.take(k as int) =~= self.entries@);
        while k > 0
            invariant
                k <= self.entries@.len(),
                forall|j: int| k <= j < self.entries@.len() ==> (#[trigger] self.entries@[j]).0@ != ext@,
                entries_map(self.entries@).contains_key(ext@) == entries_map(self.entries@.take(k as int)).contains_key(ext@),
                entries_map(self.entries@).contains_key(ext@) ==> entries_map(self.entries@)[ext@] == entries_map(self.entries@.take(k as int))[ext@],
            decreases k,
        {
            let entry = &self.entries[k - 1];
            assert(self.entries@.take(k as int).drop_last() =~= self.entries@.take(k - 1));
            if str_eq(entry.0.as_str(), ext) {
                return Some(&entry.1);
            }
            k = k - 1;
        }
        None
    }
}

/// The tags of a regular file before its name and content are looked at.
pub open spec fn regular_base(is_executable: bool) -> Set<Seq<char>> {
    set![FILE@, if is_executable { EXECUTABLE@ } else { NON_EXECUTABLE@ }]
}

/// The single tag of an entry that is not a regular file.
pub open spec fn kind_tag(kind: FileKind) -> Seq<char> {
    match kind {
        FileKind::Directory => DIRECTORY@,
        FileKind::Symlink => SYMLINK@,
        FileKind::Socket => SOCKET@,
        FileKind::Regular => FILE@,
    }
}

/// The tag that names an encoding.
pub open spec fn encoding_tag(is_text: bool) -> Seq<char> {
    if is_text {
        TEXT@
    } else {
        BINARY@
    }
}

/// Whether a set of tags already names an encoding.
pub open spec fn has_encoding_tag(tags: Set<Seq<char>>) -> bool {
    tags.contains(TEXT@) || tags.contains(BINARY@)
}

/// The tags that the first component of a shebang line gives.
pub open spec fn shebang_tags(components: Seq<Seq<char>>) -> Set<Seq<char>> {
    if components.len() > 0 {
        interpreter_tags(components[0])
    } else {
        Set::empty()
    }
}

/// The custom tags of a file name's extension, if the user gave some.
pub open spec fn custom_tags(
    custom: Option<Map<Seq<char>, Set<Seq<char>>>>,
    filename: Seq<char>,
) -> Option<Set<Seq<char>>> {
    match custom {
        Some(m) => match file_extension(filename) {
            Some(ext) => if m.contains_key(lower_case(ext)) {
                Some(m[lower_case(ext)])
            } else {
                None
            },
            None => None,
        },
        None => None,
    }
}

/// The tags of a regular file from its name: the custom tags of its extension
/// when the user gave some, else the tags of its name; and whether either matched.
pub open spec fn named_tags(
    custom: Option<Map<Seq<char>, Set<Seq<char>>>>,
    filename: Seq<char>,
) -> (Set<Seq<char>>, bool) {
    match custom_tags(custom, filename) {
        Some(t) => (t, true),
        None => (filename_tags(filename), filename_tags(filename) != Set::<Seq<char>>::empty()),
    }
}

/// What identification with the given settings yields for a file.
pub open spec fn identify_spec(
    skip_content: bool,
    skip_shebang: bool,
    custom: Option<Map<Seq<char>, Set<Seq<char>>>>,
    filename: Seq<char>,
    kind: FileKind,
    is_executable: bool,
    content: Option<Seq<u8>>,
) -> Set<Seq<char>> {
    if kind != FileKind::Regular {
        set![kind_tag(kind)]
    } else {
        let (named, matched) = named_tags(custom, filename);
        let with_name = regular_base(is_executable).union(named);
        let with_shebang = if !matched && is_executable && !skip_shebang && content is Some
            && is_text_content(content.unwrap()) {
            with_name.union(shebang_tags(shebang_components(content.unwrap())))
        } else {
            with_name
        };
        if !skip_content && !has_encoding_tag(with_shebang) && content is Some {
            with_shebang.insert(encoding_tag(is_text_content(content.unwrap())))
        } else {
            with_shebang
        }
    }
}

/// What `tags_from_info` yields for a file.
pub open spec fn info_tags(filename: Seq<char>, kind: FileKind, is_executable: bool, content: Option<Seq<u8>>) -> Set<Seq<char>> {
    if kind != FileKind::Regular {
        set![kind_tag(kind)]
    } else {
        let by_name = filename_tags(filename);
        let with_name = if by_name != Set::<Seq<char>>::empty() {
            regular_base(is_executable).union(by_name)
        } else if is_executable && content is Some && is_text_content(content.unwrap()) {
            regular_base(is_executable).union(shebang_tags(shebang_components(content.unwrap())))
        } else {
            regular_base(is_executable)
        };
        if !has_encoding_tag(with_name) && content is Some {
            with_name.insert(encoding_tag(is_text_content(content.unwrap())))
        } else {
            with_name
        }
    }
}

/// Whether `tags` names an encoding.
fn has_encoding(tags: &TagSet) -> (r: bool)
    ensures
        r == has_encoding_tag(tags@),
{
    tags.contains(TEXT) || tags.contains(BINARY)
}

/// The tags of the first component of a shebang line.
fn tags_from_shebang(shebang: &ShebangTuple) -> (r: TagSet)
    ensures
        r@ == shebang_tags(shebang@),
{
    match shebang.first() {
        Some(interp) => tags_from_interpreter(interp),
        None => {
            let r = TagSet::new();
            r
        },
    }
}

/// The tags of a regular file before its name and content are looked at.
pub fn regular_file_tags(is_executable: bool) -> (r: TagSet)
    ensures
        r@ == regular_base(is_executable),
{
    let mut tags = TagSet::new();
    tags.insert(FILE);
    tags.insert(if is_executable { EXECUTABLE } else { NON_EXECUTABLE });
    assert(tags@ =~= regular_base(is_executable));
    tags
}

/// The tags of an entry that is not a regular file; `None` for a regular file,
/// which needs further analysis.
pub fn analyze_file_type(kind: FileKind) -> (r: Option<TagSet>)
    ensures
        r is Some <==> kind != FileKind::Regular,
        r matches Some(t) ==> t@ == set![kind_tag(kind)],
{
    let tag = match kind {
        FileKind::Directory => DIRECTORY,
        FileKind::Symlink => SYMLINK,
        FileKind::Socket => SOCKET,
        FileKind::Regular => {
            return None;
        },
    };
    let mut tags = TagSet::new();
    tags.insert(tag);
    assert(tags@ =~= set![kind_tag(kind)]);
    Some(tags)
}

/// Whether a Unix permission mode lets someone execute the file.
pub fn analyze_permissions(mode: u32) -> (r: bool)
    ensures
        r == (mode & 0o111u32 != 0),
{
    mode & 0o111u32 != 0
}

/// Whether a path names a program by its extension (`exe`, `bat` or `cmd`, in
/// any case): how a file's mode is judged where there are no permission bits.
pub fn analyze_permissions_by_extension(path: &str) -> (r: bool)
    ensures
        r == match file_extension(path@) {
            Some(ext) => lower_case(ext) == "exe"@ || lower_case(ext) == "bat"@ || lower_case(ext) == "cmd"@,
            None => false,
        },
{
    match extension_of(path) {
        Some(ext) => {
            let lower = to_lowercase(ext);
            let l = lower.as_str();
            str_eq(l, "exe") || str_eq(l, "bat") || str_eq(l, "cmd")
        },
        None => false,
    }
}

/// Identifies a file from pre-loaded information, without any I/O.
///
/// An entry that is not a regular file gets just its kind's tag. A regular file
/// gets `file`, its mode tag, and the tags of its name; when its name is not
/// recognized and it is a text file that may be executed, the interpreter of its
/// shebang line gives the tags instead. When no tag names an encoding yet and
/// content is given, the content decides between `text` and `binary`.
pub fn tags_from_info(info: &FileInfo<'_>) -> (r: TagSet)
    ensures
        r@ == info_tags(info.filename@, info.file_kind, info.is_executable, content_view(info.content)),
{
    if let Some(tags) = analyze_file_type(info.file_kind) {
        return tags;
    }
    let mut tags = regular_file_tags(info.is_executable);
    let text = match info.content {
        Some(content) => is_text(content),
        None => false,
    };
    let filename_tags = tags_from_filename(info.filename);
    if !filename_tags.is_empty() {
        tags.extend(&filename_tags);
    } else if info.is_executable && text {
        if let Some(content) = info.content {
            let shebang = parse_shebang(content);
            tags.extend(&tags_from_shebang(&shebang));
        }
    }
    if !has_encoding(&tags) {
        if info.content.is_some() {
            tags.insert(if text { TEXT } else { BINARY });
        }
    }
    tags
}

/// The tags that a regular file's name gives it, or else, for a file that may
/// be executed, those of the interpreter its shebang line names (when the
/// shebang line could be read).
pub open spec fn filename_and_shebang_tags(
    filename: Option<Seq<char>>,
    is_executable: bool,
    shebang: Option<Seq<Seq<char>>>,
) -> Set<Seq<char>> {
    match filename {
        None => Set::empty(),
        Some(f) => if filename_tags(f) != Set::<Seq<char>>::empty() {
            filename_tags(f)
        } else if is_executable && shebang is Some {
            shebang_tags(shebang.unwrap())
        } else {
            Set::empty()
        },
    }
}

/// Whether the shebang line of a regular file must be read to identify it.
pub open spec fn needs_shebang_spec(filename: Option<Seq<char>>, is_executable: bool) -> bool {
    filename is Some && filename_tags(filename.unwrap()) == Set::<Seq<char>>::empty() && is_executable
}

/// The tags that a regular file's name gives it with the given settings, or else
/// those of the interpreter its shebang line names.
pub open spec fn configured_filename_and_shebang_tags(
    skip_shebang: bool,
    custom: Option<Map<Seq<char>, Set<Seq<char>>>>,
    filename: Option<Seq<char>>,
    is_executable: bool,
    shebang: Option<Seq<Seq<char>>>,
) -> Set<Seq<char>> {
    match filename {
        None => Set::empty(),
        Some(f) => match custom_tags(custom, f) {
            Some(t) => t,
            None => if filename_tags(f) != Set::<Seq<char>>::empty() {
                filename_tags(f)
            } else if is_executable && !skip_shebang && shebang is Some {
                shebang_tags(shebang.unwrap())
            } else {
                Set::empty()
            },
        },
    }
}

/// Whether, with the given settings, the shebang line of a regular file must be
/// read to identify it.
pub open spec fn configured_needs_shebang(
    skip_shebang: bool,
    custom: Option<Map<Seq<char>, Set<Seq<char>>>>,
    filename: Option<Seq<char>>,
    is_executable: bool,
) -> bool {
    &&& filename is Some
    &&& custom_tags(custom, filename.unwrap()) is None
    &&& filename_tags(filename.unwrap()) == Set::<Seq<char>>::empty()
    &&& is_executable
    &&& !skip_shebang
}

/// The encoding tag that content analysis adds to `existing`: none when it
/// already names an encoding.
pub open spec fn content_encoding_tags(existing: Set<Seq<char>>, is_text: bool) -> Set<Seq<char>> {
    if has_encoding_tag(existing) {
        Set::empty()
    } else {
        set![encoding_tag(is_text)]
    }
}

/// What identifying a regular file on disk yields with the given settings, when
/// its first bytes (if they are read) decide `head_is_text` and its shebang line
/// (if it is read) gives `shebang`: `file` and its mode tag, the tags of its name
/// or, for a text file, those of its shebang line, then (unless skipped) the
/// encoding from its first bytes.
pub open spec fn path_tags(
    skip_content: bool,
    skip_shebang: bool,
    custom: Option<Map<Seq<char>, Set<Seq<char>>>>,
    filename: Option<Seq<char>>,
    is_executable: bool,
    shebang: Option<Seq<Seq<char>>>,
    head_is_text: Option<bool>,
) -> Set<Seq<char>> {
    let read = if configured_needs_shebang(skip_shebang, custom, filename, is_executable)
        && head_is_text == Some(true) {
        shebang
    } else {
        None
    };
    let tags = regular_base(is_executable).union(
        configured_filename_and_shebang_tags(skip_shebang, custom, filename, is_executable, read),
    );
    if !skip_content && head_is_text is Some {
        tags.union(content_encoding_tags(tags, head_is_text.unwrap()))
    } else {
        tags
    }
}

/// Whether, with the given settings, the first bytes of a regular file must be
/// read to identify it: to know whether it is text before its shebang line is
/// read, or to decide its encoding when its name does not give one.
pub open spec fn head_needed(
    skip_content: bool,
    skip_shebang: bool,
    custom: Option<Map<Seq<char>, Set<Seq<char>>>>,
    filename: Option<Seq<char>>,
    is_executable: bool,
) -> bool {
    ||| configured_needs_shebang(skip_shebang, custom, filename, is_executable)
    ||| !skip_content && !has_encoding_tag(
        regular_base(is_executable).union(
            configured_filename_and_shebang_tags(skip_shebang, custom, filename, is_executable, None),
        ),
    )
}

/// An optional string by its characters.
pub open spec fn name_view(name: Option<&str>) -> Option<Seq<char>> {
    match name {
        Some(n) => Some(n@),
        None => None,
    }
}

/// An optional shebang line by its components.
pub open spec fn shebang_view(shebang: Option<&ShebangTuple>) -> Option<Seq<Seq<char>>> {
    match shebang {
        Some(s) => Some(s@),
        None => None,
    }
}

/// The tags that a regular file's name gives it, or else, for a file that may be
/// executed, those of the interpreter named by `shebang` (the file's shebang
/// line, when it could be read; see `needs_shebang`).
pub fn analyze_filename_and_shebang(
    filename: Option<&str>,
    is_executable: bool,
    shebang: Option<&ShebangTuple>,
) -> (r: TagSet)
    ensures
        r@ == filename_and_shebang_tags(
            match filename {
                Some(f) => Some(f@),
                None => None,
            },
            is_executable,
            match shebang {
                Some(s) => Some(s@),
                None => None,
            },
        ),
{
    match filename {
        Some(f) => {
            let tags = tags_from_filename(f);
            if !tags.is_empty() {
                tags
            } else if is_executable {
                match shebang {
                    Some(s) => tags_from_shebang(s),
                    None => TagSet::new(),
                }
            } else {
                TagSet::new()
            }
        },
        None => TagSet::new(),
    }
}

/// Whether the shebang line of a regular file must be read: its name is not
/// recognized and it may be executed.
pub fn needs_shebang(filename: Option<&str>, is_executable: bool) -> (r: bool)
    ensures
        r == needs_shebang_spec(
            match filename {
                Some(f) => Some(f@),
                None => None,
            },
            is_executable,
        ),
{
    match filename {
        Some(f) => is_executable && tags_from_filename(f).is_empty(),
        None => false,
    }
}

/// Whether content analysis still has to decide the encoding of `existing`.
pub fn needs_content_encoding(existing: &TagSet) -> (r: bool)
    ensures
        r == !has_encoding_tag(existing@),
{
    !has_encoding(existing)
}

/// The encoding tag that content analysis adds, given whether the file's first
/// bytes are text: none when `existing` already names an encoding.
pub fn analyze_content_encoding(existing: &TagSet, is_text: bool) -> (r: TagSet)
    ensures
        r@ == content_encoding_tags(existing@, is_text),
{
    let mut tags = TagSet::new();
    if !has_encoding(existing) {
        tags.insert(if is_text { TEXT } else { BINARY });
        assert(tags@ =~= set![encoding_tag(is_text)]);
    }
    tags
}

/// Whether the first bytes of a regular file must be read to identify it with
/// `regular_path_tags`: its shebang line is wanted, or its name gives no encoding.
pub fn needs_head(filename: Option<&str>, is_executable: bool) -> (r: bool)
    ensures
        r == head_needed(false, false, None, name_view(filename), is_executable),
{
    if needs_shebang(filename, is_executable) {
        return true;
    }
    let mut tags = regular_file_tags(is_executable);
    tags.extend(&analyze_filename_and_shebang(filename, is_executable, None));
    needs_content_encoding(&tags)
}

/// Identifies a regular file on disk from what was read of it: its name (when it
/// has a UTF-8 one), whether it may be executed, its shebang line (read only for
/// a text file whose name is not recognized) and whether its first bytes are text
/// (read only when `needs_head` asks for them).
pub fn regular_path_tags(
    filename: Option<&str>,
    is_executable: bool,
    shebang: Option<&ShebangTuple>,
    head_is_text: Option<bool>,
) -> (r: TagSet)
    ensures
        r@ == path_tags(false, false, None, name_view(filename), is_executable, shebang_view(shebang), head_is_text),
{
    let read = if needs_shebang(filename, is_executable) && matches!(head_is_text, Some(true)) {
        shebang
    } else {
        None
    };
    let mut tags = regular_file_tags(is_executable);
    tags.extend(&analyze_filename_and_shebang(filename, is_executable, read));
    if let Some(text) = head_is_text {
        let enc = analyze_content_encoding(&tags, text);
        tags.extend(&enc);
    }
    tags
}

/// Settings for identification: which analysis steps to take, and custom
/// extensions that are looked up before the built-in ones.
#[derive(Debug)]
pub struct FileIdentifier {
    skip_content_analysis: bool,
    skip_shebang_analysis: bool,
    custom_extensions: Option<CustomExtensions>,
}

impl FileIdentifier {
    /// Whether content analysis (text or binary) is skipped.
    pub closed spec fn skips_content(&self) -> bool {
        self.skip_content_analysis
    }

    /// Whether shebang analysis is skipped.
    pub closed spec fn skips_shebang(&self) -> bool {
        self.skip_shebang_analysis
    }

    /// The custom extensions, if any were given.
    pub closed spec fn custom(&self) -> Option<Map<Seq<char>, Set<Seq<char>>>> {
        match self.custom_extensions {
            Some(c) => Some(c@),
            None => None,
        }
    }

    /// Settings that take every analysis step and have no custom extension.
    pub fn new() -> (r: FileIdentifier)
        ensures
            !r.skips_content(),
            !r.skips_shebang(),
            r.custom() is None,
    {
        FileIdentifier {
            skip_content_analysis: false,
            skip_shebang_analysis: false,
            custom_extensions: None,
        }
    }

    /// The same settings, but without content analysis.
    pub fn skip_content_analysis(self) -> (r: FileIdentifier)
        ensures
            r.skips_content(),
            r.skips_shebang() == self.skips_shebang(),
            r.custom() == self.custom(),
    {
        let mut r = self;
        r.skip_content_analysis = true;
        r
    }

    /// The same settings, but without shebang analysis.
    pub fn skip_shebang_analysis(self) -> (r: FileIdentifier)
        ensures
            r.skips_shebang(),
            r.skips_content() == self.skips_content(),
            r.custom() == self.custom(),
    {
        let mut r = self;
        r.skip_shebang_analysis = true;
        r
    }

    /// The same settings, with `extensions` as the custom extensions.
    pub fn with_custom_extensions(self, extensions: CustomExtensions) -> (r: FileIdentifier)
        ensures
            r.custom() == Some(extensions@),
            r.skips_content() == self.skips_content(),
            r.skips_shebang() == self.skips_shebang(),
    {
        let mut r = self;
        r.custom_extensions = Some(extensions);
        r
    }

    /// The custom tags of a file name's extension, if there are some.
    fn custom_tags_of(&self, filename: &str) -> (r: Option<&TagSet>)
        ensures
            match r {
                Some(t) => custom_tags(self.custom(), filename@) == Some(t@),
                None => custom_tags(self.custom(), filename@) is None,
            },
    {
        match &self.custom_extensions {
            Some(custom) => match extension_of(filename) {
                Some(ext) => {
                    let lower = to_lowercase(ext);
                    custom.get(lower.as_str())
                },
                None => None,
            },
            None => None,
        }
    }

    /// Identifies a file from pre-loaded information with these settings,
    /// without any I/O.
    pub fn identify_from(&self, info: &FileInfo<'_>) -> (r: TagSet)
        ensures
            r@ == identify_spec(
                self.skips_content(),
                self.skips_shebang(),
                self.custom(),
                info.filename@,
                info.file_kind,
                info.is_executable,
                content_view(info.content),
            ),
    {
        if let Some(tags) = analyze_file_type(info.file_kind) {
            return tags;
        }
        let ghost content = content_view(info.content);
        let mut tags = regular_file_tags(info.is_executable);
        let (named, matched) = self.named(info.filename);
        tags.extend(&named);
        let ghost with_name = tags@;
        let text = match info.content {
            Some(c) => is_text(c),
            None => false,
        };
        if !matched && info.is_executable && !self.skip_shebang_analysis && text {
            if let Some(c) = info.content {
                let shebang = parse_shebang(c);
                tags.extend(&tags_from_shebang(&shebang));
            }
        }
        let ghost with_shebang = tags@;
        assert(with_shebang == if !matched && info.is_executable && !self.skips_shebang() && content is Some
            && is_text_content(content.unwrap()) {
            with_name.union(shebang_tags(shebang_components(content.unwrap())))
        } else {
            with_name
        });
        if !self.skip_content_analysis && !has_encoding(&tags) {
            if info.content.is_some() {
                tags.insert(if text { TEXT } else { BINARY });
            }
        }
        tags
    }

    /// Whether, with these settings, the shebang line of a regular file must be read.
    pub fn needs_shebang(&self, filename: Option<&str>, is_executable: bool) -> (r: bool)
        ensures
            r == configured_needs_shebang(
                self.skips_shebang(),
                self.custom(),
                match filename {
                    Some(f) => Some(f@),
                    None => None,
                },
                is_executable,
            ),
    {
        match filename {
            Some(f) => {
                if !is_executable || self.skip_shebang_analysis {
                    return false;
                }
                if self.custom_tags_of(f).is_some() {
                    return false;
                }
                tags_from_filename(f).is_empty()
            },
            None => false,
        }
    }

    /// Whether, with these settings, the first bytes of a regular file must be
    /// read to identify it.
    pub fn needs_head(&self, filename: Option<&str>, is_executable: bool) -> (r: bool)
        ensures
            r == head_needed(
                self.skips_content(),
                self.skips_shebang(),
                self.custom(),
                name_view(filename),
                is_executable,
            ),
    {
        if self.needs_shebang(filename, is_executable) {
            return true;
        }
        let mut tags = regular_file_tags(is_executable);
        tags.extend(&self.analyze_filename_and_shebang_configured(filename, is_executable, None));
        self.needs_content_encoding(&tags)
    }

    /// Identifies a regular file on disk with these settings from what was read
    /// of it: its name (when it has a UTF-8 one), whether it may be executed, its
    /// shebang line (read only for a text file whose name is not recognized) and
    /// whether its first bytes are text (read only when `needs_head` asks for them).
    pub fn identify_regular(
        &self,
        filename: Option<&str>,
        is_executable: bool,
        shebang: Option<&ShebangTuple>,
        head_is_text: Option<bool>,
    ) -> (r: TagSet)
        ensures
            r@ == path_tags(
                self.skips_content(),
                self.skips_shebang(),
                self.custom(),
                name_view(filename),
                is_executable,
                shebang_view(shebang),
                head_is_text,
            ),
    {
        let read = if self.needs_shebang(filename, is_executable) && matches!(head_is_text, Some(true)) {
            shebang
        } else {
            None
        };
        let mut tags = regular_file_tags(is_executable);
        tags.extend(&self.analyze_filename_and_shebang_configured(filename, is_executable, read));
        if let Some(text) = head_is_text {
            if !self.skip_content_analysis {
                let enc = analyze_content_encoding(&tags, text);
                tags.extend(&enc);
            }
        }
        tags
    }

    /// Whether, with these settings, content analysis still has to decide the
    /// encoding of `existing`.
    pub fn needs_content_encoding(&self, existing: &TagSet) -> (r: bool)
        ensures
            r == (!self.skips_content() && !has_encoding_tag(existing@)),
    {
        !self.skip_content_analysis && !has_encoding(existing)
    }

    /// The tags that a regular file's name gives it with these settings (custom
    /// extensions first), or else those of the interpreter named by `shebang`.
    pub fn analyze_filename_and_shebang_configured(
        &self,
        filename: Option<&str>,
        is_executable: bool,
        shebang: Option<&ShebangTuple>,
    ) -> (r: TagSet)
        ensures
            r@ == configured_filename_and_shebang_tags(
                self.skips_shebang(),
                self.custom(),
                match filename {
                    Some(f) => Some(f@),
                    None => None,
                },
                is_executable,
                match shebang {
                    Some(s) => Some(s@),
                    None => None,
                },
            ),
    {
        match filename {
            Some(f) => {
                if let Some(ext_tags) = self.custom_tags_of(f) {
                    return ext_tags.clone();
                }
                let tags = tags_from_filename(f);
                if !tags.is_empty() {
                    tags
                } else if is_executable && !self.skip_shebang_analysis {
                    match shebang {
                        Some(s) => tags_from_shebang(s),
                        None => TagSet::new(),
                    }
                } else {
                    TagSet::new()
                }
            },
            None => TagSet::new(),
        }
    }

    /// The tags of a regular file from its name with these settings, and whether
    /// its name (or a custom extension) was recognized.
    fn named(&self, filename: &str) -> (r: (TagSet, bool))
        ensures
            (r.0@, r.1) == named_tags(self.custom(), filename@),
    {
        if let Some(ext_tags) = self.custom_tags_of(filename) {
            return (ext_tags.clone(), true);
        }
        let tags = tags_from_filename(filename);
        let matched = !tags.is_empty();
        (tags, matched)
    }
}

impl Default for FileIdentifier {
    fn default() -> (r: FileIdentifier)
        ensures
            !r.skips_content(),
            !r.skips_shebang(),
            r.custom() is None,
    {
        FileIdentifier::new()
    }
}

impl Clone for FileIdentifier {
    fn clone(&self) -> (r: FileIdentifier)
        ensures
            r.skips_content() == self.skips_content(),
            r.skips_shebang() == self.skips_shebang(),
            r.custom() == self.custom(),
    {
        FileIdentifier {
            skip_content_analysis: self.skip_content_analysis,
            skip_shebang_analysis: self.skip_shebang_analysis,
            custom_extensions: match &self.custom_extensions {
                Some(c) => Some(c.clone()),
                None => None,
            },
        }
    }
}

} // verus!
