//! Properties of the library that relate its functions to each other.

use vstd::prelude::*;

use crate::extensions::{
    name_tags, table_tags, table_values, EXTENSIONS_NEED_BINARY_CHECK_TAGS, EXTENSION_TAGS, NAME_TAGS,
};
use crate::identify::{
    configured_filename_and_shebang_tags, configured_needs_shebang, custom_tags,
    filename_and_shebang_tags, has_encoding_tag, identify_spec, info_tags, kind_tag,
    head_needed, needs_shebang_spec, path_tags, regular_base,
};
use crate::interpreters::INTERPRETER_TAGS;
use crate::names::{
    filename_tags, first_named, interpreter_tags, is_text_content, split_on,
    versioned_interpreter_tags, TEXT_PROBE_LEN,
};
use crate::shebang::{
    first_line, limit_line, shebang_command, shebang_components, strip_line_ending,
};
use crate::tags::{
    all_tag_set, encoding_tag_set, mode_tag_set, type_tag_set, FileKind, BINARY, DIRECTORY,
    EXECUTABLE, FILE, NON_EXECUTABLE, SOCKET, SYMLINK, TEXT,
};
use crate::text::{
    index_of, last_index_of, lemma_index_of, lemma_index_of_is, lemma_index_of_none, lemma_last_index_of, lemma_word_len,
    last_component, lower_case, file_extension, trim, white_space, word_len, words,
};
use vstd::utf8::decode_utf8;

verus! {

/// The type tags, the mode tags and the encoding tags are three disjoint groups.
pub proof fn lemma_tag_groups_disjoint()
    ensures
        type_tag_set().disjoint(mode_tag_set()),
        type_tag_set().disjoint(encoding_tag_set()),
        mode_tag_set().disjoint(encoding_tag_set()),
{
    reveal_strlit("directory");
    reveal_strlit("file");
    reveal_strlit("symlink");
    reveal_strlit("socket");
    reveal_strlit("executable");
    reveal_strlit("non-executable");
    reveal_strlit("text");
    reveal_strlit("binary");
    let type_tags = seq![DIRECTORY@, FILE@, SYMLINK@, SOCKET@];
    let mode_tags = seq![EXECUTABLE@, NON_EXECUTABLE@];
    let encoding_tags = seq![BINARY@, TEXT@];
    assert forall|i: int, j: int| 0 <= i < 4 && 0 <= j < 2 implies type_tags[i] != mode_tags[j] && type_tags[i]
        != encoding_tags[j] by {
        assert(type_tags[i].len() != mode_tags[j].len() || type_tags[i][0] != mode_tags[j][0]);
        assert(type_tags[i].len() != encoding_tags[j].len() || type_tags[i][0] != encoding_tags[j][0]);
    }
    assert forall|i: int, j: int| 0 <= i < 2 && 0 <= j < 2 implies mode_tags[i] != encoding_tags[j] by {
        assert(mode_tags[i].len() != encoding_tags[j].len() || mode_tags[i][0] != encoding_tags[j][0]);
    }
    assert(type_tag_set().disjoint(mode_tag_set())) by {
        assert forall|t: Seq<char>| type_tag_set().contains(t) implies !mode_tag_set().contains(t) by {
            assert(t == type_tags[0] || t == type_tags[1] || t == type_tags[2] || t == type_tags[3]);
        }
    }
    assert(type_tag_set().disjoint(encoding_tag_set())) by {
        assert forall|t: Seq<char>| type_tag_set().contains(t) implies !encoding_tag_set().contains(t) by {
            assert(t == type_tags[0] || t == type_tags[1] || t == type_tags[2] || t == type_tags[3]);
        }
    }
    assert(mode_tag_set().disjoint(encoding_tag_set())) by {
        assert forall|t: Seq<char>| mode_tag_set().contains(t) implies !encoding_tag_set().contains(t) by {
            assert(t == mode_tags[0] || t == mode_tags[1]);
        }
    }
}

/// Identifying a file on disk is identifying it from its information: the steps
/// that a path takes (the file's kind, its mode, its name, whether its first bytes
/// are text, and its shebang line when that is needed) give, with any settings,
/// exactly what `FileIdentifier::identify_from` gives for a regular file with
/// that name, mode and content.
pub proof fn lemma_path_steps_match_identify_from(
    skip_content: bool,
    skip_shebang: bool,
    custom: Option<Map<Seq<char>, Set<Seq<char>>>>,
    filename: Seq<char>,
    is_executable: bool,
    content: Seq<u8>,
)
    ensures
        path_tags(
            skip_content,
            skip_shebang,
            custom,
            Some(filename),
            is_executable,
            Some(shebang_components(content)),
            Some(is_text_content(content)),
        ) == identify_spec(
            skip_content,
            skip_shebang,
            custom,
            filename,
            FileKind::Regular,
            is_executable,
            Some(content),
        ),
{
    let p = path_tags(
        skip_content,
        skip_shebang,
        custom,
        Some(filename),
        is_executable,
        Some(shebang_components(content)),
        Some(is_text_content(content)),
    );
    let q = identify_spec(
        skip_content,
        skip_shebang,
        custom,
        filename,
        FileKind::Regular,
        is_executable,
        Some(content),
    );
    let named = regular_base(is_executable).union(
        configured_filename_and_shebang_tags(skip_shebang, custom, Some(filename), is_executable, None),
    );
    assert(named.union(Set::<Seq<char>>::empty()) =~= named);
    assert(p =~= q);
}

/// What is not read does not matter: a file's shebang line only counts when
/// `needs_shebang` asks for it and the file is text, and when `needs_head` does
/// not ask for its first bytes, neither they nor its shebang line change what
/// it is identified as.
pub proof fn lemma_unread_parts_ignored(
    skip_content: bool,
    skip_shebang: bool,
    custom: Option<Map<Seq<char>, Set<Seq<char>>>>,
    filename: Option<Seq<char>>,
    is_executable: bool,
    shebang: Option<Seq<Seq<char>>>,
    head_is_text: Option<bool>,
)
    ensures
        !configured_needs_shebang(skip_shebang, custom, filename, is_executable) || head_is_text != Some(true)
            ==> path_tags(skip_content, skip_shebang, custom, filename, is_executable, shebang, head_is_text)
            == path_tags(skip_content, skip_shebang, custom, filename, is_executable, None, head_is_text),
        !head_needed(skip_content, skip_shebang, custom, filename, is_executable) ==> path_tags(
            skip_content,
            skip_shebang,
            custom,
            filename,
            is_executable,
            shebang,
            head_is_text,
        ) == path_tags(skip_content, skip_shebang, custom, filename, is_executable, None, None),
{
    let named = regular_base(is_executable).union(
        configured_filename_and_shebang_tags(skip_shebang, custom, filename, is_executable, None),
    );
    assert(named.union(Set::<Seq<char>>::empty()) =~= named);
}

/// A file whose name is recognized is not read for its shebang line, and when
/// its name also gives its encoding, nothing of it is read at all.
pub proof fn lemma_recognized_names_skip_reads(filename: Seq<char>, is_executable: bool)
    requires
        filename_tags(filename) != Set::<Seq<char>>::empty(),
    ensures
        !needs_shebang_spec(Some(filename), is_executable),
        has_encoding_tag(filename_tags(filename)) ==> !head_needed(false, false, None, Some(filename), is_executable),
{
}

/// Identifying a file on disk with `tags_from_path` is identifying it with
/// `tags_from_info`: the plain steps give exactly what `tags_from_info` gives
/// for a regular file with that name, mode and content.
pub proof fn lemma_plain_path_steps_match_tags_from_info(
    filename: Seq<char>,
    is_executable: bool,
    content: Seq<u8>,
)
    ensures
        path_tags(
            false,
            false,
            None,
            Some(filename),
            is_executable,
            Some(shebang_components(content)),
            Some(is_text_content(content)),
        ) == info_tags(filename, FileKind::Regular, is_executable, Some(content)),
{
    lemma_path_steps_match_identify_from(false, false, None, filename, is_executable, content);
    lemma_default_identify_from_is_tags_from_info(filename, FileKind::Regular, is_executable, Some(content));
}

/// With the default settings (as `FileIdentifier::new` makes them), identifying a
/// file on disk with a `FileIdentifier` takes the same steps and gives the same
/// tags as `tags_from_path`.
pub proof fn lemma_default_identify_is_tags_from_path(
    skip_content: bool,
    skip_shebang: bool,
    custom: Option<Map<Seq<char>, Set<Seq<char>>>>,
    filename: Option<Seq<char>>,
    is_executable: bool,
    shebang: Option<Seq<Seq<char>>>,
    head_is_text: Option<bool>,
)
    requires
        !skip_content,
        !skip_shebang,
        custom is None,
    ensures
        configured_needs_shebang(skip_shebang, custom, filename, is_executable) == needs_shebang_spec(
            filename,
            is_executable,
        ),
        head_needed(skip_content, skip_shebang, custom, filename, is_executable) == head_needed(
            false,
            false,
            None,
            filename,
            is_executable,
        ),
        path_tags(skip_content, skip_shebang, custom, filename, is_executable, shebang, head_is_text)
            == path_tags(false, false, None, filename, is_executable, shebang, head_is_text),
{
}

/// With the default settings, `FileIdentifier::identify_from` gives what
/// `tags_from_info` gives.
pub proof fn lemma_default_identify_from_is_tags_from_info(
    filename: Seq<char>,
    kind: FileKind,
    is_executable: bool,
    content: Option<Seq<u8>>,
)
    ensures
        identify_spec(false, false, None, filename, kind, is_executable, content) == info_tags(
            filename,
            kind,
            is_executable,
            content,
        ),
{
    let p = identify_spec(false, false, None, filename, kind, is_executable, content);
    let q = info_tags(filename, kind, is_executable, content);
    if kind == FileKind::Regular {
        assert(regular_base(is_executable).union(Set::<Seq<char>>::empty()) =~= regular_base(is_executable));
        assert(p =~= q);
    }
}

/// With the default settings, the configured analysis of a file's name and
/// shebang line is the plain one, and asks for the shebang line when the plain
/// one does.
pub proof fn lemma_default_filename_analysis_is_plain(
    filename: Option<Seq<char>>,
    is_executable: bool,
    shebang: Option<Seq<Seq<char>>>,
)
    ensures
        configured_filename_and_shebang_tags(false, None, filename, is_executable, shebang)
            == filename_and_shebang_tags(filename, is_executable, shebang),
        configured_needs_shebang(false, None, filename, is_executable) == needs_shebang_spec(
            filename,
            is_executable,
        ),
{
}

/// An entry that is not a regular file gets its kind's tag and nothing else; a
/// regular file always gets `file` and the mode tag that matches whether it may
/// be executed.
pub proof fn lemma_kind_and_mode_tags(
    skip_content: bool,
    skip_shebang: bool,
    custom: Option<Map<Seq<char>, Set<Seq<char>>>>,
    filename: Seq<char>,
    kind: FileKind,
    is_executable: bool,
    content: Option<Seq<u8>>,
)
    ensures
        kind != FileKind::Regular ==> identify_spec(
            skip_content,
            skip_shebang,
            custom,
            filename,
            kind,
            is_executable,
            content,
        ) == set![kind_tag(kind)],
        kind == FileKind::Regular ==> regular_base(is_executable).subset_of(
            identify_spec(skip_content, skip_shebang, custom, filename, kind, is_executable, content),
        ),
{
}

/// Without custom extensions, every tag that a file's name gives it is among the
/// tags of the regular file (identification by path or by information is a
/// superset of identification by name).
pub proof fn lemma_filename_tags_included(
    skip_content: bool,
    skip_shebang: bool,
    filename: Seq<char>,
    is_executable: bool,
    content: Option<Seq<u8>>,
)
    ensures
        filename_tags(filename).subset_of(
            identify_spec(
                skip_content,
                skip_shebang,
                None,
                filename,
                FileKind::Regular,
                is_executable,
                content,
            ),
        ),
{
}

/// A custom extension takes precedence: a file whose extension the user gave
/// tags gets those tags, and besides them only `file`, its mode tag and an
/// encoding tag.
pub proof fn lemma_custom_extension_precedence(
    skip_content: bool,
    skip_shebang: bool,
    custom: Option<Map<Seq<char>, Set<Seq<char>>>>,
    filename: Seq<char>,
    is_executable: bool,
    content: Option<Seq<u8>>,
    tags: Set<Seq<char>>,
)
    requires
        custom_tags(custom, filename) == Some(tags),
    ensures
        tags.subset_of(
            identify_spec(
                skip_content,
                skip_shebang,
                custom,
                filename,
                FileKind::Regular,
                is_executable,
                content,
            ),
        ),
        identify_spec(
            skip_content,
            skip_shebang,
            custom,
            filename,
            FileKind::Regular,
            is_executable,
            content,
        ).subset_of(regular_base(is_executable).union(tags).union(encoding_tag_set())),
{
}

/// Unless content analysis is skipped, a regular file whose content is given
/// always ends up with an encoding tag.
pub proof fn lemma_content_gives_encoding(
    skip_shebang: bool,
    custom: Option<Map<Seq<char>, Set<Seq<char>>>>,
    filename: Seq<char>,
    is_executable: bool,
    content: Seq<u8>,
)
    ensures
        has_encoding_tag(
            identify_spec(
                false,
                skip_shebang,
                custom,
                filename,
                FileKind::Regular,
                is_executable,
                Some(content),
            ),
        ),
{
}

/// Whether content is text depends only on its first `TEXT_PROBE_LEN` bytes.
pub proof fn lemma_text_depends_on_head(content: Seq<u8>, more: Seq<u8>)
    requires
        content.len() >= TEXT_PROBE_LEN,
    ensures
        is_text_content(content + more) == is_text_content(content),
{
    assert forall|i: int| 0 <= i < TEXT_PROBE_LEN implies (content + more)[i] == content[i] by {}
}

/// Only the first line of content matters for its shebang.
pub proof fn lemma_shebang_reads_first_line(content: Seq<u8>)
    ensures
        shebang_components(content) == shebang_components(first_line(content)),
{
    lemma_index_of(content, 10u8);
    match index_of(content, 10u8) {
        Some(i) => {
            let f = content.take(i + 1);
            lemma_index_of_is(f, 10u8, i);
            assert(f.take(i + 1) =~= f);
        },
        None => {},
    }
    assert(first_line(first_line(content)) == first_line(content));
}

/// Content has shebang components only when it starts with `#!`.
pub proof fn lemma_shebang_needs_hashbang(content: Seq<u8>)
    ensures
        shebang_components(content).len() > 0 ==> content.len() >= 2 && content[0] == 0x23u8
            && content[1] == 0x21u8,
{
    lemma_index_of(content, 10u8);
    let f = first_line(content);
    assert forall|j: int| 0 <= j < f.len() implies f[j] == content[j] by {}
    let l = strip_line_ending(f);
    assert forall|j: int| 0 <= j < l.len() implies l[j] == f[j] by {}
}

proof fn lemma_word_chars(s: Seq<char>)
    ensures
        forall|j: int| 0 <= j < word_len(s) ==> !white_space(#[trigger] s[j]),
    decreases s.len(),
{
    if s.len() > 0 && !white_space(s[0]) {
        let t = s.drop_first();
        lemma_word_chars(t);
        lemma_word_len(t);
        assert forall|j: int| 0 <= j < word_len(s) implies !white_space(#[trigger] s[j]) by {
            if j > 0 {
                assert(s[j] == t[j - 1]);
            }
        }
    }
}

/// Every word is non-empty and holds no white space.
pub proof fn lemma_words_are_words(s: Seq<char>)
    ensures
        forall|i: int|
            0 <= i < words(s).len() ==> (#[trigger] words(s)[i]).len() > 0 && forall|j: int|
                0 <= j < words(s)[i].len() ==> !white_space(words(s)[i][j]),
    decreases s.len(),
{
    if s.len() > 0 {
        if white_space(s[0]) {
            lemma_words_are_words(s.drop_first());
            assert(words(s) == words(s.drop_first()));
        } else {
            let k = word_len(s);
            lemma_word_len(s);
            lemma_word_chars(s);
            lemma_words_are_words(s.skip(k));
            let w = words(s);
            assert(w == seq![s.take(k)] + words(s.skip(k)));
            assert forall|i: int| 0 <= i < w.len() implies (#[trigger] w[i]).len() > 0 && forall|j: int|
                0 <= j < w[i].len() ==> !white_space(w[i][j]) by {
                if i > 0 {
                    assert(w[i] == words(s.skip(k))[i - 1]);
                } else {
                    assert(w[0] == s.take(k));
                    assert forall|j: int| 0 <= j < w[0].len() implies !white_space(w[0][j]) by {
                        assert(w[0][j] == s[j]);
                    }
                }
            }
        }
    }
}

/// Every shebang component is non-empty and holds no white space.
pub proof fn lemma_shebang_components_are_words(content: Seq<u8>)
    ensures
        forall|i: int|
            0 <= i < shebang_components(content).len() ==> (#[trigger] shebang_components(content)[i]).len()
                > 0 && forall|j: int|
                0 <= j < shebang_components(content)[i].len() ==> !white_space(
                    shebang_components(content)[i][j],
                ),
{
    let r = shebang_components(content);
    if r.len() > 0 {
        let line = limit_line(strip_line_ending(first_line(content)));
        let body = trim(decode_utf8(line).skip(2));
        let w = words(body);
        lemma_words_are_words(body);
        assert(r == shebang_command(w));
        assert forall|i: int| 0 <= i < r.len() implies (#[trigger] r[i]).len() > 0 && forall|j: int|
            0 <= j < r[i].len() ==> !white_space(r[i][j]) by {
            if w.len() > 0 && w[0] == "/usr/bin/env"@ {
                if w[1] == "-S"@ {
                    assert(r[i] == w[i + 2]);
                } else {
                    assert(r[i] == w[i + 1]);
                }
            } else {
                assert(r[i] == w[i]);
            }
        }
    }
}

/// The directories in an interpreter's path do not matter: `/usr/bin/python3`
/// is identified as `python3`.
pub proof fn lemma_interpreter_directories_ignored(dir: Seq<char>, name: Seq<char>)
    requires
        forall|j: int| 0 <= j < name.len() ==> name[j] != '/',
    ensures
        interpreter_tags(dir + seq!['/'] + name) == interpreter_tags(name),
{
    let p = dir + seq!['/'] + name;
    lemma_last_index_of(p, '/');
    lemma_last_index_of(name, '/');
    let k = dir.len() as int;
    assert(p[k] == '/');
    match last_index_of(p, '/') {
        Some(i) => {
            if i < k {
                assert(false);
            }
            if i > k {
                assert(p[i] == name[i - k - 1]);
            }
            assert(p.skip(k + 1) =~= name);
        },
        None => {},
    }
    assert(last_component(p) == name);
    assert(last_component(name) == name);
}

proof fn lemma_table_tags_are_values(table: Seq<(&'static str, &'static str)>, key: Seq<char>)
    ensures
        table_tags(table, key).subset_of(table_values(table)),
{
    assert forall|t: Seq<char>| table_tags(table, key).contains(t) implies table_values(table).contains(t) by {
        let i = choose|i: int| 0 <= i < table.len() && (#[trigger] table[i]).0@ == key && table[i].1@ == t;
    }
}

proof fn lemma_first_named_are_values(parts: Seq<Seq<char>>)
    ensures
        first_named(parts).subset_of(table_values(NAME_TAGS@)),
    decreases parts.len(),
{
    if parts.len() > 0 {
        lemma_table_tags_are_values(NAME_TAGS@, parts[0]);
        lemma_first_named_are_values(parts.drop_first());
    }
}

proof fn lemma_versioned_interpreter_tags_are_values(name: Seq<char>)
    ensures
        versioned_interpreter_tags(name).subset_of(table_values(INTERPRETER_TAGS@)),
    decreases name.len(),
{
    if name.len() > 0 {
        lemma_table_tags_are_values(INTERPRETER_TAGS@, name);
        match last_index_of(name, '.') {
            Some(p) => if 0 <= p < name.len() {
                lemma_versioned_interpreter_tags_are_values(name.take(p));
            },
            None => {},
        }
    }
}

/// Every tag that a file name gives is a recognized tag (one of `all_tags`).
pub proof fn lemma_filename_tags_are_known(filename: Seq<char>)
    ensures
        filename_tags(filename).subset_of(all_tag_set()),
{
    let name = last_component(filename);
    lemma_first_named_are_values(seq![name] + split_on(name, '.'));
    match file_extension(filename) {
        Some(ext) => {
            lemma_table_tags_are_values(EXTENSION_TAGS@, lower_case(ext));
            lemma_table_tags_are_values(EXTENSIONS_NEED_BINARY_CHECK_TAGS@, lower_case(ext));
        },
        None => {},
    }
}

/// Every tag that an interpreter gives is a recognized tag (one of `all_tags`).
pub proof fn lemma_interpreter_tags_are_known(interpreter: Seq<char>)
    ensures
        interpreter_tags(interpreter).subset_of(all_tag_set()),
{
    lemma_versioned_interpreter_tags_are_values(last_component(interpreter));
}

/// Every tag that `tags_from_info` gives is a recognized tag (one of `all_tags`).
pub proof fn lemma_info_tags_are_known(
    filename: Seq<char>,
    kind: FileKind,
    is_executable: bool,
    content: Option<Seq<u8>>,
)
    ensures
        info_tags(filename, kind, is_executable, content).subset_of(all_tag_set()),
{
    lemma_filename_tags_are_known(filename);
    if content is Some {
        let sb = shebang_components(content.unwrap());
        if sb.len() > 0 {
            lemma_interpreter_tags_are_known(sb[0]);
        }
    }
}


/// A text file that may be executed and whose name is not recognized gets the
/// tags of the interpreter that its shebang line names first, whatever arguments
/// follow it on the line: from its information (with any settings that leave
/// shebang analysis on and give its extension no custom tags) and from the
/// steps taken on disk alike.
pub proof fn lemma_shebang_interpreter_tags_included(
    filename: Seq<char>,
    content: Seq<u8>,
    skip_content: bool,
    custom: Option<Map<Seq<char>, Set<Seq<char>>>>,
)
    requires
        filename_tags(filename) == Set::<Seq<char>>::empty(),
        is_text_content(content),
        shebang_components(content).len() > 0,
    ensures
        interpreter_tags(shebang_components(content)[0]).subset_of(
            info_tags(filename, FileKind::Regular, true, Some(content)),
        ),
        custom_tags(custom, filename) is None ==> interpreter_tags(shebang_components(content)[0]).subset_of(
            identify_spec(skip_content, false, custom, filename, FileKind::Regular, true, Some(content)),
        ),
        custom_tags(custom, filename) is None ==> interpreter_tags(shebang_components(content)[0]).subset_of(
            path_tags(
                skip_content,
                false,
                custom,
                Some(filename),
                true,
                Some(shebang_components(content)),
                Some(true),
            ),
        ),
{
}

/// Custom extensions matter only for files whose extension they list: for any
/// other file, identification with them is identification without them, from
/// pre-loaded information and on disk alike (shebang analysis included).
pub proof fn lemma_unlisted_custom_extensions_change_nothing(
    skip_content: bool,
    skip_shebang: bool,
    custom: Option<Map<Seq<char>, Set<Seq<char>>>>,
    filename: Seq<char>,
    kind: FileKind,
    is_executable: bool,
    content: Option<Seq<u8>>,
    shebang: Option<Seq<Seq<char>>>,
    head_is_text: Option<bool>,
)
    requires
        custom_tags(custom, filename) is None,
    ensures
        identify_spec(skip_content, skip_shebang, custom, filename, kind, is_executable, content)
            == identify_spec(skip_content, skip_shebang, None, filename, kind, is_executable, content),
        configured_needs_shebang(skip_shebang, custom, Some(filename), is_executable)
            == configured_needs_shebang(skip_shebang, None, Some(filename), is_executable),
        configured_filename_and_shebang_tags(skip_shebang, custom, Some(filename), is_executable, shebang)
            == configured_filename_and_shebang_tags(skip_shebang, None, Some(filename), is_executable, shebang),
        head_needed(skip_content, skip_shebang, custom, Some(filename), is_executable)
            == head_needed(skip_content, skip_shebang, None, Some(filename), is_executable),
        path_tags(skip_content, skip_shebang, custom, Some(filename), is_executable, shebang, head_is_text)
            == path_tags(skip_content, skip_shebang, None, Some(filename), is_executable, shebang, head_is_text),
{
}

/// The command of a shebang line keeps every word after the ones it drops: all
/// the words when the line does not go through `/usr/bin/env`, every word after
/// `/usr/bin/env`, or every word after `/usr/bin/env -S`. It is always a suffix of
/// the words, with at most two dropped.
pub proof fn lemma_shebang_command_keeps_arguments(parts: Seq<Seq<char>>)
    ensures
        parts.len() > 0 && parts[0] != "/usr/bin/env"@ ==> shebang_command(parts) == parts,
        parts.len() >= 2 && parts[0] == "/usr/bin/env"@ && parts[1] != "-S"@ ==> shebang_command(parts)
            == parts.skip(1),
        parts.len() >= 3 && parts[0] == "/usr/bin/env"@ && parts[1] == "-S"@ ==> shebang_command(parts)
            == parts.skip(2),
        shebang_command(parts).len() <= parts.len() <= shebang_command(parts).len() + 2,
        shebang_command(parts) == parts.skip(parts.len() - shebang_command(parts).len()),
{
    if parts.len() == 0 {
        assert(parts.skip(0) =~= parts);
    } else if parts[0] != "/usr/bin/env"@ {
        assert(parts.skip(0) =~= parts);
    } else if parts.len() == 1 {
        assert(parts.skip(1) =~= Seq::<Seq<char>>::empty());
    } else if parts[1] == "-S"@ && parts.len() == 2 {
        assert(parts.skip(2) =~= Seq::<Seq<char>>::empty());
    }
}

/// Pieces joined back together, with `c` between neighbours.
pub open spec fn join_on(parts: Seq<Seq<char>>, c: char) -> Seq<char>
    decreases parts.len(),
{
    if parts.len() == 0 {
        Seq::empty()
    } else if parts.len() == 1 {
        parts[0]
    } else {
        parts[0] + seq![c] + join_on(parts.drop_first(), c)
    }
}

/// Splitting a string on `c` loses nothing: there is at least one piece, no piece
/// holds `c`, and joining the pieces with `c` gives the string back.
pub proof fn lemma_split_on_joins_back(s: Seq<char>, c: char)
    ensures
        split_on(s, c).len() >= 1,
        forall|i: int, j: int| 0 <= i < split_on(s, c).len() && 0 <= j < split_on(s, c)[i].len()
            ==> #[trigger] split_on(s, c)[i][j] != c,
        join_on(split_on(s, c), c) == s,
    decreases s.len(),
{
    lemma_index_of(s, c);
    match index_of(s, c) {
        Some(k) => {
            let rest = s.skip(k + 1);
            lemma_split_on_joins_back(rest, c);
            let parts = split_on(s, c);
            assert(parts == seq![s.take(k)] + split_on(rest, c));
            assert(parts.drop_first() =~= split_on(rest, c));
            assert(parts[0] == s.take(k));
            assert forall|i: int, j: int| 0 <= i < parts.len() && 0 <= j < parts[i].len()
                implies #[trigger] parts[i][j] != c by {
                if i > 0 {
                    assert(parts[i] == split_on(rest, c)[i - 1]);
                }
            }
            assert(s.take(k) + seq![c] + rest =~= s);
        },
        None => {
            assert(split_on(s, c) == seq![s]);
        },
    }
}

/// A name with a `.`-free last piece is split into the pieces of what comes
/// before the last `.`, then that last piece.
#[verifier::spinoff_prover]
#[verifier::rlimit(50)]
proof fn lemma_split_on_last_piece(p: Seq<char>, n: Seq<char>)
    requires
        forall|j: int| 0 <= j < n.len() ==> n[j] != '.',
    ensures
        split_on(p + seq!['.'] + n, '.') == split_on(p, '.') + seq![n],
    decreases p.len(),
{
    let s = p + seq!['.'] + n;
    lemma_index_of(p, '.');
    lemma_index_of(n, '.');
    match index_of(p, '.') {
        Some(k) => {
            assert(s[k] == '.');
            assert forall|j: int| 0 <= j < k implies s[j] != '.' by {
                assert(s[j] == p[j]);
            }
            lemma_index_of_is(s, '.', k);
            assert(s.take(k) =~= p.take(k));
            assert(s.skip(k + 1) =~= p.skip(k + 1) + seq!['.'] + n);
            lemma_split_on_last_piece(p.skip(k + 1), n);
            assert(split_on(s, '.') == seq![p.take(k)] + split_on(p.skip(k + 1) + seq!['.'] + n, '.'));
            assert(split_on(p, '.') == seq![p.take(k)] + split_on(p.skip(k + 1), '.'));
            assert(seq![p.take(k)] + (split_on(p.skip(k + 1), '.') + seq![n]) =~= (seq![p.take(k)] + split_on(
                p.skip(k + 1),
                '.',
            )) + seq![n]);
        },
        None => {
            let k = p.len() as int;
            assert(s[k] == '.');
            assert forall|j: int| 0 <= j < k implies s[j] != '.' by {
                assert(s[j] == p[j]);
            }
            lemma_index_of_is(s, '.', k);
            assert(s.take(k) =~= p);
            assert(s.skip(k + 1) =~= n);
            lemma_index_of_none(n, '.');
            assert(split_on(n, '.') == seq![n]);
            assert(split_on(p, '.') == seq![p]);
            assert(split_on(s, '.') == seq![p] + seq![n]);
        },
    }
}

/// The first recognized name among pieces none of which but the last is recognized
/// is the last one's.
proof fn lemma_first_named_last(parts: Seq<Seq<char>>)
    requires
        parts.len() > 0,
        forall|i: int| 0 <= i < parts.len() - 1 ==> name_tags(#[trigger] parts[i]) == Set::<Seq<char>>::empty(),
    ensures
        first_named(parts) == name_tags(parts.last()),
    decreases parts.len(),
{
    if parts.len() > 1 {
        let rest = parts.drop_first();
        assert(name_tags(parts[0]) == Set::<Seq<char>>::empty());
        assert forall|i: int| 0 <= i < rest.len() - 1 implies name_tags(#[trigger] rest[i])
            == Set::<Seq<char>>::empty() by {
            assert(rest[i] == parts[i + 1]);
        }
        lemma_first_named_last(rest);
        assert(rest.last() == parts.last());
    } else {
        assert(parts.drop_first() =~= Seq::<Seq<char>>::empty());
        assert(first_named(parts.drop_first()) == Set::<Seq<char>>::empty());
    }
}

/// Every dot-separated piece of a file name is looked up among the recognized
/// names, the one after the last `.` included: when neither the whole name nor a
/// piece before the last `.` is recognized, a recognized last piece gives its tags
/// (`prod.Dockerfile` is identified as a `Dockerfile`).
pub proof fn lemma_last_dot_piece_is_looked_up(p: Seq<char>, n: Seq<char>)
    requires
        forall|j: int| 0 <= j < n.len() ==> n[j] != '.' && n[j] != '/',
        forall|j: int| 0 <= j < p.len() ==> p[j] != '/',
        name_tags(p + seq!['.'] + n) == Set::<Seq<char>>::empty(),
        forall|i: int| 0 <= i < split_on(p, '.').len() ==> name_tags(#[trigger] split_on(p, '.')[i])
            == Set::<Seq<char>>::empty(),
    ensures
        name_tags(n).subset_of(filename_tags(p + seq!['.'] + n)),
{
    let s = p + seq!['.'] + n;
    lemma_last_index_of(s, '/');
    assert forall|j: int| 0 <= j < s.len() implies s[j] != '/' by {
        if j < p.len() {
            assert(s[j] == p[j]);
        } else if j > p.len() {
            assert(s[j] == n[j - p.len() - 1]);
        }
    }
    assert(last_component(s) == s);
    lemma_split_on_last_piece(p, n);
    let parts = seq![s] + split_on(p, '.') + seq![n];
    assert(seq![s] + split_on(s, '.') =~= parts);
    assert forall|i: int| 0 <= i < parts.len() - 1 implies name_tags(#[trigger] parts[i])
        == Set::<Seq<char>>::empty() by {
        if i > 0 {
            assert(parts[i] == split_on(p, '.')[i - 1]);
        }
    }
    lemma_first_named_last(parts);
}

} // verus!
