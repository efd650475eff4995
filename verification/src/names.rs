//! Identification from a file name or from an interpreter name.

use vstd::prelude::*;
use vstd::string::StrSliceExecFns;

use crate::extensions::{
    binary_check_tags, extension_tags, get_extension_tags, get_extensions_need_binary_check_tags,
    get_name_tags, name_tags,
};
use crate::interpreters::{get_interpreter_tags, interpreter_table_tags};
use crate::tags::TagSet;
use crate::text::{
    extension_of, index_of, last_index_of, lemma_index_of_is, lemma_index_of_none,
    last_component, lemma_last_index_of, lower_case, file_extension, rfind_char, to_lowercase,
};

verus! {

/// The pieces of `s` between occurrences of `c`, as `str::split` yields them.
pub open spec fn split_on(s: Seq<char>, c: char) -> Seq<Seq<char>>
    decreases s.len(),
{
    match index_of(s, c) {
        Some(i) => if 0 <= i < s.len() {
            seq![s.take(i)] + split_on(s.skip(i + 1), c)
        } else {
            seq![s]
        },
        None => seq![s],
    }
}

/// The tags of the first of `parts` that is a recognized file name.
pub open spec fn first_named(parts: Seq<Seq<char>>) -> Set<Seq<char>>
    decreases parts.len(),
{
    if parts.len() == 0 {
        Set::empty()
    } else if name_tags(parts[0]) != Set::<Seq<char>>::empty() {
        name_tags(parts[0])
    } else {
        first_named(parts.drop_first())
    }
}

/// The tags that the extension of a file name gives it: those of a recognized
/// extension, else those of an extension whose encoding is read from content.
pub open spec fn extension_part(filename: Seq<char>) -> Set<Seq<char>> {
    match file_extension(filename) {
        Some(ext) => {
            let lower = lower_case(ext);
            if extension_tags(lower) != Set::<Seq<char>>::empty() {
                extension_tags(lower)
            } else {
                binary_check_tags(lower)
            }
        },
        None => Set::empty(),
    }
}

/// The tags of a file name, which may come with the directories of its path:
/// those of the first recognized name among the last path component and its
/// dot-separated pieces, with those of the extension.
pub open spec fn filename_tags(filename: Seq<char>) -> Set<Seq<char>> {
    let name = last_component(filename);
    first_named(seq![name] + split_on(name, '.')).union(extension_part(filename))
}

/// The last `/`-separated component of a path.
fn last_component_of(path: &str) -> (r: &str)
    ensures
        r@ == last_component(path@),
{
    let n = path.unicode_len();
    proof {
        assert(path@.take(n as int) =~= path@);
        lemma_last_index_of(path@, '/');
    }
    match rfind_char(path, n, '/') {
        Some(i) => path.substring_char(i + 1, n),
        None => path,
    }
}

proof fn lemma_first_named_cons(p: Seq<char>, rest: Seq<Seq<char>>)
    ensures
        first_named(seq![p] + rest) == if name_tags(p) != Set::<Seq<char>>::empty() {
            name_tags(p)
        } else {
            first_named(rest)
        },
{
    assert((seq![p] + rest).drop_first() =~= rest);
    assert((seq![p] + rest)[0] == p);
}

/// The tags of the first dot-separated piece of `s` that is a recognized name.
fn first_named_piece(s: &str) -> (r: TagSet)
    ensures
        r@ == first_named(split_on(s@, '.')),
{
    let n = s.unicode_len();
    let mut start: usize = 0;
    let mut i: usize = 0;
    assert(s@.skip(0) =~= s@);
    while i < n
        invariant
            n == s@.len(),
            0 <= start <= i <= n,
            first_named(split_on(s@, '.')) == first_named(split_on(s@.skip(start as int), '.')),
            forall|j: int| start <= j < i ==> s@[j] != '.',
        decreases n - i,
    {
        if s.get_char(i) == '.' {
            let ghost rest = s@.skip(start as int);
            proof {
                lemma_index_of_is(rest, '.', i - start);
                assert(rest.take(i - start) =~= s@.subrange(start as int, i as int));
                assert(rest.skip(i - start + 1) =~= s@.skip(i + 1));
                lemma_first_named_cons(s@.subrange(start as int, i as int), split_on(s@.skip(i + 1), '.'));
            }
            let tags = get_name_tags(s.substring_char(start, i));
            if !tags.is_empty() {
                return tags;
            }
            start = i + 1;
        }
        i = i + 1;
    }
    let ghost rest = s@.skip(start as int);
    proof {
        lemma_index_of_none(rest, '.');
        assert(rest =~= s@.subrange(start as int, n as int));
        lemma_first_named_cons(rest, Seq::empty());
        assert(seq![rest] + Seq::<Seq<char>>::empty() =~= seq![rest]);
    }
    get_name_tags(s.substring_char(start, n))
}

/// Identifies a file by its name alone, without any I/O. The name may come with
/// the directories of its path.
///
/// The last path component, then each of its dot-separated pieces in turn, is looked up
/// among the recognized file names, and the first one found gives its tags. The
/// extension (read case-insensitively) then adds the tags of a recognized
/// extension, or else those of an extension whose encoding is read from content.
/// The set is empty when nothing is recognized.
pub fn tags_from_filename(filename: &str) -> (r: TagSet)
    ensures
        r@ == filename_tags(filename@),
{
    let name = last_component_of(filename);
    let mut tags = get_name_tags(name);
    if tags.is_empty() {
        tags = first_named_piece(name);
    }
    proof {
        lemma_first_named_cons(name@, split_on(name@, '.'));
    }
    match extension_of(filename) {
        Some(ext) => {
            let lower = to_lowercase(ext);
            let ext_tags = get_extension_tags(lower.as_str());
            if !ext_tags.is_empty() {
                tags.extend(&ext_tags);
            } else {
                let check_tags = get_extensions_need_binary_check_tags(lower.as_str());
                if !check_tags.is_empty() {
                    tags.extend(&check_tags);
                } else {
                    assert(tags@.union(check_tags@) =~= tags@);
                }
            }
        },
        None => {
            assert(tags@.union(Set::<Seq<char>>::empty()) =~= tags@);
        },
    }
    tags
}

/// The tags of an interpreter name, trying shorter and shorter names by removing
/// the last dot-separated piece (`python3.11` is tried as `python3`).
pub open spec fn versioned_interpreter_tags(name: Seq<char>) -> Set<Seq<char>>
    decreases name.len(),
{
    if name.len() == 0 {
        Set::empty()
    } else if interpreter_table_tags(name) != Set::<Seq<char>>::empty() {
        interpreter_table_tags(name)
    } else {
        match last_index_of(name, '.') {
            Some(p) => if 0 <= p < name.len() {
                versioned_interpreter_tags(name.take(p))
            } else {
                Set::empty()
            },
            None => Set::empty(),
        }
    }
}

/// The tags of an interpreter, named by itself or by its path.
pub open spec fn interpreter_tags(interpreter: Seq<char>) -> Set<Seq<char>> {
    versioned_interpreter_tags(last_component(interpreter))
}

/// Identifies a script by the interpreter of its shebang line.
///
/// The directories of a path are dropped, and a version suffix is removed one
/// dot-separated piece at a time until a recognized interpreter is found. The set
/// is empty when none is.
pub fn tags_from_interpreter(interpreter: &str) -> (r: TagSet)
    ensures
        r@ == interpreter_tags(interpreter@),
{
    let name = last_component_of(interpreter);
    let mut end: usize = name.unicode_len();
    assert(name@.take(end as int) =~= name@);
    while end > 0
        invariant
            end <= name@.len(),
            interpreter_tags(interpreter@) == versioned_interpreter_tags(name@.take(end as int)),
        decreases end,
    {
        let tags = get_interpreter_tags(name.substring_char(0, end));
        assert(name@.subrange(0, end as int) =~= name@.take(end as int));
        if !tags.is_empty() {
            return tags;
        }
        match rfind_char(name, end, '.') {
            Some(p) => {
                proof {
                    lemma_last_index_of(name@.take(end as int), '.');
                    assert(name@.take(end as int).take(p as int) =~= name@.take(p as int));
                }
                end = p;
            },
            None => {
                return TagSet::new();
            },
        }
    }
    assert(name@.take(0) =~= Seq::<char>::empty());
    TagSet::new()
}

/// Whether a byte is one that text may hold: printable ASCII, any byte from
/// 0x80 up, and the controls BEL, BS, TAB, LF, VT, FF, CR and ESC.
pub open spec fn is_text_byte(b: u8) -> bool {
    (0x20 <= b && b < 0x7f) || b >= 0x80 || (7 <= b && b <= 13) || b == 27
}

/// The number of leading bytes that decide whether content is text.
pub const TEXT_PROBE_LEN: usize = 1024;

/// Whether the first `TEXT_PROBE_LEN` bytes of `content` are all text bytes.
pub open spec fn is_text_content(content: Seq<u8>) -> bool {
    forall|i: int| 0 <= i < content.len() && i < TEXT_PROBE_LEN ==> is_text_byte(#[trigger] content[i])
}

/// Decides whether content is text or binary from its first `TEXT_PROBE_LEN`
/// bytes, much as the `file` command does: it is text when every one of them is
/// a text byte. Empty content is text.
pub fn is_text(content: &[u8]) -> (r: bool)
    ensures
        r == is_text_content(content@),
{
    let mut i: usize = 0;
    while i < content.len() && i < TEXT_PROBE_LEN
        invariant
            0 <= i <= content@.len(),
            i <= TEXT_PROBE_LEN,
            forall|j: int| 0 <= j < i ==> is_text_byte(#[trigger] content@[j]),
        decreases content@.len() - i,
    {
        let b = content[i];
        if !((0x20u8 <= b && b < 0x7fu8) || b >= 0x80u8 || (7u8 <= b && b <= 13u8) || b == 27u8) {
            return false;
        }
        i = i + 1;
    }
    true
}

} // verus!
