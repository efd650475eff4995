//! Character-level helpers on string slices, and the standard-library calls
//! whose results the identification logic depends on.

use vstd::prelude::*;
use vstd::string::StrSliceExecFns;
use vstd::string::StringSliceAdditionalSpecFns;
use vstd::utf8::*;

verus! {

broadcast use vstd::utf8::encode_utf8_decode_utf8;

/// Two string slices are equal exactly when their characters are.
pub fn str_eq(a: &str, b: &str) -> (r: bool)
    ensures
        r == (a@ == b@),
{
    let x = a.as_bytes();
    let y = b.as_bytes();
    if x.len() != y.len() {
        return false;
    }
    let mut i: usize = 0;
    while i < x.len()
        invariant
            x@ == a.spec_bytes(),
            y@ == b.spec_bytes(),
            x@.len() == y@.len(),
            0 <= i <= x@.len(),
            forall|j: int| 0 <= j < i ==> x@[j] == y@[j],
        decreases x@.len() - i,
    {
        if x[i] != y[i] {
            return false;
        }
        i = i + 1;
    }
    assert(x@ =~= y@);
    assert(decode_utf8(encode_utf8(a@)) == a@);
    assert(decode_utf8(encode_utf8(b@)) == b@);
    true
}

/// The index of the first occurrence of `x` in `s`, if any.
pub open spec fn index_of<A>(s: Seq<A>, x: A) -> Option<int>
    decreases s.len(),
{
    if s.len() == 0 {
        None
    } else if s[0] == x {
        Some(0)
    } else {
        match index_of(s.drop_first(), x) {
            Some(i) => Some(i + 1),
            None => None,
        }
    }
}

pub proof fn lemma_index_of<A>(s: Seq<A>, x: A)
    ensures
        match index_of(s, x) {
            Some(i) => 0 <= i < s.len() && s[i] == x && forall|j: int| 0 <= j < i ==> s[j] != x,
            None => forall|j: int| 0 <= j < s.len() ==> s[j] != x,
        },
    decreases s.len(),
{
    if s.len() > 0 && s[0] != x {
        let t = s.drop_first();
        lemma_index_of(t, x);
        match index_of(t, x) {
            Some(i) => {
                assert(s[i + 1] == t[i]);
                assert forall|j: int| 0 <= j < i + 1 implies s[j] != x by {
                    if j > 0 {
                        assert(s[j] == t[j - 1]);
                    }
                }
            },
            None => {
                assert forall|j: int| 0 <= j < s.len() implies s[j] != x by {
                    if j > 0 {
                        assert(s[j] == t[j - 1]);
                    }
                }
            },
        }
    }
}

/// `index_of` finds `k` when `x` sits at `k` and nowhere before it.
pub proof fn lemma_index_of_is<A>(s: Seq<A>, x: A, k: int)
    requires
        0 <= k < s.len(),
        s[k] == x,
        forall|j: int| 0 <= j < k ==> s[j] != x,
    ensures
        index_of(s, x) == Some(k),
{
    lemma_index_of(s, x);
}

/// `index_of` finds nothing when `x` does not occur.
pub proof fn lemma_index_of_none<A>(s: Seq<A>, x: A)
    requires
        forall|j: int| 0 <= j < s.len() ==> s[j] != x,
    ensures
        index_of(s, x) is None,
{
    lemma_index_of(s, x);
}

/// The index of the last occurrence of `c` in `s`, if any.
pub open spec fn last_index_of(s: Seq<char>, c: char) -> Option<int>
    decreases s.len(),
{
    if s.len() == 0 {
        None
    } else if s.last() == c {
        Some(s.len() - 1)
    } else {
        last_index_of(s.drop_last(), c)
    }
}

pub proof fn lemma_last_index_of(s: Seq<char>, c: char)
    ensures
        match last_index_of(s, c) {
            Some(i) => 0 <= i < s.len() && s[i] == c && forall|j: int| i < j < s.len() ==> s[j] != c,
            None => forall|j: int| 0 <= j < s.len() ==> s[j] != c,
        },
    decreases s.len(),
{
    if s.len() > 0 && s.last() != c {
        let t = s.drop_last();
        lemma_last_index_of(t, c);
        assert forall|j: int| 0 <= j < t.len() implies t[j] == s[j] by {}
    }
}

/// Finds the last occurrence of `c` among the first `end` characters of `s`.
pub fn rfind_char(s: &str, end: usize, c: char) -> (r: Option<usize>)
    requires
        end <= s@.len(),
    ensures
        match r {
            Some(i) => last_index_of(s@.take(end as int), c) == Some(i as int),
            None => last_index_of(s@.take(end as int), c) is None,
        },
{
    let mut k: usize = end;
    while k > 0
        invariant
            k <= end <= s@.len(),
            last_index_of(s@.take(end as int), c) == last_index_of(s@.take(k as int), c),
        decreases k,
    {
        let ch = s.get_char(k - 1);
        if ch == c {
            return Some(k - 1);
        }
        assert(s@.take(k as int).drop_last() =~= s@.take(k - 1));
        k = k - 1;
    }
    None
}

/// The extension of a path, as `std::path::Path::extension` computes it (with the
/// path separators of the platform the library is built for).
pub uninterp spec fn path_extension(path: Seq<char>) -> Option<Seq<char>>;

/// Whether a path is a bare file name: it holds none of the characters that
/// separate path components or begin a drive prefix (`/`, `\`, `:`).
pub open spec fn bare_name(path: Seq<char>) -> bool {
    forall|i: int| 0 <= i < path.len() ==> path[i] != '/' && path[i] != '\\' && path[i] != ':'
}

/// The extension of a bare file name: none for `..` (which names no file), none
/// when the name has no `.` after its first character, else what follows the
/// last `.`.
pub open spec fn name_extension(name: Seq<char>) -> Option<Seq<char>> {
    if name == seq!['.', '.'] {
        None
    } else {
        match last_index_of(name, '.') {
            Some(i) => if i > 0 {
                Some(name.skip(i + 1))
            } else {
                None
            },
            None => None,
        }
    }
}

/// The last `/`-separated component of a path (the whole string when it holds
/// no `/`).
pub open spec fn last_component(path: Seq<char>) -> Seq<char> {
    match last_index_of(path, '/') {
        Some(i) => path.skip(i + 1),
        None => path,
    }
}

/// Whether a path separates its components with `/` alone and ends in a file
/// name: it holds no `\` or `:` (so it has no drive or device prefix), does not
/// begin with `//` (a network prefix on some platforms), and its last component
/// is neither empty nor `.`.
pub open spec fn slash_path(path: Seq<char>) -> bool {
    &&& forall|i: int| 0 <= i < path.len() ==> path[i] != '\\' && path[i] != ':'
    &&& !(path.len() >= 2 && path[0] == '/' && path[1] == '/')
    &&& last_component(path).len() > 0
    &&& last_component(path) != seq!['.']
}

/// The extension of a path: the documented one for a bare file name or for a
/// `/`-separated path (that of its last component), else what `Path::extension`
/// computes.
pub open spec fn file_extension(path: Seq<char>) -> Option<Seq<char>> {
    if bare_name(path) {
        name_extension(path)
    } else if slash_path(path) {
        name_extension(last_component(path))
    } else {
        path_extension(path)
    }
}

/// Calls `std::path::Path::extension` on `path` (read as a path) and hands back the
/// extension as a string slice (it is always valid UTF-8, being cut out of a
/// `&str` at a `.`). The result is a function of the path's characters. For a bare
/// file name it is the one `Path::extension` documents (see `name_extension`); for
/// a path whose components are separated by `/` alone (see `slash_path`) it is
/// that of its last component, the file name. How the file name is cut out of
/// other paths, which depends on the platform's separators and prefixes, is not
/// stated here.
#[verifier::external_body]
pub(crate) fn extension_of(path: &str) -> (r: Option<&str>)
    ensures
        match r {
            Some(e) => path_extension(path@) == Some(e@),
            None => path_extension(path@) is None,
        },
        bare_name(path@) ==> match r {
            Some(e) => name_extension(path@) == Some(e@),
            None => name_extension(path@) is None,
        },
        slash_path(path@) ==> match r {
            Some(e) => name_extension(last_component(path@)) == Some(e@),
            None => name_extension(last_component(path@)) is None,
        },
{
    match std::path::Path::new(path).extension() {
        Some(ext) => ext.to_str(),
        None => None,
    }
}

/// The lower-case form of a string, as `str::to_lowercase` computes it.
pub uninterp spec fn lowercase(s: Seq<char>) -> Seq<char>;

/// Whether every character of a string is ASCII.
pub open spec fn ascii_only(s: Seq<char>) -> bool {
    forall|i: int| 0 <= i < s.len() ==> s[i] <= '\u{7f}'
}

/// The lower-case form of an ASCII character: `A` to `Z` become `a` to `z`, any
/// other character stays.
pub open spec fn ascii_lower(c: char) -> char {
    if 'A' <= c <= 'Z' {
        ((c as u32) + 32) as char
    } else {
        c
    }
}

/// The lower-case form of a string: `A` to `Z` made lower case for an ASCII
/// string, else the Unicode case mapping of `str::to_lowercase`.
pub open spec fn lower_case(s: Seq<char>) -> Seq<char> {
    if ascii_only(s) {
        s.map_values(|c: char| ascii_lower(c))
    } else {
        lowercase(s)
    }
}

/// Calls `str::to_lowercase`. The result is a function of the characters of `s`;
/// for an ASCII string it is the string with `A` to `Z` made lower case. The full
/// Unicode case mapping applied to other characters is not stated here.
#[verifier::external_body]
pub(crate) fn to_lowercase(s: &str) -> (r: String)
    ensures
        r@ == lowercase(s@),
        ascii_only(s@) ==> r@ == s@.map_values(|c: char| ascii_lower(c)),
{
    s.to_lowercase()
}

/// Whether a character has the Unicode `White_Space` property: the controls TAB
/// to CR, space, NEL, no-break space, the Ogham space mark, the spaces U+2000 to
/// U+200A, the line and paragraph separators, the narrow no-break space, the
/// medium mathematical space and the ideographic space.
pub open spec fn white_space(c: char) -> bool {
    ||| '\u{9}' <= c <= '\u{d}'
    ||| c == ' '
    ||| c == '\u{85}'
    ||| c == '\u{a0}'
    ||| c == '\u{1680}'
    ||| '\u{2000}' <= c <= '\u{200a}'
    ||| c == '\u{2028}'
    ||| c == '\u{2029}'
    ||| c == '\u{202f}'
    ||| c == '\u{205f}'
    ||| c == '\u{3000}'
}

/// Whether a character has the Unicode `White_Space` property (what
/// `char::is_whitespace` tells).
pub(crate) fn is_whitespace(c: char) -> (r: bool)
    ensures
        r == white_space(c),
{
    ('\u{9}' <= c && c <= '\u{d}') || c == ' ' || c == '\u{85}' || c == '\u{a0}' || c == '\u{1680}'
        || ('\u{2000}' <= c && c <= '\u{200a}') || c == '\u{2028}' || c == '\u{2029}' || c == '\u{202f}'
        || c == '\u{205f}' || c == '\u{3000}'
}

/// Calls `String::from_utf8`: the bytes become a string exactly when they are valid
/// UTF-8, and the string's characters are then the ones the bytes encode.
#[verifier::external_body]
pub(crate) fn string_from_utf8(bytes: Vec<u8>) -> (r: Option<String>)
    ensures
        r is Some <==> valid_utf8(bytes@),
        r matches Some(s) ==> s@ == decode_utf8(bytes@),
{
    String::from_utf8(bytes).ok()
}

/// `s` without its leading characters that are white space.
pub open spec fn trim_start(s: Seq<char>) -> Seq<char>
    decreases s.len(),
{
    if s.len() > 0 && white_space(s[0]) {
        trim_start(s.drop_first())
    } else {
        s
    }
}

/// `s` without its trailing characters that are white space.
pub open spec fn trim_end(s: Seq<char>) -> Seq<char>
    decreases s.len(),
{
    if s.len() > 0 && white_space(s.last()) {
        trim_end(s.drop_last())
    } else {
        s
    }
}

/// `s` without leading and trailing white space, as `str::trim` computes it.
pub open spec fn trim(s: Seq<char>) -> Seq<char> {
    trim_end(trim_start(s))
}

pub proof fn lemma_trim_len(s: Seq<char>)
    ensures
        trim(s).len() <= s.len(),
{
    lemma_trim_start_len(s);
    lemma_trim_end_len(trim_start(s));
}

proof fn lemma_trim_start_len(s: Seq<char>)
    ensures
        trim_start(s).len() <= s.len(),
    decreases s.len(),
{
    if s.len() > 0 && white_space(s[0]) {
        lemma_trim_start_len(s.drop_first());
    }
}

proof fn lemma_trim_end_len(s: Seq<char>)
    ensures
        trim_end(s).len() <= s.len(),
    decreases s.len(),
{
    if s.len() > 0 && white_space(s.last()) {
        lemma_trim_end_len(s.drop_last());
    }
}

/// Removes leading and trailing white space, as `str::trim` does.
pub fn trim_whitespace(s: &str) -> (r: &str)
    ensures
        r@ == trim(s@),
{
    let n = s.unicode_len();
    let mut a: usize = 0;
    let mut found = false;
    assert(s@.skip(0) =~= s@);
    while a < n && !found
        invariant
            n == s@.len(),
            0 <= a <= n,
            trim_start(s@) == trim_start(s@.skip(a as int)),
            found ==> a < n && !white_space(s@[a as int]),
        decreases n - a + (if found { 0int } else { 1int }),
    {
        if is_whitespace(s.get_char(a)) {
            assert(s@.skip(a as int).drop_first() =~= s@.skip(a + 1));
            a = a + 1;
        } else {
            found = true;
        }
    }
    assert(trim_start(s@) == s@.subrange(a as int, n as int)) by {
        assert(s@.skip(a as int) =~= s@.subrange(a as int, n as int));
    }
    let mut b: usize = n;
    let mut found_end = false;
    assert(s@.subrange(a as int, n as int) == trim_start(s@));
    while b > a && !found_end
        invariant
            n == s@.len(),
            0 <= a <= b <= n,
            trim_start(s@) == s@.subrange(a as int, n as int),
            trim(s@) == trim_end(s@.subrange(a as int, b as int)),
            found_end ==> b > a && !white_space(s@[b - 1]),
        decreases b - a + (if found_end { 0int } else { 1int }),
    {
        if is_whitespace(s.get_char(b - 1)) {
            assert(s@.subrange(a as int, b as int).drop_last() =~= s@.subrange(a as int, b - 1));
            b = b - 1;
        } else {
            found_end = true;
        }
    }
    s.substring_char(a, b)
}

/// Length of the run of characters at the start of `s` that are not white space.
pub open spec fn word_len(s: Seq<char>) -> int
    decreases s.len(),
{
    if s.len() == 0 || white_space(s[0]) {
        0
    } else {
        1 + word_len(s.drop_first())
    }
}

pub proof fn lemma_word_len(s: Seq<char>)
    ensures
        0 <= word_len(s) <= s.len(),
        s.len() > 0 && !white_space(s[0]) ==> word_len(s) >= 1,
    decreases s.len(),
{
    if s.len() > 0 && !white_space(s[0]) {
        lemma_word_len(s.drop_first());
    }
}

/// The maximal runs of characters of `s` that are not white space, in order, as
/// `str::split_whitespace` yields them.
pub open spec fn words(s: Seq<char>) -> Seq<Seq<char>>
    decreases s.len(),
{
    if s.len() == 0 {
        Seq::empty()
    } else if white_space(s[0]) {
        words(s.drop_first())
    } else {
        let k = word_len(s);
        if 1 <= k <= s.len() {
            seq![s.take(k)] + words(s.skip(k))
        } else {
            Seq::empty()
        }
    }
}

} // verus!
