//! Shebang lines: the components of a script's `#!` line.

use vstd::prelude::*;
use vstd::string::StrSliceExecFns;
use vstd::string::StringExecFns;
use vstd::std_specs::iter::IteratorSpec;
use vstd::utf8::*;

use crate::text::{
    index_of, is_whitespace, lemma_index_of_is, lemma_index_of_none, lemma_word_len, str_eq,
    string_from_utf8, trim, trim_whitespace, white_space, word_len, words, lemma_trim_len,
};

verus! {

/// The words of a shebang line, kept in a `smallvec::SmallVec` since a shebang
/// line seldom has more than a few.
#[verifier::external_body]
pub struct WordList {
    items: smallvec::SmallVec<[String; 4]>,
}

/// The words held by a `WordList`.
pub uninterp spec fn word_list_items(list: WordList) -> Seq<Seq<char>>;

/// Calls `SmallVec::new`: the new list holds nothing.
#[verifier::external_body]
fn word_list_new() -> (r: WordList)
    ensures
        word_list_items(r) == Seq::<Seq<char>>::empty(),
{
    WordList { items: smallvec::SmallVec::new() }
}

/// Calls `SmallVec::push`: the word is appended after the others. The call panics
/// only when the capacity would overflow `usize`, which the bound on the length
/// rules out.
#[verifier::external_body]
fn word_list_push(list: &mut WordList, word: String)
    requires
        word_list_items(*old(list)).len() < 0x1000_0000,
    ensures
        word_list_items(*final(list)) == word_list_items(*old(list)).push(word@),
{
    list.items.push(word)
}

/// Calls `SmallVec::len`: the number of words held.
#[verifier::external_body]
fn word_list_len(list: &WordList) -> (r: usize)
    ensures
        r == word_list_items(*list).len(),
{
    list.items.len()
}

/// Indexes the `SmallVec` (through its slice): the word at `index`.
#[verifier::external_body]
fn word_list_get(list: &WordList, index: usize) -> (r: &String)
    requires
        index < word_list_items(*list).len(),
    ensures
        r@ == word_list_items(*list)[index as int],
{
    &list.items[index]
}

/// The components of a shebang line, like a tuple of strings.
#[derive(Debug, PartialEq, Eq, Hash)]
pub struct ShebangTuple {
    components: Vec<String>,
}

impl View for ShebangTuple {
    type V = Seq<Seq<char>>;

    closed spec fn view(&self) -> Seq<Seq<char>> {
        self.components@.map_values(|s: String| s@)
    }
}

/// How a tuple of components is written: `()`, `('a',)` or `('a', 'b')`.
pub open spec fn tuple_display(items: Seq<Seq<char>>) -> Seq<char> {
    let inner = tuple_items_display(items);
    if items.len() == 1 {
        "("@ + inner + ",)"@
    } else {
        "("@ + inner + ")"@
    }
}

/// The quoted components, separated by `, `.
pub open spec fn tuple_items_display(items: Seq<Seq<char>>) -> Seq<char>
    decreases items.len(),
{
    if items.len() == 0 {
        Seq::empty()
    } else if items.len() == 1 {
        "'"@ + items[0] + "'"@
    } else {
        tuple_items_display(items.drop_last()) + ", '"@ + items.last() + "'"@
    }
}

impl ShebangTuple {
    /// An empty tuple.
    pub fn new() -> (r: ShebangTuple)
        ensures
            r@ == Seq::<Seq<char>>::empty(),
    {
        let r = ShebangTuple { components: Vec::new() };
        assert(r@ =~= Seq::<Seq<char>>::empty());
        r
    }

    /// A tuple of the strings of `vec`, in order.
    pub fn from_vec(vec: Vec<String>) -> (r: ShebangTuple)
        ensures
            r@ == vec@.map_values(|s: String| s@),
    {
        ShebangTuple { components: vec }
    }

    /// The number of components.
    pub fn len(&self) -> (r: usize)
        ensures
            r == self@.len(),
    {
        self.components.len()
    }

    /// Whether there is no component.
    pub fn is_empty(&self) -> (r: bool)
        ensures
            r == (self@.len() == 0),
    {
        self.components.len() == 0
    }

    /// The component at `index`, if there is one.
    pub fn get(&self, index: usize) -> (r: Option<&str>)
        ensures
            r is Some <==> index < self@.len(),
            r matches Some(s) ==> s@ == self@[index as int],
    {
        if index < self.components.len() {
            Some(self.components[index].as_str())
        } else {
            None
        }
    }

    /// The first component, if there is one.
    pub fn first(&self) -> (r: Option<&str>)
        ensures
            r is Some <==> self@.len() > 0,
            r matches Some(s) ==> s@ == self@[0],
    {
        self.get(0)
    }

    /// The components as a vector.
    pub fn into_vec(self) -> (r: Vec<String>)
        ensures
            r@.map_values(|s: String| s@) == self@,
    {
        self.components
    }

    /// An iterator over the components, in order.
    pub fn iter(&self) -> (r: std::slice::Iter<'_, String>)
        ensures
            IteratorSpec::remaining(&r).unref().map_values(|s: String| s@) == self@,
    {
        let r = self.components.as_slice().iter();
        assert(IteratorSpec::remaining(&r).unref() =~= self.components@);
        r
    }

    /// The components as a slice.
    pub fn as_slice(&self) -> (r: &[String])
        ensures
            r@.map_values(|s: String| s@) == self@,
    {
        self.components.as_slice()
    }

    /// The tuple written as `()`, `('a',)` or `('a', 'b')`.
    pub fn to_display_string(&self) -> (r: String)
        ensures
            r@ == tuple_display(self@),
    {
        let mut r = String::from_str("(");
        let mut i: usize = 0;
        while i < self.components.len()
            invariant
                0 <= i <= self@.len(),
                self@.len() == self.components@.len(),
                r@ == "("@ + tuple_items_display(self@.take(i as int)),
            decreases self@.len() - i,
        {
            if i > 0 {
                r.append(", ");
            }
            r.append("'");
            r.append(self.components[i].as_str());
            r.append("'");
            proof {
                let t = self@.take(i + 1);
                assert(t.drop_last() =~= self@.take(i as int));
                assert(t.last() == self@[i as int]);
                reveal_strlit("(");
                reveal_strlit(", ");
                reveal_strlit("'");
                reveal_strlit(", '");
                if i == 0 {
                    assert(self@.take(0) =~= Seq::<Seq<char>>::empty());
                    assert(r@ =~= "("@ + tuple_items_display(t));
                } else {
                    assert(r@ =~= "("@ + tuple_items_display(t));
                }
            }
            i = i + 1;
        }
        if self.components.len() == 1 {
            r.append(",");
        }
        r.append(")");
        proof {
            assert(self@.take(self@.len() as int) =~= self@);
            reveal_strlit(",)");
            reveal_strlit(",");
            reveal_strlit(")");
            reveal_strlit("(");
            if self@.len() == 1 {
                assert(r@ =~= "("@ + tuple_items_display(self@) + ",)"@);
            } else {
                assert(r@ =~= "("@ + tuple_items_display(self@) + ")"@);
            }
        }
        r
    }
}

impl Clone for ShebangTuple {
    fn clone(&self) -> (r: ShebangTuple)
        ensures
            r@ == self@,
    {
        let mut components: Vec<String> = Vec::new();
        let mut i: usize = 0;
        while i < self.components.len()
            invariant
                0 <= i <= self.components@.len(),
                components@.map_values(|s: String| s@) == self@.take(i as int),
            decreases self.components@.len() - i,
        {
            let ghost before = components@;
            components.push(self.components[i].clone());
            assert(components@.map_values(|s: String| s@) =~= before.map_values(|s: String| s@).push(self.components@[i as int]@));
            assert(self@.take(i + 1) =~= self@.take(i as int).push(self@[i as int]));
            i = i + 1;
        }
        assert(self@.take(self@.len() as int) =~= self@);
        ShebangTuple { components }
    }
}

impl From<Vec<String>> for ShebangTuple {
    fn from(vec: Vec<String>) -> (r: ShebangTuple) {
        ShebangTuple { components: vec }
    }
}

impl vstd::std_specs::convert::FromSpecImpl<Vec<String>> for ShebangTuple {
    open spec fn obeys_from_spec() -> bool {
        true
    }

    closed spec fn from_spec(v: Vec<String>) -> ShebangTuple {
        ShebangTuple { components: v }
    }
}

/// A tuple made by `From` holds the strings of the vector, in order.
pub proof fn lemma_from_vec_view(vec: Vec<String>)
    ensures
        <ShebangTuple as vstd::std_specs::convert::FromSpec<Vec<String>>>::from_spec(vec)@ == vec@.map_values(
            |s: String| s@,
        ),
{
}

impl Default for ShebangTuple {
    fn default() -> (r: ShebangTuple)
        ensures
            r@ == Seq::<Seq<char>>::empty(),
    {
        ShebangTuple::new()
    }
}

/// The first line of `content`, with its newline if it has one.
pub open spec fn first_line(content: Seq<u8>) -> Seq<u8> {
    match index_of(content, 10u8) {
        Some(i) => content.take(i + 1),
        None => content,
    }
}

/// A line without its trailing `\n`, and then without a trailing `\r`.
pub open spec fn strip_line_ending(line: Seq<u8>) -> Seq<u8> {
    let a = if line.len() > 0 && line.last() == 10u8 {
        line.drop_last()
    } else {
        line
    };
    if a.len() > 0 && a.last() == 13u8 {
        a.drop_last()
    } else {
        a
    }
}

/// The longest shebang line that is read, in bytes.
pub const MAX_SHEBANG_LINE: usize = 1024;

/// A shebang line is read only up to its first `MAX_SHEBANG_LINE` bytes.
pub open spec fn limit_line(line: Seq<u8>) -> Seq<u8> {
    if line.len() > MAX_SHEBANG_LINE {
        line.take(MAX_SHEBANG_LINE as int)
    } else {
        line
    }
}

/// Whether a line starts with `#!`.
pub open spec fn starts_with_shebang(line: Seq<u8>) -> bool {
    line.len() >= 2 && line[0] == 0x23u8 && line[1] == 0x21u8
}

/// The characters a shebang line may hold: printable ASCII and the tab.
pub open spec fn shebang_char_ok(c: char) -> bool {
    c == '\t' || (' ' <= c && c <= '~')
}

/// The command that a shebang's words name: after `/usr/bin/env` (and its `-S`)
/// when the line goes through `env`, else all the words.
pub open spec fn shebang_command(parts: Seq<Seq<char>>) -> Seq<Seq<char>> {
    if parts.len() == 0 {
        Seq::empty()
    } else if parts[0] == "/usr/bin/env"@ {
        if parts.len() == 1 {
            Seq::empty()
        } else if parts[1] == "-S"@ {
            if parts.len() > 2 {
                parts.skip(2)
            } else {
                Seq::empty()
            }
        } else {
            parts.skip(1)
        }
    } else {
        parts
    }
}

/// The components of the shebang line that starts `content` (none when there is
/// no such line, or when it is not valid UTF-8, or holds a character other than
/// printable ASCII and the tab).
pub open spec fn shebang_components(content: Seq<u8>) -> Seq<Seq<char>> {
    let line = limit_line(strip_line_ending(first_line(content)));
    if content.len() == 0 || !starts_with_shebang(strip_line_ending(first_line(content))) {
        Seq::empty()
    } else if !valid_utf8(line) {
        Seq::empty()
    } else {
        let body = trim(decode_utf8(line).skip(2));
        if exists|i: int| 0 <= i < body.len() && !shebang_char_ok(#[trigger] body[i]) {
            Seq::empty()
        } else {
            shebang_command(words(body))
        }
    }
}

/// A valid UTF-8 sequence that starts with two ASCII bytes decodes to at least two
/// characters.
proof fn lemma_decode_two_ascii(bytes: Seq<u8>)
    requires
        valid_utf8(bytes),
        bytes.len() >= 2,
        bytes[0] < 0x80,
        bytes[1] < 0x80,
    ensures
        decode_utf8(bytes).len() >= 2,
{
    let rest = pop_first_scalar(bytes);
    assert(length_of_first_scalar(bytes) == 1);
    assert(rest =~= bytes.subrange(1, bytes.len() as int));
    assert(valid_utf8(rest));
    assert(rest[0] == bytes[1]);
    let rest2 = pop_first_scalar(rest);
    assert(length_of_first_scalar(rest) == 1);
    assert(valid_utf8(rest2));
    assert(decode_utf8(rest).len() == 1 + decode_utf8(rest2).len());
    assert(decode_utf8(bytes).len() == 1 + decode_utf8(rest).len());
}

/// Decoding never yields more characters than there are bytes.
proof fn lemma_decode_len(bytes: Seq<u8>)
    requires
        valid_utf8(bytes),
    ensures
        decode_utf8(bytes).len() <= bytes.len(),
    decreases bytes.len(),
{
    if bytes.len() > 0 {
        let rest = pop_first_scalar(bytes);
        assert(1 <= length_of_first_scalar(bytes) <= bytes.len());
        assert(rest.len() < bytes.len());
        lemma_decode_len(rest);
    }
}

/// Splits `line` into its words, in order.
fn split_words(line: &str) -> (r: WordList)
    requires
        line@.len() < 0x1000_0000,
    ensures
        word_list_items(r) == words(line@),
{
    let n = line.unicode_len();
    let mut list = word_list_new();
    let mut i: usize = 0;
    assert(line@.skip(0) =~= line@);
    while i < n
        invariant
            n == line@.len(),
            n < 0x1000_0000,
            0 <= i <= n,
            words(line@) == word_list_items(list) + words(line@.skip(i as int)),
            word_list_items(list).len() <= i,
        decreases n - i,
    {
        let ghost rest = line@.skip(i as int);
        if is_whitespace(line.get_char(i)) {
            assert(rest.drop_first() =~= line@.skip(i + 1));
            i = i + 1;
        } else {
            let mut j: usize = i + 1;
            proof {
                lemma_word_len(rest);
                assert(rest.drop_first() =~= line@.skip(i + 1));
            }
            let mut at_end = false;
            while j < n && !at_end
                invariant
                    n == line@.len(),
                    i < j <= n,
                    rest == line@.skip(i as int),
                    word_len(rest) == (j - i) + word_len(line@.skip(j as int)),
                    at_end ==> j < n && white_space(line@[j as int]),
                decreases n - j + (if at_end { 0int } else { 1int }),
            {
                if is_whitespace(line.get_char(j)) {
                    at_end = true;
                } else {
                    assert(line@.skip(j as int).drop_first() =~= line@.skip(j + 1));
                    j = j + 1;
                }
            }
            proof {
                lemma_word_len(line@.skip(j as int));
                assert(word_len(line@.skip(j as int)) == 0);
                assert(rest.take(j - i) =~= line@.subrange(i as int, j as int));
                assert(rest.skip(j - i) =~= line@.skip(j as int));
            }
            let word = line.substring_char(i, j).to_owned();
            word_list_push(&mut list, word);
            proof {
                assert(words(rest) == seq![line@.subrange(i as int, j as int)] + words(line@.skip(j as int)));
                assert(words(line@) =~= word_list_items(list) + words(line@.skip(j as int)));
            }
            i = j;
        }
    }
    proof {
        assert(line@.skip(n as int) =~= Seq::<char>::empty());
        assert(word_list_items(list) + Seq::<Seq<char>>::empty() =~= word_list_items(list));
    }
    list
}

/// The words of `list` from `from` on, as strings.
fn words_from(list: &WordList, from: usize) -> (r: Vec<String>)
    requires
        from <= word_list_items(*list).len(),
    ensures
        r@.map_values(|s: String| s@) == word_list_items(*list).skip(from as int),
{
    let n = word_list_len(list);
    let mut r: Vec<String> = Vec::new();
    let mut i: usize = from;
    while i < n
        invariant
            n == word_list_items(*list).len(),
            from <= i <= n,
            r@.map_values(|s: String| s@) == word_list_items(*list).subrange(from as int, i as int),
        decreases n - i,
    {
        let w = word_list_get(list, i).clone();
        let ghost before = r@;
        r.push(w);
        assert(r@.map_values(|s: String| s@) =~= before.map_values(|s: String| s@).push(w@));
        assert(r@.map_values(|s: String| s@) =~= word_list_items(*list).subrange(from as int, i + 1));
        i = i + 1;
    }
    assert(word_list_items(*list).subrange(from as int, n as int) =~= word_list_items(*list).skip(from as int));
    r
}

/// Parses the shebang line at the start of `content` into its raw components.
///
/// Only the first line is read, up to `MAX_SHEBANG_LINE` bytes. The result is
/// empty when the line does not start with `#!`, is not valid UTF-8, or holds a
/// character other than printable ASCII and the tab. A line that runs the
/// command through `/usr/bin/env` (with or without `-S`) yields the command
/// that follows it.
pub fn parse_shebang(content: &[u8]) -> (r: ShebangTuple)
    ensures
        r@ == shebang_components(content@),
{
    if content.len() == 0 {
        return ShebangTuple::new();
    }
    let mut end: usize = 0;
    while end < content.len() && content[end] != 10u8
        invariant
            0 <= end <= content@.len(),
            forall|j: int| 0 <= j < end ==> content@[j] != 10u8,
        decreases content@.len() - end,
    {
        end = end + 1;
    }
    proof {
        if end < content@.len() {
            lemma_index_of_is(content@, 10u8, end as int);
        } else {
            lemma_index_of_none(content@, 10u8);
        }
    }
    let mut line_len: usize = if end < content.len() { end + 1 } else { end };
    let ghost first = content@.take(line_len as int);
    assert(first == first_line(content@));
    if line_len > 0 && content[line_len - 1] == 10u8 {
        line_len = line_len - 1;
    }
    let ghost a = content@.take(line_len as int);
    assert(a =~= if first.len() > 0 && first.last() == 10u8 { first.drop_last() } else { first });
    if line_len > 0 && content[line_len - 1] == 13u8 {
        line_len = line_len - 1;
    }
    assert(content@.take(line_len as int) =~= strip_line_ending(first_line(content@)));
    if line_len < 2 || content[0] != 0x23u8 || content[1] != 0x21u8 {
        return ShebangTuple::new();
    }
    if line_len > MAX_SHEBANG_LINE {
        line_len = MAX_SHEBANG_LINE;
    }
    let ghost line = limit_line(strip_line_ending(first_line(content@)));
    let mut bytes: Vec<u8> = Vec::new();
    let mut k: usize = 0;
    while k < line_len
        invariant
            line_len <= content@.len(),
            0 <= k <= line_len,
            bytes@ == content@.take(k as int),
        decreases line_len - k,
    {
        bytes.push(content[k]);
        assert(content@.take(k + 1) =~= content@.take(k as int).push(content@[k as int]));
        k = k + 1;
    }
    assert(bytes@ =~= line);
    let decoded = match string_from_utf8(bytes) {
        Some(s) => s,
        None => {
            return ShebangTuple::new();
        },
    };
    let full = decoded.as_str();
    let n = full.unicode_len();
    proof {
        lemma_decode_two_ascii(line);
    }
    let body = trim_whitespace(full.substring_char(2, n));
    assert(full@.subrange(2, n as int) =~= decode_utf8(line).skip(2));
    let m = body.unicode_len();
    let mut c: usize = 0;
    assert(shebang_components(content@) == (if exists|i: int|
        0 <= i < body@.len() && !shebang_char_ok(#[trigger] body@[i]) {
        Seq::<Seq<char>>::empty()
    } else {
        shebang_command(words(body@))
    }));
    while c < m
        invariant
            shebang_components(content@) == (if exists|i: int|
                0 <= i < body@.len() && !shebang_char_ok(#[trigger] body@[i]) {
                Seq::<Seq<char>>::empty()
            } else {
                shebang_command(words(body@))
            }),
            m == body@.len(),
            0 <= c <= m,
            forall|j: int| 0 <= j < c ==> shebang_char_ok(#[trigger] body@[j]),
        decreases m - c,
    {
        let ch = body.get_char(c);
        if !(ch == '\t' || (' ' <= ch && ch <= '~')) {
            assert(!shebang_char_ok(body@[c as int]));
            return ShebangTuple::new();
        }
        c = c + 1;
    }
    proof {
        lemma_decode_len(line);
        lemma_trim_len(decode_utf8(line).skip(2));
    }
    assert(shebang_components(content@) == shebang_command(words(body@)));
    let parts = split_words(body);
    let count = word_list_len(&parts);
    if count == 0 {
        return ShebangTuple::new();
    }
    let command = if str_eq(word_list_get(&parts, 0).as_str(), "/usr/bin/env") {
        if count == 1 {
            Vec::new()
        } else if str_eq(word_list_get(&parts, 1).as_str(), "-S") {
            if count > 2 {
                words_from(&parts, 2)
            } else {
                Vec::new()
            }
        } else {
            words_from(&parts, 1)
        }
    } else {
        words_from(&parts, 0)
    };
    proof {
        let p = word_list_items(parts);
        assert(p.skip(0) =~= p);
        assert(Seq::<String>::empty().map_values(|s: String| s@) =~= Seq::<Seq<char>>::empty());
    }
    if command.len() == 0 {
        return ShebangTuple::new();
    }
    ShebangTuple::from_vec(command)
}

} // verus!
