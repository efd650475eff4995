//! The tag vocabulary, sets of tags, and the kinds of file-system entries.

use vstd::prelude::*;

use vstd::string::StringExecFns;

use crate::extensions::{
    insert_table_values, table_values, EXTENSIONS_NEED_BINARY_CHECK_TAGS, EXTENSION_TAGS, NAME_TAGS,
};
use crate::interpreters::INTERPRETER_TAGS;
use crate::text::str_eq;

verus! {

pub const DIRECTORY: &'static str = "directory";
pub const SYMLINK: &'static str = "symlink";
pub const SOCKET: &'static str = "socket";
pub const FILE: &'static str = "file";
pub const EXECUTABLE: &'static str = "executable";
pub const NON_EXECUTABLE: &'static str = "non-executable";
pub const TEXT: &'static str = "text";
pub const BINARY: &'static str = "binary";

/// The tags that name the kind of a file-system entry.
pub open spec fn type_tag_set() -> Set<Seq<char>> {
    set![DIRECTORY@, FILE@, SYMLINK@, SOCKET@]
}

/// The tags that name whether a file may be executed.
pub open spec fn mode_tag_set() -> Set<Seq<char>> {
    set![EXECUTABLE@, NON_EXECUTABLE@]
}

/// The tags that name how a file's content is encoded.
pub open spec fn encoding_tag_set() -> Set<Seq<char>> {
    set![BINARY@, TEXT@]
}

/// A set of tags. Each tag is held once.
#[derive(Debug)]
pub struct TagSet {
    tags: Vec<&'static str>,
}

impl View for TagSet {
    type V = Set<Seq<char>>;

    closed spec fn view(&self) -> Set<Seq<char>> {
        Set::new(|t: Seq<char>| exists|i: int| 0 <= i < self.tags@.len() && #[trigger] self.tags@[i]@ == t)
    }
}

impl TagSet {
    #[verifier::type_invariant]
    closed spec fn distinct(self) -> bool {
        forall|i: int, j: int|
            0 <= i < self.tags@.len() && 0 <= j < self.tags@.len() && i != j ==> #[trigger] self.tags@[i]@
                != #[trigger] self.tags@[j]@
    }

    proof fn lemma_view_len(&self)
        requires
            self.distinct(),
        ensures
            self@.finite(),
            self@.len() == self.tags@.len(),
    {
        let s = self.tags@.map_values(|x: &'static str| x@);
        assert(s.no_duplicates()) by {
            assert forall|i: int, j: int| 0 <= i < s.len() && 0 <= j < s.len() && i != j implies s[i] != s[j] by {
                assert(self.tags@[i]@ != self.tags@[j]@);
            }
        }
        s.unique_seq_to_set();
        vstd::seq_lib::seq_to_set_is_finite(s);
        assert(s.to_set() =~= self@) by {
            assert forall|t: Seq<char>| self@.contains(t) implies s.to_set().contains(t) by {
                let i = choose|i: int| 0 <= i < self.tags@.len() && #[trigger] self.tags@[i]@ == t;
                assert(s[i] == t);
            }
            assert forall|t: Seq<char>| s.to_set().contains(t) implies self@.contains(t) by {
                let i = choose|i: int| 0 <= i < s.len() && s[i] == t;
                assert(self.tags@[i]@ == t);
            }
        }
    }

    /// An empty set of tags.
    pub fn new() -> (r: TagSet)
        ensures
            r@ == Set::<Seq<char>>::empty(),
    {
        let r = TagSet { tags: Vec::new() };
        assert(r@ =~= Set::<Seq<char>>::empty());
        r
    }

    /// The number of tags in the set.
    pub fn len(&self) -> (r: usize)
        ensures
            r == self@.len(),
            self@.finite(),
    {
        proof {
            use_type_invariant(self);
            self.lemma_view_len();
        }
        self.tags.len()
    }

    /// Whether the set holds no tag.
    pub fn is_empty(&self) -> (r: bool)
        ensures
            r == (self@ == Set::<Seq<char>>::empty()),
    {
        if self.tags.len() == 0 {
            assert(self@ =~= Set::<Seq<char>>::empty());
            true
        } else {
            assert(self@.contains(self.tags@[0]@));
            false
        }
    }

    /// Whether the set holds `tag`.
    pub fn contains(&self, tag: &str) -> (r: bool)
        ensures
            r == self@.contains(tag@),
    {
        let mut i: usize = 0;
        while i < self.tags.len()
            invariant
                0 <= i <= self.tags@.len(),
                forall|j: int| 0 <= j < i ==> self.tags@[j]@ != tag@,
            decreases self.tags@.len() - i,
        {
            if str_eq(self.tags[i], tag) {
                assert(self@.contains(self.tags@[i as int]@));
                return true;
            }
            i = i + 1;
        }
        false
    }

    /// Adds `tag`; answers whether it was not yet in the set.
    pub fn insert(&mut self, tag: &'static str) -> (r: bool)
        ensures
            final(self)@ == old(self)@.insert(tag@),
            r == !old(self)@.contains(tag@),
    {
        proof {
            use_type_invariant(&*self);
        }
        if self.contains(tag) {
            assert(self@.insert(tag@) =~= self@);
            return false;
        }
        let mut tags = Vec::new();
        std::mem::swap(&mut tags, &mut self.tags);
        let ghost before = tags@;
        tags.push(tag);
        proof {
            assert forall|i: int, j: int|
                0 <= i < tags@.len() && 0 <= j < tags@.len() && i != j implies #[trigger] tags@[i]@
                != #[trigger] tags@[j]@ by {
                if i < before.len() && j < before.len() {
                    assert(tags@[i] == before[i] && tags@[j] == before[j]);
                } else if i < before.len() {
                    assert(tags@[i] == before[i]);
                    assert(old(self)@.contains(before[i]@));
                } else {
                    assert(tags@[j] == before[j]);
                    assert(old(self)@.contains(before[j]@));
                }
            }
        }
        self.tags = tags;
        proof {
            assert forall|t: Seq<char>| self@.contains(t) <==> old(self)@.insert(tag@).contains(t) by {
                if self@.contains(t) {
                    let i = choose|i: int| 0 <= i < self.tags@.len() && #[trigger] self.tags@[i]@ == t;
                    if i < before.len() {
                        assert(self.tags@[i] == before[i]);
                        assert(old(self)@.contains(t));
                    }
                }
                if old(self)@.contains(t) {
                    let i = choose|i: int| 0 <= i < before.len() && #[trigger] before[i]@ == t;
                    assert(self.tags@[i] == before[i]);
                }
                if t == tag@ {
                    assert(self.tags@[before.len() as int] == tag);
                }
            }
            assert(self@ =~= old(self)@.insert(tag@));
        }
        true
    }

    /// Adds every tag of `other`.
    pub fn extend(&mut self, other: &TagSet)
        ensures
            final(self)@ == old(self)@.union(other@),
    {
        let mut i: usize = 0;
        while i < other.tags.len()
            invariant
                0 <= i <= other.tags@.len(),
                self@ == old(self)@.union(
                    Set::new(|t: Seq<char>| exists|j: int| 0 <= j < i && #[trigger] other.tags@[j]@ == t),
                ),
            decreases other.tags@.len() - i,
        {
            let ghost prev = self@;
            self.insert(other.tags[i]);
            proof {
                let done = Set::new(|t: Seq<char>| exists|j: int| 0 <= j < i && #[trigger] other.tags@[j]@ == t);
                let next = Set::new(|t: Seq<char>| exists|j: int| 0 <= j < i + 1 && #[trigger] other.tags@[j]@ == t);
                assert(next =~= done.insert(other.tags@[i as int]@)) by {
                    assert forall|t: Seq<char>| next.contains(t) implies done.insert(other.tags@[i as int]@).contains(t) by {
                        let j = choose|j: int| 0 <= j < i + 1 && #[trigger] other.tags@[j]@ == t;
                        if j < i {
                            assert(done.contains(t));
                        }
                    }
                    assert forall|t: Seq<char>| done.insert(other.tags@[i as int]@).contains(t) implies next.contains(t) by {
                        if done.contains(t) {
                            let j = choose|j: int| 0 <= j < i && #[trigger] other.tags@[j]@ == t;
                            assert(0 <= j < i + 1);
                        } else {
                            assert(other.tags@[i as int]@ == t);
                        }
                    }
                }
                assert(self@ =~= old(self)@.union(next));
            }
            i = i + 1;
        }
        proof {
            let done = Set::new(|t: Seq<char>| exists|j: int| 0 <= j < i && #[trigger] other.tags@[j]@ == t);
            assert(done =~= other@);
        }
    }

    /// Whether the two sets share no tag.
    pub fn is_disjoint(&self, other: &TagSet) -> (r: bool)
        ensures
            r == self@.disjoint(other@),
    {
        let mut i: usize = 0;
        while i < self.tags.len()
            invariant
                0 <= i <= self.tags@.len(),
                forall|j: int| 0 <= j < i ==> !other@.contains(#[trigger] self.tags@[j]@),
            decreases self.tags@.len() - i,
        {
            if other.contains(self.tags[i]) {
                assert(self@.contains(self.tags@[i as int]@));
                return false;
            }
            i = i + 1;
        }
        proof {
            assert forall|t: Seq<char>| self@.contains(t) implies !other@.contains(t) by {
                let j = choose|j: int| 0 <= j < self.tags@.len() && #[trigger] self.tags@[j]@ == t;
            }
        }
        true
    }

    /// The tags of the set, each once (in no particular order).
    pub fn to_vec(&self) -> (r: Vec<&'static str>)
        ensures
            r@.len() == self@.len(),
            forall|t: Seq<char>| self@.contains(t) <==> exists|i: int| 0 <= i < r@.len() && #[trigger] r@[i]@ == t,
    {
        proof {
            use_type_invariant(self);
            self.lemma_view_len();
        }
        self.tags.clone()
    }
}

impl Clone for TagSet {
    fn clone(&self) -> (r: TagSet)
        ensures
            r@ == self@,
    {
        proof {
            use_type_invariant(self);
        }
        let mut tags: Vec<&'static str> = Vec::new();
        let mut i: usize = 0;
        while i < self.tags.len()
            invariant
                0 <= i <= self.tags@.len(),
                tags@ == self.tags@.take(i as int),
            decreases self.tags@.len() - i,
        {
            tags.push(self.tags[i]);
            assert(self.tags@.take(i + 1) =~= self.tags@.take(i as int).push(self.tags@[i as int]));
            i = i + 1;
        }
        assert(tags@ =~= self.tags@);
        TagSet { tags }
    }
}

/// The kind of a file-system entry.
#[derive(Debug, Clone, Copy, PartialEq, Eq, Hash, Structural)]
pub enum FileKind {
    Regular,
    Directory,
    Symlink,
    Socket,
}

/// Whether `tag` names the kind of a file-system entry.
pub fn is_type_tag(tag: &str) -> (r: bool)
    ensures
        r == type_tag_set().contains(tag@),
{
    str_eq(tag, DIRECTORY) || str_eq(tag, FILE) || str_eq(tag, SYMLINK) || str_eq(tag, SOCKET)
}

/// Whether `tag` names whether a file may be executed.
pub fn is_mode_tag(tag: &str) -> (r: bool)
    ensures
        r == mode_tag_set().contains(tag@),
{
    str_eq(tag, EXECUTABLE) || str_eq(tag, NON_EXECUTABLE)
}

/// Whether `tag` names an encoding.
pub fn is_encoding_tag(tag: &str) -> (r: bool)
    ensures
        r == encoding_tag_set().contains(tag@),
{
    str_eq(tag, BINARY) || str_eq(tag, TEXT)
}

/// The tags that name the kind of a file-system entry.
pub fn type_tags() -> (r: TagSet)
    ensures
        r@ == type_tag_set(),
{
    let mut r = TagSet::new();
    r.insert(DIRECTORY);
    r.insert(FILE);
    r.insert(SYMLINK);
    r.insert(SOCKET);
    assert(r@ =~= type_tag_set());
    r
}

/// The tags that name whether a file may be executed.
pub fn mode_tags() -> (r: TagSet)
    ensures
        r@ == mode_tag_set(),
{
    let mut r = TagSet::new();
    r.insert(EXECUTABLE);
    r.insert(NON_EXECUTABLE);
    assert(r@ =~= mode_tag_set());
    r
}

/// The tags that name an encoding.
pub fn encoding_tags() -> (r: TagSet)
    ensures
        r@ == encoding_tag_set(),
{
    let mut r = TagSet::new();
    r.insert(BINARY);
    r.insert(TEXT);
    assert(r@ =~= encoding_tag_set());
    r
}

/// Every recognized tag: the type, mode and encoding tags, and every tag that
/// an extension, a file name or an interpreter gives.
pub open spec fn all_tag_set() -> Set<Seq<char>> {
    type_tag_set().union(mode_tag_set()).union(encoding_tag_set()).union(
        table_values(EXTENSION_TAGS@),
    ).union(table_values(EXTENSIONS_NEED_BINARY_CHECK_TAGS@)).union(table_values(NAME_TAGS@)).union(
        table_values(INTERPRETER_TAGS@),
    )
}

/// Every recognized tag.
pub fn all_tags() -> (r: TagSet)
    ensures
        r@ == all_tag_set(),
{
    let mut r = type_tags();
    r.extend(&mode_tags());
    r.extend(&encoding_tags());
    insert_table_values(&mut r, &EXTENSION_TAGS);
    insert_table_values(&mut r, &EXTENSIONS_NEED_BINARY_CHECK_TAGS);
    insert_table_values(&mut r, &NAME_TAGS);
    insert_table_values(&mut r, &INTERPRETER_TAGS);
    r
}

/// The quoted tags, separated by `, `.
pub open spec fn json_items(tags: Seq<Seq<char>>) -> Seq<char>
    decreases tags.len(),
{
    if tags.len() == 0 {
        Seq::empty()
    } else if tags.len() == 1 {
        "\""@ + tags[0] + "\""@
    } else {
        json_items(tags.drop_last()) + ", \""@ + tags.last() + "\""@
    }
}

/// Writes tags as a JSON array of strings, in the given order: `["a", "b"]`.
/// The tags are written as they are, without escaping.
pub fn tags_to_json(tags: &[&str]) -> (r: String)
    ensures
        r@ == "["@ + json_items(tags@.map_values(|t: &str| t@)) + "]"@,
{
    let ghost items = tags@.map_values(|t: &str| t@);
    let mut r = String::from_str("[");
    let mut i: usize = 0;
    while i < tags.len()
        invariant
            0 <= i <= tags@.len(),
            items == tags@.map_values(|t: &str| t@),
            r@ == "["@ + json_items(items.take(i as int)),
        decreases tags@.len() - i,
    {
        if i > 0 {
            r.append(", ");
        }
        r.append("\"");
        r.append(tags[i]);
        r.append("\"");
        proof {
            let t = items.take(i + 1);
            assert(t.drop_last() =~= items.take(i as int));
            assert(t.last() == tags@[i as int]@);
            reveal_strlit("[");
            reveal_strlit(", ");
            reveal_strlit("\"");
            reveal_strlit(", \"");
            if i == 0 {
                assert(items.take(0) =~= Seq::<Seq<char>>::empty());
            }
            assert(r@ =~= "["@ + json_items(t));
        }
        i = i + 1;
    }
    r.append("]");
    assert(items.take(tags@.len() as int) =~= items);
    r
}

/// Collects the tags of `tags` into a set.
pub fn tags_from_array(tags: &[&'static str]) -> (r: TagSet)
    ensures
        r@ == Set::new(|t: Seq<char>| exists|i: int| 0 <= i < tags@.len() && #[trigger] tags@[i]@ == t),
{
    let mut r = TagSet::new();
    let mut i: usize = 0;
    while i < tags.len()
        invariant
            0 <= i <= tags@.len(),
            r@ == Set::new(|t: Seq<char>| exists|j: int| 0 <= j < i && #[trigger] tags@[j]@ == t),
        decreases tags@.len() - i,
    {
        r.insert(tags[i]);
        proof {
            let done = Set::new(|t: Seq<char>| exists|j: int| 0 <= j < i && #[trigger] tags@[j]@ == t);
            let next = Set::new(|t: Seq<char>| exists|j: int| 0 <= j < i + 1 && #[trigger] tags@[j]@ == t);
            assert forall|t: Seq<char>| next.contains(t) <==> done.insert(tags@[i as int]@).contains(t) by {
                if next.contains(t) {
                    let j = choose|j: int| 0 <= j < i + 1 && #[trigger] tags@[j]@ == t;
                    if j < i {
                        assert(done.contains(t));
                    }
                }
                if done.contains(t) {
                    let j = choose|j: int| 0 <= j < i && #[trigger] tags@[j]@ == t;
                    assert(0 <= j < i + 1);
                }
            }
            assert(r@ =~= next);
        }
        i = i + 1;
    }
    r
}

} // verus!
