//! What the lookup tables' order by key gives: a table whose rows are sorted by
//! key can be checked one row at a time, each row against the one before it.

use vstd::prelude::*;

use crate::extensions::{has_one_encoding, keys_have_one_encoding, table_tags};
use crate::tags::{BINARY, TEXT};

verus! {

/// Whether `a` comes strictly before `b` in dictionary order of their characters.
pub open spec fn lex_lt(a: Seq<char>, b: Seq<char>) -> bool
    decreases a.len(),
{
    if a.len() == 0 {
        b.len() > 0
    } else if b.len() == 0 {
        false
    } else if a[0] != b[0] {
        a[0] < b[0]
    } else {
        lex_lt(a.drop_first(), b.drop_first())
    }
}

/// No string comes before itself.
pub proof fn lemma_lex_lt_irreflexive(a: Seq<char>)
    ensures
        !lex_lt(a, a),
    decreases a.len(),
{
    if a.len() > 0 {
        lemma_lex_lt_irreflexive(a.drop_first());
    }
}

/// Dictionary order is transitive.
pub proof fn lemma_lex_lt_transitive(a: Seq<char>, b: Seq<char>, c: Seq<char>)
    requires
        lex_lt(a, b),
        lex_lt(b, c),
    ensures
        lex_lt(a, c),
    decreases a.len(),
{
    if a.len() > 0 && b.len() > 0 && c.len() > 0 && a[0] == b[0] && b[0] == c[0] {
        lemma_lex_lt_transitive(a.drop_first(), b.drop_first(), c.drop_first());
    }
}

/// Whether row `i`'s key is the next row's key or comes before it.
pub open spec fn sorted_step(t: Seq<(&'static str, &'static str)>, i: int) -> bool {
    t[i].0@ == t[i + 1].0@ || lex_lt(t[i].0@, t[i + 1].0@)
}

/// Whether the rows of a table are sorted by key.
pub open spec fn keys_sorted(t: Seq<(&'static str, &'static str)>) -> bool {
    forall|i: int| 0 <= i < t.len() - 1 ==> #[trigger] sorted_step(t, i)
}

/// In rows sorted by key up to row `n`, an earlier row's key is the later one's
/// or comes before it.
proof fn lemma_sorted_le(t: Seq<(&'static str, &'static str)>, n: int, i: int, j: int)
    requires
        forall|k: int| 0 <= k < n ==> #[trigger] sorted_step(t, k),
        0 <= i <= j <= n,
    ensures
        t[i].0@ == t[j].0@ || lex_lt(t[i].0@, t[j].0@),
    decreases j - i,
{
    if i < j {
        lemma_sorted_le(t, n, i, j - 1);
        assert(sorted_step(t, j - 1));
        if lex_lt(t[i].0@, t[j - 1].0@) && lex_lt(t[j - 1].0@, t[j].0@) {
            lemma_lex_lt_transitive(t[i].0@, t[j - 1].0@, t[j].0@);
        }
    }
}

/// A key that falls strictly between two neighbouring rows of a sorted table is
/// the key of no row.
pub proof fn lemma_key_between_rows_absent(t: Seq<(&'static str, &'static str)>, p: int, key: Seq<char>)
    requires
        keys_sorted(t),
        0 < p < t.len(),
        lex_lt(t[p - 1].0@, key),
        lex_lt(key, t[p].0@),
    ensures
        forall|j: int| 0 <= j < t.len() ==> (#[trigger] t[j]).0@ != key,
{
    assert forall|j: int| 0 <= j < t.len() implies (#[trigger] t[j]).0@ != key by {
        lemma_lex_lt_irreflexive(key);
        if j < p {
            lemma_sorted_le(t, t.len() - 1, j, p - 1);
            if lex_lt(t[j].0@, t[p - 1].0@) {
                lemma_lex_lt_transitive(t[j].0@, t[p - 1].0@, key);
            }
        } else {
            lemma_sorted_le(t, t.len() - 1, p, j);
            if lex_lt(t[p].0@, t[j].0@) {
                lemma_lex_lt_transitive(key, t[p].0@, t[j].0@);
            }
        }
    }
}

/// The tags of a key after one more row: the row's tag joins them when the row
/// has that key.
proof fn lemma_table_tags_push(
    p: Seq<(&'static str, &'static str)>,
    row: (&'static str, &'static str),
    key: Seq<char>,
)
    ensures
        table_tags(p.push(row), key) == if row.0@ == key {
            table_tags(p, key).insert(row.1@)
        } else {
            table_tags(p, key)
        },
{
    let q = p.push(row);
    let expected = if row.0@ == key {
        table_tags(p, key).insert(row.1@)
    } else {
        table_tags(p, key)
    };
    assert forall|t: Seq<char>| table_tags(q, key).contains(t) <==> expected.contains(t) by {
        if table_tags(q, key).contains(t) {
            let j = choose|j: int| 0 <= j < q.len() && (#[trigger] q[j]).0@ == key && q[j].1@ == t;
            if j < p.len() {
                assert(q[j] == p[j]);
                assert(table_tags(p, key).contains(t));
            }
        }
        if table_tags(p, key).contains(t) {
            let j = choose|j: int| 0 <= j < p.len() && (#[trigger] p[j]).0@ == key && p[j].1@ == t;
            assert(q[j] == p[j]);
        }
        if row.0@ == key && t == row.1@ {
            assert(q[p.len() as int] == row);
        }
    }
    assert(table_tags(q, key) =~= expected);
}

/// What is known after the first `i` rows of a table: their keys are sorted;
/// every key before the last one met has exactly one encoding tag among them; and
/// the last key met has `text` exactly when `text` and `binary` exactly when
/// `binary`.
#[verifier::opaque]
pub open spec fn scanned(t: Seq<(&'static str, &'static str)>, i: int, text: bool, binary: bool) -> bool {
    &&& 0 < i <= t.len()
    &&& forall|j: int| 0 <= j < i - 1 ==> #[trigger] sorted_step(t, j)
    &&& forall|j: int|
        0 <= j < i && (#[trigger] t[j]).0@ != t[i - 1].0@ ==> has_one_encoding(table_tags(t.take(i), t[j].0@))
    &&& table_tags(t.take(i), t[i - 1].0@).contains(TEXT@) == text
    &&& table_tags(t.take(i), t[i - 1].0@).contains(BINARY@) == binary
}

/// The first row of a table starts the scan.
pub proof fn lemma_scan_first(t: Seq<(&'static str, &'static str)>)
    requires
        t.len() > 0,
    ensures
        scanned(t, 1, t[0].1@ == TEXT@, t[0].1@ == BINARY@),
{
    reveal(scanned);
    lemma_table_tags_push(Seq::empty(), t[0], t[0].0@);
    assert(Seq::<(&'static str, &'static str)>::empty().push(t[0]) =~= t.take(1));
    assert(table_tags(Seq::<(&'static str, &'static str)>::empty(), t[0].0@) =~= Set::empty());
}

/// A row with the same key as the one before it adds its tag to that key's.
pub proof fn lemma_scan_same(t: Seq<(&'static str, &'static str)>, i: int, text: bool, binary: bool)
    requires
        scanned(t, i, text, binary),
        i < t.len(),
        t[i].0@ == t[i - 1].0@,
    ensures
        scanned(t, i + 1, text || t[i].1@ == TEXT@, binary || t[i].1@ == BINARY@),
{
    reveal(scanned);
    let p = t.take(i);
    let q = t.take(i + 1);
    assert(p.push(t[i]) =~= q);
    assert forall|j: int| 0 <= j < i + 1 - 1 implies #[trigger] sorted_step(t, j) by {
        if j == i - 1 {
            assert(t[j].0@ == t[j + 1].0@);
        }
    }
    assert forall|j: int| 0 <= j < i + 1 && (#[trigger] t[j]).0@ != t[i + 1 - 1].0@ implies has_one_encoding(
        table_tags(q, t[j].0@),
    ) by {
        lemma_table_tags_push(p, t[i], t[j].0@);
    }
    lemma_table_tags_push(p, t[i], t[i].0@);
}

/// A row with a key that comes after the one before it closes that key, which
/// must then have exactly one encoding tag, and starts its own.
pub proof fn lemma_scan_new(t: Seq<(&'static str, &'static str)>, i: int, text: bool, binary: bool)
    requires
        scanned(t, i, text, binary),
        i < t.len(),
        lex_lt(t[i - 1].0@, t[i].0@),
        text != binary,
    ensures
        scanned(t, i + 1, t[i].1@ == TEXT@, t[i].1@ == BINARY@),
{
    reveal(scanned);
    let p = t.take(i);
    let q = t.take(i + 1);
    assert(p.push(t[i]) =~= q);
    assert forall|j: int| 0 <= j < i + 1 - 1 implies #[trigger] sorted_step(t, j) by {
        if j == i - 1 {
            assert(lex_lt(t[j].0@, t[j + 1].0@));
        }
    }
    // No earlier row has the new key.
    assert forall|j: int| 0 <= j < i implies (#[trigger] t[j]).0@ != t[i].0@ by {
        lemma_sorted_le(t, i - 1, j, i - 1);
        lemma_lex_lt_irreflexive(t[i].0@);
        if lex_lt(t[j].0@, t[i - 1].0@) {
            lemma_lex_lt_transitive(t[j].0@, t[i - 1].0@, t[i].0@);
        }
    }
    assert forall|j: int| 0 <= j < i + 1 && (#[trigger] t[j]).0@ != t[i + 1 - 1].0@ implies has_one_encoding(
        table_tags(q, t[j].0@),
    ) by {
        lemma_table_tags_push(p, t[i], t[j].0@);
    }
    lemma_table_tags_push(p, t[i], t[i].0@);
    assert(table_tags(p, t[i].0@) =~= Set::empty()) by {
        assert forall|x: Seq<char>| !table_tags(p, t[i].0@).contains(x) by {
            if table_tags(p, t[i].0@).contains(x) {
                let j = choose|j: int| 0 <= j < p.len() && (#[trigger] p[j]).0@ == t[i].0@ && p[j].1@ == x;
                assert(p[j] == t[j]);
            }
        }
    }
}

/// A table scanned to its end, whose last key has exactly one encoding tag, is
/// sorted by key and gives every key exactly one encoding tag.
pub proof fn lemma_scan_end(t: Seq<(&'static str, &'static str)>, text: bool, binary: bool)
    requires
        scanned(t, t.len() as int, text, binary),
        text != binary,
    ensures
        keys_sorted(t),
        keys_have_one_encoding(t),
{
    reveal(scanned);
    assert(t.take(t.len() as int) =~= t);
    assert forall|i: int| 0 <= i < t.len() implies has_one_encoding(table_tags(t, (#[trigger] t[i]).0@)) by {}
}

} // verus!
