//! The document as a tree of tables: where a path leads, what lies at a key,
//! and what the tree is once the tables of a path exist.

use vstd::prelude::*;
use crate::toml::{Entries, Node};

verus! {

/// A table path: the keys that lead from the root to a table.
pub type Path = Seq<Seq<char>>;

/// Whether `key` holds an item in `table`.
pub open spec fn holds_item(table: Entries, key: Seq<char>) -> bool {
    table.contains_key(key) && table[key] !is Empty
}

/// Whether `key` holds a table in `table`.
pub open spec fn holds_table(table: Entries, key: Seq<char>) -> bool {
    table.contains_key(key) && table[key] is Table
}

/// The entries of the table at `key`; none where `key` holds no table.
pub open spec fn child(table: Entries, key: Seq<char>) -> Entries {
    if holds_table(table, key) {
        table[key].entries()
    } else {
        Map::empty()
    }
}

/// Whether `path` leads to a table: each of its keys holds a table in the
/// table before it.
pub open spec fn has_table(root: Entries, path: Path) -> bool
    decreases path.len(),
{
    path.len() == 0 || (holds_table(root, path[0]) && has_table(
        child(root, path[0]),
        path.skip(1),
    ))
}

/// The entries of the table that `path` leads to; none where it leads to no
/// table.
pub open spec fn table_at(root: Entries, path: Path) -> Entries
    decreases path.len(),
{
    if path.len() == 0 {
        root
    } else {
        table_at(child(root, path[0]), path.skip(1))
    }
}

/// The item at `key` in the table that `path` leads to.
pub open spec fn entry_at(root: Entries, path: Path, key: Seq<char>) -> Option<Node> {
    if has_table(root, path) && holds_item(table_at(root, path), key) {
        Some(table_at(root, path)[key])
    } else {
        None
    }
}

/// Whether something other than a table lies on `path`, so that its tables
/// cannot all exist.
pub open spec fn blocked(root: Entries, path: Path) -> bool
    decreases path.len(),
{
    if path.len() == 0 {
        false
    } else if holds_table(root, path[0]) {
        blocked(child(root, path[0]), path.skip(1))
    } else {
        holds_item(root, path[0])
    }
}

/// The tree in which every table of `path` exists, those that were missing
/// created with nothing else in them, and the table that `path` leads to holds
/// `inner`. The tables along the path render as `texts` says, one text for
/// each key of the path; everything off the path is as in `root`. It is
/// meant for a path that nothing blocks: what blocks a path gives way to a
/// table here.
pub open spec fn with_table(root: Entries, path: Path, texts: Seq<Seq<char>>, inner: Entries) -> Entries
    decreases path.len(),
{
    if path.len() == 0 {
        inner
    } else {
        root.insert(
            path[0],
            Node::Table {
                entries: with_table(child(root, path[0]), path.skip(1), texts.skip(1), inner),
                text: texts[0],
            },
        )
    }
}

/// Where a path leads to no table, the table it will lead to has no entries
/// yet.
pub proof fn missing_table_is_empty(root: Entries, path: Path)
    requires
        !has_table(root, path),
    ensures
        table_at(root, path) == Entries::empty(),
    decreases path.len(),
{
    if path.len() > 0 {
        if holds_table(root, path[0]) {
            missing_table_is_empty(child(root, path[0]), path.skip(1));
        } else {
            lemma_nothing_below_nothing(path.skip(1));
        }
    }
}

/// No path leads anywhere from a table without entries but to a table without
/// entries.
proof fn lemma_nothing_below_nothing(path: Path)
    ensures
        table_at(Entries::empty(), path) == Entries::empty(),
        !blocked(Entries::empty(), path),
    decreases path.len(),
{
    if path.len() > 0 {
        lemma_nothing_below_nothing(path.skip(1));
    }
}

/// A path that leads to a table is not blocked.
pub proof fn table_is_not_blocked(root: Entries, path: Path)
    requires
        has_table(root, path),
    ensures
        !blocked(root, path),
    decreases path.len(),
{
    if path.len() > 0 {
        table_is_not_blocked(child(root, path[0]), path.skip(1));
    }
}

/// Once the tables of a path exist, the path and each of its beginnings lead
/// to a table, and the path leads to the table that was put there.
pub proof fn with_table_has_tables(
    root: Entries,
    path: Path,
    texts: Seq<Seq<char>>,
    inner: Entries,
    n: int,
)
    requires
        0 <= n <= path.len(),
    ensures
        has_table(with_table(root, path, texts, inner), path.take(n)),
        !blocked(with_table(root, path, texts, inner), path),
        table_at(with_table(root, path, texts, inner), path) == inner,
    decreases path.len(),
{
    if path.len() > 0 {
        let after = with_table(root, path, texts, inner);
        let below = with_table(child(root, path[0]), path.skip(1), texts.skip(1), inner);
        assert(child(after, path[0]) == below);
        with_table_has_tables(child(root, path[0]), path.skip(1), texts.skip(1), inner, 0);
        if n > 0 {
            with_table_has_tables(child(root, path[0]), path.skip(1), texts.skip(1), inner, n - 1);
            assert(path.take(n).skip(1) == path.skip(1).take(n - 1));
        }
    }
}

/// A table that had to be created on the way holds the next table of the path
/// and nothing else; the last one holds what was put there.
pub proof fn created_tables_hold_only_the_path(
    root: Entries,
    path: Path,
    texts: Seq<Seq<char>>,
    inner: Entries,
    n: int,
)
    requires
        0 <= n < path.len(),
        !has_table(root, path.take(n)),
    ensures
        table_at(with_table(root, path, texts, inner), path.take(n)).dom() == set![path[n]],
    decreases path.len(),
{
    let after = with_table(root, path, texts, inner);
    let below = with_table(child(root, path[0]), path.skip(1), texts.skip(1), inner);
    assert(child(after, path[0]) == below);
    assert(n > 0);
    assert(path.take(n).skip(1) == path.skip(1).take(n - 1));
    assert(path.take(n)[0] == path[0]);
    if holds_table(root, path[0]) {
        created_tables_hold_only_the_path(
            child(root, path[0]),
            path.skip(1),
            texts.skip(1),
            inner,
            n - 1,
        );
    } else {
        lemma_created_below_nothing(path.skip(1), texts.skip(1), inner, n - 1);
    }
}

/// Tables created from nothing hold the next table of the path and nothing
/// else.
proof fn lemma_created_below_nothing(path: Path, texts: Seq<Seq<char>>, inner: Entries, n: int)
    requires
        0 <= n < path.len(),
    ensures
        table_at(with_table(Entries::empty(), path, texts, inner), path.take(n)).dom() == set![
            path[n],
        ],
    decreases path.len(),
{
    let after = with_table(Entries::empty(), path, texts, inner);
    let below = with_table(Entries::empty(), path.skip(1), texts.skip(1), inner);
    assert(child(Entries::empty(), path[0]) == Entries::empty());
    assert(child(after, path[0]) == below);
    if n == 0 {
        assert(path.take(0) == Path::empty());
        assert(after.dom() == set![path[0]]);
    } else {
        assert(path.take(n).skip(1) == path.skip(1).take(n - 1));
        assert(path.take(n)[0] == path[0]);
        lemma_created_below_nothing(path.skip(1), texts.skip(1), inner, n - 1);
    }
}

/// Whether two paths part ways: at some place, both have a key, and the keys
/// differ.
pub open spec fn diverge(a: Path, b: Path) -> bool
    decreases a.len(),
{
    a.len() > 0 && b.len() > 0 && (a[0] != b[0] || diverge(a.skip(1), b.skip(1)))
}

/// Off the path, nothing changes: a path that parts ways with the one whose
/// tables were made to exist leads where it led before.
pub proof fn off_the_path_nothing_changes(
    root: Entries,
    path: Path,
    texts: Seq<Seq<char>>,
    inner: Entries,
    other: Path,
)
    requires
        diverge(path, other),
    ensures
        has_table(with_table(root, path, texts, inner), other) == has_table(root, other),
        table_at(with_table(root, path, texts, inner), other) == table_at(root, other),
    decreases path.len(),
{
    let after = with_table(root, path, texts, inner);
    if path[0] != other[0] {
        assert(child(after, other[0]) == child(root, other[0]));
    } else {
        let below = with_table(child(root, path[0]), path.skip(1), texts.skip(1), inner);
        assert(child(after, path[0]) == below);
        off_the_path_nothing_changes(
            child(root, path[0]),
            path.skip(1),
            texts.skip(1),
            inner,
            other.skip(1),
        );
        if !holds_table(root, path[0]) {
            lemma_nothing_below_nothing(other.skip(1));
            assert(!has_table(Entries::empty(), other.skip(1)));
        }
    }
}

/// What is put at the end of a path replaces what was put there before.
pub proof fn with_table_twice(
    root: Entries,
    path: Path,
    first: Seq<Seq<char>>,
    inner: Entries,
    second: Seq<Seq<char>>,
    last: Entries,
)
    ensures
        with_table(with_table(root, path, first, inner), path, second, last) == with_table(
            root,
            path,
            second,
            last,
        ),
    decreases path.len(),
{
    if path.len() > 0 {
        let once = with_table(root, path, first, inner);
        let below = with_table(child(root, path[0]), path.skip(1), first.skip(1), inner);
        assert(child(once, path[0]) == below);
        with_table_twice(child(root, path[0]), path.skip(1), first.skip(1), inner, second.skip(1), last);
        assert(with_table(once, path, second, last) == with_table(root, path, second, last));
    }
}

} // verus!
