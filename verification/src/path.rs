//! Table paths: a dot-separated text names a table inside tables.

use vstd::prelude::*;
use vstd::string::*;

verus! {

/// The views of the strings of `v`.
pub open spec fn views(v: Seq<String>) -> Seq<Seq<char>> {
    v.map_values(|s: String| s@)
}

/// The pieces of `s` between the occurrences of `sep`: one more piece than
/// there are occurrences, each without `sep`, some possibly empty.
pub open spec fn split_on(s: Seq<char>, sep: char) -> Seq<Seq<char>>
    decreases s.len(),
{
    if s.len() == 0 {
        seq![Seq::empty()]
    } else {
        let rest = split_on(s.skip(1), sep);
        if s[0] == sep {
            seq![Seq::empty()] + rest
        } else {
            seq![seq![s[0]] + rest[0]] + rest.skip(1)
        }
    }
}

/// The pieces of `pieces`, with `sep` between each two.
pub open spec fn join(pieces: Seq<Seq<char>>, sep: char) -> Seq<char>
    decreases pieces.len(),
{
    if pieces.len() == 0 {
        Seq::empty()
    } else if pieces.len() == 1 {
        pieces[0]
    } else {
        pieces[0] + seq![sep] + join(pieces.skip(1), sep)
    }
}

/// Splitting yields at least one piece, none of which holds the separator,
/// and joining the pieces gives the text back.
pub proof fn split_on_inverts_join(s: Seq<char>, sep: char)
    ensures
        split_on(s, sep).len() >= 1,
        forall|i: int, j: int|
            0 <= i < split_on(s, sep).len() && 0 <= j < split_on(s, sep)[i].len() ==> split_on(
                s,
                sep,
            )[i][j] != sep,
        join(split_on(s, sep), sep) == s,
    decreases s.len(),
{
    if s.len() > 0 {
        let tail = s.skip(1);
        let rest = split_on(tail, sep);
        let all = split_on(s, sep);
        split_on_inverts_join(tail, sep);
        if s[0] == sep {
            assert(all.skip(1) == rest);
            assert forall|i: int, j: int| 0 <= i < all.len() && 0 <= j < all[i].len() implies all[i][j]
                != sep by {
                if i > 0 {
                    assert(all[i] == rest[i - 1]);
                }
            }
            assert(join(all, sep) == s) by {
                assert(all[0] + seq![sep] + join(rest, sep) == s);
            }
        } else {
            let first = seq![s[0]] + rest[0];
            assert(all[0] == first);
            assert forall|i: int, j: int| 0 <= i < all.len() && 0 <= j < all[i].len() implies all[i][j]
                != sep by {
                if i > 0 {
                    assert(all[i] == rest[i]);
                } else if j > 0 {
                    assert(all[0][j] == rest[0][j - 1]);
                }
            }
            assert(join(all, sep) == s) by {
                if rest.len() == 1 {
                    assert(join(rest, sep) == rest[0]);
                    assert(seq![s[0]] + tail == s);
                    assert(first == s);
                } else {
                    assert(all.skip(1) == rest.skip(1));
                    assert(join(rest, sep) == rest[0] + seq![sep] + join(rest.skip(1), sep));
                    assert(seq![s[0]] + tail == s);
                    assert(first + seq![sep] + join(rest.skip(1), sep) == s);
                }
            }
        }
    }
}

/// A text without the separator is its own single piece.
proof fn lemma_split_whole(s: Seq<char>, sep: char)
    requires
        forall|j: int| 0 <= j < s.len() ==> s[j] != sep,
    ensures
        split_on(s, sep) == seq![s],
    decreases s.len(),
{
    if s.len() > 0 {
        let rest = split_on(s.skip(1), sep);
        lemma_split_whole(s.skip(1), sep);
        assert(seq![s[0]] + s.skip(1) == s);
        assert(seq![seq![s[0]] + rest[0]] + rest.skip(1) == seq![s]);
    } else {
        assert(s == Seq::<char>::empty());
    }
}

/// Up to the first separator lies the first piece; the others are the pieces
/// of what follows it.
proof fn lemma_split_first(s: Seq<char>, sep: char, i: int)
    requires
        0 <= i < s.len(),
        s[i] == sep,
        forall|j: int| 0 <= j < i ==> s[j] != sep,
    ensures
        split_on(s, sep) == seq![s.take(i)] + split_on(s.skip(i + 1), sep),
    decreases i,
{
    if i == 0 {
        assert(s.take(0) == Seq::<char>::empty());
    } else {
        let tail = s.skip(1);
        lemma_split_first(tail, sep, i - 1);
        assert(tail.skip(i) == s.skip(i + 1));
        assert(seq![s[0]] + tail.take(i - 1) == s.take(i));
        let rest = split_on(tail, sep);
        assert(rest.skip(1) == split_on(s.skip(i + 1), sep));
    }
}

/// Splits a table path at its dots.
pub fn split_path(table: &str) -> (path: Vec<String>)
    ensures
        views(path@) == split_on(table@, '.'),
{
    let n = table.unicode_len();
    let mut path: Vec<String> = Vec::new();
    let mut start: usize = 0;
    let mut i: usize = 0;
    proof {
        assert(table@.skip(0) == table@);
        assert(views(path@) + split_on(table@, '.') == split_on(table@, '.'));
    }
    while i < n
        invariant
            n == table@.len(),
            start <= i <= n,
            forall|j: int| start <= j < i ==> table@[j] != '.',
            split_on(table@, '.') == views(path@) + split_on(table@.skip(start as int), '.'),
        decreases n - i,
    {
        if table.get_char(i) == '.' {
            let piece = String::from_str(table.substring_char(start, i));
            proof {
                let rest = table@.skip(start as int);
                lemma_split_first(rest, '.', i - start);
                assert(rest.take(i - start) == table@.subrange(start as int, i as int));
                assert(rest.skip(i - start + 1) == table@.skip(i + 1));
                assert(views(path@.push(piece)) == views(path@) + seq![piece@]);
            }
            path.push(piece);
            start = i + 1;
        }
        i += 1;
    }
    let piece = String::from_str(table.substring_char(start, n));
    proof {
        let rest = table@.skip(start as int);
        lemma_split_whole(rest, '.');
        assert(rest == table@.subrange(start as int, n as int));
        assert(views(path@.push(piece)) == views(path@) + seq![piece@]);
    }
    path.push(piece);
    path
}

} // verus!
