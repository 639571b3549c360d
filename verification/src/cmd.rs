//! Command lines: a command is split into arguments as a shell would. Where
//! it holds the marker ` -- `, only what stands before the first marker is
//! split; what follows it is one argument, taken as it stands.

use vstd::prelude::*;
use vstd::string::*;
use crate::path::views;

verus! {

/// The arguments that `cmd` splits into by the rules of a POSIX shell;
/// nothing where `cmd` breaks them.
pub uninterp spec fn lexed(cmd: Seq<char>) -> Option<Seq<Seq<char>>>;

/// Whether `c` is white space: whether it has the property `White_Space` of
/// Unicode. These are the tab, the line feed and the three controls after it,
/// the space, the next line, the no-break space, the Ogham space mark, the
/// spaces from the en quad to the hair space, the line and the paragraph
/// separator, the narrow no-break space, the medium mathematical space and the
/// ideographic space.
pub open spec fn white_space(c: char) -> bool {
    let n = c as u32;
    ||| 0x09 <= n <= 0x0d
    ||| n == 0x20
    ||| n == 0x85
    ||| n == 0xa0
    ||| n == 0x1680
    ||| 0x2000 <= n <= 0x200a
    ||| n == 0x2028
    ||| n == 0x2029
    ||| n == 0x202f
    ||| n == 0x205f
    ||| n == 0x3000
}

/// `shlex::split`: the arguments of a command line.
#[verifier::external_body]
fn lex(cmd: &str) -> (r: Option<Vec<String>>)
    ensures
        match r {
            Some(args) => lexed(cmd@) == Some(views(args@)),
            None => lexed(cmd@) is None,
        },
{
    shlex::split(cmd)
}

/// `char::is_whitespace`: whether the character has the property
/// `White_Space` of Unicode.
#[verifier::external_body]
fn is_whitespace(c: char) -> (r: bool)
    ensures
        r == white_space(c),
{
    c.is_whitespace()
}

/// Whether the marker ` -- ` stands at `at` in `s`.
pub open spec fn marker_at(s: Seq<char>, at: int) -> bool {
    &&& 0 <= at
    &&& at + 4 <= s.len()
    &&& s[at] == ' '
    &&& s[at + 1] == '-'
    &&& s[at + 2] == '-'
    &&& s[at + 3] == ' '
}

/// Where the first marker stands in `s`, at `from` or later.
pub open spec fn first_marker(s: Seq<char>, from: int) -> Option<int>
    decreases s.len() - from,
{
    if from < 0 || from + 4 > s.len() {
        None
    } else if marker_at(s, from) {
        Some(from)
    } else {
        first_marker(s, from + 1)
    }
}

/// The number of white characters that `s` begins with.
pub open spec fn leading(s: Seq<char>) -> nat
    decreases s.len(),
{
    if s.len() > 0 && white_space(s[0]) {
        1 + leading(s.skip(1))
    } else {
        0
    }
}

/// The number of white characters that `s` ends with.
pub open spec fn trailing(s: Seq<char>) -> nat
    decreases s.len(),
{
    if s.len() > 0 && white_space(s.last()) {
        1 + trailing(s.drop_last())
    } else {
        0
    }
}

/// `s` without the white space around it.
pub open spec fn trimmed(s: Seq<char>) -> Seq<char> {
    let rest = s.skip(leading(s) as int);
    rest.take(rest.len() - trailing(rest))
}

/// The arguments of `cmd`. Without a marker they are what `cmd` splits into.
/// With one, they are what the text before the first marker splits into, then
/// `--`, then what follows the marker, trimmed and not split.
pub open spec fn arguments(cmd: Seq<char>) -> Option<Seq<Seq<char>>> {
    match first_marker(cmd, 0) {
        Some(at) => match lexed(cmd.take(at)) {
            Some(head) => Some(head.push("--"@).push(trimmed(cmd.skip(at + 4)))),
            None => None,
        },
        None => lexed(cmd),
    }
}

/// The first marker is a marker, and none stands before it; where there is no
/// first marker, there is no marker.
pub proof fn first_marker_is_first(s: Seq<char>, from: int, at: int)
    requires
        0 <= from <= at,
    ensures
        first_marker(s, from) matches Some(first) ==> from <= first && marker_at(s, first) && (at
            < first ==> !marker_at(s, at)),
        first_marker(s, from) is None ==> !marker_at(s, at),
    decreases s.len() - from,
{
    if from + 4 <= s.len() && !marker_at(s, from) {
        if from < at {
            first_marker_is_first(s, from + 1, at);
        } else {
            first_marker_is_first(s, from + 1, at + 1);
        }
    }
}

/// White space counts on from where it was counted to.
proof fn lemma_leading_step(s: Seq<char>, n: int)
    requires
        0 <= n <= s.len(),
        forall|j: int| 0 <= j < n ==> white_space(s[j]),
    ensures
        leading(s) == n + leading(s.skip(n)),
    decreases n,
{
    if n > 0 {
        lemma_leading_step(s.skip(1), n - 1);
        assert(s.skip(1).skip(n - 1) == s.skip(n));
    } else {
        assert(s.skip(0) == s);
    }
}

/// White space counts back from where it was counted to.
proof fn lemma_trailing_step(s: Seq<char>, n: int)
    requires
        0 <= n <= s.len(),
        forall|j: int| s.len() - n <= j < s.len() ==> white_space(s[j]),
    ensures
        trailing(s) == n + trailing(s.take(s.len() - n)),
    decreases n,
{
    if n > 0 {
        lemma_trailing_step(s.drop_last(), n - 1);
        assert(s.drop_last().take(s.len() - n) == s.take(s.len() - n));
    } else {
        assert(s.take(s.len() as int) == s);
    }
}

/// Where the first marker stands in `cmd`.
fn find_marker(cmd: &str) -> (r: Option<usize>)
    ensures
        match r {
            Some(at) => first_marker(cmd@, 0) == Some(at as int) && at + 4 <= cmd@.len(),
            None => first_marker(cmd@, 0) is None,
        },
{
    let n = cmd.unicode_len();
    if n < 4 {
        return None;
    }
    let mut at: usize = 0;
    while at <= n - 4
        invariant
            n == cmd@.len(),
            n >= 4,
            at <= n - 3,
            first_marker(cmd@, 0) == first_marker(cmd@, at as int),
        decreases n - at,
    {
        if cmd.get_char(at) == ' ' && cmd.get_char(at + 1) == '-' && cmd.get_char(at + 2) == '-'
            && cmd.get_char(at + 3) == ' ' {
            return Some(at);
        }
        at += 1;
    }
    None
}

/// `s` without the white space around it.
fn trim(s: &str) -> (r: &str)
    ensures
        r@ == trimmed(s@),
{
    let n = s.unicode_len();
    let mut start: usize = 0;
    while start < n && is_whitespace(s.get_char(start))
        invariant
            n == s@.len(),
            start <= n,
            forall|j: int| 0 <= j < start ==> white_space(s@[j]),
        decreases n - start,
    {
        start += 1;
    }
    proof {
        lemma_leading_step(s@, start as int);
    }
    let ghost rest = s@.skip(start as int);
    let mut end: usize = n;
    while end > start && is_whitespace(s.get_char(end - 1))
        invariant
            n == s@.len(),
            start <= end <= n,
            rest == s@.skip(start as int),
            forall|j: int| end - start <= j < rest.len() ==> white_space(rest[j]),
        decreases end,
    {
        end -= 1;
    }
    proof {
        lemma_trailing_step(rest, n - end);
        let kept = rest.take(end - start);
        assert(kept == s@.subrange(start as int, end as int));
        if kept.len() > 0 {
            assert(kept.last() == s@[end - 1]);
        }
    }
    s.substring_char(start, end)
}

/// The arguments `head`, then `--`, then `tail` without the white space
/// around it, as one argument.
pub fn push_tail(head: Option<Vec<String>>, tail: &str) -> (r: Option<Vec<String>>)
    ensures
        match r {
            Some(v) => head matches Some(h) && views(v@) == views(h@).push("--"@).push(
                trimmed(tail@),
            ),
            None => head is None,
        },
{
    match head {
        Some(mut v) => {
            let dashes = String::from_str("--");
            let last = String::from_str(trim(tail));
            proof {
                assert(views(v@.push(dashes)) == views(v@).push(dashes@));
                assert(views(v@.push(dashes).push(last)) == views(v@.push(dashes)).push(last@));
            }
            v.push(dashes);
            v.push(last);
            Some(v)
        },
        None => None,
    }
}

/// Splits a cmd into arguments as a shell would.
///
/// If the sequence " -- " is found, only what stands before its first
/// occurrence is split; `--` follows, and then, as one argument, what follows
/// the sequence, trimmed.
pub fn split_cmd(cmd: &str) -> (r: Option<Vec<String>>)
    ensures
        match r {
            Some(v) => arguments(cmd@) == Some(views(v@)),
            None => arguments(cmd@) is None,
        },
{
    match find_marker(cmd) {
        Some(at) => {
            let n = cmd.unicode_len();
            proof {
                assert(cmd@.subrange(0, at as int) == cmd@.take(at as int));
                assert(cmd@.subrange(at + 4, n as int) == cmd@.skip(at + 4));
            }
            push_tail(lex(cmd.substring_char(0, at)), cmd.substring_char(at + 4, n))
        },
        None => lex(cmd),
    }
}

} // verus!
