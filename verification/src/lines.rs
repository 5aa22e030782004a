//! Line arithmetic on plain text: the first line of a text and its line
//! count, with `str::lines` conventions. A newline character ends a line;
//! the empty text has no line, and a final newline terminates the last line
//! rather than opening a new empty one.

use vstd::prelude::*;
use vstd::string::StrSliceExecFns;

verus! {

/// The characters of `s` before its first newline; all of `s` when it has
/// none. The newline itself is not part of the line.
pub open spec fn first_line(s: Seq<char>) -> Seq<char>
    decreases s.len(),
{
    if s.len() == 0 {
        Seq::empty()
    } else if s[0] == '\n' {
        Seq::empty()
    } else {
        seq![s[0]] + first_line(s.drop_first())
    }
}

/// The number of newline characters in `s`.
pub open spec fn newline_count(s: Seq<char>) -> nat
    decreases s.len(),
{
    if s.len() == 0 {
        0
    } else {
        newline_count(s.drop_last()) + if s.last() == '\n' { 1nat } else { 0nat }
    }
}

/// The number of lines of `s`: zero for the empty text, otherwise one more
/// than the newlines that are followed by at least one further character.
pub open spec fn line_count(s: Seq<char>) -> nat {
    if s.len() == 0 {
        0
    } else {
        1 + newline_count(s.subrange(0, s.len() - 1))
    }
}

/// `first_line` is the prefix that stops at the first newline: if no newline
/// stands before position `k`, and `k` is the end of `s` or a newline, then
/// the first line of `s` is exactly `s` up to `k`.
pub proof fn lemma_first_line_at(s: Seq<char>, k: int)
    requires
        0 <= k <= s.len(),
        forall|j: int| 0 <= j < k ==> s[j] != '\n',
        k < s.len() ==> s[k] == '\n',
    ensures
        first_line(s) == s.subrange(0, k),
    decreases s.len(),
{
    if s.len() == 0 {
        assert(s.subrange(0, 0) =~= Seq::<char>::empty());
    } else if s[0] == '\n' {
        assert(k == 0);
        assert(s.subrange(0, 0) =~= Seq::<char>::empty());
    } else {
        assert(k >= 1);
        assert(forall|j: int| 0 <= j < k - 1 ==> s.drop_first()[j] == s[j + 1]);
        lemma_first_line_at(s.drop_first(), k - 1);
        assert(s.drop_first().subrange(0, k - 1) =~= s.subrange(1, k));
        assert(seq![s[0]] + s.subrange(1, k) =~= s.subrange(0, k));
    }
}

/// The index of the first newline in `s`, or its length when it has none.
fn first_newline_index(s: &str) -> (i: usize)
    ensures
        i <= s@.len(),
        forall|j: int| 0 <= j < i ==> s@[j] != '\n',
        i < s@.len() ==> s@[i as int] == '\n',
{
    let len: usize = s.unicode_len();
    let mut i: usize = 0;
    loop
        invariant
            i <= len,
            len == s@.len(),
            forall|j: int| 0 <= j < i ==> s@[j] != '\n',
        ensures
            i <= len,
            forall|j: int| 0 <= j < i ==> s@[j] != '\n',
            i < len ==> s@[i as int] == '\n',
        decreases len - i,
    {
        if i == len {
            break;
        }
        if s.get_char(i) == '\n' {
            break;
        }
        i = i + 1;
    }
    i
}

/// The first line of `s` as owned text.
pub fn extract_first_line(s: &str) -> (line: String)
    ensures
        line@ == first_line(s@),
{
    let i: usize = first_newline_index(s);
    proof {
        lemma_first_line_at(s@, i as int);
    }
    s.substring_char(0, i).to_owned()
}

/// The number of lines of `s`, as `line_count` counts them.
pub fn count_lines(s: &str) -> (n: usize)
    ensures
        n == line_count(s@),
{
    let len: usize = s.unicode_len();
    if len == 0 {
        return 0;
    }
    let mut n: usize = 1;
    let mut i: usize = 0;
    while i < len - 1
        invariant
            1 <= len,
            len == s@.len(),
            i <= len - 1,
            n == 1 + newline_count(s@.subrange(0, i as int)),
            n <= 1 + i,
        decreases len - 1 - i,
    {
        proof {
            assert(s@.subrange(0, i + 1).drop_last() =~= s@.subrange(0, i as int));
            assert(s@.subrange(0, i + 1).last() == s@[i as int]);
        }
        if s.get_char(i) == '\n' {
            n = n + 1;
        }
        i = i + 1;
    }
    proof {
        assert(s@.subrange(0, len - 1) == s@.subrange(0, s@.len() - 1));
    }
    n
}

} // verus!
