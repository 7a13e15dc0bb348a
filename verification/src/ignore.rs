//! Splitting ignore-file text into its lines.
//!
//! An ignore file is plain text, one pattern per line. A missing file stands
//! for an empty list. Lines are split the way a buffered line reader splits
//! them: each `'\n'` ends a line, a `'\r'` directly before the `'\n'` is
//! dropped with it, and text after the last `'\n'` forms a final line only
//! when it is non-empty.

use vstd::prelude::*;
use vstd::string::StrSliceExecFns;
use vstd::string::StringExecFns;

verus! {

/// The position of the first `'\n'` at or after `from`, or the text's length
/// when there is none.
pub open spec fn find_newline(s: Seq<char>, from: int) -> int
    recommends
        0 <= from,
    decreases s.len() - from when 0 <= from <= s.len()
{
    if from >= s.len() {
        s.len() as int
    } else if s[from] == '\n' {
        from
    } else {
        find_newline(s, from + 1)
    }
}

/// The scan for a newline never leaves the text.
proof fn lemma_find_newline_bounds(s: Seq<char>, from: int)
    requires
        0 <= from <= s.len(),
    ensures
        from <= find_newline(s, from) <= s.len(),
    decreases s.len() - from,
{
    if from < s.len() && s[from] != '\n' {
        lemma_find_newline_bounds(s, from + 1);
    }
}

/// A line with a single trailing carriage return removed.
pub open spec fn strip_cr(l: Seq<char>) -> Seq<char> {
    if l.len() > 0 && l.last() == '\r' {
        l.drop_last()
    } else {
        l
    }
}

/// The lines of the text from position `from` on.
pub open spec fn spec_lines_from(s: Seq<char>, from: int) -> Seq<Seq<char>>
    recommends
        0 <= from,
    decreases s.len() - from when 0 <= from <= s.len() via spec_lines_from_decreases
{
    if from >= s.len() {
        Seq::empty()
    } else {
        let i = find_newline(s, from);
        if i == s.len() {
            seq![s.subrange(from, i)]
        } else {
            seq![strip_cr(s.subrange(from, i))] + spec_lines_from(s, i + 1)
        }
    }
}

#[via_fn]
proof fn spec_lines_from_decreases(s: Seq<char>, from: int) {
    if from < s.len() {
        lemma_find_newline_bounds(s, from);
    }
}

/// The lines of the whole text.
pub open spec fn spec_lines(s: Seq<char>) -> Seq<Seq<char>> {
    spec_lines_from(s, 0)
}

/// `find_newline` names the position a left-to-right scan stops at.
proof fn lemma_find_newline_at(s: Seq<char>, from: int, i: int)
    requires
        0 <= from <= i <= s.len(),
        forall|j: int| from <= j < i ==> s[j] != '\n',
        i == s.len() || s[i] == '\n',
    ensures
        find_newline(s, from) == i,
    decreases i - from,
{
    if from < i {
        lemma_find_newline_at(s, from + 1, i);
    }
}

/// The lines of ignore-file text, in file order; `None` stands for a missing
/// ignore file and yields no lines at all.
pub fn get_ignore_file(content: Option<&str>) -> (r: Vec<String>)
    ensures
        content is None ==> r@ =~= Seq::<String>::empty(),
        content matches Some(s) ==> r.deep_view() =~= spec_lines(s@),
{
    let s = match content {
        None => {
            return Vec::new();
        },
        Some(s) => s,
    };
    let n = s.unicode_len();
    let mut r: Vec<String> = Vec::new();
    let mut start: usize = 0;
    while start < n
        invariant
            n == s@.len(),
            start <= n,
            spec_lines(s@) =~= r.deep_view() + spec_lines_from(s@, start as int),
        decreases n - start,
    {
        let mut i: usize = start;
        while i < n && s.get_char(i) != '\n'
            invariant
                n == s@.len(),
                start <= i <= n,
                forall|j: int| start <= j < i ==> s@[j] != '\n',
            decreases n - i,
        {
            i += 1;
        }
        proof {
            lemma_find_newline_at(s@, start as int, i as int);
        }
        let mut end = i;
        if i < n && end > start && s.get_char(end - 1) == '\r' {
            end = end - 1;
        }
        let line = String::from_str(s.substring_char(start, end));
        let ghost prior = r.deep_view();
        proof {
            if i < n {
                assert(line@ =~= strip_cr(s@.subrange(start as int, i as int)));
            }
        }
        r.push(line);
        proof {
            assert(r.deep_view() =~= prior.push(line@));
        }
        if i < n {
            start = i + 1;
        } else {
            start = n;
        }
    }
    r
}

} // verus!
