//! Line-oriented text scanning: finding line breaks, splitting into lines,
//! and trimming surrounding whitespace.

use vstd::prelude::*;
use vstd::string::*;

verus! {

/// Position of the first line break, or the length when there is none.
pub open spec fn spec_find_newline(s: Seq<char>) -> int
    decreases s.len(),
{
    if s.len() == 0 {
        0
    } else if s[0] == '\n' {
        0
    } else {
        1 + spec_find_newline(s.drop_first())
    }
}

/// The whitespace stripped from around a configuration value.
pub open spec fn spec_is_space(c: char) -> bool {
    c == ' ' || c == '\t' || c == '\r'
}

/// The text without its leading whitespace.
pub open spec fn spec_trim_start(s: Seq<char>) -> Seq<char>
    decreases s.len(),
{
    if s.len() > 0 && spec_is_space(s[0]) {
        spec_trim_start(s.drop_first())
    } else {
        s
    }
}

/// The text without its trailing whitespace.
pub open spec fn spec_trim_end(s: Seq<char>) -> Seq<char>
    decreases s.len(),
{
    if s.len() > 0 && spec_is_space(s.last()) {
        spec_trim_end(s.drop_last())
    } else {
        s
    }
}

/// The text without surrounding whitespace.
pub open spec fn spec_trim(s: Seq<char>) -> Seq<char> {
    spec_trim_end(spec_trim_start(s))
}

/// One line's content: everything before the break, with a carriage return
/// at its end dropped.
pub open spec fn spec_line_content(line: Seq<char>) -> Seq<char> {
    if line.len() > 0 && line.last() == '\r' {
        line.drop_last()
    } else {
        line
    }
}

/// The lines of the text in order, split at line breaks, without a final
/// empty line after a trailing break.
/// The break position never passes the end of the text.
pub proof fn lemma_find_newline_in_range(s: Seq<char>)
    ensures
        0 <= spec_find_newline(s) <= s.len(),
    decreases s.len(),
{
    if s.len() > 0 && s[0] != '\n' {
        lemma_find_newline_in_range(s.drop_first());
    }
}

pub open spec fn spec_split_lines(s: Seq<char>) -> Seq<Seq<char>>
    decreases s.len(),
    via spec_split_lines_decreases
{
    if s.len() == 0 {
        Seq::<Seq<char>>::empty()
    } else {
        let k = spec_find_newline(s);
        let line = spec_line_content(s.subrange(0, k));
        if k == s.len() {
            seq![line]
        } else {
            seq![line] + spec_split_lines(s.subrange(k + 1, s.len() as int))
        }
    }
}

#[via_fn]
proof fn spec_split_lines_decreases(s: Seq<char>) {
    lemma_find_newline_in_range(s);
}

/// Find the first line break, or the end of the text.
pub fn find_newline(s: &str) -> (k: usize)
    ensures
        k == spec_find_newline(s@),
        k <= s@.len(),
    decreases s@.len(),
{
    let n = s.unicode_len();
    if n == 0 {
        0
    } else if s.get_char(0) == '\n' {
        0
    } else {
        let rest = s.substring_char(1, n);
        proof {
            assert(rest@ =~= s@.drop_first());
            lemma_find_newline_in_range(s@.drop_first());
        }
        1 + find_newline(rest)
    }
}

/// Whether a character counts as the whitespace stripped from around a
/// configuration value.
fn is_space(c: char) -> (r: bool)
    ensures
        r == spec_is_space(c),
{
    c == ' ' || c == '\t' || c == '\r'
}

/// The text without its leading whitespace.
fn trim_start_str(s: &str) -> (r: String)
    ensures
        r@ == spec_trim_start(s@),
    decreases s@.len(),
{
    let n = s.unicode_len();
    if n > 0 && is_space(s.get_char(0)) {
        let rest = s.substring_char(1, n);
        proof {
            assert(rest@ =~= s@.drop_first());
        }
        trim_start_str(rest)
    } else {
        String::from_str(s)
    }
}

/// The text without its trailing whitespace.
fn trim_end_str(s: &str) -> (r: String)
    ensures
        r@ == spec_trim_end(s@),
    decreases s@.len(),
{
    let n = s.unicode_len();
    if n > 0 && is_space(s.get_char(n - 1)) {
        let rest = s.substring_char(0, n - 1);
        proof {
            assert(rest@ =~= s@.drop_last());
        }
        trim_end_str(rest)
    } else {
        String::from_str(s)
    }
}

/// The text without surrounding whitespace.
pub fn trim_str(s: &str) -> (r: String)
    ensures
        r@ == spec_trim(s@),
{
    let start_trimmed = trim_start_str(s);
    trim_end_str(start_trimmed.as_str())
}

/// Split the text into its lines, in order.
pub fn split_lines(s: &str) -> (v: Vec<String>)
    ensures
        v.deep_view() == spec_split_lines(s@),
    decreases s@.len(),
{
    let n = s.unicode_len();
    if n == 0 {
        let v: Vec<String> = Vec::new();
        assert(v.deep_view() =~= spec_split_lines(s@));
        v
    } else {
        let k = find_newline(s);
        let line_end = if k > 0 && s.get_char(k - 1) == '\r' {
            k - 1
        } else {
            k
        };
        let line = String::from_str(s.substring_char(0, line_end));
        proof {
            let l = s@.subrange(0, k as int);
            if k > 0 && s@[k - 1] == '\r' {
                assert(l.last() == '\r');
                assert(l.drop_last() =~= s@.subrange(0, k - 1));
            } else if k > 0 {
                assert(l.last() == s@[k - 1]);
            }
            assert(line@ == spec_line_content(l));
        }
        let mut v: Vec<String> = Vec::new();
        v.push(line);
        if k < n {
            let rest = s.substring_char(k + 1, n);
            proof {
                assert(rest@ =~= s@.subrange(k + 1, s@.len() as int));
            }
            let mut tail = split_lines(rest);
            v.append(&mut tail);
        }
        assert(v.deep_view() =~= spec_split_lines(s@));
        v
    }
}

} // verus!
