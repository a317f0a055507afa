//! The target resolver: which multiplexer session a message is delivered
//! to. A non-empty `tmux_target=` value in the per-user configuration text
//! wins; then a non-empty target carried on the request; then the fixed
//! fallback session.

use vstd::prelude::*;
use vstd::string::*;
use crate::lines::{
    find_newline, lemma_find_newline_in_range, spec_find_newline, spec_trim, trim_str,
};

verus! {

/// The session used when neither the configuration nor the request names one.
pub const FALLBACK_TARGET: &'static str = "pigeon";

/// The key that a configuration line must start with.
pub const TARGET_KEY: &'static str = "tmux_target=";

/// The override a single configuration line carries: the trimmed text after
/// `tmux_target=`, when the line starts with that key and the trimmed text
/// is non-empty.
pub open spec fn spec_line_target(line: Seq<char>) -> Option<Seq<char>> {
    if line.len() >= TARGET_KEY@.len() && line.subrange(0, TARGET_KEY@.len() as int)
        == TARGET_KEY@ {
        let v = spec_trim(line.subrange(TARGET_KEY@.len() as int, line.len() as int));
        if v.len() > 0 {
            Some(v)
        } else {
            None
        }
    } else {
        None
    }
}

/// The override the whole configuration text carries: the first line with a
/// non-empty `tmux_target=` value wins.
pub open spec fn spec_config_target(s: Seq<char>) -> Option<Seq<char>>
    decreases s.len(),
    via spec_config_target_decreases
{
    if s.len() == 0 {
        None
    } else {
        let k = spec_find_newline(s);
        let found = spec_line_target(s.subrange(0, k));
        if found is Some {
            found
        } else if k == s.len() {
            None
        } else {
            spec_config_target(s.subrange(k + 1, s.len() as int))
        }
    }
}

#[via_fn]
proof fn spec_config_target_decreases(s: Seq<char>) {
    lemma_find_newline_in_range(s);
}

/// The session a message goes to, by precedence: the configuration
/// override, else the request's non-empty target, else the fallback.
pub open spec fn spec_resolve_target(
    config: Option<Seq<char>>,
    request_target: Seq<char>,
) -> Seq<char> {
    match config {
        Some(v) => v,
        None => if request_target.len() > 0 {
            request_target
        } else {
            FALLBACK_TARGET@
        },
    }
}

/// The override carried by one configuration line, if any.
fn line_target(line: &str) -> (r: Option<String>)
    ensures
        match r {
            Some(v) => spec_line_target(line@) == Some(v@),
            None => spec_line_target(line@) is None,
        },
{
    let n = line.unicode_len();
    let key_len = TARGET_KEY.unicode_len();
    if n < key_len {
        return None;
    }
    let head = String::from_str(line.substring_char(0, key_len));
    let key = String::from_str(TARGET_KEY);
    if head == key {
        let v = trim_str(line.substring_char(key_len, n));
        if v.unicode_len() > 0 {
            Some(v)
        } else {
            None
        }
    } else {
        None
    }
}

/// The override carried by the configuration text, if any: scanned line by
/// line, first non-empty value wins.
pub fn config_target_from_text(text: &str) -> (r: Option<String>)
    ensures
        match r {
            Some(v) => spec_config_target(text@) == Some(v@),
            None => spec_config_target(text@) is None,
        },
    decreases text@.len(),
{
    let n = text.unicode_len();
    if n == 0 {
        return None;
    }
    let k = find_newline(text);
    let line = text.substring_char(0, k);
    match line_target(line) {
        Some(v) => Some(v),
        None => {
            if k == n {
                None
            } else {
                let rest = text.substring_char(k + 1, n);
                proof {
                    assert(rest@ =~= text@.subrange(k + 1, text@.len() as int));
                }
                config_target_from_text(rest)
            }
        },
    }
}

/// Resolve the destination session for a request: a configuration override
/// wins over the request's own non-empty target, which wins over the fixed
/// fallback. `config_text` is the configuration file's content, or absent
/// when the file could not be read.
pub fn resolve_target(config_text: Option<&str>, request_target: &str) -> (t: String)
    ensures
        t@ == spec_resolve_target(
            match config_text {
                Some(s) => spec_config_target(s@),
                None => None,
            },
            request_target@,
        ),
{
    let from_config = match config_text {
        Some(s) => config_target_from_text(s),
        None => None,
    };
    match from_config {
        Some(v) => v,
        None => {
            if !request_target.is_empty() {
                String::from_str(request_target)
            } else {
                String::from_str(FALLBACK_TARGET)
            }
        },
    }
}

} // verus!
