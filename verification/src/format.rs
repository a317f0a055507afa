//! The message formatter: renders a request's file, line range, side, code
//! excerpt and question into the single chat message that is typed into the
//! terminal session.

use vstd::prelude::*;
use vstd::string::*;
use vstd::utf8::*;
use crate::numfmt::{spec_decimal, u64_to_string};

verus! {

/// Byte budget for the code excerpt; longer code is cut at a character
/// boundary and marked as truncated.
pub const EXCERPT_BYTE_CAP: usize = 2000;

/// The location suffix after the file name: `:{start}-{end}` when both lines
/// are given and differ, `:{start}` when the start line alone decides, and
/// nothing when no start line is given.
pub open spec fn spec_location_suffix(start: Option<u64>, end: Option<u64>) -> Seq<char> {
    match (start, end) {
        (Some(s), Some(e)) => if s != e {
            ":"@ + spec_decimal(s as int) + "-"@ + spec_decimal(e as int)
        } else {
            ":"@ + spec_decimal(s as int)
        },
        (Some(s), None) => ":"@ + spec_decimal(s as int),
        _ => Seq::<char>::empty(),
    }
}

/// Whether the request's `side` field asks for the deleted-lines marker.
pub open spec fn spec_is_old(side: Option<Seq<char>>) -> bool {
    match side {
        Some(s) => s == "old"@,
        None => false,
    }
}

/// The view of an optional string argument.
pub open spec fn spec_opt_view(side: Option<&str>) -> Option<Seq<char>> {
    match side {
        Some(s) => Some(s@),
        None => None,
    }
}

/// The largest character boundary of `bytes` at or before position `k`.
pub open spec fn spec_last_boundary(bytes: Seq<u8>, k: int) -> int
    decreases k,
{
    if k <= 0 {
        0
    } else if is_char_boundary(bytes, k) {
        k
    } else {
        spec_last_boundary(bytes, k - 1)
    }
}

/// The code excerpt: the code itself while its UTF-8 encoding is within the
/// byte budget, else the longest prefix that ends on a character boundary at
/// or before the budget, marked as truncated.
pub open spec fn spec_excerpt(code: Seq<char>) -> Seq<char> {
    let bytes = encode_utf8(code);
    if bytes.len() <= EXCERPT_BYTE_CAP {
        code
    } else {
        decode_utf8(bytes.subrange(0, spec_last_boundary(bytes, EXCERPT_BYTE_CAP as int)))
            + "...(truncated)"@
    }
}

/// The closing line of the message: the question as given, or the fallback
/// prompt when the question is empty.
pub open spec fn spec_question_line(question: Seq<char>) -> Seq<char> {
    if question.len() == 0 {
        "Explain this code"@
    } else {
        question
    }
}

/// The whole formatted chat message.
pub open spec fn spec_format_message(
    file: Seq<char>,
    start: Option<u64>,
    end: Option<u64>,
    side: Option<Seq<char>>,
    code: Seq<char>,
    question: Seq<char>,
) -> Seq<char> {
    file + spec_location_suffix(start, end) + (if spec_is_old(side) {
        " (deleted lines)"@
    } else {
        Seq::<char>::empty()
    }) + "\n```\n"@ + spec_excerpt(code) + "\n```\n"@ + spec_question_line(question)
}

/// A value found by searching down from `k` really is the last boundary at
/// or before `k`.
proof fn lemma_last_boundary_unique(bytes: Seq<u8>, k: int, end: int)
    requires
        0 <= end <= k,
        is_char_boundary(bytes, end),
        forall|j: int| end < j <= k ==> !is_char_boundary(bytes, j),
    ensures
        spec_last_boundary(bytes, k) == end,
    decreases k,
{
    if k > end {
        lemma_last_boundary_unique(bytes, k - 1, end);
    }
}

/// Render the file location, code excerpt and question as one chat message,
/// exactly as the formatting algorithm prescribes.
pub fn format_message(
    file: &str,
    start_line: Option<u64>,
    end_line: Option<u64>,
    side: Option<&str>,
    code: &str,
    question: &str,
) -> (msg: String)
    ensures
        msg@ == spec_format_message(
            file@,
            start_line,
            end_line,
            spec_opt_view(side),
            code@,
            question@,
        ),
{
    broadcast use encode_utf8_valid_utf8, encode_utf8_decode_utf8, is_char_boundary_start_end_of_seq;

    let mut msg = String::new();
    msg.append(file);

    match (start_line, end_line) {
        (Some(s), Some(e)) => {
            if s != e {
                msg.append(":");
                let sd = u64_to_string(s);
                msg.append(sd.as_str());
                msg.append("-");
                let ed = u64_to_string(e);
                msg.append(ed.as_str());
            } else {
                msg.append(":");
                let sd = u64_to_string(s);
                msg.append(sd.as_str());
            }
        },
        (Some(s), None) => {
            msg.append(":");
            let sd = u64_to_string(s);
            msg.append(sd.as_str());
        },
        _ => {},
    }
    assert(msg@ == file@ + spec_location_suffix(start_line, end_line));

    let is_old = match side {
        Some(s) => {
            let given = String::from_str(s);
            let old_word = String::from_str("old");
            given == old_word
        },
        None => false,
    };
    assert(is_old == spec_is_old(spec_opt_view(side)));
    if is_old {
        msg.append(" (deleted lines)");
    }
    msg.append("\n```\n");

    let ghost fenced_prefix = msg@;
    let code_byte_len = code.as_bytes().len();
    proof {
        encode_utf8_valid_utf8(code@);
    }
    if code_byte_len <= EXCERPT_BYTE_CAP {
        msg.append(code);
        assert(spec_excerpt(code@) == code@);
    } else {
        let ghost bytes = code.spec_bytes();
        let mut cut: usize = EXCERPT_BYTE_CAP;
        while !code.is_char_boundary(cut)
            invariant
                0 <= cut <= EXCERPT_BYTE_CAP,
                code.spec_bytes() == bytes,
                valid_utf8(bytes),
                bytes.len() > EXCERPT_BYTE_CAP,
                forall|j: int| cut < j <= EXCERPT_BYTE_CAP ==> !is_char_boundary(bytes, j),
            decreases cut,
        {
            proof {
                is_char_boundary_start_end_of_seq(bytes);
            }
            assert(cut > 0);
            cut = cut - 1;
        }
        proof {
            lemma_last_boundary_unique(bytes, EXCERPT_BYTE_CAP as int, cut as int);
        }
        let pair = code.split_at(cut);
        let head = pair.0;
        msg.append(head);
        msg.append("...(truncated)");
        proof {
            assert(encode_utf8(head@) =~= bytes.subrange(0, cut as int));
            assert(decode_utf8(encode_utf8(head@)) == head@);
            assert(spec_excerpt(code@) == head@ + "...(truncated)"@);
        }
    }
    assert(msg@ =~= fenced_prefix + spec_excerpt(code@));
    msg.append("\n```\n");

    if !question.is_empty() {
        msg.append(question);
    } else {
        msg.append("Explain this code");
    }

    assert(msg@ =~= spec_format_message(
        file@,
        start_line,
        end_line,
        spec_opt_view(side),
        code@,
        question@,
    ));
    msg
}

} // verus!
