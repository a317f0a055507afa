//! The library's stated laws: what holds of the formatter, the target
//! resolver and the response encoder for every input, proved once and for
//! all rather than sampled by tests.

use vstd::prelude::*;
use vstd::utf8::*;
use crate::format::{
    spec_excerpt, spec_format_message, spec_is_old, spec_last_boundary, spec_location_suffix,
    spec_question_line, EXCERPT_BYTE_CAP,
};
use crate::jsontext::{spec_encode_send_response, spec_escape};
use crate::numfmt::spec_decimal;
use crate::target::{spec_resolve_target, FALLBACK_TARGET};

verus! {

/// When the start and end line are equal, the location suffix is the single
/// `:{start}` form, never a one-line range.
pub proof fn law_equal_lines_single_location(s: u64)
    ensures
        spec_location_suffix(Some(s), Some(s)) == ":"@ + spec_decimal(s as int),
        spec_location_suffix(Some(s), Some(s)) == spec_location_suffix(Some(s), None),
{
}

/// When no start line is given, no location suffix is appended at all.
pub proof fn law_no_start_line_no_suffix(end: Option<u64>)
    ensures
        spec_location_suffix(None, end) == Seq::<char>::empty(),
{
}

/// The deleted-lines marker stands immediately after the location portion,
/// once, exactly when the side is `old`; any other side leaves the message
/// without it.
pub proof fn law_old_side_marker_placement(
    file: Seq<char>,
    start: Option<u64>,
    end: Option<u64>,
    side: Option<Seq<char>>,
    code: Seq<char>,
    question: Seq<char>,
)
    ensures
        spec_is_old(side) ==> spec_format_message(file, start, end, side, code, question) == file
            + spec_location_suffix(start, end) + " (deleted lines)"@ + "\n```\n"@ + spec_excerpt(
            code,
        ) + "\n```\n"@ + spec_question_line(question),
        !spec_is_old(side) ==> spec_format_message(file, start, end, side, code, question) == file
            + spec_location_suffix(start, end) + "\n```\n"@ + spec_excerpt(code) + "\n```\n"@
            + spec_question_line(question),
{
    if spec_is_old(side) {
        assert(spec_format_message(file, start, end, side, code, question) =~= file
            + spec_location_suffix(start, end) + " (deleted lines)"@ + "\n```\n"@ + spec_excerpt(
            code,
        ) + "\n```\n"@ + spec_question_line(question));
    } else {
        assert(spec_format_message(file, start, end, side, code, question) =~= file
            + spec_location_suffix(start, end) + "\n```\n"@ + spec_excerpt(code) + "\n```\n"@
            + spec_question_line(question));
    }
}

/// The position the excerpt is cut at is a character boundary.
proof fn lemma_last_boundary_is_boundary(bytes: Seq<u8>, k: int)
    requires
        valid_utf8(bytes),
    ensures
        is_char_boundary(bytes, spec_last_boundary(bytes, k)),
        spec_last_boundary(bytes, k) <= (if k >= 0 {
            k
        } else {
            0
        }),
        spec_last_boundary(bytes, k) >= 0,
    decreases k,
{
    if k <= 0 {
        is_char_boundary_start_end_of_seq(bytes);
    } else if !is_char_boundary(bytes, k) {
        lemma_last_boundary_is_boundary(bytes, k - 1);
    }
}

/// Code within the byte budget is excerpted unmodified.
pub proof fn law_short_code_unmodified(code: Seq<char>)
    requires
        encode_utf8(code).len() <= EXCERPT_BYTE_CAP,
    ensures
        spec_excerpt(code) == code,
{
}

/// Code over the byte budget is cut at a character boundary at or before
/// the budget — a multi-byte character is never split — and the emitted
/// excerpt ends with the truncation marker.
pub proof fn law_truncation_respects_characters(code: Seq<char>)
    requires
        encode_utf8(code).len() > EXCERPT_BYTE_CAP,
    ensures
        ({
            let bytes = encode_utf8(code);
            let cut = spec_last_boundary(bytes, EXCERPT_BYTE_CAP as int);
            &&& 0 <= cut <= EXCERPT_BYTE_CAP
            &&& is_char_boundary(bytes, cut)
            &&& valid_utf8(bytes.subrange(0, cut))
            &&& spec_excerpt(code) == decode_utf8(bytes.subrange(0, cut)) + "...(truncated)"@
            &&& spec_excerpt(code).subrange(
                spec_excerpt(code).len() - "...(truncated)"@.len(),
                spec_excerpt(code).len() as int,
            ) == "...(truncated)"@
        }),
{
    let bytes = encode_utf8(code);
    let cut = spec_last_boundary(bytes, EXCERPT_BYTE_CAP as int);
    encode_utf8_valid_utf8(code);
    lemma_last_boundary_is_boundary(bytes, EXCERPT_BYTE_CAP as int);
    valid_utf8_split(bytes, cut);
    let head = decode_utf8(bytes.subrange(0, cut));
    assert((head + "...(truncated)"@).subrange(
        head.len() as int,
        (head + "...(truncated)"@).len() as int,
    ) =~= "...(truncated)"@);
}

/// An empty question always yields the literal fallback prompt; a non-empty
/// question is passed through verbatim.
pub proof fn law_question_fallback(question: Seq<char>)
    ensures
        question.len() == 0 ==> spec_question_line(question) == "Explain this code"@,
        question.len() > 0 ==> spec_question_line(question) == question,
{
}

/// Target precedence: a configuration override always wins; without one a
/// non-empty request target wins; with neither, the fallback session is
/// used.
pub proof fn law_target_precedence(config: Option<Seq<char>>, request_target: Seq<char>)
    ensures
        config matches Some(v) ==> spec_resolve_target(config, request_target) == v,
        config is None && request_target.len() > 0 ==> spec_resolve_target(config, request_target)
            == request_target,
        config is None && request_target.len() == 0 ==> spec_resolve_target(
            config,
            request_target,
        ) == FALLBACK_TARGET@,
{
}

/// A success is encoded as exactly `{"ok":true}`, with no error key; a
/// failure carries `false` and exactly the escaped error text, and nothing
/// else.
pub proof fn law_send_response_encoding(e: Seq<char>)
    ensures
        spec_encode_send_response(true, None) == "{\"ok\":true}"@,
        spec_encode_send_response(false, Some(e)) == "{\"ok\":false,\"error\":\""@ + spec_escape(e)
            + "\"}"@,
{
    reveal_strlit("{\"ok\":");
    reveal_strlit("true");
    reveal_strlit("false");
    reveal_strlit("}");
    reveal_strlit("{\"ok\":true}");
    reveal_strlit(",\"error\":\"");
    reveal_strlit("\"");
    reveal_strlit("{\"ok\":false,\"error\":\"");
    reveal_strlit("\"}");
    assert(spec_encode_send_response(true, None) =~= "{\"ok\":true}"@);
    assert(spec_encode_send_response(false, Some(e)) =~= "{\"ok\":false,\"error\":\""@
        + spec_escape(e) + "\"}"@);
}

} // verus!
