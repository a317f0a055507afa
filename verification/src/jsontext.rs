//! The response encoder: renders a response as its exact JSON text, with a
//! verified JSON string escaper, omitting every absent field.

use vstd::prelude::*;
use vstd::string::*;
use crate::msg::{ListSessionsResponse, SendResponse};

verus! {

/// The character for one hexadecimal digit, lower case.
pub open spec fn spec_hex_digit(d: int) -> char
    recommends
        0 <= d < 16,
{
    if d == 0 {
        '0'
    } else if d == 1 {
        '1'
    } else if d == 2 {
        '2'
    } else if d == 3 {
        '3'
    } else if d == 4 {
        '4'
    } else if d == 5 {
        '5'
    } else if d == 6 {
        '6'
    } else if d == 7 {
        '7'
    } else if d == 8 {
        '8'
    } else if d == 9 {
        '9'
    } else if d == 10 {
        'a'
    } else if d == 11 {
        'b'
    } else if d == 12 {
        'c'
    } else if d == 13 {
        'd'
    } else if d == 14 {
        'e'
    } else {
        'f'
    }
}

/// How one character appears inside a JSON string literal: quote and
/// backslash escaped, the named control escapes, other control characters
/// as `\u00XX`, everything else as itself.
pub open spec fn spec_escape_char(c: char) -> Seq<char> {
    if c == '"' {
        seq!['\\', '"']
    } else if c == '\\' {
        seq!['\\', '\\']
    } else if c == '\u{8}' {
        seq!['\\', 'b']
    } else if c == '\u{c}' {
        seq!['\\', 'f']
    } else if c == '\n' {
        seq!['\\', 'n']
    } else if c == '\r' {
        seq!['\\', 'r']
    } else if c == '\t' {
        seq!['\\', 't']
    } else if (c as u32) < 0x20 {
        seq!['\\', 'u', '0', '0', spec_hex_digit(c as int / 16), spec_hex_digit(c as int % 16)]
    } else {
        seq![c]
    }
}

/// The body of a JSON string literal for the given text.
pub open spec fn spec_escape(s: Seq<char>) -> Seq<char>
    decreases s.len(),
{
    if s.len() == 0 {
        Seq::<char>::empty()
    } else {
        spec_escape_char(s[0]) + spec_escape(s.drop_first())
    }
}

/// Escaping one more character extends the escaped text at its end.
proof fn lemma_escape_push(s: Seq<char>, c: char)
    ensures
        spec_escape(s.push(c)) == spec_escape(s) + spec_escape_char(c),
    decreases s.len(),
{
    if s.len() == 0 {
        let single = s.push(c);
        assert(single[0] == c);
        assert(single.drop_first() =~= Seq::<char>::empty());
        assert(spec_escape(single) == spec_escape_char(c) + spec_escape(Seq::<char>::empty()));
        assert(spec_escape(single) =~= spec_escape(s) + spec_escape_char(c));
    } else {
        assert(s.push(c)[0] == s[0]);
        assert(s.push(c).drop_first() =~= s.drop_first().push(c));
        lemma_escape_push(s.drop_first(), c);
        assert(spec_escape(s.push(c)) =~= spec_escape(s) + spec_escape_char(c));
    }
}

/// Relies on String::push of std: appends exactly the one character.
#[verifier::external_body]
fn push_char(s: &mut String, c: char)
    ensures
        final(s)@ == old(s)@ + seq![c],
{
    s.push(c);
}

/// A one-character string for a hexadecimal digit, lower case.
fn hex_digit_str(d: u32) -> (s: &'static str)
    requires
        d < 16,
    ensures
        s@ == seq![spec_hex_digit(d as int)],
{
    proof {
        reveal_strlit("0");
        reveal_strlit("1");
        reveal_strlit("2");
        reveal_strlit("3");
        reveal_strlit("4");
        reveal_strlit("5");
        reveal_strlit("6");
        reveal_strlit("7");
        reveal_strlit("8");
        reveal_strlit("9");
        reveal_strlit("a");
        reveal_strlit("b");
        reveal_strlit("c");
        reveal_strlit("d");
        reveal_strlit("e");
        reveal_strlit("f");
    }
    let s = match d {
        0 => "0",
        1 => "1",
        2 => "2",
        3 => "3",
        4 => "4",
        5 => "5",
        6 => "6",
        7 => "7",
        8 => "8",
        9 => "9",
        10 => "a",
        11 => "b",
        12 => "c",
        13 => "d",
        14 => "e",
        _ => "f",
    };
    assert(s@ =~= seq![spec_hex_digit(d as int)]);
    s
}

/// Append one character's JSON string escape.
fn append_escaped_char(out: &mut String, c: char)
    ensures
        final(out)@ == old(out)@ + spec_escape_char(c),
{
    proof {
        reveal_strlit("\\\"");
        reveal_strlit("\\\\");
        reveal_strlit("\\b");
        reveal_strlit("\\f");
        reveal_strlit("\\n");
        reveal_strlit("\\r");
        reveal_strlit("\\t");
        reveal_strlit("\\u00");
    }
    if c == '"' {
        out.append("\\\"");
        assert(out@ =~= old(out)@ + spec_escape_char(c));
    } else if c == '\\' {
        out.append("\\\\");
        assert(out@ =~= old(out)@ + spec_escape_char(c));
    } else if c == '\u{8}' {
        out.append("\\b");
        assert(out@ =~= old(out)@ + spec_escape_char(c));
    } else if c == '\u{c}' {
        out.append("\\f");
        assert(out@ =~= old(out)@ + spec_escape_char(c));
    } else if c == '\n' {
        out.append("\\n");
        assert(out@ =~= old(out)@ + spec_escape_char(c));
    } else if c == '\r' {
        out.append("\\r");
        assert(out@ =~= old(out)@ + spec_escape_char(c));
    } else if c == '\t' {
        out.append("\\t");
        assert(out@ =~= old(out)@ + spec_escape_char(c));
    } else if (c as u32) < 0x20 {
        let v = c as u32;
        out.append("\\u00");
        out.append(hex_digit_str(v / 16));
        out.append(hex_digit_str(v % 16));
        assert(out@ =~= old(out)@ + spec_escape_char(c));
    } else {
        push_char(out, c);
        assert(out@ =~= old(out)@ + spec_escape_char(c));
    }
}

/// Append the body of the JSON string literal for `s`.
fn append_escaped(out: &mut String, s: &str)
    ensures
        final(out)@ == old(out)@ + spec_escape(s@),
{
    let ghost base = old(out)@;
    let n = s.unicode_len();
    let mut i: usize = 0;
    while i < n
        invariant
            n == s@.len(),
            i <= n,
            out@ == base + spec_escape(s@.take(i as int)),
        decreases n - i,
    {
        let c = s.get_char(i);
        append_escaped_char(out, c);
        proof {
            assert(s@.take(i + 1) =~= s@.take(i as int).push(s@[i as int]));
            lemma_escape_push(s@.take(i as int), s@[i as int]);
        }
        i = i + 1;
    }
    proof {
        assert(s@.take(n as int) =~= s@);
    }
}

/// The exact JSON text of a `send` outcome: `ok`, and the escaped error
/// text only when one is present.
pub open spec fn spec_encode_send_response(ok: bool, error: Option<Seq<char>>) -> Seq<char> {
    "{\"ok\":"@ + (if ok {
        "true"@
    } else {
        "false"@
    }) + (match error {
        None => Seq::<char>::empty(),
        Some(e) => ",\"error\":\""@ + spec_escape(e) + "\""@,
    }) + "}"@
}

/// The comma-separated JSON string literals for the session names, in order.
pub open spec fn spec_encode_session_items(sessions: Seq<Seq<char>>) -> Seq<char>
    decreases sessions.len(),
{
    if sessions.len() == 0 {
        Seq::<char>::empty()
    } else if sessions.len() == 1 {
        "\""@ + spec_escape(sessions[0]) + "\""@
    } else {
        "\""@ + spec_escape(sessions[0]) + "\""@ + ","@ + spec_encode_session_items(
            sessions.drop_first(),
        )
    }
}

/// The exact JSON text of a `list-sessions` outcome: `ok`, then the session
/// array or the escaped error text, whichever is present.
pub open spec fn spec_encode_list_sessions_response(
    ok: bool,
    sessions: Option<Seq<Seq<char>>>,
    error: Option<Seq<char>>,
) -> Seq<char> {
    "{\"ok\":"@ + (if ok {
        "true"@
    } else {
        "false"@
    }) + (match sessions {
        None => Seq::<char>::empty(),
        Some(ss) => ",\"sessions\":["@ + spec_encode_session_items(ss) + "]"@,
    }) + (match error {
        None => Seq::<char>::empty(),
        Some(e) => ",\"error\":\""@ + spec_escape(e) + "\""@,
    }) + "}"@
}

/// One more session name extends the comma-separated items at their end.
proof fn lemma_session_items_push(sessions: Seq<Seq<char>>, x: Seq<char>)
    ensures
        spec_encode_session_items(sessions.push(x)) == if sessions.len() == 0 {
            "\""@ + spec_escape(x) + "\""@
        } else {
            spec_encode_session_items(sessions) + ","@ + "\""@ + spec_escape(x) + "\""@
        },
    decreases sessions.len(),
{
    if sessions.len() == 0 {
        assert(sessions.push(x)[0] == x);
        assert(sessions.push(x).len() == 1);
    } else {
        assert(sessions.push(x)[0] == sessions[0]);
        assert(sessions.push(x).drop_first() =~= sessions.drop_first().push(x));
        lemma_session_items_push(sessions.drop_first(), x);
        if sessions.len() == 1 {
            assert(spec_encode_session_items(sessions.push(x)) =~= spec_encode_session_items(
                sessions,
            ) + ","@ + "\""@ + spec_escape(x) + "\""@);
        } else {
            assert(spec_encode_session_items(sessions.push(x)) =~= spec_encode_session_items(
                sessions,
            ) + ","@ + "\""@ + spec_escape(x) + "\""@);
        }
    }
}

/// Serialize a `send` response as its JSON text, omitting an absent error.
pub fn encode_send_response(resp: &SendResponse) -> (out: String)
    ensures
        out@ == spec_encode_send_response(
            resp.ok,
            match resp.error {
                Some(e) => Some(e@),
                None => None,
            },
        ),
{
    let mut out = String::new();
    out.append("{\"ok\":");
    if resp.ok {
        out.append("true");
    } else {
        out.append("false");
    }
    match &resp.error {
        None => {},
        Some(e) => {
            out.append(",\"error\":\"");
            append_escaped(&mut out, e.as_str());
            out.append("\"");
        },
    }
    out.append("}");
    assert(out@ =~= spec_encode_send_response(
        resp.ok,
        match resp.error {
            Some(e) => Some(e@),
            None => None,
        },
    ));
    out
}

/// Serialize a `list-sessions` response as its JSON text, omitting every
/// absent field.
pub fn encode_list_sessions_response(resp: &ListSessionsResponse) -> (out: String)
    ensures
        out@ == spec_encode_list_sessions_response(
            resp.ok,
            match resp.sessions {
                Some(ss) => Some(ss.deep_view()),
                None => None,
            },
            match resp.error {
                Some(e) => Some(e@),
                None => None,
            },
        ),
{
    let mut out = String::new();
    out.append("{\"ok\":");
    if resp.ok {
        out.append("true");
    } else {
        out.append("false");
    }
    let ghost after_ok = out@;
    match &resp.sessions {
        None => {},
        Some(ss) => {
            out.append(",\"sessions\":[");
            let ghost opened = out@;
            let mut i: usize = 0;
            while i < ss.len()
                invariant
                    i <= ss.len(),
                    out@ == opened + spec_encode_session_items(ss.deep_view().take(i as int)),
                decreases ss.len() - i,
            {
                if i > 0 {
                    out.append(",");
                }
                out.append("\"");
                append_escaped(&mut out, ss[i].as_str());
                out.append("\"");
                proof {
                    assert(ss.deep_view().take(i + 1) =~= ss.deep_view().take(i as int).push(
                        ss@[i as int]@,
                    ));
                    lemma_session_items_push(ss.deep_view().take(i as int), ss@[i as int]@);
                    assert(out@ =~= opened + spec_encode_session_items(
                        ss.deep_view().take(i + 1),
                    ));
                }
                i = i + 1;
            }
            out.append("]");
            proof {
                assert(ss.deep_view().take(ss@.len() as int) =~= ss.deep_view());
            }
        },
    }
    match &resp.error {
        None => {},
        Some(e) => {
            out.append(",\"error\":\"");
            append_escaped(&mut out, e.as_str());
            out.append("\"");
        },
    }
    out.append("}");
    assert(out@ =~= spec_encode_list_sessions_response(
        resp.ok,
        match resp.sessions {
            Some(ss) => Some(ss.deep_view()),
            None => None,
        },
        match resp.error {
            Some(e) => Some(e@),
            None => None,
        },
    ));
    out
}

} // verus!
