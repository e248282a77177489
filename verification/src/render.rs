//! Rendering structured responses to their exact JSON text: decimal
//! numbers, escaped JSON strings, request identifiers, and the two response
//! shapes of the wire protocol.

use vstd::prelude::*;
use crate::rpc::RequestId;
use crate::rpc::RequestIdView;
use crate::rpc::RpcResponse;
use crate::rpc::RpcResponseView;

verus! {

/// The decimal digit character for `d` in 0..=9.
pub open spec fn spec_dec_digit(d: int) -> char {
    if d == 0 {
        '0'
    } else if d == 1 {
        '1'
    } else if d == 2 {
        '2'
    } else if d == 3 {
        '3'
    } else if d == 4 {
        '4'
    } else if d == 5 {
        '5'
    } else if d == 6 {
        '6'
    } else if d == 7 {
        '7'
    } else if d == 8 {
        '8'
    } else {
        '9'
    }
}

/// The decimal text of a non-negative number, no leading zeros.
pub open spec fn spec_dec(n: int) -> Seq<char>
    recommends
        0 <= n,
    decreases n,
{
    if n < 10 {
        seq![spec_dec_digit(n)]
    } else {
        spec_dec(n / 10).push(spec_dec_digit(n % 10))
    }
}

/// The decimal text of a possibly negative number.
pub open spec fn spec_dec_signed(n: int) -> Seq<char> {
    if n < 0 {
        seq!['-'] + spec_dec(-n)
    } else {
        spec_dec(n)
    }
}

fn dec_digit_str(d: u64) -> (r: &'static str)
    requires
        d < 10,
    ensures
        r@ == seq![spec_dec_digit(d as int)],
{
    proof {
        reveal_strlit("0");
        reveal_strlit("1");
        reveal_strlit("2");
        reveal_strlit("3");
        reveal_strlit("4");
        reveal_strlit("5");
        reveal_strlit("6");
        reveal_strlit("7");
        reveal_strlit("8");
        reveal_strlit("9");
    }
    let r = match d {
        0 => "0",
        1 => "1",
        2 => "2",
        3 => "3",
        4 => "4",
        5 => "5",
        6 => "6",
        7 => "7",
        8 => "8",
        _ => "9",
    };
    proof {
        assert(r@ =~= seq![spec_dec_digit(d as int)]);
    }
    r
}

/// The decimal text of `n`.
pub fn render_u64(n: u64) -> (r: String)
    ensures
        r@ == spec_dec(n as int),
    decreases n,
{
    if n < 10 {
        String::from_str(dec_digit_str(n))
    } else {
        let mut s = render_u64(n / 10);
        s.append(dec_digit_str(n % 10));
        proof {
            assert(s@ =~= spec_dec(n as int));
        }
        s
    }
}

/// The decimal text of `n`, with a leading minus sign when negative.
pub fn render_i64(n: i64) -> (r: String)
    ensures
        r@ == spec_dec_signed(n as int),
{
    if n >= 0 {
        render_u64(n as u64)
    } else {
        let magnitude: u64 = if n == i64::MIN {
            9223372036854775808
        } else {
            (-n) as u64
        };
        let mut s = String::from_str("-");
        proof {
            reveal_strlit("-");
            assert("-"@ =~= seq!['-']);
        }
        s.append(render_u64(magnitude).as_str());
        proof {
            assert(s@ =~= spec_dec_signed(n as int));
        }
        s
    }
}

/// The hexadecimal digit character for `d` in 0..=15, lower case.
pub open spec fn spec_hex_digit(d: int) -> char {
    if d < 10 {
        spec_dec_digit(d)
    } else if d == 10 {
        'a'
    } else if d == 11 {
        'b'
    } else if d == 12 {
        'c'
    } else if d == 13 {
        'd'
    } else if d == 14 {
        'e'
    } else {
        'f'
    }
}

fn hex_digit_str(d: u32) -> (r: &'static str)
    requires
        d < 16,
    ensures
        r@ == seq![spec_hex_digit(d as int)],
{
    if d < 10 {
        dec_digit_str(d as u64)
    } else {
        proof {
            reveal_strlit("a");
            reveal_strlit("b");
            reveal_strlit("c");
            reveal_strlit("d");
            reveal_strlit("e");
            reveal_strlit("f");
        }
        let r = match d {
            10 => "a",
            11 => "b",
            12 => "c",
            13 => "d",
            14 => "e",
            _ => "f",
        };
        proof {
            assert(r@ =~= seq![spec_hex_digit(d as int)]);
        }
        r
    }
}

/// How one character appears inside a JSON string literal: quote and
/// backslash are escaped, control characters take the `\u00XX` form, and
/// everything else stands as itself.
pub open spec fn spec_escape_char(c: char) -> Seq<char> {
    if c == '"' {
        seq!['\\', '"']
    } else if c == '\\' {
        seq!['\\', '\\']
    } else if (c as u32) < 32 {
        seq!['\\', 'u', '0', '0', spec_hex_digit(c as int / 16), spec_hex_digit(c as int % 16)]
    } else {
        seq![c]
    }
}

/// The body of a JSON string literal holding the characters of `s`.
pub open spec fn spec_escape(s: Seq<char>) -> Seq<char>
    decreases s.len(),
{
    if s.len() == 0 {
        Seq::empty()
    } else {
        spec_escape_char(s[0]) + spec_escape(s.drop_first())
    }
}

proof fn lemma_escape_snoc(s: Seq<char>, c: char)
    ensures
        spec_escape(s.push(c)) == spec_escape(s) + spec_escape_char(c),
    decreases s.len(),
{
    if s.len() == 0 {
        assert(s.push(c).drop_first() =~= s);
        assert(spec_escape(s.push(c)) =~= spec_escape(s) + spec_escape_char(c));
    } else {
        assert(s.push(c).drop_first() =~= s.drop_first().push(c));
        lemma_escape_snoc(s.drop_first(), c);
        assert(spec_escape(s.push(c)) =~= spec_escape(s) + spec_escape_char(c));
    }
}

/// Escape `s` for inclusion in a JSON string literal.
#[verifier::loop_isolation(false)]
pub fn escape_json(s: &String) -> (r: String)
    ensures
        r@ == spec_escape(s@),
{
    let text = s.as_str();
    let n = text.unicode_len();
    let mut out = String::new();
    let mut i: usize = 0;
    while i < n
        invariant
            i <= n,
            n == text@.len(),
            out@ == spec_escape(text@.subrange(0, i as int)),
        decreases n - i,
    {
        let ghost prefix = text@.subrange(0, i as int);
        let c = text.get_char(i);
        if c == '"' {
            proof {
                reveal_strlit("\\\"");
            }
            out.append("\\\"");
            proof {
                assert("\\\""@ =~= spec_escape_char(c));
            }
        } else if c == '\\' {
            proof {
                reveal_strlit("\\\\");
            }
            out.append("\\\\");
            proof {
                assert("\\\\"@ =~= spec_escape_char(c));
            }
        } else if (c as u32) < 32 {
            let code = c as u32;
            proof {
                reveal_strlit("\\u00");
            }
            out.append("\\u00");
            out.append(hex_digit_str(code / 16));
            out.append(hex_digit_str(code % 16));
            proof {
                assert(out@ =~= spec_escape(prefix) + spec_escape_char(c));
            }
        } else {
            let piece = text.substring_char(i, i + 1);
            out.append(piece);
            proof {
                assert(piece@ =~= spec_escape_char(c));
            }
        }
        proof {
            lemma_escape_snoc(prefix, c);
            assert(text@.subrange(0, i + 1) =~= prefix.push(c));
            assert(out@ =~= spec_escape(text@.subrange(0, i + 1)));
        }
        i = i + 1;
    }
    proof {
        assert(text@.subrange(0, n as int) =~= text@);
    }
    out
}

/// The JSON text of a request identifier: the number, the quoted escaped
/// string, or `null`.
pub open spec fn spec_render_id(id: RequestIdView) -> Seq<char> {
    match id {
        RequestIdView::Num(n) => spec_dec(n as int),
        RequestIdView::Text(t) => seq!['"'] + spec_escape(t) + seq!['"'],
        RequestIdView::Null => "null"@,
    }
}

/// Render a request identifier as JSON text.
pub fn render_id(id: &RequestId) -> (r: String)
    ensures
        r@ == spec_render_id(id@),
{
    match id {
        RequestId::Num(n) => render_u64(*n),
        RequestId::Text(t) => {
            proof {
                reveal_strlit("\"");
            }
            let mut s = String::from_str("\"");
            s.append(escape_json(t).as_str());
            s.append("\"");
            proof {
                assert("\""@ =~= seq!['"']);
                assert(s@ =~= spec_render_id(id@));
            }
            s
        },
        RequestId::Null => String::from_str("null"),
    }
}

/// The exact wire text of a response: on success
/// `{"jsonrpc":"2.0","result":"…","id":…}`, on failure
/// `{"jsonrpc":"2.0","error":{"code":…,"message":"…"},"id":…}`.
pub open spec fn spec_render_response(r: RpcResponseView) -> Seq<char> {
    match r {
        RpcResponseView::Success { result, id } => "{\"jsonrpc\":\"2.0\",\"result\":\""@
            + spec_escape(result) + "\",\"id\":"@ + spec_render_id(id) + "}"@,
        RpcResponseView::Failure { code, message, id } => "{\"jsonrpc\":\"2.0\",\"error\":{\"code\":"@
            + spec_dec_signed(code as int) + ",\"message\":\""@ + spec_escape(message)
            + "\"},\"id\":"@ + spec_render_id(id) + "}"@,
    }
}

/// Render a response as its exact wire text.
pub fn render_response(resp: &RpcResponse) -> (r: String)
    ensures
        r@ == spec_render_response(resp@),
{
    match resp {
        RpcResponse::Success { result, id } => {
            let mut s = String::from_str("{\"jsonrpc\":\"2.0\",\"result\":\"");
            s.append(escape_json(result).as_str());
            s.append("\",\"id\":");
            s.append(render_id(id).as_str());
            s.append("}");
            proof {
                assert(s@ =~= spec_render_response(resp@));
            }
            s
        },
        RpcResponse::Failure { code, message, id } => {
            let mut s = String::from_str("{\"jsonrpc\":\"2.0\",\"error\":{\"code\":");
            s.append(render_i64(*code).as_str());
            s.append(",\"message\":\"");
            s.append(escape_json(message).as_str());
            s.append("\"},\"id\":");
            s.append(render_id(id).as_str());
            s.append("}");
            proof {
                assert(s@ =~= spec_render_response(resp@));
            }
            s
        },
    }
}

} // verus!
