//! The JSON texts this process exchanges: quoting of embedded strings,
//! decimal rendering of status codes, header objects, and the fixed command
//! bodies of the protocol. Parsing of inbound command bodies is done by
//! serde_json behind one trusted wrapper.
use vstd::prelude::*;
use vstd::string::*;
use crate::text::push_char;

verus! {

/// The hexadecimal digit character for a value below sixteen.
pub open spec fn hex_digit(d: int) -> char {
    if d == 0 {
        '0'
    } else if d == 1 {
        '1'
    } else if d == 2 {
        '2'
    } else if d == 3 {
        '3'
    } else if d == 4 {
        '4'
    } else if d == 5 {
        '5'
    } else if d == 6 {
        '6'
    } else if d == 7 {
        '7'
    } else if d == 8 {
        '8'
    } else if d == 9 {
        '9'
    } else if d == 10 {
        'a'
    } else if d == 11 {
        'b'
    } else if d == 12 {
        'c'
    } else if d == 13 {
        'd'
    } else if d == 14 {
        'e'
    } else {
        'f'
    }
}

/// How one character appears inside a JSON string literal: quotes and
/// backslashes are escaped, control characters take the `\u00XX` form, and
/// every other character stands as itself.
pub open spec fn escape_char(c: char) -> Seq<char> {
    if c == '"' {
        seq!['\\', '"']
    } else if c == '\\' {
        seq!['\\', '\\']
    } else if (c as u32) < 32 {
        seq!['\\', 'u', '0', '0', hex_digit(c as u32 as int / 16), hex_digit(c as u32 as int % 16)]
    } else {
        seq![c]
    }
}

/// The body of a JSON string literal for the text `s`.
pub open spec fn json_escaped(s: Seq<char>) -> Seq<char>
    decreases s.len(),
{
    if s.len() == 0 {
        Seq::empty()
    } else {
        escape_char(s[0]) + json_escaped(s.skip(1))
    }
}

/// The JSON string literal for the text `s`, quotes included.
pub open spec fn json_quoted(s: Seq<char>) -> Seq<char> {
    seq!['"'] + json_escaped(s) + seq!['"']
}

/// The decimal digit character for a value below ten.
pub open spec fn dec_digit(d: int) -> char {
    if d == 0 {
        '0'
    } else if d == 1 {
        '1'
    } else if d == 2 {
        '2'
    } else if d == 3 {
        '3'
    } else if d == 4 {
        '4'
    } else if d == 5 {
        '5'
    } else if d == 6 {
        '6'
    } else if d == 7 {
        '7'
    } else if d == 8 {
        '8'
    } else {
        '9'
    }
}

/// The decimal rendering of a natural number, without leading zeros.
pub open spec fn dec_text(n: nat) -> Seq<char>
    decreases n,
{
    if n < 10 {
        seq![dec_digit(n as int)]
    } else {
        dec_text(n / 10) + seq![dec_digit(n as int % 10)]
    }
}

/// The members of a JSON object that holds one string pair per header, in
/// the order given.
pub open spec fn headers_members(hs: Seq<(String, String)>) -> Seq<char>
    decreases hs.len(),
{
    if hs.len() == 0 {
        Seq::empty()
    } else if hs.len() == 1 {
        json_quoted(hs[0].0@) + seq![':'] + json_quoted(hs[0].1@)
    } else {
        json_quoted(hs[0].0@) + seq![':'] + json_quoted(hs[0].1@) + seq![','] + headers_members(
            hs.skip(1),
        )
    }
}

/// The JSON object for a header mapping.
pub open spec fn headers_object(hs: Seq<(String, String)>) -> Seq<char> {
    seq!['{'] + headers_members(hs) + seq!['}']
}

pub fn hex_digit_char(d: u32) -> (r: char)
    requires
        d < 16,
    ensures
        r == hex_digit(d as int),
{
    if d == 0 {
        '0'
    } else if d == 1 {
        '1'
    } else if d == 2 {
        '2'
    } else if d == 3 {
        '3'
    } else if d == 4 {
        '4'
    } else if d == 5 {
        '5'
    } else if d == 6 {
        '6'
    } else if d == 7 {
        '7'
    } else if d == 8 {
        '8'
    } else if d == 9 {
        '9'
    } else if d == 10 {
        'a'
    } else if d == 11 {
        'b'
    } else if d == 12 {
        'c'
    } else if d == 13 {
        'd'
    } else if d == 14 {
        'e'
    } else {
        'f'
    }
}

pub fn dec_digit_char(d: u16) -> (r: char)
    requires
        d < 10,
    ensures
        r == dec_digit(d as int),
{
    if d == 0 {
        '0'
    } else if d == 1 {
        '1'
    } else if d == 2 {
        '2'
    } else if d == 3 {
        '3'
    } else if d == 4 {
        '4'
    } else if d == 5 {
        '5'
    } else if d == 6 {
        '6'
    } else if d == 7 {
        '7'
    } else if d == 8 {
        '8'
    } else {
        '9'
    }
}

/// Appends the JSON string literal for `s`, quotes and escapes included.
pub fn append_json_quoted(out: &mut String, s: &str)
    ensures
        final(out)@ == old(out)@ + json_quoted(s@),
{
    push_char(out, '"');
    let n = s.unicode_len();
    proof {
        assert(s@.skip(0) =~= s@);
    }
    let mut i: usize = 0;
    while i < n
        invariant
            n == s@.len(),
            i <= n,
            out@ + json_escaped(s@.skip(i as int)) == old(out)@ + seq!['"'] + json_escaped(s@),
        decreases n - i,
    {
        let c = s.get_char(i);
        proof {
            assert(s@.skip(i as int)[0] == s@[i as int]);
            assert(s@.skip(i as int).skip(1) =~= s@.skip(i as int + 1));
        }
        if c == '"' {
            push_char(out, '\\');
            push_char(out, '"');
            proof {
                assert(out@ + json_escaped(s@.skip(i as int + 1)) =~= old(out)@ + seq!['"']
                    + json_escaped(s@));
            }
        } else if c == '\\' {
            push_char(out, '\\');
            push_char(out, '\\');
            proof {
                assert(out@ + json_escaped(s@.skip(i as int + 1)) =~= old(out)@ + seq!['"']
                    + json_escaped(s@));
            }
        } else if (c as u32) < 32 {
            push_char(out, '\\');
            push_char(out, 'u');
            push_char(out, '0');
            push_char(out, '0');
            push_char(out, hex_digit_char((c as u32) / 16));
            push_char(out, hex_digit_char((c as u32) % 16));
            proof {
                assert(out@ + json_escaped(s@.skip(i as int + 1)) =~= old(out)@ + seq!['"']
                    + json_escaped(s@));
            }
        } else {
            push_char(out, c);
            proof {
                assert(out@ + json_escaped(s@.skip(i as int + 1)) =~= old(out)@ + seq!['"']
                    + json_escaped(s@));
            }
        }
        i += 1;
    }
    proof {
        assert(s@.skip(n as int) =~= Seq::<char>::empty());
    }
    push_char(out, '"');
    proof {
        assert(out@ =~= old(out)@ + json_quoted(s@));
    }
}

/// Appends the decimal rendering of `n`.
pub fn append_u16(out: &mut String, n: u16)
    ensures
        final(out)@ == old(out)@ + dec_text(n as nat),
    decreases n,
{
    if n >= 10 {
        append_u16(out, n / 10);
    }
    push_char(out, dec_digit_char(n % 10));
    proof {
        if n >= 10 {
            assert(out@ =~= old(out)@ + dec_text(n as nat));
        }
    }
}

/// Appends the JSON object for a header mapping, in the order given.
pub fn append_headers_object(out: &mut String, hs: &Vec<(String, String)>)
    ensures
        final(out)@ == old(out)@ + headers_object(hs@),
{
    push_char(out, '{');
    let n = hs.len();
    proof {
        assert(hs@.skip(0) =~= hs@);
    }
    let mut i: usize = 0;
    while i < n
        invariant
            n == hs@.len(),
            i <= n,
            out@ + headers_members(hs@.skip(i as int)) == old(out)@ + seq!['{'] + headers_members(
                hs@,
            ),
        decreases n - i,
    {
        proof {
            assert(hs@.skip(i as int)[0] == hs@[i as int]);
            assert(hs@.skip(i as int).skip(1) =~= hs@.skip(i as int + 1));
        }
        append_json_quoted(out, hs[i].0.as_str());
        push_char(out, ':');
        append_json_quoted(out, hs[i].1.as_str());
        if i + 1 < n {
            push_char(out, ',');
        }
        proof {
            assert(out@ + headers_members(hs@.skip(i as int + 1)) =~= old(out)@ + seq!['{']
                + headers_members(hs@));
        }
        i += 1;
    }
    proof {
        assert(hs@.skip(n as int) =~= Seq::<(String, String)>::empty());
    }
    push_char(out, '}');
    proof {
        assert(out@ =~= old(out)@ + headers_object(hs@));
    }
}

/// Whether a text is a well-formed JSON document, as serde_json accepts it.
pub uninterp spec fn json_parses(s: Seq<char>) -> bool;

/// The text of the `path` member of a JSON document, empty when the member
/// is absent or not a string.
pub uninterp spec fn json_path_of(s: Seq<char>) -> Seq<char>;

/// Parses a command body and reads its `path` member.
///
/// Relies on `serde_json::from_str` and `serde_json::Value::{get, as_str}`:
/// whether a text parses as a JSON document, and the text of its `path`
/// member (empty when absent or not a string), are functions of the input
/// text alone.
#[verifier::external_body]
pub(crate) fn parse_ipc_path(s: &str) -> (r: Option<String>)
    ensures
        r is Some <==> json_parses(s@),
        r matches Some(p) ==> p@ == json_path_of(s@),
{
    let v: serde_json::Value = match serde_json::from_str(s) {
        Ok(v) => v,
        Err(_) => return None,
    };
    match v.get("path") {
        Some(p) => match p.as_str() {
            Some(t) => Some(t.to_string()),
            None => Some(String::new()),
        },
        None => Some(String::new()),
    }
}

} // verus!
