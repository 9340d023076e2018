//! JSON text: how a string is written as a JSON string literal, and a reader
//! for JSON strings and flat objects that follows RFC 8259, so that what is
//! written can be read back.
use vstd::prelude::*;

verus! {

/// The lowercase hexadecimal digit of `n` (0 to 15).
pub open spec fn spec_hex_digit(n: int) -> char {
    seq!['0', '1', '2', '3', '4', '5', '6', '7', '8', '9', 'a', 'b', 'c', 'd', 'e', 'f'][n]
}

/// How one character is written inside a JSON string: `"` and `\` and the
/// control characters below U+0020 as escapes (the short forms where JSON has
/// one, `\u00XX` otherwise), every other character as it is.
pub open spec fn spec_json_escape_char(c: char) -> Seq<char> {
    if c == '"' {
        seq!['\\', '"']
    } else if c == '\\' {
        seq!['\\', '\\']
    } else if c == '\u{8}' {
        seq!['\\', 'b']
    } else if c == '\t' {
        seq!['\\', 't']
    } else if c == '\n' {
        seq!['\\', 'n']
    } else if c == '\u{c}' {
        seq!['\\', 'f']
    } else if c == '\r' {
        seq!['\\', 'r']
    } else if (c as u32) < 0x20 {
        seq![
            '\\',
            'u',
            '0',
            '0',
            spec_hex_digit((c as int) / 16),
            spec_hex_digit((c as int) % 16),
        ]
    } else {
        seq![c]
    }
}

/// The characters of `s`, each written as inside a JSON string.
pub open spec fn spec_json_escape(s: Seq<char>) -> Seq<char>
    decreases s.len(),
{
    if s.len() == 0 {
        Seq::empty()
    } else {
        spec_json_escape_char(s[0]) + spec_json_escape(s.drop_first())
    }
}

/// `s` written as a JSON string literal.
pub open spec fn spec_json_string(s: Seq<char>) -> Seq<char> {
    seq!['"'] + spec_json_escape(s) + seq!['"']
}

/// A character that JSON writes as it is inside a string.
pub open spec fn is_plain_char(c: char) -> bool {
    c != '"' && c != '\\' && (c as u32) >= 0x20
}

/// Every character of `s` is written as it is inside a JSON string.
pub open spec fn is_plain(s: Seq<char>) -> bool {
    forall|i: int| 0 <= i < s.len() ==> is_plain_char(#[trigger] s[i])
}

/// A JSON value as read back: a string or a boolean.
pub enum JsonValue {
    Str(Seq<char>),
    Bool(bool),
}

/// The value of a hexadecimal digit, or -1.
pub open spec fn spec_hex_value(c: char) -> int {
    if '0' <= c && c <= '9' {
        (c as int) - ('0' as int)
    } else if 'a' <= c && c <= 'f' {
        (c as int) - ('a' as int) + 10
    } else if 'A' <= c && c <= 'F' {
        (c as int) - ('A' as int) + 10
    } else {
        -1
    }
}

/// Reads the escape sequence at the start of `t` (which starts with `\`):
/// the character it stands for and its length.
pub open spec fn spec_read_escape(t: Seq<char>) -> Option<(char, int)> {
    if t.len() < 2 {
        None
    } else {
        let e = t[1];
        if e == '"' {
            Some(('"', 2))
        } else if e == '\\' {
            Some(('\\', 2))
        } else if e == '/' {
            Some(('/', 2))
        } else if e == 'b' {
            Some(('\u{8}', 2))
        } else if e == 'f' {
            Some(('\u{c}', 2))
        } else if e == 'n' {
            Some(('\n', 2))
        } else if e == 'r' {
            Some(('\r', 2))
        } else if e == 't' {
            Some(('\t', 2))
        } else if e == 'u' && t.len() >= 6 && spec_hex_value(t[2]) >= 0 && spec_hex_value(t[3])
            >= 0 && spec_hex_value(t[4]) >= 0 && spec_hex_value(t[5]) >= 0 {
            let v = spec_hex_value(t[2]) * 4096 + spec_hex_value(t[3]) * 256 + spec_hex_value(t[4])
                * 16 + spec_hex_value(t[5]);
            if v < 0xD800 || v >= 0xE000 {
                Some((v as char, 6))
            } else {
                None
            }
        } else {
            None
        }
    }
}

/// Reads the rest of a JSON string whose opening quote has been read: its
/// value and the number of characters up to and including the closing quote.
/// A raw control character or a bad escape is an error.
pub open spec fn spec_read_string_rest(t: Seq<char>) -> Option<(Seq<char>, int)>
    decreases t.len(),
{
    if t.len() == 0 {
        None
    } else if t[0] == '"' {
        Some((Seq::empty(), 1))
    } else if t[0] == '\\' {
        match spec_read_escape(t) {
            Some((c, k)) => if 1 <= k <= t.len() {
                match spec_read_string_rest(t.skip(k)) {
                    Some((v, n)) => Some((seq![c] + v, n + k)),
                    None => None,
                }
            } else {
                None
            },
            None => None,
        }
    } else if (t[0] as u32) < 0x20 {
        None
    } else {
        match spec_read_string_rest(t.drop_first()) {
            Some((v, n)) => Some((seq![t[0]] + v, n + 1)),
            None => None,
        }
    }
}

/// Reads the JSON string at the start of `t`: its value and its length.
pub open spec fn spec_read_json_string(t: Seq<char>) -> Option<(Seq<char>, int)> {
    if t.len() > 0 && t[0] == '"' {
        match spec_read_string_rest(t.drop_first()) {
            Some((v, n)) => Some((v, n + 1)),
            None => None,
        }
    } else {
        None
    }
}

/// Reads the JSON string or boolean at the start of `t`: its value and length.
pub open spec fn spec_read_value(t: Seq<char>) -> Option<(JsonValue, int)> {
    if t.len() > 0 && t[0] == '"' {
        match spec_read_json_string(t) {
            Some((v, n)) => Some((JsonValue::Str(v), n)),
            None => None,
        }
    } else if t.len() >= 4 && t[0] == 't' && t[1] == 'r' && t[2] == 'u' && t[3] == 'e' {
        Some((JsonValue::Bool(true), 4))
    } else if t.len() >= 5 && t[0] == 'f' && t[1] == 'a' && t[2] == 'l' && t[3] == 's' && t[4]
        == 'e' {
        Some((JsonValue::Bool(false), 5))
    } else {
        None
    }
}

/// Reads `"key":value` members separated by commas, up to the closing brace,
/// which must end the text.
pub open spec fn spec_read_members(t: Seq<char>) -> Option<Seq<(Seq<char>, JsonValue)>>
    decreases t.len(),
{
    match spec_read_json_string(t) {
        Some((k, n1)) => if 1 <= n1 <= t.len() && t.skip(n1).len() > 0 && t.skip(n1)[0] == ':' {
            let t2 = t.skip(n1).drop_first();
            match spec_read_value(t2) {
                Some((v, n2)) => if 1 <= n2 <= t2.len() {
                    let t3 = t2.skip(n2);
                    if t3 == seq!['}'] {
                        Some(seq![(k, v)])
                    } else if t3.len() > 0 && t3[0] == ',' {
                        match spec_read_members(t3.drop_first()) {
                            Some(ms) => Some(seq![(k, v)] + ms),
                            None => None,
                        }
                    } else {
                        None
                    }
                } else {
                    None
                },
                None => None,
            }
        } else {
            None
        },
        None => None,
    }
}

/// Reads a flat JSON object whose values are strings or booleans: its
/// members, in order.
pub open spec fn spec_read_json_object(t: Seq<char>) -> Option<Seq<(Seq<char>, JsonValue)>> {
    if t.len() >= 2 && t[0] == '{' {
        if t == seq!['{', '}'] {
            Some(Seq::empty())
        } else {
            spec_read_members(t.drop_first())
        }
    } else {
        None
    }
}

/// The JSON text of a value.
pub open spec fn spec_json_value_text(v: JsonValue) -> Seq<char> {
    match v {
        JsonValue::Str(s) => spec_json_string(s),
        JsonValue::Bool(b) => if b {
            seq!['t', 'r', 'u', 'e']
        } else {
            seq!['f', 'a', 'l', 's', 'e']
        },
    }
}

/// Reading the escape that JSON writes for `c` gives `c` back.
proof fn lemma_read_escape_char(c: char, rest: Seq<char>)
    requires
        !is_plain_char(c),
    ensures
        spec_read_escape(spec_json_escape_char(c) + rest) == Some(
            (c, spec_json_escape_char(c).len() as int),
        ),
{
    let t = spec_json_escape_char(c) + rest;
    if (c as u32) < 0x20 && c != '\u{8}' && c != '\t' && c != '\n' && c != '\u{c}' && c != '\r' {
        let n = c as int;
        let hi = n / 16;
        let lo = n % 16;
        assert(hi < 2);
        assert(t[2] == '0' && t[3] == '0');
        assert(t[4] == spec_hex_digit(hi));
        assert(t[5] == spec_hex_digit(lo));
        assert(spec_hex_value(spec_hex_digit(hi)) == hi);
        assert(spec_hex_value(spec_hex_digit(lo)) == lo) by {
            assert(0 <= lo < 16);
            if lo == 0 {
            } else if lo == 1 {
            } else if lo == 2 {
            } else if lo == 3 {
            } else if lo == 4 {
            } else if lo == 5 {
            } else if lo == 6 {
            } else if lo == 7 {
            } else if lo == 8 {
            } else if lo == 9 {
            } else if lo == 10 {
            } else if lo == 11 {
            } else if lo == 12 {
            } else if lo == 13 {
            } else if lo == 14 {
            } else {
            }
        }
        assert(hi * 16 + lo == n);
    }
}

/// Reading what JSON writes for `s`, then a closing quote, gives `s` back and
/// stops at that quote.
pub proof fn lemma_read_string_rest(s: Seq<char>, rest: Seq<char>)
    ensures
        spec_read_string_rest(spec_json_escape(s) + seq!['"'] + rest) == Some(
            (s, spec_json_escape(s).len() as int + 1),
        ),
    decreases s.len(),
{
    let t = spec_json_escape(s) + seq!['"'] + rest;
    if s.len() == 0 {
        assert(spec_json_escape(s) =~= Seq::<char>::empty());
        assert(t[0] == '"');
        assert(s =~= Seq::<char>::empty());
    } else {
        let c = s[0];
        let tail = s.drop_first();
        let ec = spec_json_escape_char(c);
        let after = spec_json_escape(tail) + seq!['"'] + rest;
        assert(spec_json_escape(s) == ec + spec_json_escape(tail));
        assert(t =~= ec + after);
        lemma_read_string_rest(tail, rest);
        assert(t.skip(ec.len() as int) =~= after);
        if is_plain_char(c) {
            assert(ec == seq![c]);
            assert(t[0] == c);
            assert(t.drop_first() =~= after);
        } else {
            lemma_read_escape_char(c, after);
            assert(t[0] == '\\');
        }
        assert(seq![c] + tail =~= s);
    }
}

/// Reading `s` written as a JSON string, followed by anything, gives `s` back
/// and the length of the literal.
pub proof fn lemma_read_json_string(s: Seq<char>, rest: Seq<char>)
    ensures
        spec_read_json_string(spec_json_string(s) + rest) == Some(
            (s, spec_json_string(s).len() as int),
        ),
{
    let t = spec_json_string(s) + rest;
    lemma_read_string_rest(s, rest);
    assert(t.drop_first() =~= spec_json_escape(s) + seq!['"'] + rest);
}

/// A plain string is written as it is.
pub proof fn lemma_escape_plain(s: Seq<char>)
    requires
        is_plain(s),
    ensures
        spec_json_escape(s) == s,
    decreases s.len(),
{
    if s.len() > 0 {
        let tail = s.drop_first();
        assert(is_plain(tail)) by {
            assert forall|i: int| 0 <= i < tail.len() implies is_plain_char(#[trigger] tail[i]) by {
                assert(tail[i] == s[i + 1]);
            }
        }
        lemma_escape_plain(tail);
        assert(is_plain_char(s[0]));
        assert(seq![s[0]] + tail =~= s);
    } else {
        assert(s =~= Seq::<char>::empty());
    }
}

/// Reading a value's JSON text, followed by anything, gives the value back.
pub proof fn lemma_read_value(v: JsonValue, rest: Seq<char>)
    ensures
        spec_read_value(spec_json_value_text(v) + rest) == Some(
            (v, spec_json_value_text(v).len() as int),
        ),
{
    let t = spec_json_value_text(v) + rest;
    match v {
        JsonValue::Str(s) => {
            lemma_read_json_string(s, rest);
            assert(t[0] == '"');
        },
        JsonValue::Bool(b) => {
            if b {
                assert(t[0] == 't' && t[1] == 'r' && t[2] == 'u' && t[3] == 'e');
            } else {
                assert(t[0] == 'f' && t[1] == 'a' && t[2] == 'l' && t[3] == 's' && t[4] == 'e');
            }
        },
    }
}

} // verus!
