//! Escaping of text for TeX documents.
//!
//! Every character that has a meaning of its own in TeX source is replaced by a sequence that
//! typesets it literally; all other characters pass through unchanged.
use vstd::prelude::*;
use vstd::utf8::*;

verus! {

/// True for the characters that have a meaning of their own in TeX source.
pub open spec fn is_special(c: char) -> bool {
    ||| c == '&'
    ||| c == '%'
    ||| c == '$'
    ||| c == '#'
    ||| c == '_'
    ||| c == '{'
    ||| c == '}'
    ||| c == '~'
    ||| c == '^'
    ||| c == '\\'
    ||| c == '<'
    ||| c == '>'
    ||| c == '|'
    ||| c == '"'
    ||| c == '['
    ||| c == ']'
}

/// The TeX source that typesets the character `c` literally.
pub open spec fn escape_char(c: char) -> Seq<char> {
    if c == '&' {
        "\\&"@
    } else if c == '%' {
        "\\%"@
    } else if c == '$' {
        "\\$"@
    } else if c == '#' {
        "\\#"@
    } else if c == '_' {
        "\\_"@
    } else if c == '{' {
        "\\{"@
    } else if c == '}' {
        "\\}"@
    } else if c == '~' {
        "\\textasciitilde{}"@
    } else if c == '^' {
        "\\textasciicircum{}"@
    } else if c == '\\' {
        "\\textbackslash{}"@
    } else if c == '<' {
        "\\textless{}"@
    } else if c == '>' {
        "\\textgreater{}"@
    } else if c == '|' {
        "\\textbar{}"@
    } else if c == '"' {
        "\\textquotedbl{}"@
    } else if c == '[' {
        "{[}"@
    } else if c == ']' {
        "{]}"@
    } else {
        seq![c]
    }
}

/// The escaped form of a whole text: each character replaced by its escape, left to right.
pub open spec fn escape_text(s: Seq<char>) -> Seq<char>
    decreases s.len(),
{
    if s.len() == 0 {
        Seq::empty()
    } else {
        escape_text(s.drop_last()) + escape_char(s.last())
    }
}

/// The bytes that `write_escaped` appends for the text `s`.
pub open spec fn escaped_bytes(s: Seq<char>) -> Seq<u8> {
    encode_utf8(escape_text(s))
}

/// UTF-8 encoding distributes over concatenation.
pub proof fn lemma_encode_utf8_concat(a: Seq<char>, b: Seq<char>)
    ensures
        encode_utf8(a + b) == encode_utf8(a) + encode_utf8(b),
    decreases a.len(),
{
    if a.len() == 0 {
        assert(a + b =~= b);
        assert(encode_utf8(a) =~= Seq::empty());
        assert(encode_utf8(a) + encode_utf8(b) =~= encode_utf8(b));
    } else {
        assert((a + b).drop_first() =~= a.drop_first() + b);
        lemma_encode_utf8_concat(a.drop_first(), b);
        assert(encode_utf8(a + b) =~= encode_utf8(a) + encode_utf8(b));
    }
}

/// The character whose escape sequence `t` may start with, judged by the characters that tell
/// the sequences apart; `None` where `t` starts with no escape sequence.
pub open spec fn escape_candidate(t: Seq<char>) -> Option<char> {
    if t.len() >= 2 && t[0] == '\\' {
        let c = t[1];
        if c == '&' || c == '%' || c == '$' || c == '#' || c == '_' || c == '{' || c == '}' {
            Some(c)
        } else if c == 't' && t.len() > 10 && t[5] == 'a' {
            if t[10] == 't' {
                Some('~')
            } else {
                Some('^')
            }
        } else if c == 't' && t.len() > 7 && t[5] == 'b' {
            if t[7] == 'c' {
                Some('\\')
            } else {
                Some('|')
            }
        } else if c == 't' && t.len() > 5 && t[5] == 'l' {
            Some('<')
        } else if c == 't' && t.len() > 5 && t[5] == 'g' {
            Some('>')
        } else if c == 't' && t.len() > 5 && t[5] == 'q' {
            Some('"')
        } else {
            None
        }
    } else if t.len() >= 2 && t[0] == '{' && (t[1] == '[' || t[1] == ']') {
        Some(t[1])
    } else {
        None
    }
}

/// Reads one unit of escaped text from the start of `t`: a character that is not special stands
/// for itself, and a complete escape sequence stands for the character it escapes. Gives the
/// character read and the length of the unit, or `None` where `t` starts with a special character
/// that begins no escape sequence.
pub open spec fn read_unit(t: Seq<char>) -> Option<(char, nat)> {
    if t.len() == 0 {
        None
    } else if !is_special(t[0]) {
        Some((t[0], 1))
    } else {
        match escape_candidate(t) {
            Some(c) => {
                let e = escape_char(c);
                if is_special(c) && e.len() <= t.len() && t.subrange(0, e.len() as int) == e {
                    Some((c, e.len()))
                } else {
                    None
                }
            },
            None => None,
        }
    }
}

/// Reads escaped text back, unit by unit; `None` where some special character stands outside
/// every escape sequence.
pub open spec fn unescape(t: Seq<char>) -> Option<Seq<char>>
    decreases t.len(),
{
    if t.len() == 0 {
        Some(Seq::empty())
    } else {
        match read_unit(t) {
            Some((c, n)) => if 1 <= n <= t.len() {
                match unescape(t.subrange(n as int, t.len() as int)) {
                    Some(rest) => Some(seq![c] + rest),
                    None => None,
                }
            } else {
                None
            },
            None => None,
        }
    }
}

/// Escaping distributes over concatenation.
pub proof fn lemma_escape_text_concat(a: Seq<char>, b: Seq<char>)
    ensures
        escape_text(a + b) == escape_text(a) + escape_text(b),
    decreases b.len(),
{
    if b.len() == 0 {
        assert(a + b =~= a);
        assert(escape_text(a) + escape_text(b) =~= escape_text(a));
    } else {
        assert((a + b).drop_last() =~= a + b.drop_last());
        assert((a + b).last() == b.last());
        lemma_escape_text_concat(a, b.drop_last());
        assert(escape_text(a + b) =~= escape_text(a) + escape_text(b));
    }
}

/// The escape of any character, followed by anything, reads back as that character.
proof fn lemma_read_unit_escape(c: char, rest: Seq<char>)
    ensures
        escape_char(c).len() >= 1,
        read_unit(escape_char(c) + rest) == Some((c, escape_char(c).len())),
{
    let e = escape_char(c);
    let t = e + rest;
    if c == '&' {
        reveal_strlit("\\&");
    } else if c == '%' {
        reveal_strlit("\\%");
    } else if c == '$' {
        reveal_strlit("\\$");
    } else if c == '#' {
        reveal_strlit("\\#");
    } else if c == '_' {
        reveal_strlit("\\_");
    } else if c == '{' {
        reveal_strlit("\\{");
    } else if c == '}' {
        reveal_strlit("\\}");
    } else if c == '~' {
        reveal_strlit("\\textasciitilde{}");
    } else if c == '^' {
        reveal_strlit("\\textasciicircum{}");
    } else if c == '\\' {
        reveal_strlit("\\textbackslash{}");
    } else if c == '<' {
        reveal_strlit("\\textless{}");
    } else if c == '>' {
        reveal_strlit("\\textgreater{}");
    } else if c == '|' {
        reveal_strlit("\\textbar{}");
    } else if c == '"' {
        reveal_strlit("\\textquotedbl{}");
    } else if c == '[' {
        reveal_strlit("{[}");
    } else if c == ']' {
        reveal_strlit("{]}");
    }
    assert(t.subrange(0, e.len() as int) =~= e);
}

/// Escaped text holds no special character outside an escape sequence, and reads back as the
/// original text, as characters and as the bytes that `write_escaped` writes.
pub proof fn lemma_unescape_escape(s: Seq<char>)
    ensures
        unescape(escape_text(s)) == Some(s),
        unescape(decode_utf8(escaped_bytes(s))) == Some(s),
    decreases s.len(),
{
    encode_utf8_decode_utf8(escape_text(s));
    if s.len() > 0 {
        let c = s[0];
        let tail = s.drop_first();
        assert(s =~= seq![c] + tail);
        lemma_escape_text_concat(seq![c], tail);
        assert(seq![c].drop_last() =~= Seq::<char>::empty());
        assert(escape_text(Seq::<char>::empty()) =~= Seq::<char>::empty());
        assert(escape_text(seq![c]) =~= escape_char(c));
        let e = escape_char(c);
        let t = escape_text(s);
        lemma_read_unit_escape(c, escape_text(tail));
        assert(t.subrange(e.len() as int, t.len() as int) =~= escape_text(tail));
        lemma_unescape_escape(tail);
        assert(seq![c] + tail =~= s);
    } else {
        assert(escape_text(s) =~= Seq::<char>::empty());
    }
}

/// Text without special characters is left as it is.
pub proof fn lemma_plain_text_unchanged(s: Seq<char>)
    requires
        forall|i: int| 0 <= i < s.len() ==> !is_special(#[trigger] s[i]),
    ensures
        escape_text(s) == s,
    decreases s.len(),
{
    if s.len() > 0 {
        lemma_plain_text_unchanged(s.drop_last());
        assert(escape_text(s) =~= s);
    }
}

/// The replacement of a special character, or `None` for a character that passes through.
fn replacement(c: char) -> (r: Option<&'static str>)
    ensures
        r is Some <==> is_special(c),
        r matches Some(t) ==> t@ == escape_char(c),
{
    match c {
        '&' => Some("\\&"),
        '%' => Some("\\%"),
        '$' => Some("\\$"),
        '#' => Some("\\#"),
        '_' => Some("\\_"),
        '{' => Some("\\{"),
        '}' => Some("\\}"),
        '~' => Some("\\textasciitilde{}"),
        '^' => Some("\\textasciicircum{}"),
        '\\' => Some("\\textbackslash{}"),
        '<' => Some("\\textless{}"),
        '>' => Some("\\textgreater{}"),
        '|' => Some("\\textbar{}"),
        '"' => Some("\\textquotedbl{}"),
        '[' => Some("{[}"),
        ']' => Some("{]}"),
        _ => None,
    }
}

/// Appends the UTF-8 encoding of `c`.
fn push_utf8(out: &mut Vec<u8>, c: char)
    ensures
        final(out)@ == old(out)@ + encode_scalar(c as u32),
{
    proof {
        char_is_scalar(c);
    }
    let v = c as u32;
    if v <= 0x7F {
        out.push((v & 0x7F) as u8);
    } else if v <= 0x7FF {
        out.push(0xC0 | ((v >> 6) & 0x1F) as u8);
        out.push(0x80 | (v & 0x3F) as u8);
    } else if v <= 0xFFFF {
        out.push(0xE0 | ((v >> 12) & 0x0F) as u8);
        out.push(0x80 | ((v >> 6) & 0x3F) as u8);
        out.push(0x80 | (v & 0x3F) as u8);
    } else {
        out.push(0xF0 | ((v >> 18) & 0x7) as u8);
        out.push(0x80 | ((v >> 12) & 0x3F) as u8);
        out.push(0x80 | ((v >> 6) & 0x3F) as u8);
        out.push(0x80 | (v & 0x3F) as u8);
    }
    assert(final(out)@ =~= old(out)@ + encode_scalar(c as u32));
}

/// Escapes a string for use in a TeX document and appends it to `out`.
pub fn write_escaped(out: &mut Vec<u8>, string: &str)
    ensures
        final(out)@ == old(out)@ + escaped_bytes(string@),
{
    let ghost start = out@;
    proof {
        assert(string@.take(string@.len() as int) =~= string@);
    }
    for c in it: string.chars()
        invariant
            it.seq() == string@,
            string@.take(string@.len() as int) == string@,
            out@ == start + escaped_bytes(it.seq().take(it.index() as int)),
    {
        let ghost done = it.seq().take(it.index() as int);
        let ghost next = it.seq().take(it.index() + 1);
        proof {
            assert(next.drop_last() =~= done);
        }
        match replacement(c) {
            Some(t) => {
                out.extend_from_slice(t.as_bytes());
            },
            None => {
                push_utf8(out, c);
                proof {
                    let one = seq![c];
                    assert(one.drop_first() =~= Seq::<char>::empty());
                    assert(encode_utf8(one.drop_first()) =~= Seq::<u8>::empty());
                    assert(encode_utf8(one) =~= encode_scalar(c as u32));
                }
            },
        }
        proof {
            lemma_encode_utf8_concat(escape_text(done), escape_char(c));
        }
    }
}

} // verus!
