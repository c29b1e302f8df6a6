//! The JSON text layer: how strings are escaped, how a generic JSON
//! value renders as compact text, and the proof that the escaping is
//! lossless.

use vstd::prelude::*;
use vstd::string::StrSliceExecFns;

verus! {

/// The lowercase hexadecimal digit for `n`.
pub open spec fn hex_char(n: int) -> char {
    if n == 0 { '0' }
    else if n == 1 { '1' }
    else if n == 2 { '2' }
    else if n == 3 { '3' }
    else if n == 4 { '4' }
    else if n == 5 { '5' }
    else if n == 6 { '6' }
    else if n == 7 { '7' }
    else if n == 8 { '8' }
    else if n == 9 { '9' }
    else if n == 10 { 'a' }
    else if n == 11 { 'b' }
    else if n == 12 { 'c' }
    else if n == 13 { 'd' }
    else if n == 14 { 'e' }
    else { 'f' }
}

/// How one character appears inside a JSON string: quote and backslash
/// get a backslash escape, the five named control characters their short
/// forms, every other control character a `\u00xy` escape with lowercase
/// hex digits, and everything else stands as itself.
pub open spec fn escape_char(c: char) -> Seq<char> {
    if c == '"' { seq!['\\', '"'] }
    else if c == '\\' { seq!['\\', '\\'] }
    else if c == '\u{0008}' { seq!['\\', 'b'] }
    else if c == '\t' { seq!['\\', 't'] }
    else if c == '\n' { seq!['\\', 'n'] }
    else if c == '\u{000c}' { seq!['\\', 'f'] }
    else if c == '\r' { seq!['\\', 'r'] }
    else if (c as u32) < 0x20 {
        seq!['\\', 'u', '0', '0', hex_char((c as u32) as int / 16), hex_char((c as u32) as int % 16)]
    } else {
        seq![c]
    }
}

/// A whole string with every character escaped.
pub open spec fn escaped(s: Seq<char>) -> Seq<char>
    decreases s.len(),
{
    if s.len() == 0 {
        Seq::empty()
    } else {
        escape_char(s[0]) + escaped(s.drop_first())
    }
}

/// A JSON string literal: the escaped text between quotes.
pub open spec fn quoted(s: Seq<char>) -> Seq<char> {
    seq!['"'] + escaped(s) + seq!['"']
}

/// A generic JSON value, as far as the manifest's shape needs one.
pub enum JsonValue {
    Str(Seq<char>),
    Arr(Seq<JsonValue>),
    Obj(Seq<(Seq<char>, JsonValue)>),
}

/// The compact rendering of a generic JSON value: strings quoted and
/// escaped, arrays and objects without any whitespace.
pub open spec fn render_json(v: JsonValue) -> Seq<char>
    decreases v,
{
    match v {
        JsonValue::Str(s) => quoted(s),
        JsonValue::Arr(es) => seq!['['] + render_items(es, es.len() as int) + seq![']'],
        JsonValue::Obj(fs) => seq!['{'] + render_fields(fs, fs.len() as int) + seq!['}'],
    }
}

/// The first `n` array items, comma-separated.
pub open spec fn render_items(es: Seq<JsonValue>, n: int) -> Seq<char>
    decreases es, n,
{
    if n <= 0 || n > es.len() {
        Seq::empty()
    } else if n == 1 {
        render_json(es[0])
    } else {
        render_items(es, n - 1) + seq![','] + render_json(es[n - 1])
    }
}

/// The first `n` object fields, comma-separated, each a quoted name, a
/// colon and the field's value.
pub open spec fn render_fields(fs: Seq<(Seq<char>, JsonValue)>, n: int) -> Seq<char>
    decreases fs, n,
{
    if n <= 0 || n > fs.len() {
        Seq::empty()
    } else if n == 1 {
        quoted(fs[0].0) + seq![':'] + render_json(fs[0].1)
    } else {
        render_fields(fs, n - 1) + seq![','] + quoted(fs[n - 1].0) + seq![':'] + render_json(
            fs[n - 1].1,
        )
    }
}

/// A character that stands for itself inside a JSON string.
pub open spec fn plain_char(c: char) -> bool {
    c != '"' && c != '\\' && (c as u32) >= 0x20
}

/// A string of plain characters is its own escape.
pub(crate) proof fn lemma_escaped_plain(s: Seq<char>)
    requires
        forall|i: int| 0 <= i < s.len() ==> plain_char(s[i]),
    ensures
        escaped(s) == s,
    decreases s.len(),
{
    if s.len() > 0 {
        assert(escape_char(s[0]) == seq![s[0]]);
        lemma_escaped_plain(s.drop_first());
        assert(seq![s[0]] + s.drop_first() =~= s);
    }
}

/// The value of a lowercase hexadecimal digit, or a negative number for
/// any other character.
pub open spec fn unhex(c: char) -> int {
    if c == '0' { 0 }
    else if c == '1' { 1 }
    else if c == '2' { 2 }
    else if c == '3' { 3 }
    else if c == '4' { 4 }
    else if c == '5' { 5 }
    else if c == '6' { 6 }
    else if c == '7' { 7 }
    else if c == '8' { 8 }
    else if c == '9' { 9 }
    else if c == 'a' { 10 }
    else if c == 'b' { 11 }
    else if c == 'c' { 12 }
    else if c == 'd' { 13 }
    else if c == 'e' { 14 }
    else if c == 'f' { 15 }
    else { -1 }
}

/// The character a named escape stands for, if the character after the
/// backslash names one.
pub open spec fn unescape_named(c: char) -> Option<char> {
    if c == '"' { Some('"') }
    else if c == '\\' { Some('\\') }
    else if c == 'b' { Some('\u{0008}') }
    else if c == 't' { Some('\t') }
    else if c == 'n' { Some('\n') }
    else if c == 'f' { Some('\u{000c}') }
    else if c == 'r' { Some('\r') }
    else { None }
}

/// Decodes a JSON-escaped text back to the string it stands for, reading
/// exactly the escapes [`escape_char`] emits, or `None` where the text is
/// not such an escape.
pub open spec fn unescaped(s: Seq<char>) -> Option<Seq<char>>
    decreases s.len(),
{
    if s.len() == 0 {
        Some(Seq::empty())
    } else if s[0] == '\\' {
        if s.len() < 2 {
            None
        } else if s[1] == 'u' {
            if s.len() < 6 {
                None
            } else if s[2] == '0' && s[3] == '0' && unhex(s[4]) >= 0 && unhex(s[5]) >= 0 {
                match unescaped(s.skip(6)) {
                    Some(t) => Some(seq![((16 * unhex(s[4]) + unhex(s[5])) as u8) as char] + t),
                    None => None,
                }
            } else {
                None
            }
        } else {
            match unescape_named(s[1]) {
                Some(c) => match unescaped(s.skip(2)) {
                    Some(t) => Some(seq![c] + t),
                    None => None,
                },
                None => None,
            }
        }
    } else {
        match unescaped(s.drop_first()) {
            Some(t) => Some(seq![s[0]] + t),
            None => None,
        }
    }
}

/// A control character survives the trip through its code point.
proof fn lemma_char_cast_round(c: char)
    requires
        (c as u32) < 0x20,
    ensures
        (((c as u32) as u8) as char) == c,
{
}

/// Decoding a hexadecimal digit gives back the value it was made from.
proof fn lemma_unhex_hex(n: int)
    requires
        0 <= n < 16,
    ensures
        unhex(hex_char(n)) == n,
{
}

/// Round trip: the escaping the renderer applies to every string field
/// is lossless — decoding the escaped text yields exactly the original
/// string, whatever characters it holds.
pub proof fn lemma_escape_round_trip(s: Seq<char>)
    ensures
        unescaped(escaped(s)) == Some(s),
    decreases s.len(),
{
    if s.len() == 0 {
    } else {
        let c = s[0];
        let rest = s.drop_first();
        lemma_escape_round_trip(rest);
        let e = escaped(s);
        assert(e == escape_char(c) + escaped(rest));
        assert(seq![c] + rest =~= s);
        if c == '"' || c == '\\' || c == '\u{0008}' || c == '\t' || c == '\n' || c == '\u{000c}'
            || c == '\r' {
            assert(e.len() == 2 + escaped(rest).len());
            assert(e[0] == '\\');
            assert(e[1] != 'u');
            assert(unescape_named(e[1]) == Some(c));
            assert(e.skip(2) =~= escaped(rest));
        } else if (c as u32) < 0x20 {
            let code = (c as u32) as int;
            assert(e.len() == 6 + escaped(rest).len());
            assert(e[0] == '\\');
            assert(e[1] == 'u');
            assert(e[2] == '0');
            assert(e[3] == '0');
            assert(e[4] == hex_char(code / 16));
            assert(e[5] == hex_char(code % 16));
            lemma_unhex_hex(code / 16);
            lemma_unhex_hex(code % 16);
            assert(e.skip(6) =~= escaped(rest));
            assert(16 * (code / 16) + code % 16 == code);
            assert(code as u8 == (c as u32) as u8);
            lemma_char_cast_round(c);
        } else {
            assert(e[0] == c);
            assert(c != '\\');
            assert(e.drop_first() =~= escaped(rest));
        }
    }
}

/// Appends the characters of `s` to `out`.
pub(crate) fn push_str_chars(out: &mut Vec<char>, s: &str)
    ensures
        final(out)@ == old(out)@ + s@,
{
    let n = s.unicode_len();
    let mut i: usize = 0;
    while i < n
        invariant
            n == s@.len(),
            i <= n,
            out@ == old(out)@ + s@.take(i as int),
        decreases n - i,
    {
        let c = s.get_char(i);
        out.push(c);
        proof {
            assert(old(out)@ + s@.take(i as int) + seq![s@[i as int]] =~= old(out)@ + s@.take(
                i + 1,
            ));
        }
        i = i + 1;
    }
    proof {
        assert(s@.take(n as int) =~= s@);
    }
}

/// The lowercase hexadecimal digit for `n`.
fn hex_char_exec(n: u32) -> (r: char)
    requires
        n < 16,
    ensures
        r == hex_char(n as int),
{
    if n == 0 { '0' }
    else if n == 1 { '1' }
    else if n == 2 { '2' }
    else if n == 3 { '3' }
    else if n == 4 { '4' }
    else if n == 5 { '5' }
    else if n == 6 { '6' }
    else if n == 7 { '7' }
    else if n == 8 { '8' }
    else if n == 9 { '9' }
    else if n == 10 { 'a' }
    else if n == 11 { 'b' }
    else if n == 12 { 'c' }
    else if n == 13 { 'd' }
    else if n == 14 { 'e' }
    else { 'f' }
}

/// Appends the escape of one character to `out`.
fn push_escaped_char(out: &mut Vec<char>, c: char)
    ensures
        final(out)@ == old(out)@ + escape_char(c),
{
    if c == '"' {
        out.push('\\');
        out.push('"');
    } else if c == '\\' {
        out.push('\\');
        out.push('\\');
    } else if c == '\u{0008}' {
        out.push('\\');
        out.push('b');
    } else if c == '\t' {
        out.push('\\');
        out.push('t');
    } else if c == '\n' {
        out.push('\\');
        out.push('n');
    } else if c == '\u{000c}' {
        out.push('\\');
        out.push('f');
    } else if c == '\r' {
        out.push('\\');
        out.push('r');
    } else if (c as u32) < 0x20 {
        let code = c as u32;
        out.push('\\');
        out.push('u');
        out.push('0');
        out.push('0');
        out.push(hex_char_exec(code / 16));
        out.push(hex_char_exec(code % 16));
    } else {
        out.push(c);
    }
    proof {
        assert(out@ =~= old(out)@ + escape_char(c));
    }
}

/// Appends a JSON string literal holding `s` to `out`.
fn push_quoted(out: &mut Vec<char>, s: &str)
    ensures
        final(out)@ == old(out)@ + quoted(s@),
{
    let n = s.unicode_len();
    out.push('"');
    let mut i: usize = 0;
    while i < n
        invariant
            n == s@.len(),
            i <= n,
            out@ == old(out)@ + seq!['"'] + escaped(s@.take(i as int)),
        decreases n - i,
    {
        let c = s.get_char(i);
        push_escaped_char(out, c);
        proof {
            lemma_escaped_push(s@.take(i as int), s@[i as int]);
            assert(s@.take(i as int).push(s@[i as int]) =~= s@.take(i + 1));
            assert(old(out)@ + seq!['"'] + escaped(s@.take(i as int)) + escape_char(s@[i as int])
                =~= old(out)@ + seq!['"'] + (escaped(s@.take(i as int)) + escape_char(
                s@[i as int],
            )));
        }
        i = i + 1;
    }
    out.push('"');
    proof {
        assert(s@.take(n as int) =~= s@);
        assert(old(out)@ + seq!['"'] + escaped(s@) + seq!['"'] =~= old(out)@ + quoted(s@));
    }
}

/// Escaping one more character on the right escapes the extended string.
pub proof fn lemma_escaped_push(s: Seq<char>, c: char)
    ensures
        escaped(s.push(c)) == escaped(s) + escape_char(c),
    decreases s.len(),
{
    let t = s.push(c);
    assert(t.len() == s.len() + 1);
    if s.len() == 0 {
        assert(t[0] == c);
        assert(t.drop_first() =~= Seq::<char>::empty());
        assert(escaped(t.drop_first()) == Seq::<char>::empty());
        assert(escaped(t) == escape_char(c) + escaped(t.drop_first()));
        assert(escaped(s) == Seq::<char>::empty());
        assert(escape_char(c) + Seq::<char>::empty() =~= escape_char(c));
        assert(Seq::<char>::empty() + escape_char(c) =~= escape_char(c));
    } else {
        assert(t[0] == s[0]);
        assert(t.drop_first() =~= s.drop_first().push(c));
        lemma_escaped_push(s.drop_first(), c);
        assert(escaped(t) == escape_char(s[0]) + escaped(t.drop_first()));
        assert(escaped(t.drop_first()) == escaped(s.drop_first()) + escape_char(c));
        assert(escaped(s) == escape_char(s[0]) + escaped(s.drop_first()));
        assert(escape_char(s[0]) + (escaped(s.drop_first()) + escape_char(c)) =~= (escape_char(s[0])
            + escaped(s.drop_first())) + escape_char(c));
    }
}

/// Appends a literal piece followed by a JSON string literal.
pub(crate) fn push_quoted_field(out: &mut Vec<char>, lead: &str, s: &str)
    ensures
        final(out)@ == old(out)@ + lead@ + quoted(s@),
{
    push_str_chars(out, lead);
    push_quoted(out, s);
}

} // verus!
