//! JSON text as serde_json writes it for the wire messages.

use vstd::prelude::*;

verus! {

#[verifier::external_type_specification]
#[verifier::external_body]
pub struct ExJsonError(serde_json::Error);

/// A lowercase hexadecimal digit.
pub open spec fn hex_digit(n: u32) -> char {
    if n < 10 {
        (48 + n) as char
    } else {
        (87 + n) as char
    }
}

/// How serde_json writes one character inside a string literal: a quote, a
/// backslash and the control characters are escaped, every other character
/// is written as it is.
pub open spec fn escape_char(c: char) -> Seq<char> {
    if c == '"' {
        seq!['\\', '"']
    } else if c == '\\' {
        seq!['\\', '\\']
    } else if c == '\x08' {
        seq!['\\', 'b']
    } else if c == '\t' {
        seq!['\\', 't']
    } else if c == '\n' {
        seq!['\\', 'n']
    } else if c == '\x0c' {
        seq!['\\', 'f']
    } else if c == '\r' {
        seq!['\\', 'r']
    } else if (c as u32) < 0x20 {
        seq!['\\', 'u', '0', '0', hex_digit((c as u32) / 16), hex_digit((c as u32) % 16)]
    } else {
        seq![c]
    }
}

/// The characters of a string, each escaped.
pub open spec fn escape_text(s: Seq<char>) -> Seq<char>
    decreases s.len(),
{
    if s.len() == 0 {
        Seq::empty()
    } else {
        escape_text(s.drop_last()) + escape_char(s.last())
    }
}

/// The JSON string literal that serde_json writes for a string: the escaped
/// text in double quotes.
pub open spec fn json_quote(s: Seq<char>) -> Seq<char> {
    seq!['"'] + escape_text(s) + seq!['"']
}

/// Calls `serde_json::to_string` on a string slice.
///
/// Claimed: the call succeeds, and the text is the JSON string literal of `s`
/// as `json_quote` states it, following serde_json's escape table. serde_json
/// serialises a string by writing its escaped
/// bytes into a `Vec<u8>`, and the only errors on that path are write errors,
/// which writing into a vector never raises.
#[verifier::external_body]
pub(crate) fn quote(s: &str) -> (r: Result<String, serde_json::Error>)
    ensures
        r is Ok,
        r matches Ok(q) ==> q@ == json_quote(s@),
{
    serde_json::to_string(s)
}

/// `a + b + c` as a new string.
pub fn concat3(a: &str, b: &str, c: &str) -> (r: String)
    ensures
        r@ == a@ + b@ + c@,
{
    let mut r = String::from_str(a);
    r.append(b);
    r.append(c);
    r
}

/// `a + b + c + d + e` as a new string.
pub fn concat5(a: &str, b: &str, c: &str, d: &str, e: &str) -> (r: String)
    ensures
        r@ == a@ + b@ + c@ + d@ + e@,
{
    let mut r = String::from_str(a);
    r.append(b);
    r.append(c);
    r.append(d);
    r.append(e);
    r
}

/// The value of a hexadecimal digit.
pub open spec fn hex_value(c: char) -> u32 {
    if (c as u32) < 58 {
        ((c as u32) - 48) as u32
    } else {
        ((c as u32) - 87) as u32
    }
}

/// The character a two-character backslash escape stands for, by the
/// character after the backslash.
pub open spec fn escaped_char(e: char) -> Option<char> {
    if e == '"' {
        Some('"')
    } else if e == '\\' {
        Some('\\')
    } else if e == 'b' {
        Some('\x08')
    } else if e == 't' {
        Some('\t')
    } else if e == 'n' {
        Some('\n')
    } else if e == 'f' {
        Some('\x0c')
    } else if e == 'r' {
        Some('\r')
    } else {
        None
    }
}

/// `c` put in front of the text of a read, if the read succeeded.
pub open spec fn prepend(c: char, r: Option<(Seq<char>, Seq<char>)>) -> Option<(Seq<char>, Seq<char>)> {
    match r {
        Some((text, rest)) => Some((seq![c] + text, rest)),
        None => None,
    }
}

/// Reads the inside of a JSON string literal up to its closing quote: the
/// characters it stands for, and the text after the quote.
pub open spec fn read_chars(t: Seq<char>) -> Option<(Seq<char>, Seq<char>)>
    decreases t.len(),
{
    if t.len() == 0 {
        None
    } else if t[0] == '"' {
        Some((Seq::empty(), t.drop_first()))
    } else if t[0] == '\\' {
        if t.len() >= 6 && t[1] == 'u' && t[2] == '0' && t[3] == '0' {
            prepend(((hex_value(t[4]) * 16 + hex_value(t[5])) as u32) as char, read_chars(t.subrange(6, t.len() as int)))
        } else if t.len() >= 2 && escaped_char(t[1]) is Some {
            prepend(escaped_char(t[1])->0, read_chars(t.subrange(2, t.len() as int)))
        } else {
            None
        }
    } else {
        prepend(t[0], read_chars(t.drop_first()))
    }
}

/// Reads a JSON string literal at the start of `t`: the string it stands
/// for, and the text after it.
pub open spec fn read_string(t: Seq<char>) -> Option<(Seq<char>, Seq<char>)> {
    if t.len() > 0 && t[0] == '"' {
        read_chars(t.drop_first())
    } else {
        None
    }
}

proof fn lemma_escape_text_front(c: char, s: Seq<char>)
    ensures
        escape_text(seq![c] + s) == escape_char(c) + escape_text(s),
    decreases s.len(),
{
    if s.len() == 0 {
        assert((seq![c] + s).drop_last() =~= Seq::<char>::empty());
        assert(seq![c] + s =~= seq![c]);
        assert(escape_text(Seq::<char>::empty()) + escape_char(c) =~= escape_char(c) + escape_text(s));
    } else {
        lemma_escape_text_front(c, s.drop_last());
        assert((seq![c] + s).drop_last() =~= seq![c] + s.drop_last());
        assert((seq![c] + s).last() == s.last());
        assert(escape_char(c) + escape_text(s.drop_last()) + escape_char(s.last()) =~= escape_char(c) + (
        escape_text(s.drop_last()) + escape_char(s.last())));
    }
}

proof fn lemma_read_escaped_char(c: char, rest: Seq<char>)
    ensures
        read_chars(escape_char(c) + rest) == prepend(c, read_chars(rest)),
{
    let t = escape_char(c) + rest;
    if c == '"' || c == '\\' || c == '\x08' || c == '\t' || c == '\n' || c == '\x0c' || c == '\r' {
        assert(t.subrange(2, t.len() as int) =~= rest);
    } else if (c as u32) < 0x20 {
        let v = c as u32;
        assert(t.subrange(6, t.len() as int) =~= rest);
        assert(hex_value(hex_digit(v / 16)) == v / 16);
        assert(hex_value(hex_digit(v % 16)) == v % 16);
        assert(((v / 16) * 16 + v % 16) == v);
    } else {
        assert(t.drop_first() =~= rest);
    }
}

/// Reading back an escaped text followed by a closing quote gives the text
/// whole, and the rest after the quote.
pub proof fn lemma_read_escaped(s: Seq<char>, rest: Seq<char>)
    ensures
        read_chars(escape_text(s) + seq!['"'] + rest) == Some((s, rest)),
    decreases s.len(),
{
    if s.len() == 0 {
        assert(escape_text(s) + seq!['"'] + rest =~= seq!['"'] + rest);
        assert((seq!['"'] + rest).drop_first() =~= rest);
    } else {
        let c = s[0];
        let tail = s.drop_first();
        assert(s =~= seq![c] + tail);
        lemma_escape_text_front(c, tail);
        lemma_read_escaped(tail, rest);
        assert(escape_text(s) + seq!['"'] + rest =~= escape_char(c) + (escape_text(tail) + seq!['"'] + rest));
        lemma_read_escaped_char(c, escape_text(tail) + seq!['"'] + rest);
    }
}

/// The JSON string literal of any string reads back as that string, whole:
/// nothing of it is lost, and what follows the literal is left as it was.
pub proof fn lemma_quote_reads_back(s: Seq<char>, rest: Seq<char>)
    ensures
        read_string(json_quote(s) + rest) == Some((s, rest)),
{
    let t = json_quote(s) + rest;
    assert(t.drop_first() =~= escape_text(s) + seq!['"'] + rest);
    lemma_read_escaped(s, rest);
}

/// A text without quotes or backslashes, followed by a closing quote, reads
/// back as itself.
pub proof fn lemma_read_plain(s: Seq<char>, rest: Seq<char>)
    requires
        forall|i: int| 0 <= i < s.len() ==> s[i] != '"' && s[i] != '\\',
    ensures
        read_chars(s + seq!['"'] + rest) == Some((s, rest)),
    decreases s.len(),
{
    if s.len() == 0 {
        assert(s + seq!['"'] + rest =~= seq!['"'] + rest);
        assert((seq!['"'] + rest).drop_first() =~= rest);
    } else {
        let tail = s.drop_first();
        lemma_read_plain(tail, rest);
        assert((s + seq!['"'] + rest).drop_first() =~= tail + seq!['"'] + rest);
        assert(seq![s[0]] + tail =~= s);
    }
}

} // verus!
