//! JSON text for string values.
//!
//! A string is written between two quotation marks. Inside them the quotation
//! mark, the reverse solidus and the control characters below U+0020 are
//! escaped; every other character stands for itself.

use vstd::prelude::*;

verus! {

/// The digits used in `\u00XX` escapes.
pub open spec fn hex_digits() -> Seq<char> {
    "0123456789abcdef"@
}

/// How one character of a string is written inside the quotation marks.
pub open spec fn escaped(c: char) -> Seq<char> {
    if c == '"' {
        seq!['\\', '"']
    } else if c == '\\' {
        seq!['\\', '\\']
    } else if c == '\u{8}' {
        seq!['\\', 'b']
    } else if c == '\u{c}' {
        seq!['\\', 'f']
    } else if c == '\n' {
        seq!['\\', 'n']
    } else if c == '\r' {
        seq!['\\', 'r']
    } else if c == '\t' {
        seq!['\\', 't']
    } else if (c as u32) < 0x20 {
        seq!['\\', 'u', '0', '0', hex_digits()[c as int / 16], hex_digits()[c as int % 16]]
    } else {
        seq![c]
    }
}

/// `escaped` as a function value, for use with `Seq::flat_map`.
pub open spec fn escape() -> spec_fn(char) -> Seq<char> {
    |c: char| escaped(c)
}

/// The JSON text of the string `text`.
pub open spec fn encoded(text: Seq<char>) -> Seq<char> {
    seq!['"'] + text.flat_map(escape()) + seq!['"']
}

/// Whether `c` is written as itself inside a JSON string.
pub open spec fn is_plain(c: char) -> bool {
    c != '"' && c != '\\' && (c as u32) >= 0x20
}

/// `String::push` of the standard library: the string afterwards is the
/// string before with `c` appended as its last character. Taken on trust.
pub assume_specification[ String::push ](s: &mut String, c: char)
    ensures
        final(s)@ == old(s)@.push(c),
;

/// Appends the escaped form of `c` to `out`.
fn push_escaped(out: &mut String, c: char)
    ensures
        final(out)@ == old(out)@ + escaped(c),
{
    if c == '"' {
        out.push('\\');
        out.push('"');
    } else if c == '\\' {
        out.push('\\');
        out.push('\\');
    } else if c == '\u{8}' {
        out.push('\\');
        out.push('b');
    } else if c == '\u{c}' {
        out.push('\\');
        out.push('f');
    } else if c == '\n' {
        out.push('\\');
        out.push('n');
    } else if c == '\r' {
        out.push('\\');
        out.push('r');
    } else if c == '\t' {
        out.push('\\');
        out.push('t');
    } else if (c as u32) < 0x20 {
        let code: u32 = c as u32;
        let digits = "0123456789abcdef";
        proof {
            reveal_strlit("0123456789abcdef");
        }
        out.push('\\');
        out.push('u');
        out.push('0');
        out.push('0');
        out.push(digits.get_char((code / 16) as usize));
        out.push(digits.get_char((code % 16) as usize));
    } else {
        out.push(c);
    }
}

/// Serializes `text` as a JSON string value.
pub fn encode(text: &str) -> (json: String)
    ensures
        json@ == encoded(text@),
{
    let mut json = String::new();
    json.push('"');
    for c in it: text.chars()
        invariant
            it.seq() == text@,
            json@ == seq!['"'] + it.seq().take(it.index()).flat_map(escape()),
    {
        proof {
            text@.lemma_flat_map_take_append(escape(), it.index());
        }
        push_escaped(&mut json, c);
    }
    assert(text@.take(text@.len() as int) =~= text@);
    json.push('"');
    json
}

/// Escaping leaves a string of plain characters as it is.
proof fn lemma_plain_text_is_unescaped(text: Seq<char>)
    requires
        forall|i: int| 0 <= i < text.len() ==> is_plain(#[trigger] text[i]),
    ensures
        text.flat_map(escape()) == text,
    decreases text.len(),
{
    if text.len() == 0 {
        assert(text.flat_map(escape()) =~= text);
    } else {
        lemma_plain_text_is_unescaped(text.drop_last());
        text.drop_last().lemma_flat_map_push(escape(), text.last());
        assert(text.drop_last().push(text.last()) =~= text);
    }
}

/// A string without quotation marks, reverse solidi or control characters is
/// written unchanged between the two quotation marks.
pub proof fn lemma_plain_text_is_quoted(text: Seq<char>)
    requires
        forall|i: int| 0 <= i < text.len() ==> is_plain(#[trigger] text[i]),
    ensures
        encoded(text) == seq!['"'] + text + seq!['"'],
{
    lemma_plain_text_is_unescaped(text);
}

} // verus!
