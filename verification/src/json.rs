use vstd::prelude::*;

use crate::hex::{lemma_lower_hex_digit, lemma_lower_hex_digit_is_injective, lower_hex_digit};

verus! {

/// How serde_json writes one character inside a JSON string: `"` and `\` behind a backslash;
/// backspace, tab, line feed, form feed and carriage return as `\b`, `\t`, `\n`, `\f`, `\r`;
/// the other characters below U+0020 as `\u00` and two lower-case hex digits; every other
/// character as itself.
pub open spec fn json_escaped_char(c: char) -> Seq<char> {
    if c == '"' {
        seq!['\\', '"']
    } else if c == '\\' {
        seq!['\\', '\\']
    } else if c == '\u{8}' {
        seq!['\\', 'b']
    } else if c == '\t' {
        seq!['\\', 't']
    } else if c == '\n' {
        seq!['\\', 'n']
    } else if c == '\u{c}' {
        seq!['\\', 'f']
    } else if c == '\r' {
        seq!['\\', 'r']
    } else if (c as u32) < 0x20 {
        seq![
            '\\',
            'u',
            '0',
            '0',
            lower_hex_digit(((c as u32) / 16) as u8),
            lower_hex_digit(((c as u32) % 16) as u8),
        ]
    } else {
        seq![c]
    }
}

/// The characters of a text, each escaped as serde_json writes it inside a JSON string.
pub open spec fn json_escaped(text: Seq<char>) -> Seq<char>
    decreases text.len(),
{
    if text.len() == 0 {
        Seq::empty()
    } else {
        json_escaped_char(text[0]) + json_escaped(text.drop_first())
    }
}

/// The JSON text that `serde_json::to_string` writes for a string value: the escaped text
/// between double quotes.
pub open spec fn json_string_literal(text: Seq<char>) -> Seq<char> {
    seq!['"'] + json_escaped(text) + seq!['"']
}

/// Whether a text holds no character below U+0020 (the C0 control characters, line breaks
/// among them). DEL and the C1 controls are not excluded.
pub open spec fn has_no_control_chars(text: Seq<char>) -> bool {
    forall|i: int| 0 <= i < text.len() ==> (#[trigger] text[i]) as u32 >= 0x20
}

/// Joining two texts without C0 control characters gives such a text.
pub proof fn lemma_concat_keeps_no_control_chars(a: Seq<char>, b: Seq<char>)
    requires
        has_no_control_chars(a),
        has_no_control_chars(b),
    ensures
        has_no_control_chars(a + b),
{
    assert forall|i: int| 0 <= i < (a + b).len() implies ((a + b)[i]) as u32 >= 0x20 by {
        if i < a.len() {
            assert((a + b)[i] == a[i]);
        } else {
            assert((a + b)[i] == b[i - a.len()]);
        }
    }
}

proof fn lemma_escaped_char_has_no_control_chars(c: char)
    ensures
        has_no_control_chars(json_escaped_char(c)),
{
    if (c as u32) < 0x20 && c != '\u{8}' && c != '\t' && c != '\n' && c != '\u{c}' && c != '\r' {
        lemma_lower_hex_digit(((c as u32) / 16) as u8);
        lemma_lower_hex_digit(((c as u32) % 16) as u8);
    }
}

/// A JSON string literal holds no C0 control character, whatever the text: every such
/// character is escaped into printable ASCII.
pub proof fn lemma_json_string_literal_has_no_control_chars(text: Seq<char>)
    ensures
        has_no_control_chars(json_string_literal(text)),
{
    lemma_json_escaped_has_no_control_chars(text);
    lemma_concat_keeps_no_control_chars(seq!['"'], json_escaped(text));
    lemma_concat_keeps_no_control_chars(seq!['"'] + json_escaped(text), seq!['"']);
}

proof fn lemma_json_escaped_has_no_control_chars(text: Seq<char>)
    ensures
        has_no_control_chars(json_escaped(text)),
    decreases text.len(),
{
    if text.len() > 0 {
        lemma_escaped_char_has_no_control_chars(text[0]);
        lemma_json_escaped_has_no_control_chars(text.drop_first());
        lemma_concat_keeps_no_control_chars(
            json_escaped_char(text[0]),
            json_escaped(text.drop_first()),
        );
    }
}

/// An escaped character is never empty and never starts with a double quote.
proof fn lemma_escaped_char_starts_clear(c: char)
    ensures
        json_escaped_char(c).len() >= 1,
        json_escaped_char(c)[0] != '"',
{
}

/// The escape of one character is recognised from its own text: when two escaped characters
/// start two equal texts, they are the same character and what follows them is the same.
proof fn lemma_escaped_char_is_prefix_free(c: char, d: char, rest_c: Seq<char>, rest_d: Seq<char>)
    requires
        json_escaped_char(c) + rest_c == json_escaped_char(d) + rest_d,
    ensures
        c == d,
        rest_c == rest_d,
{
    let ec = json_escaped_char(c);
    let ed = json_escaped_char(d);
    let s = ec + rest_c;
    assert(s[0] == ec[0]);
    assert(s[0] == (ed + rest_d)[0]);
    if ec.len() >= 2 && ed.len() >= 2 {
        assert(s[1] == ec[1]);
        assert(s[1] == (ed + rest_d)[1]);
    }
    if ec.len() == 6 && ed.len() == 6 {
        assert(s[4] == ec[4]);
        assert(s[4] == (ed + rest_d)[4]);
        assert(s[5] == ec[5]);
        assert(s[5] == (ed + rest_d)[5]);
        lemma_lower_hex_digit_is_injective(((c as u32) / 16) as u8, ((d as u32) / 16) as u8);
        lemma_lower_hex_digit_is_injective(((c as u32) % 16) as u8, ((d as u32) % 16) as u8);
        assert(c as u32 == d as u32);
    }
    assert(c == d);
    assert(rest_c =~= s.subrange(ec.len() as int, s.len() as int));
    assert(rest_d =~= (ed + rest_d).subrange(ed.len() as int, s.len() as int));
}

/// An escaped text ends where its first unescaped double quote stands: when two escaped texts,
/// each followed by a double quote, start two equal texts, the two texts are equal and so is
/// what follows the quotes.
proof fn lemma_escaped_text_ends_at_quote(a: Seq<char>, b: Seq<char>, rest_a: Seq<char>, rest_b: Seq<char>)
    requires
        json_escaped(a) + (seq!['"'] + rest_a) == json_escaped(b) + (seq!['"'] + rest_b),
    ensures
        a == b,
        rest_a == rest_b,
    decreases a.len(),
{
    let s = json_escaped(a) + (seq!['"'] + rest_a);
    if a.len() == 0 {
        assert(s[0] == '"');
        if b.len() > 0 {
            lemma_escaped_char_starts_clear(b[0]);
            assert(s[0] == json_escaped_char(b[0])[0]);
        }
        assert(b =~= a);
        assert(rest_a =~= s.subrange(1, s.len() as int));
        assert(rest_b =~= s.subrange(1, s.len() as int));
    } else if b.len() == 0 {
        lemma_escaped_char_starts_clear(a[0]);
        assert(s[0] == json_escaped_char(a[0])[0]);
        assert(s[0] == '"');
    } else {
        let ta = json_escaped(a.drop_first()) + (seq!['"'] + rest_a);
        let tb = json_escaped(b.drop_first()) + (seq!['"'] + rest_b);
        assert(s =~= json_escaped_char(a[0]) + ta);
        assert(s =~= json_escaped_char(b[0]) + tb);
        lemma_escaped_char_is_prefix_free(a[0], b[0], ta, tb);
        lemma_escaped_text_ends_at_quote(a.drop_first(), b.drop_first(), rest_a, rest_b);
        assert(a =~= seq![a[0]] + a.drop_first());
        assert(b =~= seq![b[0]] + b.drop_first());
    }
}

/// A JSON string literal gives back the text it was written from: when two literals start two
/// equal texts, their texts are equal and so is what follows them.
pub proof fn lemma_json_string_literal_is_decodable(
    a: Seq<char>,
    b: Seq<char>,
    rest_a: Seq<char>,
    rest_b: Seq<char>,
)
    requires
        json_string_literal(a) + rest_a == json_string_literal(b) + rest_b,
    ensures
        a == b,
        rest_a == rest_b,
{
    let s = json_string_literal(a) + rest_a;
    assert(s.drop_first() =~= json_escaped(a) + (seq!['"'] + rest_a));
    assert((json_string_literal(b) + rest_b).drop_first() =~= json_escaped(b) + (seq!['"']
        + rest_b));
    lemma_escaped_text_ends_at_quote(a, b, rest_a, rest_b);
}

/// Calls `serde_json::to_string` on a `str`. serde_json writes a string as `"`, then each
/// character through its `ESCAPE` table (`format_escaped_str_contents`; the `\u00XX` form
/// with lower-case hex digits in `write_char_escape`), then `"`; the contract states that text.
/// Serialising a `str` into memory cannot fail in serde_json (its `to_string` writes into a
/// `Vec` and `str` serialises with `serialize_str`), so the fallback of the conversion is never
/// taken.
#[verifier::external_body]
pub(crate) fn json_quote(text: &str) -> (quoted: String)
    ensures
        quoted@ == json_string_literal(text@),
{
    serde_json::to_string(text).unwrap_or_default()
}

} // verus!
