//! Escaping text for the web view: JavaScript string literals (for scripts
//! injected with `evaluate_script`) and HTML text (for the error page).
use vstd::prelude::*;
use crate::text::{concat_map, lemma_concat_map_push, push_char, push_text};

verus! {

broadcast use vstd::utf8::char_u32_cast;

/// The lower-case hexadecimal digit for `d < 16`.
pub open spec fn hex_digit(d: nat) -> char {
    if d < 10 {
        ((48 + d) as u32) as char
    } else {
        ((87 + d) as u32) as char
    }
}

/// The value of a lower-case hexadecimal digit (0 for other characters).
pub open spec fn hex_value(c: char) -> nat {
    let v = c as u32;
    if 48 <= v <= 57 {
        (v - 48) as nat
    } else if 97 <= v <= 102 {
        (v - 87) as nat
    } else {
        0
    }
}

/// Whether `c` is a lower-case hexadecimal digit.
pub open spec fn is_hex_digit(c: char) -> bool {
    let v = c as u32;
    (48 <= v <= 57) || (97 <= v <= 102)
}

/// How one character is written inside a JavaScript string literal:
/// quote, backslash and line feed get a backslash escape, carriage return is
/// dropped, the other control characters become `\u00XX`, the rest stays.
pub open spec fn js_escape_char(c: char) -> Seq<char> {
    if c == '"' {
        seq!['\\', '"']
    } else if c == '\\' {
        seq!['\\', '\\']
    } else if c == '\n' {
        seq!['\\', 'n']
    } else if c == '\r' {
        Seq::empty()
    } else if (c as u32) < 0x20 {
        seq!['\\', 'u', '0', '0', hex_digit((c as u32 / 16) as nat), hex_digit((c as u32 % 16) as nat)]
    } else {
        seq![c]
    }
}

/// [`js_escape_char`] as a function value.
pub open spec fn js_escape_fn() -> spec_fn(char) -> Seq<char> {
    |c: char| js_escape_char(c)
}

/// The body of the JavaScript string literal for `s`.
pub open spec fn js_escaped(s: Seq<char>) -> Seq<char> {
    concat_map(s, js_escape_fn())
}

/// The JavaScript string literal for `s`, quotes included.
pub open spec fn js_literal(s: Seq<char>) -> Seq<char> {
    seq!['"'] + js_escaped(s) + seq!['"']
}

fn hex_char(d: u32) -> (c: char)
    requires
        d < 16,
    ensures
        c == hex_digit(d as nat),
{
    if d == 0 {
        '0'
    } else if d == 1 {
        '1'
    } else if d == 2 {
        '2'
    } else if d == 3 {
        '3'
    } else if d == 4 {
        '4'
    } else if d == 5 {
        '5'
    } else if d == 6 {
        '6'
    } else if d == 7 {
        '7'
    } else if d == 8 {
        '8'
    } else if d == 9 {
        '9'
    } else if d == 10 {
        'a'
    } else if d == 11 {
        'b'
    } else if d == 12 {
        'c'
    } else if d == 13 {
        'd'
    } else if d == 14 {
        'e'
    } else {
        'f'
    }
}

/// Quotes `s` as a JavaScript string literal, for scripts that the launcher
/// injects into the page.
pub fn js_str(s: &str) -> (r: String)
    ensures
        r@ == js_literal(s@),
{
    broadcast use vstd::string::axiom_spec_iter;

    let mut out = String::new();
    push_char(&mut out, '"');
    for c in it: s.chars()
        invariant
            it.seq() == s@,
            out@ == seq!['"'] + js_escaped(s@.take(it.index() as int)),
    {
        let ghost before = out@;
        if c == '"' {
            push_text(&mut out, "\\\"");
        } else if c == '\\' {
            push_text(&mut out, "\\\\");
        } else if c == '\n' {
            push_text(&mut out, "\\n");
        } else if c == '\r' {
        } else if (c as u32) < 0x20 {
            push_text(&mut out, "\\u00");
            push_char(&mut out, hex_char((c as u32) / 16));
            push_char(&mut out, hex_char((c as u32) % 16));
        } else {
            push_char(&mut out, c);
        }
        proof {
            reveal_strlit("\\\"");
            reveal_strlit("\\\\");
            reveal_strlit("\\n");
            reveal_strlit("\\u00");
            let i = it.index() as int;
            assert(s@.take(i + 1) =~= s@.take(i).push(c));
            lemma_concat_map_push(s@.take(i), c, js_escape_fn());
            assert(out@ =~= before + js_escape_char(c));
        }
    }
    push_char(&mut out, '"');
    assert(s@.take(s@.len() as int) =~= s@);
    out
}

/// The text that a JavaScript string literal body denotes, read as
/// JavaScript reads it: `\n`, `\t`, `\r`, `\b`, `\f`, `\v` and `\0` stand
/// for their control characters, `\xHH` and `\uHHHH` for the character
/// with that code, a backslash before a line feed for nothing, and a
/// backslash before any other character for that character.
pub open spec fn js_unescape(t: Seq<char>) -> Seq<char>
    decreases t.len(),
{
    if t.len() >= 2 && t[0] == '\\' {
        if t[1] == 'n' {
            seq!['\n'] + js_unescape(t.skip(2))
        } else if t[1] == 't' {
            seq!['\t'] + js_unescape(t.skip(2))
        } else if t[1] == 'r' {
            seq!['\r'] + js_unescape(t.skip(2))
        } else if t[1] == 'b' {
            seq![8u32 as char] + js_unescape(t.skip(2))
        } else if t[1] == 'f' {
            seq![12u32 as char] + js_unescape(t.skip(2))
        } else if t[1] == 'v' {
            seq![11u32 as char] + js_unescape(t.skip(2))
        } else if t[1] == '0' {
            seq![0u32 as char] + js_unescape(t.skip(2))
        } else if t[1] == '\n' {
            js_unescape(t.skip(2))
        } else if t[1] == 'x' && t.len() >= 4 {
            seq![((16 * hex_value(t[2]) + hex_value(t[3])) as u32) as char] + js_unescape(t.skip(4))
        } else if t[1] == 'u' && t.len() >= 6 {
            seq![
                ((4096 * hex_value(t[2]) + 256 * hex_value(t[3]) + 16 * hex_value(t[4]) + hex_value(
                    t[5],
                )) as u32) as char,
            ] + js_unescape(t.skip(6))
        } else {
            seq![t[1]] + js_unescape(t.skip(2))
        }
    } else if t.len() >= 1 {
        seq![t[0]] + js_unescape(t.skip(1))
    } else {
        Seq::empty()
    }
}

/// Whether `t` lexes as the inside of a double-quoted JavaScript string in
/// strict code: every backslash starts a complete escape (no octal escape,
/// `\x` and `\u` with their hexadecimal digits), and no unescaped quote or
/// line break occurs.
pub open spec fn js_string_body(t: Seq<char>) -> bool
    decreases t.len(),
{
    if t.len() == 0 {
        true
    } else if t[0] == '\\' {
        &&& t.len() >= 2
        &&& if t[1] == 'u' {
            &&& t.len() >= 6
            &&& is_hex_digit(t[2]) && is_hex_digit(t[3]) && is_hex_digit(t[4]) && is_hex_digit(t[5])
            &&& js_string_body(t.skip(6))
        } else if t[1] == 'x' {
            &&& t.len() >= 4
            &&& is_hex_digit(t[2]) && is_hex_digit(t[3])
            &&& js_string_body(t.skip(4))
        } else {
            &&& !('1' <= t[1] <= '9')
            &&& !(t[1] == '0' && t.len() >= 3 && '0' <= t[2] <= '9')
            &&& t[1] != '\r'
            &&& js_string_body(t.skip(2))
        }
    } else {
        &&& t[0] != '"'
        &&& t[0] != '\n'
        &&& t[0] != '\r'
        &&& js_string_body(t.skip(1))
    }
}

/// `s` without its carriage returns.
pub open spec fn without_cr(s: Seq<char>) -> Seq<char>
    decreases s.len(),
{
    if s.len() == 0 {
        Seq::empty()
    } else if s[0] == '\r' {
        without_cr(s.drop_first())
    } else {
        seq![s[0]] + without_cr(s.drop_first())
    }
}

proof fn lemma_hex_roundtrip(d: nat)
    requires
        d < 16,
    ensures
        hex_value(hex_digit(d)) == d,
        is_hex_digit(hex_digit(d)),
{
    if d < 10 {
        assert(((48 + d) as u32) as char as u32 == (48 + d) as u32);
    } else {
        assert(((87 + d) as u32) as char as u32 == (87 + d) as u32);
    }
}

proof fn lemma_js_escape_char(c: char, rest: Seq<char>)
    ensures
        js_unescape(js_escape_char(c) + rest) == (if c == '\r' {
            js_unescape(rest)
        } else {
            seq![c] + js_unescape(rest)
        }),
        js_string_body(js_escape_char(c) + rest) == js_string_body(rest),
{
    let e = js_escape_char(c);
    let t = e + rest;
    if c == '"' || c == '\\' || c == '\n' {
        assert(t.skip(2) =~= rest);
    } else if c == '\r' {
        assert(t =~= rest);
    } else if (c as u32) < 0x20 {
        let v = c as u32;
        lemma_hex_roundtrip((v / 16) as nat);
        lemma_hex_roundtrip((v % 16) as nat);
        assert(hex_value('0') == 0);
        assert(is_hex_digit('0'));
        assert(t.skip(6) =~= rest);
        assert(t[2] == '0' && t[3] == '0');
        assert(4096 * hex_value(t[2]) + 256 * hex_value(t[3]) + 16 * hex_value(t[4]) + hex_value(
            t[5],
        ) == v);
        assert((v as u32) as char == c);
    } else {
        assert(t.skip(1) =~= rest);
        assert(t[0] == c);
    }
}

/// Quoting is faithful: the literal's body denotes `s` (less its carriage
/// returns), and it cannot end the string early or break the line.
pub proof fn lemma_js_escape_faithful(s: Seq<char>)
    ensures
        js_unescape(js_escaped(s)) == without_cr(s),
        js_string_body(js_escaped(s)),
    decreases s.len(),
{
    if s.len() > 0 {
        lemma_js_escape_faithful(s.drop_first());
        assert(js_escaped(s) == js_escape_char(s[0]) + js_escaped(s.drop_first()));
        lemma_js_escape_char(s[0], js_escaped(s.drop_first()));
    } else {
        assert(js_escaped(s) =~= Seq::<char>::empty());
    }
}

/// A character that needs no escape, printable and neither a quote nor a
/// backslash.
pub open spec fn js_plain_char(c: char) -> bool {
    (c as u32) >= 0x20 && c != '"' && c != '\\'
}

/// Quoting leaves plain text alone: a text of printable characters other
/// than the quote and the backslash is written exactly as it is.
pub proof fn lemma_js_plain_text_unchanged(s: Seq<char>)
    requires
        forall|i: int| 0 <= i < s.len() ==> js_plain_char(#[trigger] s[i]),
    ensures
        js_escaped(s) == s,
        js_literal(s) == seq!['"'] + s + seq!['"'],
    decreases s.len(),
{
    if s.len() > 0 {
        let rest = s.drop_first();
        assert forall|i: int| 0 <= i < rest.len() implies js_plain_char(#[trigger] rest[i]) by {
            assert(rest[i] == s[i + 1]);
        }
        lemma_js_plain_text_unchanged(rest);
        assert(js_plain_char(s[0]));
        assert(js_escape_char(s[0]) == seq![s[0]]);
        assert(js_escaped(s) == js_escape_char(s[0]) + js_escaped(rest));
        assert(seq![s[0]] + rest =~= s);
    } else {
        assert(js_escaped(s) =~= s);
    }
}

/// Every character of `t` is printable: none is a control character below
/// U+0020, which a JSON string may not hold raw.
pub open spec fn no_raw_controls(t: Seq<char>) -> bool {
    forall|i: int| 0 <= i < t.len() ==> (t[i] as u32) >= 0x20
}

proof fn lemma_js_escape_char_printable(c: char)
    ensures
        no_raw_controls(js_escape_char(c)),
{
    if c != '"' && c != '\\' && c != '\n' && c != '\r' && (c as u32) < 0x20 {
        let v = c as u32;
        let hi = (v / 16) as nat;
        let lo = (v % 16) as nat;
        assert(((48 + hi) as u32) as char as u32 == (48 + hi) as u32);
        assert(((48 + lo) as u32) as char as u32 == (48 + lo) as u32);
        assert(hi < 10 && lo < 16);
        if lo >= 10 {
            assert(((87 + lo) as u32) as char as u32 == (87 + lo) as u32);
        }
    }
}

/// The quoted literal holds no raw control character: with its escapes it
/// is also a valid JSON string.
pub proof fn lemma_js_literal_printable(s: Seq<char>)
    ensures
        no_raw_controls(js_escaped(s)),
        no_raw_controls(js_literal(s)),
    decreases s.len(),
{
    if s.len() > 0 {
        lemma_js_literal_printable(s.drop_first());
        lemma_js_escape_char_printable(s[0]);
        assert(js_escaped(s) == js_escape_char(s[0]) + js_escaped(s.drop_first()));
    } else {
        assert(js_escaped(s) =~= Seq::<char>::empty());
    }
    let t = js_literal(s);
    assert forall|i: int| 0 <= i < t.len() implies (t[i] as u32) >= 0x20 by {
        if 0 < i < t.len() - 1 {
            assert(t[i] == js_escaped(s)[i - 1]);
        }
    }
}

/// How one character is written in HTML text: `&`, `<`, `>` and `"` become
/// entities, the rest stays.
pub open spec fn html_escape_char(c: char) -> Seq<char> {
    if c == '&' {
        "&amp;"@
    } else if c == '<' {
        "&lt;"@
    } else if c == '>' {
        "&gt;"@
    } else if c == '"' {
        "&quot;"@
    } else {
        seq![c]
    }
}

/// [`html_escape_char`] as a function value.
pub open spec fn html_escape_fn() -> spec_fn(char) -> Seq<char> {
    |c: char| html_escape_char(c)
}

/// `s` escaped as HTML text.
pub open spec fn html_escaped(s: Seq<char>) -> Seq<char> {
    concat_map(s, html_escape_fn())
}

/// Escapes `text` for HTML: the four special characters become entities.
pub fn html_escape(text: &str) -> (r: String)
    ensures
        r@ == html_escaped(text@),
{
    broadcast use vstd::string::axiom_spec_iter;

    let mut out = String::new();
    for c in it: text.chars()
        invariant
            it.seq() == text@,
            out@ == html_escaped(text@.take(it.index() as int)),
    {
        let ghost before = out@;
        if c == '&' {
            push_text(&mut out, "&amp;");
        } else if c == '<' {
            push_text(&mut out, "&lt;");
        } else if c == '>' {
            push_text(&mut out, "&gt;");
        } else if c == '"' {
            push_text(&mut out, "&quot;");
        } else {
            push_char(&mut out, c);
        }
        proof {
            let i = it.index() as int;
            assert(text@.take(i + 1) =~= text@.take(i).push(c));
            lemma_concat_map_push(text@.take(i), c, html_escape_fn());
            assert(out@ =~= before + html_escape_char(c));
        }
    }
    assert(text@.take(text@.len() as int) =~= text@);
    out
}

/// The text that HTML text denotes, reading the four entities above.
pub open spec fn html_unescape(t: Seq<char>) -> Seq<char>
    decreases t.len(),
{
    if t.len() >= 5 && t.take(5) == "&amp;"@ {
        seq!['&'] + html_unescape(t.skip(5))
    } else if t.len() >= 4 && t.take(4) == "&lt;"@ {
        seq!['<'] + html_unescape(t.skip(4))
    } else if t.len() >= 4 && t.take(4) == "&gt;"@ {
        seq!['>'] + html_unescape(t.skip(4))
    } else if t.len() >= 6 && t.take(6) == "&quot;"@ {
        seq!['"'] + html_unescape(t.skip(6))
    } else if t.len() >= 1 {
        seq![t[0]] + html_unescape(t.skip(1))
    } else {
        Seq::empty()
    }
}

/// Whether `t` holds no character that could open a tag or close an
/// attribute.
pub open spec fn html_inert(t: Seq<char>) -> bool {
    forall|i: int| 0 <= i < t.len() ==> t[i] != '<' && t[i] != '>' && t[i] != '"'
}

proof fn lemma_html_escape_char(c: char, rest: Seq<char>)
    ensures
        html_unescape(html_escape_char(c) + rest) == seq![c] + html_unescape(rest),
        html_inert(html_escape_char(c)),
{
    reveal_strlit("&amp;");
    reveal_strlit("&lt;");
    reveal_strlit("&gt;");
    reveal_strlit("&quot;");
    let e = html_escape_char(c);
    let t = e + rest;
    assert(t.skip(e.len() as int) =~= rest);
    if c == '&' {
        assert(t.take(5) =~= "&amp;"@);
    } else if c == '<' {
        assert(t[1] == 'l');
        assert(t.len() < 5 || t.take(5)[1] != "&amp;"@[1]);
        assert(t.take(4) =~= "&lt;"@);
    } else if c == '>' {
        assert(t[1] == 'g');
        assert(t.len() < 5 || t.take(5)[1] != "&amp;"@[1]);
        assert(t.take(4)[1] != "&lt;"@[1]);
        assert(t.take(4) =~= "&gt;"@);
    } else if c == '"' {
        assert(t[1] == 'q');
        assert(t.take(5)[1] != "&amp;"@[1]);
        assert(t.take(4)[1] != "&lt;"@[1]);
        assert(t.take(4)[1] != "&gt;"@[1]);
        assert(t.take(6) =~= "&quot;"@);
    } else {
        assert(t[0] == c);
        assert(t.len() < 5 || t.take(5)[0] != '&');
        assert(t.len() < 4 || t.take(4)[0] != '&');
        assert(t.len() < 6 || t.take(6)[0] != '&');
        assert(t.len() < 5 || t.take(5) != "&amp;"@);
        assert(t.len() < 4 || t.take(4) != "&lt;"@);
        assert(t.len() < 4 || t.take(4) != "&gt;"@);
        assert(t.len() < 6 || t.take(6) != "&quot;"@);
    }
}

/// HTML escaping is faithful and inert: the escaped text denotes `s` and
/// holds no `<`, `>` or `"`.
pub proof fn lemma_html_escape_faithful(s: Seq<char>)
    ensures
        html_unescape(html_escaped(s)) == s,
        html_inert(html_escaped(s)),
    decreases s.len(),
{
    if s.len() > 0 {
        lemma_html_escape_faithful(s.drop_first());
        assert(html_escaped(s) == html_escape_char(s[0]) + html_escaped(s.drop_first()));
        lemma_html_escape_char(s[0], html_escaped(s.drop_first()));
        let a = html_escape_char(s[0]);
        let b = html_escaped(s.drop_first());
        assert forall|i: int| 0 <= i < (a + b).len() implies (a + b)[i] != '<' && (a + b)[i]
            != '>' && (a + b)[i] != '"' by {
            if i < a.len() {
                assert((a + b)[i] == a[i]);
            } else {
                assert((a + b)[i] == b[i - a.len()]);
            }
        }
        assert(s =~= seq![s[0]] + s.drop_first());
    } else {
        assert(html_escaped(s) =~= Seq::<char>::empty());
    }
}

} // verus!
