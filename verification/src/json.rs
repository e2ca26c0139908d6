//! JSON text primitives for the response encoder: escaping a string per the
//! JSON grammar, quoting it, and laying out one `[name, value]` header item.
//! The specification functions give the exact character sequence that each
//! executable builder appends.

use vstd::prelude::*;
use crate::text::push_char;

verus! {

/// The lower-case hexadecimal digit for `d`.
pub open spec fn spec_hex_digit(d: int) -> char {
    if d == 0 { '0' }
    else if d == 1 { '1' }
    else if d == 2 { '2' }
    else if d == 3 { '3' }
    else if d == 4 { '4' }
    else if d == 5 { '5' }
    else if d == 6 { '6' }
    else if d == 7 { '7' }
    else if d == 8 { '8' }
    else if d == 9 { '9' }
    else if d == 10 { 'a' }
    else if d == 11 { 'b' }
    else if d == 12 { 'c' }
    else if d == 13 { 'd' }
    else if d == 14 { 'e' }
    else { 'f' }
}

/// How one character appears inside a JSON string literal: the quote, the
/// backslash and the control characters are escaped, every other character
/// stands for itself.
pub open spec fn escape_char(c: char) -> Seq<char> {
    if c == '"' { seq!['\\', '"'] }
    else if c == '\\' { seq!['\\', '\\'] }
    else if c == '\u{8}' { seq!['\\', 'b'] }
    else if c == '\u{c}' { seq!['\\', 'f'] }
    else if c == '\n' { seq!['\\', 'n'] }
    else if c == '\r' { seq!['\\', 'r'] }
    else if c == '\t' { seq!['\\', 't'] }
    else if (c as u32) < 32 {
        seq!['\\', 'u', '0', '0', spec_hex_digit(c as int / 16), spec_hex_digit(c as int % 16)]
    } else {
        seq![c]
    }
}

/// The body of a JSON string literal holding the characters of `s`.
pub open spec fn escape_seq(s: Seq<char>) -> Seq<char>
    decreases s.len(),
{
    if s.len() == 0 {
        Seq::empty()
    } else {
        escape_char(s[0]) + escape_seq(s.drop_first())
    }
}

/// Escaping handles one appended character at a time.
pub proof fn lemma_escape_seq_push(s: Seq<char>, c: char)
    ensures
        escape_seq(s.push(c)) == escape_seq(s) + escape_char(c),
    decreases s.len(),
{
    if s.len() == 0 {
        reveal_with_fuel(escape_seq, 2);
        assert(s.push(c) =~= seq![c]);
        assert(seq![c].drop_first() =~= Seq::<char>::empty());
        assert(escape_seq(Seq::<char>::empty()) == Seq::<char>::empty());
        assert(escape_seq(seq![c]) == escape_char(c) + escape_seq(Seq::<char>::empty()));
        assert(escape_char(c) + Seq::<char>::empty() =~= escape_char(c));
        assert(s =~= Seq::<char>::empty());
    } else {
        lemma_escape_seq_push(s.drop_first(), c);
        assert(s.push(c).drop_first() =~= s.drop_first().push(c));
        assert(s.push(c)[0] == s[0]);
        assert(escape_char(s[0]) + (escape_seq(s.drop_first()) + escape_char(c)) =~= (escape_char(
            s[0],
        ) + escape_seq(s.drop_first())) + escape_char(c));
    }
}

/// A complete JSON string literal: `"` + escaped characters + `"`.
pub open spec fn quoted(s: Seq<char>) -> Seq<char> {
    seq!['"'] + escape_seq(s) + seq!['"']
}

/// One header entry as a two-element JSON array: `["name","value"]`.
pub open spec fn header_json(name: Seq<char>, value: Seq<char>) -> Seq<char> {
    seq!['['] + quoted(name) + seq![','] + quoted(value) + seq![']']
}

/// The items of the headers array, separated by commas, one per entry and
/// in order.
pub open spec fn headers_items(hs: Seq<(Seq<char>, Seq<char>)>) -> Seq<char>
    decreases hs.len(),
{
    if hs.len() == 0 {
        Seq::empty()
    } else if hs.len() == 1 {
        header_json(hs[0].0, hs[0].1)
    } else {
        headers_items(hs.drop_last()) + seq![','] + header_json(hs.last().0, hs.last().1)
    }
}

/// The headers array: `[` + items + `]`.
pub open spec fn headers_json(hs: Seq<(Seq<char>, Seq<char>)>) -> Seq<char> {
    seq!['['] + headers_items(hs) + seq![']']
}

/// A header received after the others appears after their items, at the end
/// of the array: the encoding preserves receipt order.
pub proof fn lemma_headers_items_push(hs: Seq<(Seq<char>, Seq<char>)>, name: Seq<char>, value: Seq<char>)
    ensures
        headers_items(hs.push((name, value))) == if hs.len() == 0 {
            header_json(name, value)
        } else {
            headers_items(hs) + seq![','] + header_json(name, value)
        },
{
    let e = hs.push((name, value));
    assert(e.last() == (name, value));
    if hs.len() == 0 {
        assert(e.len() == 1);
        assert(e[0] == (name, value));
    } else {
        assert(e.drop_last() =~= hs);
    }
}

/// The lower-case hexadecimal digit for `d`.
fn hex_digit(d: u8) -> (c: char)
    requires
        d < 16,
    ensures
        c == spec_hex_digit(d as int),
{
    if d == 0 { '0' }
    else if d == 1 { '1' }
    else if d == 2 { '2' }
    else if d == 3 { '3' }
    else if d == 4 { '4' }
    else if d == 5 { '5' }
    else if d == 6 { '6' }
    else if d == 7 { '7' }
    else if d == 8 { '8' }
    else if d == 9 { '9' }
    else if d == 10 { 'a' }
    else if d == 11 { 'b' }
    else if d == 12 { 'c' }
    else if d == 13 { 'd' }
    else if d == 14 { 'e' }
    else { 'f' }
}

/// Appends the escaped form of one character.
fn append_escaped_char(out: &mut String, c: char)
    ensures
        final(out)@ == old(out)@ + escape_char(c),
{
    if c == '"' {
        push_char(out, '\\');
        push_char(out, '"');
        proof { assert(out@ =~= old(out)@ + escape_char(c)); }
    } else if c == '\\' {
        push_char(out, '\\');
        push_char(out, '\\');
        proof { assert(out@ =~= old(out)@ + escape_char(c)); }
    } else if c == '\u{8}' {
        push_char(out, '\\');
        push_char(out, 'b');
        proof { assert(out@ =~= old(out)@ + escape_char(c)); }
    } else if c == '\u{c}' {
        push_char(out, '\\');
        push_char(out, 'f');
        proof { assert(out@ =~= old(out)@ + escape_char(c)); }
    } else if c == '\n' {
        push_char(out, '\\');
        push_char(out, 'n');
        proof { assert(out@ =~= old(out)@ + escape_char(c)); }
    } else if c == '\r' {
        push_char(out, '\\');
        push_char(out, 'r');
        proof { assert(out@ =~= old(out)@ + escape_char(c)); }
    } else if c == '\t' {
        push_char(out, '\\');
        push_char(out, 't');
        proof { assert(out@ =~= old(out)@ + escape_char(c)); }
    } else {
        let v = c as u32;
        if v < 32 {
            push_char(out, '\\');
            push_char(out, 'u');
            push_char(out, '0');
            push_char(out, '0');
            push_char(out, hex_digit((v / 16) as u8));
            push_char(out, hex_digit((v % 16) as u8));
            proof { assert(out@ =~= old(out)@ + escape_char(c)); }
        } else {
            push_char(out, c);
            proof { assert(out@ =~= old(out)@ + escape_char(c)); }
        }
    }
}

/// Appends the escaped characters of `s` (without the surrounding quotes).
pub(crate) fn append_escaped(out: &mut String, s: &str)
    ensures
        final(out)@ == old(out)@ + escape_seq(s@),
{
    let n = s.unicode_len();
    let mut i: usize = 0;
    proof {
        assert(s@.take(0) =~= Seq::<char>::empty());
        assert(out@ + escape_seq(s@.take(0)) =~= out@);
    }
    while i < n
        invariant
            n == s@.len(),
            i <= n,
            out@ == old(out)@ + escape_seq(s@.take(i as int)),
        decreases n - i,
    {
        let c = s.get_char(i);
        append_escaped_char(out, c);
        proof {
            assert(s@.take(i + 1) =~= s@.take(i as int).push(s@[i as int]));
            lemma_escape_seq_push(s@.take(i as int), s@[i as int]);
            assert((old(out)@ + escape_seq(s@.take(i as int))) + escape_char(s@[i as int]) =~= old(
                out,
            )@ + escape_seq(s@.take(i + 1)));
        }
        i += 1;
    }
    proof {
        assert(s@.take(n as int) =~= s@);
    }
}

/// Appends `s` as a JSON string literal.
pub(crate) fn append_quoted(out: &mut String, s: &str)
    ensures
        final(out)@ == old(out)@ + quoted(s@),
{
    push_char(out, '"');
    append_escaped(out, s);
    push_char(out, '"');
    proof {
        assert(out@ =~= old(out)@ + quoted(s@));
    }
}

/// Appends one header entry as `["name","value"]`.
pub(crate) fn append_header_json(out: &mut String, name: &str, value: &str)
    ensures
        final(out)@ == old(out)@ + header_json(name@, value@),
{
    push_char(out, '[');
    append_quoted(out, name);
    push_char(out, ',');
    append_quoted(out, value);
    push_char(out, ']');
    proof {
        assert(out@ =~= old(out)@ + header_json(name@, value@));
    }
}

} // verus!
