//! The context's JSON renderings, produced by the library itself: the
//! compact form handed to the template engine as its data, and the
//! pretty-printed form dumped in debug mode. Both are specified character
//! by character, including the string escaping.
use vstd::prelude::*;

use crate::Context;
use crate::ContextValue;
use crate::text::chars_of;
use crate::text::string_of;
use crate::text::views_of_strings;

verus! {

/// The sixteen hexadecimal digit characters, lower case.
pub open spec fn hex_digit(d: int) -> char {
    if d == 0 { '0' } else if d == 1 { '1' } else if d == 2 { '2' } else if d == 3 { '3' }
    else if d == 4 { '4' } else if d == 5 { '5' } else if d == 6 { '6' } else if d == 7 { '7' }
    else if d == 8 { '8' } else if d == 9 { '9' } else if d == 10 { 'a' } else if d == 11 { 'b' }
    else if d == 12 { 'c' } else if d == 13 { 'd' } else if d == 14 { 'e' } else { 'f' }
}

/// How one character appears inside a JSON string literal: the quote, the
/// backslash and the named control characters get two-character escapes,
/// the remaining control characters get a four-digit escape, and every
/// other character stands as itself.
pub open spec fn escape_char_spec(c: char) -> Seq<char> {
    if c == '"' { seq!['\\', '"'] }
    else if c == '\\' { seq!['\\', '\\'] }
    else if c == '\u{8}' { seq!['\\', 'b'] }
    else if c == '\u{C}' { seq!['\\', 'f'] }
    else if c == '\n' { seq!['\\', 'n'] }
    else if c == '\r' { seq!['\\', 'r'] }
    else if c == '\t' { seq!['\\', 't'] }
    else if (c as u32) < 0x20 {
        seq!['\\', 'u', '0', '0', hex_digit(c as u32 as int / 16), hex_digit(c as u32 as int % 16)]
    } else {
        seq![c]
    }
}

/// A text with every character escaped for a JSON string literal.
pub open spec fn escape_spec(s: Seq<char>) -> Seq<char>
    decreases s.len(),
{
    if s.len() == 0 {
        Seq::<char>::empty()
    } else {
        escape_char_spec(s[0]) + escape_spec(s.drop_first())
    }
}

/// A JSON string literal: the escaped text between double quotes.
pub open spec fn quoted_spec(s: Seq<char>) -> Seq<char> {
    seq!['"'] + escape_spec(s) + seq!['"']
}

fn hex_digit_char(d: u32) -> (c: char)
    requires
        d < 16,
    ensures
        c == hex_digit(d as int),
{
    match d {
        0 => '0',
        1 => '1',
        2 => '2',
        3 => '3',
        4 => '4',
        5 => '5',
        6 => '6',
        7 => '7',
        8 => '8',
        9 => '9',
        10 => 'a',
        11 => 'b',
        12 => 'c',
        13 => 'd',
        14 => 'e',
        _ => 'f',
    }
}

/// Appends a copy of the given characters.
fn extend(out: &mut Vec<char>, piece: &Vec<char>)
    ensures
        final(out)@ == old(out)@ + piece@,
{
    let mut i: usize = 0;
    while i < piece.len()
        invariant
            i <= piece@.len(),
            out@ == old(out)@ + piece@.subrange(0, i as int),
        decreases piece@.len() - i,
    {
        out.push(piece[i]);
        assert(out@ =~= old(out)@ + piece@.subrange(0, i + 1));
        i = i + 1;
    }
    assert(out@ =~= old(out)@ + piece@);
}

fn escape_char_vec(c: char) -> (r: Vec<char>)
    ensures
        r@ == escape_char_spec(c),
{
    let mut r: Vec<char> = Vec::new();
    if c == '"' {
        r.push('\\');
        r.push('"');
        assert(r@ =~= seq!['\\', '"']);
    } else if c == '\\' {
        r.push('\\');
        r.push('\\');
        assert(r@ =~= seq!['\\', '\\']);
    } else if c == '\u{8}' {
        r.push('\\');
        r.push('b');
        assert(r@ =~= seq!['\\', 'b']);
    } else if c == '\u{C}' {
        r.push('\\');
        r.push('f');
        assert(r@ =~= seq!['\\', 'f']);
    } else if c == '\n' {
        r.push('\\');
        r.push('n');
        assert(r@ =~= seq!['\\', 'n']);
    } else if c == '\r' {
        r.push('\\');
        r.push('r');
        assert(r@ =~= seq!['\\', 'r']);
    } else if c == '\t' {
        r.push('\\');
        r.push('t');
        assert(r@ =~= seq!['\\', 't']);
    } else {
        let u = c as u32;
        if u < 0x20 {
            r.push('\\');
            r.push('u');
            r.push('0');
            r.push('0');
            r.push(hex_digit_char(u / 16));
            r.push(hex_digit_char(u % 16));
            assert(r@ =~= seq![
                '\\',
                'u',
                '0',
                '0',
                hex_digit(u as int / 16),
                hex_digit(u as int % 16),
            ]);
        } else {
            r.push(c);
            assert(r@ =~= seq![c]);
        }
    }
    r
}

/// The characters of a text escaped for a JSON string literal.
fn escape_chars(v: &Vec<char>) -> (r: Vec<char>)
    ensures
        r@ == escape_spec(v@),
{
    let mut r: Vec<char> = Vec::new();
    let mut i: usize = 0;
    proof {
        assert(v@.skip(0) =~= v@);
    }
    while i < v.len()
        invariant
            i <= v@.len(),
            escape_spec(v@) == r@ + escape_spec(v@.skip(i as int)),
        decreases v@.len() - i,
    {
        proof {
            let rest = v@.skip(i as int);
            assert(rest[0] == v@[i as int]);
            assert(rest.drop_first() =~= v@.skip(i + 1));
        }
        let piece = escape_char_vec(v[i]);
        extend(&mut r, &piece);
        i = i + 1;
    }
    proof {
        assert(v@.skip(v@.len() as int) =~= Seq::<char>::empty());
        assert(escape_spec(v@) =~= r@);
    }
    r
}

/// The JSON string literal for a text.
fn quoted_chars(s: &String) -> (r: Vec<char>)
    ensures
        r@ == quoted_spec(s@),
{
    let cs = chars_of(s.as_str());
    let esc = escape_chars(&cs);
    let mut r: Vec<char> = Vec::new();
    r.push('"');
    extend(&mut r, &esc);
    r.push('"');
    assert(r@ =~= quoted_spec(s@));
    r
}
/// The later elements of a JSON array of strings, each preceded by a comma.
pub open spec fn list_rest_spec(items: Seq<Seq<char>>) -> Seq<char>
    decreases items.len(),
{
    if items.len() == 0 {
        Seq::<char>::empty()
    } else {
        seq![','] + quoted_spec(items[0]) + list_rest_spec(items.drop_first())
    }
}

/// The elements of a JSON array of strings, comma-separated.
pub open spec fn list_items_spec(items: Seq<Seq<char>>) -> Seq<char> {
    if items.len() == 0 {
        Seq::<char>::empty()
    } else {
        quoted_spec(items[0]) + list_rest_spec(items.drop_first())
    }
}

proof fn lemma_list_rest_push(s: Seq<Seq<char>>, x: Seq<char>)
    ensures
        list_rest_spec(s.push(x)) == list_rest_spec(s) + seq![','] + quoted_spec(x),
    decreases s.len(),
{
    if s.len() == 0 {
        assert(s.push(x)[0] == x);
        assert(s.push(x).drop_first() =~= Seq::<Seq<char>>::empty());
        assert(s =~= Seq::<Seq<char>>::empty());
        assert(list_rest_spec(Seq::<Seq<char>>::empty()) == Seq::<char>::empty());
        assert(list_rest_spec(s.push(x)) =~= list_rest_spec(s) + seq![','] + quoted_spec(x));
    } else {
        assert(s.push(x)[0] == s[0]);
        assert(s.push(x).drop_first() =~= s.drop_first().push(x));
        lemma_list_rest_push(s.drop_first(), x);
        assert(list_rest_spec(s.push(x)) =~= list_rest_spec(s) + seq![','] + quoted_spec(x));
    }
}

/// The JSON array holding the given strings in order.
fn list_json_chars(l: &Vec<String>) -> (r: Vec<char>)
    ensures
        r@ == seq!['['] + list_items_spec(views_of_strings(l@)) + seq![']'],
{
    let ghost lv = views_of_strings(l@);
    let mut out: Vec<char> = Vec::new();
    out.push('[');
    if l.len() > 0 {
        let q0 = quoted_chars(&l[0]);
        extend(&mut out, &q0);
        proof {
            assert(lv[0] == l@[0]@);
            assert(lv.subrange(1, 1) =~= Seq::<Seq<char>>::empty());
            assert(out@ =~= seq!['['] + quoted_spec(lv[0]) + list_rest_spec(lv.subrange(1, 1)));
        }
        let mut i: usize = 1;
        while i < l.len()
            invariant
                1 <= i <= l@.len(),
                lv == views_of_strings(l@),
                lv.len() == l@.len(),
                out@ == seq!['['] + quoted_spec(lv[0]) + list_rest_spec(lv.subrange(1, i as int)),
            decreases l@.len() - i,
        {
            out.push(',');
            let qi = quoted_chars(&l[i]);
            extend(&mut out, &qi);
            proof {
                assert(lv[i as int] == l@[i as int]@);
                assert(lv.subrange(1, i + 1) =~= lv.subrange(1, i as int).push(lv[i as int]));
                lemma_list_rest_push(lv.subrange(1, i as int), lv[i as int]);
                assert(out@ =~= seq!['['] + quoted_spec(lv[0]) + list_rest_spec(
                    lv.subrange(1, i + 1),
                ));
            }
            i = i + 1;
        }
        out.push(']');
        proof {
            assert(lv.subrange(1, lv.len() as int) =~= lv.drop_first());
            assert(out@ =~= seq!['['] + list_items_spec(lv) + seq![']']);
        }
    } else {
        out.push(']');
        proof {
            assert(lv.len() == 0);
            assert(out@ =~= seq!['['] + list_items_spec(lv) + seq![']']);
        }
    }
    out
}

/// One member of a JSON object of string pairs.
pub open spec fn pair_json_spec(p: (String, String)) -> Seq<char> {
    quoted_spec(p.0@) + seq![':'] + quoted_spec(p.1@)
}

/// The later members of a JSON object of string pairs, each preceded by a comma.
pub open spec fn table_rest_spec(pairs: Seq<(String, String)>) -> Seq<char>
    decreases pairs.len(),
{
    if pairs.len() == 0 {
        Seq::<char>::empty()
    } else {
        seq![','] + pair_json_spec(pairs[0]) + table_rest_spec(pairs.drop_first())
    }
}

/// The members of a JSON object of string pairs, comma-separated, in order.
pub open spec fn table_items_spec(pairs: Seq<(String, String)>) -> Seq<char> {
    if pairs.len() == 0 {
        Seq::<char>::empty()
    } else {
        pair_json_spec(pairs[0]) + table_rest_spec(pairs.drop_first())
    }
}

proof fn lemma_table_rest_push(s: Seq<(String, String)>, x: (String, String))
    ensures
        table_rest_spec(s.push(x)) == table_rest_spec(s) + seq![','] + pair_json_spec(x),
    decreases s.len(),
{
    if s.len() == 0 {
        assert(s.push(x)[0] == x);
        assert(s.push(x).drop_first() =~= Seq::<(String, String)>::empty());
        assert(s =~= Seq::<(String, String)>::empty());
        assert(table_rest_spec(Seq::<(String, String)>::empty()) == Seq::<char>::empty());
        assert(table_rest_spec(s.push(x)) =~= table_rest_spec(s) + seq![','] + pair_json_spec(x));
    } else {
        assert(s.push(x)[0] == s[0]);
        assert(s.push(x).drop_first() =~= s.drop_first().push(x));
        lemma_table_rest_push(s.drop_first(), x);
        assert(table_rest_spec(s.push(x)) =~= table_rest_spec(s) + seq![','] + pair_json_spec(x));
    }
}

fn pair_json_chars(p: &(String, String)) -> (r: Vec<char>)
    ensures
        r@ == pair_json_spec(*p),
{
    let mut out: Vec<char> = Vec::new();
    let qk = quoted_chars(&p.0);
    extend(&mut out, &qk);
    out.push(':');
    let qv = quoted_chars(&p.1);
    extend(&mut out, &qv);
    assert(out@ =~= pair_json_spec(*p));
    out
}

/// The JSON object holding the given string pairs in order.
fn table_json_chars(t: &Vec<(String, String)>) -> (r: Vec<char>)
    ensures
        r@ == seq!['{'] + table_items_spec(t@) + seq!['}'],
{
    let mut out: Vec<char> = Vec::new();
    out.push('{');
    if t.len() > 0 {
        let q0 = pair_json_chars(&t[0]);
        extend(&mut out, &q0);
        proof {
            assert(t@.subrange(1, 1) =~= Seq::<(String, String)>::empty());
            assert(out@ =~= seq!['{'] + pair_json_spec(t@[0]) + table_rest_spec(
                t@.subrange(1, 1),
            ));
        }
        let mut i: usize = 1;
        while i < t.len()
            invariant
                1 <= i <= t@.len(),
                out@ == seq!['{'] + pair_json_spec(t@[0]) + table_rest_spec(
                    t@.subrange(1, i as int),
                ),
            decreases t@.len() - i,
        {
            out.push(',');
            let qi = pair_json_chars(&t[i]);
            extend(&mut out, &qi);
            proof {
                assert(t@.subrange(1, i + 1) =~= t@.subrange(1, i as int).push(t@[i as int]));
                lemma_table_rest_push(t@.subrange(1, i as int), t@[i as int]);
                assert(out@ =~= seq!['{'] + pair_json_spec(t@[0]) + table_rest_spec(
                    t@.subrange(1, i + 1),
                ));
            }
            i = i + 1;
        }
        out.push('}');
        proof {
            assert(t@.subrange(1, t@.len() as int) =~= t@.drop_first());
            assert(out@ =~= seq!['{'] + table_items_spec(t@) + seq!['}']);
        }
    } else {
        out.push('}');
        proof {
            assert(out@ =~= seq!['{'] + table_items_spec(t@) + seq!['}']);
        }
    }
    out
}

/// A context value's JSON rendering: a string literal, an array of strings,
/// an object of string pairs, or an object source text spliced in verbatim.
pub open spec fn value_json_spec(v: ContextValue) -> Seq<char> {
    match v {
        ContextValue::Text(s) => quoted_spec(s@),
        ContextValue::TextList(l) => seq!['['] + list_items_spec(views_of_strings(l@)) + seq![']'],
        ContextValue::Table(t) => seq!['{'] + table_items_spec(t@) + seq!['}'],
        ContextValue::ObjectText(s) => s@,
    }
}

fn value_json_chars(v: &ContextValue) -> (r: Vec<char>)
    ensures
        r@ == value_json_spec(*v),
{
    match v {
        ContextValue::Text(s) => quoted_chars(s),
        ContextValue::TextList(l) => list_json_chars(l),
        ContextValue::Table(t) => table_json_chars(t),
        ContextValue::ObjectText(s) => chars_of(s.as_str()),
    }
}

/// One member of the context's compact JSON object.
pub open spec fn entry_json_spec(e: (String, ContextValue)) -> Seq<char> {
    quoted_spec(e.0@) + seq![':'] + value_json_spec(e.1)
}

/// The later members of the context's compact JSON object.
pub open spec fn entries_rest_spec(es: Seq<(String, ContextValue)>) -> Seq<char>
    decreases es.len(),
{
    if es.len() == 0 {
        Seq::<char>::empty()
    } else {
        seq![','] + entry_json_spec(es[0]) + entries_rest_spec(es.drop_first())
    }
}

/// The members of the context's compact JSON object, in insertion order.
pub open spec fn entries_items_spec(es: Seq<(String, ContextValue)>) -> Seq<char> {
    if es.len() == 0 {
        Seq::<char>::empty()
    } else {
        entry_json_spec(es[0]) + entries_rest_spec(es.drop_first())
    }
}

/// The context's compact JSON object, fed to the template engine as data.
pub open spec fn context_json_spec(ctx: Context) -> Seq<char> {
    seq!['{'] + entries_items_spec(ctx.entries@) + seq!['}']
}

proof fn lemma_entries_rest_push(s: Seq<(String, ContextValue)>, x: (String, ContextValue))
    ensures
        entries_rest_spec(s.push(x)) == entries_rest_spec(s) + seq![','] + entry_json_spec(x),
    decreases s.len(),
{
    if s.len() == 0 {
        assert(s.push(x)[0] == x);
        assert(s.push(x).drop_first() =~= Seq::<(String, ContextValue)>::empty());
        assert(s =~= Seq::<(String, ContextValue)>::empty());
        assert(entries_rest_spec(Seq::<(String, ContextValue)>::empty()) == Seq::<char>::empty());
        assert(entries_rest_spec(s.push(x)) =~= entries_rest_spec(s) + seq![','] + entry_json_spec(
            x,
        ));
    } else {
        assert(s.push(x)[0] == s[0]);
        assert(s.push(x).drop_first() =~= s.drop_first().push(x));
        lemma_entries_rest_push(s.drop_first(), x);
        assert(entries_rest_spec(s.push(x)) =~= entries_rest_spec(s) + seq![','] + entry_json_spec(
            x,
        ));
    }
}

fn entry_json_chars(e: &(String, ContextValue)) -> (r: Vec<char>)
    ensures
        r@ == entry_json_spec(*e),
{
    let mut out: Vec<char> = Vec::new();
    let qk = quoted_chars(&e.0);
    extend(&mut out, &qk);
    out.push(':');
    let qv = value_json_chars(&e.1);
    extend(&mut out, &qv);
    assert(out@ =~= entry_json_spec(*e));
    out
}

/// The context rendered as one compact JSON object.
pub fn context_json(ctx: &Context) -> (r: String)
    ensures
        r@ == context_json_spec(*ctx),
{
    let es = &ctx.entries;
    let mut out: Vec<char> = Vec::new();
    out.push('{');
    if es.len() > 0 {
        let q0 = entry_json_chars(&es[0]);
        extend(&mut out, &q0);
        proof {
            assert(es@.subrange(1, 1) =~= Seq::<(String, ContextValue)>::empty());
            assert(out@ =~= seq!['{'] + entry_json_spec(es@[0]) + entries_rest_spec(
                es@.subrange(1, 1),
            ));
        }
        let mut i: usize = 1;
        while i < es.len()
            invariant
                1 <= i <= es@.len(),
                es == &ctx.entries,
                out@ == seq!['{'] + entry_json_spec(es@[0]) + entries_rest_spec(
                    es@.subrange(1, i as int),
                ),
            decreases es@.len() - i,
        {
            out.push(',');
            let qi = entry_json_chars(&es[i]);
            extend(&mut out, &qi);
            proof {
                assert(es@.subrange(1, i + 1) =~= es@.subrange(1, i as int).push(es@[i as int]));
                lemma_entries_rest_push(es@.subrange(1, i as int), es@[i as int]);
                assert(out@ =~= seq!['{'] + entry_json_spec(es@[0]) + entries_rest_spec(
                    es@.subrange(1, i + 1),
                ));
            }
            i = i + 1;
        }
        out.push('}');
        proof {
            assert(es@.subrange(1, es@.len() as int) =~= es@.drop_first());
            assert(out@ =~= context_json_spec(*ctx));
        }
    } else {
        out.push('}');
        proof {
            assert(out@ =~= context_json_spec(*ctx));
        }
    }
    string_of(&out)
}

/// One member of the pretty dump: indented, with a space after the colon.
pub open spec fn pretty_entry_spec(e: (String, ContextValue)) -> Seq<char> {
    seq![' ', ' '] + quoted_spec(e.0@) + seq![':', ' '] + value_json_spec(e.1)
}

/// The later members of the pretty dump, one per line.
pub open spec fn pretty_rest_spec(es: Seq<(String, ContextValue)>) -> Seq<char>
    decreases es.len(),
{
    if es.len() == 0 {
        Seq::<char>::empty()
    } else {
        seq![',', '\n'] + pretty_entry_spec(es[0]) + pretty_rest_spec(es.drop_first())
    }
}

/// The members of the pretty dump, one per line, in insertion order.
pub open spec fn pretty_items_spec(es: Seq<(String, ContextValue)>) -> Seq<char> {
    if es.len() == 0 {
        Seq::<char>::empty()
    } else {
        pretty_entry_spec(es[0]) + pretty_rest_spec(es.drop_first())
    }
}

/// The context's pretty-printed JSON dump: one member per line, indented,
/// values in their compact form.
pub open spec fn context_pretty_spec(ctx: Context) -> Seq<char> {
    seq!['{', '\n'] + pretty_items_spec(ctx.entries@) + seq!['\n', '}']
}

proof fn lemma_pretty_rest_push(s: Seq<(String, ContextValue)>, x: (String, ContextValue))
    ensures
        pretty_rest_spec(s.push(x)) == pretty_rest_spec(s) + seq![',', '\n'] + pretty_entry_spec(x),
    decreases s.len(),
{
    if s.len() == 0 {
        assert(s.push(x)[0] == x);
        assert(s.push(x).drop_first() =~= Seq::<(String, ContextValue)>::empty());
        assert(s =~= Seq::<(String, ContextValue)>::empty());
        assert(pretty_rest_spec(Seq::<(String, ContextValue)>::empty()) == Seq::<char>::empty());
        assert(pretty_rest_spec(s.push(x)) =~= pretty_rest_spec(s) + seq![',', '\n']
            + pretty_entry_spec(x));
    } else {
        assert(s.push(x)[0] == s[0]);
        assert(s.push(x).drop_first() =~= s.drop_first().push(x));
        lemma_pretty_rest_push(s.drop_first(), x);
        assert(pretty_rest_spec(s.push(x)) =~= pretty_rest_spec(s) + seq![',', '\n']
            + pretty_entry_spec(x));
    }
}

fn pretty_entry_chars(e: &(String, ContextValue)) -> (r: Vec<char>)
    ensures
        r@ == pretty_entry_spec(*e),
{
    let mut out: Vec<char> = Vec::new();
    out.push(' ');
    out.push(' ');
    let qk = quoted_chars(&e.0);
    extend(&mut out, &qk);
    out.push(':');
    out.push(' ');
    let qv = value_json_chars(&e.1);
    extend(&mut out, &qv);
    assert(out@ =~= pretty_entry_spec(*e));
    out
}

/// The context rendered as pretty-printed JSON for the debug dump.
pub fn context_json_pretty(ctx: &Context) -> (r: String)
    ensures
        r@ == context_pretty_spec(*ctx),
{
    let es = &ctx.entries;
    let mut out: Vec<char> = Vec::new();
    out.push('{');
    out.push('\n');
    if es.len() > 0 {
        let q0 = pretty_entry_chars(&es[0]);
        extend(&mut out, &q0);
        proof {
            assert(es@.subrange(1, 1) =~= Seq::<(String, ContextValue)>::empty());
            assert(out@ =~= seq!['{', '\n'] + pretty_entry_spec(es@[0]) + pretty_rest_spec(
                es@.subrange(1, 1),
            ));
        }
        let mut i: usize = 1;
        while i < es.len()
            invariant
                1 <= i <= es@.len(),
                es == &ctx.entries,
                out@ == seq!['{', '\n'] + pretty_entry_spec(es@[0]) + pretty_rest_spec(
                    es@.subrange(1, i as int),
                ),
            decreases es@.len() - i,
        {
            out.push(',');
            out.push('\n');
            let qi = pretty_entry_chars(&es[i]);
            extend(&mut out, &qi);
            proof {
                assert(es@.subrange(1, i + 1) =~= es@.subrange(1, i as int).push(es@[i as int]));
                lemma_pretty_rest_push(es@.subrange(1, i as int), es@[i as int]);
                assert(out@ =~= seq!['{', '\n'] + pretty_entry_spec(es@[0]) + pretty_rest_spec(
                    es@.subrange(1, i + 1),
                ));
            }
            i = i + 1;
        }
        out.push('\n');
        out.push('}');
        proof {
            assert(es@.subrange(1, es@.len() as int) =~= es@.drop_first());
            assert(out@ =~= context_pretty_spec(*ctx));
        }
    } else {
        out.push('\n');
        out.push('}');
        proof {
            assert(out@ =~= context_pretty_spec(*ctx));
        }
    }
    string_of(&out)
}

} // verus!
