//! Character-level text processing shared by the metadata queries: the
//! whitespace trimming applied to every captured command output, and the
//! line splitting applied to tag listings.
use vstd::prelude::*;

verus! {

/// The Unicode `White_Space` characters, the set `str::trim` removes.
pub open spec fn is_space_char(c: char) -> bool {
    c == ' ' || c == '\t' || c == '\n' || c == '\u{0B}' || c == '\u{0C}' || c == '\r'
        || c == '\u{85}' || c == '\u{A0}' || c == '\u{1680}'
        || (0x2000 <= c as u32 && c as u32 <= 0x200A)
        || c == '\u{2028}' || c == '\u{2029}' || c == '\u{202F}' || c == '\u{205F}'
        || c == '\u{3000}'
}

pub fn is_space(c: char) -> (r: bool)
    ensures
        r == is_space_char(c),
{
    let u = c as u32;
    c == ' ' || c == '\t' || c == '\n' || c == '\u{0B}' || c == '\u{0C}' || c == '\r'
        || c == '\u{85}' || c == '\u{A0}' || c == '\u{1680}'
        || (0x2000 <= u && u <= 0x200A)
        || c == '\u{2028}' || c == '\u{2029}' || c == '\u{202F}' || c == '\u{205F}'
        || c == '\u{3000}'
}

/// The text with its leading whitespace removed.
pub open spec fn trim_start_spec(s: Seq<char>) -> Seq<char>
    decreases s.len(),
{
    if s.len() > 0 && is_space_char(s[0]) {
        trim_start_spec(s.drop_first())
    } else {
        s
    }
}

/// The text with its trailing whitespace removed.
pub open spec fn trim_end_spec(s: Seq<char>) -> Seq<char>
    decreases s.len(),
{
    if s.len() > 0 && is_space_char(s[s.len() - 1]) {
        trim_end_spec(s.drop_last())
    } else {
        s
    }
}

/// The text with surrounding whitespace removed, as `str::trim` leaves it.
pub open spec fn trim_spec(s: Seq<char>) -> Seq<char> {
    trim_end_spec(trim_start_spec(s))
}

proof fn lemma_trim_start_at(s: Seq<char>, lo: int)
    requires
        0 <= lo <= s.len(),
        forall|i: int| 0 <= i < lo ==> is_space_char(s[i]),
        lo == s.len() || !is_space_char(s[lo]),
    ensures
        trim_start_spec(s) == s.subrange(lo, s.len() as int),
    decreases lo,
{
    if lo == 0 {
        assert(s.subrange(0, s.len() as int) =~= s);
    } else {
        lemma_trim_start_at(s.drop_first(), lo - 1);
        assert(s.drop_first().subrange(lo - 1, s.drop_first().len() as int)
            =~= s.subrange(lo, s.len() as int));
    }
}

proof fn lemma_trim_end_at(s: Seq<char>, hi: int)
    requires
        0 <= hi <= s.len(),
        forall|i: int| hi <= i < s.len() ==> is_space_char(s[i]),
        hi == 0 || !is_space_char(s[hi - 1]),
    ensures
        trim_end_spec(s) == s.subrange(0, hi),
    decreases s.len() - hi,
{
    if hi == s.len() {
        assert(s.subrange(0, s.len() as int) =~= s);
    } else {
        lemma_trim_end_at(s.drop_last(), hi);
        assert(s.drop_last().subrange(0, hi) =~= s.subrange(0, hi));
    }
}

/// Trimming removes nothing from a text that has no surrounding whitespace.
proof fn lemma_trim_fixed(s: Seq<char>)
    requires
        s.len() == 0 || (!is_space_char(s[0]) && !is_space_char(s[s.len() - 1])),
    ensures
        trim_spec(s) == s,
{
    lemma_trim_start_at(s, 0);
    assert(s.subrange(0, s.len() as int) =~= s);
    lemma_trim_end_at(s, s.len() as int);
}

/// A trimmed text is either empty or free of whitespace at both ends,
/// so trimming it again changes nothing.
pub proof fn lemma_trim_idempotent(s: Seq<char>)
    ensures
        trim_spec(trim_spec(s)) == trim_spec(s),
{
    lemma_trim_start_props(s);
    let t = trim_start_spec(s);
    lemma_trim_end_props(t);
    lemma_trim_end_keeps_first(t);
    lemma_trim_fixed(trim_end_spec(t));
}

proof fn lemma_trim_start_props(s: Seq<char>)
    ensures
        trim_start_spec(s).len() == 0 || !is_space_char(trim_start_spec(s)[0]),
    decreases s.len(),
{
    if s.len() > 0 && is_space_char(s[0]) {
        lemma_trim_start_props(s.drop_first());
    }
}

proof fn lemma_trim_end_props(s: Seq<char>)
    ensures
        trim_end_spec(s).len() == 0
            || !is_space_char(trim_end_spec(s)[trim_end_spec(s).len() - 1]),
    decreases s.len(),
{
    if s.len() > 0 && is_space_char(s[s.len() - 1]) {
        lemma_trim_end_props(s.drop_last());
    }
}

proof fn lemma_trim_end_keeps_first(s: Seq<char>)
    requires
        s.len() == 0 || !is_space_char(s[0]),
    ensures
        trim_end_spec(s).len() == 0 || !is_space_char(trim_end_spec(s)[0]),
    decreases s.len(),
{
    if s.len() > 0 && is_space_char(s[s.len() - 1]) {
        if s.len() > 1 {
            assert(s.drop_last()[0] == s[0]);
        }
        lemma_trim_end_keeps_first(s.drop_last());
    }
}

/// The characters of a text, in order.
pub fn chars_of(s: &str) -> (r: Vec<char>)
    ensures
        r@ == s@,
{
    let n = s.unicode_len();
    let mut r: Vec<char> = Vec::new();
    let mut i: usize = 0;
    while i < n
        invariant
            n == s@.len(),
            i <= n,
            r@ == s@.subrange(0, i as int),
        decreases n - i,
    {
        r.push(s.get_char(i));
        assert(r@ =~= s@.subrange(0, i + 1));
        i = i + 1;
    }
    assert(r@ =~= s@);
    r
}

/// Relies on `String::push`: appends exactly the given character.
#[verifier::external_body]
fn push_char(s: &mut String, c: char)
    ensures
        final(s)@ == old(s)@.push(c),
{
    s.push(c);
}

/// A `String` holding exactly the given characters.
pub fn string_of(v: &Vec<char>) -> (r: String)
    ensures
        r@ == v@,
{
    let mut r = String::new();
    let mut i: usize = 0;
    while i < v.len()
        invariant
            i <= v@.len(),
            r@ == v@.subrange(0, i as int),
        decreases v@.len() - i,
    {
        push_char(&mut r, v[i]);
        assert(r@ =~= v@.subrange(0, i + 1));
        i = i + 1;
    }
    assert(r@ =~= v@);
    r
}

/// The characters of the text with surrounding whitespace removed.
pub fn trim_chars(v: &Vec<char>) -> (r: Vec<char>)
    ensures
        r@ == trim_spec(v@),
{
    let n = v.len();
    let mut lo: usize = 0;
    while lo < n && is_space(v[lo])
        invariant
            lo <= n,
            n == v@.len(),
            forall|i: int| 0 <= i < lo ==> is_space_char(v@[i]),
        decreases n - lo,
    {
        lo = lo + 1;
    }
    let mut hi: usize = n;
    while hi > lo && is_space(v[hi - 1])
        invariant
            lo <= hi <= n,
            n == v@.len(),
            forall|i: int| hi <= i < n ==> is_space_char(v@[i]),
        decreases hi,
    {
        hi = hi - 1;
    }
    let mut r: Vec<char> = Vec::new();
    let mut i: usize = lo;
    while i < hi
        invariant
            lo <= i <= hi <= n,
            n == v@.len(),
            r@ == v@.subrange(lo as int, i as int),
        decreases hi - i,
    {
        r.push(v[i]);
        assert(r@ =~= v@.subrange(lo as int, i + 1));
        i = i + 1;
    }
    proof {
        lemma_trim_start_at(v@, lo as int);
        let t = v@.subrange(lo as int, n as int);
        lemma_trim_end_at(t, hi - lo);
        assert(t.subrange(0, hi - lo) =~= v@.subrange(lo as int, hi as int));
    }
    r
}

/// The text with surrounding whitespace removed, as `str::trim` returns it.
pub fn trim_string(s: &str) -> (r: String)
    ensures
        r@ == trim_spec(s@),
{
    let cs = chars_of(s);
    let t = trim_chars(&cs);
    string_of(&t)
}

/// The pieces of the text between occurrences of the given character; a text
/// without it is one piece, and every separator ends a piece, so `n`
/// separators give `n + 1` pieces.
pub open spec fn split_char_spec(s: Seq<char>, c: char) -> Seq<Seq<char>>
    decreases s.len(),
{
    if s.len() == 0 {
        seq![Seq::<char>::empty()]
    } else if s[0] == c {
        seq![Seq::<char>::empty()] + split_char_spec(s.drop_first(), c)
    } else {
        let r = split_char_spec(s.drop_first(), c);
        r.update(0, seq![s[0]] + r[0])
    }
}

proof fn lemma_split_char_nonempty(s: Seq<char>, c: char)
    ensures
        split_char_spec(s, c).len() >= 1,
    decreases s.len(),
{
    if s.len() > 0 {
        lemma_split_char_nonempty(s.drop_first(), c);
    }
}

/// The character sequences held by a list of character vectors.
pub open spec fn views_of_vecs(v: Seq<Vec<char>>) -> Seq<Seq<char>> {
    v.map_values(|x: Vec<char>| x@)
}

/// The character sequences held by a list of strings.
pub open spec fn views_of_strings(v: Seq<String>) -> Seq<Seq<char>> {
    v.map_values(|x: String| x@)
}

proof fn lemma_views_vecs_push(v: Seq<Vec<char>>, x: Vec<char>)
    ensures
        views_of_vecs(v.push(x)) == views_of_vecs(v).push(x@),
{
    v.lemma_push_map_commute(|y: Vec<char>| y@, x);
}

pub(crate) proof fn lemma_views_strings_push(v: Seq<String>, x: String)
    ensures
        views_of_strings(v.push(x)) == views_of_strings(v).push(x@),
{
    v.lemma_push_map_commute(|y: String| y@, x);
}

/// The split with the given piece glued onto the front of its first piece.
spec fn prepend_first(p: Seq<char>, ss: Seq<Seq<char>>) -> Seq<Seq<char>> {
    ss.update(0, p + ss[0])
}

/// The pieces of the text between newline characters.
pub fn split_lines(v: &Vec<char>) -> (r: Vec<Vec<char>>)
    ensures
        views_of_vecs(r@) == split_char_spec(v@, '\n'),
{
    let mut done: Vec<Vec<char>> = Vec::new();
    let mut cur: Vec<char> = Vec::new();
    let mut i: usize = 0;
    proof {
        lemma_split_char_nonempty(v@, '\n');
        assert(v@.skip(0) =~= v@);
        assert(prepend_first(cur@, split_char_spec(v@, '\n'))
            =~~= split_char_spec(v@, '\n'));
        assert(views_of_vecs(done@) =~~= Seq::<Seq<char>>::empty());
    }
    while i < v.len()
        invariant
            i <= v@.len(),
            split_char_spec(v@, '\n') =~~= views_of_vecs(done@) + prepend_first(
                cur@,
                split_char_spec(v@.skip(i as int), '\n'),
            ),
        decreases v@.len() - i,
    {
        let x = v[i];
        proof {
            let rest = v@.skip(i as int);
            assert(rest.len() > 0);
            assert(rest[0] == v@[i as int]);
            assert(rest.drop_first() =~= v@.skip(i + 1));
            lemma_split_char_nonempty(v@.skip(i + 1), '\n');
        }
        if x == '\n' {
            proof {
                let rest1 = split_char_spec(v@.skip(i + 1), '\n');
                assert(prepend_first(cur@, seq![Seq::<char>::empty()] + rest1)
                    =~~= seq![cur@] + rest1);
                lemma_views_vecs_push(done@, cur);
                assert(prepend_first(Seq::<char>::empty(), rest1) =~~= rest1);
            }
            let finished = cur;
            done.push(finished);
            cur = Vec::new();
        } else {
            proof {
                let rest1 = split_char_spec(v@.skip(i + 1), '\n');
                assert(prepend_first(cur@, rest1.update(0, seq![x] + rest1[0]))
                    =~~= prepend_first(cur@.push(x), rest1));
            }
            cur.push(x);
        }
        i = i + 1;
    }
    proof {
        assert(v@.skip(v@.len() as int) =~= Seq::<char>::empty());
        assert(prepend_first(cur@, split_char_spec(Seq::<char>::empty(), '\n'))
            =~~= seq![cur@]);
        lemma_views_vecs_push(done@, cur);
    }
    done.push(cur);
    done
}

/// Each line trimmed, the empty ones dropped, order kept.
pub open spec fn tags_filter_spec(lines: Seq<Seq<char>>) -> Seq<Seq<char>>
    decreases lines.len(),
{
    if lines.len() == 0 {
        Seq::<Seq<char>>::empty()
    } else {
        let t = trim_spec(lines[0]);
        let rest = tags_filter_spec(lines.drop_first());
        if t.len() > 0 {
            seq![t] + rest
        } else {
            rest
        }
    }
}

/// The tag names read from a tag listing: one per line, trimmed, with empty
/// lines dropped and the listing's order kept.
pub open spec fn tags_spec(s: Seq<char>) -> Seq<Seq<char>> {
    tags_filter_spec(split_char_spec(s, '\n'))
}

/// Every tag name a listing yields is non-empty and carries no surrounding
/// whitespace.
pub proof fn lemma_tags_filter_items(lines: Seq<Seq<char>>)
    ensures
        forall|i: int|
            0 <= i < tags_filter_spec(lines).len() ==> (#[trigger] tags_filter_spec(
                lines,
            )[i]).len() > 0 && tags_filter_spec(lines)[i] == trim_spec(tags_filter_spec(lines)[i]),
    decreases lines.len(),
{
    if lines.len() > 0 {
        lemma_tags_filter_items(lines.drop_first());
        lemma_trim_idempotent(lines[0]);
        let t = trim_spec(lines[0]);
        let rest = tags_filter_spec(lines.drop_first());
        if t.len() > 0 {
            assert forall|i: int| 0 <= i < tags_filter_spec(lines).len() implies (
            #[trigger] tags_filter_spec(lines)[i]).len() > 0 && tags_filter_spec(lines)[i]
                == trim_spec(tags_filter_spec(lines)[i]) by {
                if i > 0 {
                    assert(tags_filter_spec(lines)[i] == rest[i - 1]);
                }
            }
        }
    }
}

/// The tag names in a captured tag listing.
pub fn tag_lines(s: &str) -> (r: Vec<String>)
    ensures
        views_of_strings(r@) == tags_spec(s@),
{
    let cs = chars_of(s);
    let lines = split_lines(&cs);
    let ghost lv = views_of_vecs(lines@);
    let mut out: Vec<String> = Vec::new();
    let mut j: usize = 0;
    proof {
        assert(lv.skip(0) =~~= lv);
        assert(views_of_strings(out@) =~~= Seq::<Seq<char>>::empty());
    }
    while j < lines.len()
        invariant
            j <= lines@.len(),
            lv == views_of_vecs(lines@),
            tags_spec(s@) =~~= views_of_strings(out@) + tags_filter_spec(
                lv.skip(j as int),
            ),
        decreases lines@.len() - j,
    {
        proof {
            assert(lv.skip(j as int).len() > 0);
            assert(lv.skip(j as int)[0] == lv[j as int]);
            assert(lv[j as int] == lines@[j as int]@);
            assert(lv.skip(j as int).drop_first() =~~= lv.skip(j + 1));
        }
        let t = trim_chars(&lines[j]);
        if t.len() > 0 {
            let tag = string_of(&t);
            proof {
                lemma_views_strings_push(out@, tag);
            }
            out.push(tag);
        }
        j = j + 1;
    }
    proof {
        assert(lv.skip(lv.len() as int) =~~= Seq::<Seq<char>>::empty());
    }
    out
}

/// The ten decimal digit characters.
pub open spec fn dec_digit(d: int) -> char {
    if d == 0 { '0' } else if d == 1 { '1' } else if d == 2 { '2' } else if d == 3 { '3' }
    else if d == 4 { '4' } else if d == 5 { '5' } else if d == 6 { '6' } else if d == 7 { '7' }
    else if d == 8 { '8' } else { '9' }
}

/// The decimal digits of a number, most significant first, without sign or
/// padding, as the standard formatting of an unsigned integer writes them.
pub open spec fn dec_str_spec(n: int) -> Seq<char>
    decreases n,
{
    if n < 10 {
        seq![dec_digit(n)]
    } else {
        dec_str_spec(n / 10).push(dec_digit(n % 10))
    }
}

fn dec_digit_char(d: usize) -> (c: char)
    requires
        d < 10,
    ensures
        c == dec_digit(d as int),
{
    match d {
        0 => '0',
        1 => '1',
        2 => '2',
        3 => '3',
        4 => '4',
        5 => '5',
        6 => '6',
        7 => '7',
        8 => '8',
        _ => '9',
    }
}

/// The decimal rendering of a number.
pub fn usize_string(n: usize) -> (r: String)
    ensures
        r@ == dec_str_spec(n as int),
    decreases n,
{
    if n < 10 {
        let mut r = String::new();
        push_char(&mut r, dec_digit_char(n));
        proof {
            assert(r@ =~= seq![dec_digit(n as int)]);
        }
        r
    } else {
        proof {
            assert(n / 10 < n && n / 10 >= 1) by (nonlinear_arith)
                requires n >= 10;
        }
        let mut r = usize_string(n / 10);
        push_char(&mut r, dec_digit_char(n % 10));
        r
    }
}

} // verus!
