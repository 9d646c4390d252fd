//! Text operations with exact contracts.
//!
//! A string is modelled by its sequence of characters. Each operation has a
//! `spec` function over such sequences and an executable function proved equal to it.

use vstd::prelude::*;
use vstd::utf8::{decode_utf8, encode_utf8};

use crate::seqs;

verus! {

/// `String::push` of the standard library: the character is appended.
pub assume_specification[ String::push ](s: &mut String, c: char)
    ensures
        final(s)@ == old(s)@.push(c),
;

// ---------------------------------------------------------------------------
// Equality and conversion
// ---------------------------------------------------------------------------

/// Whether two strings hold the same characters.
pub fn same(a: &str, b: &str) -> (r: bool)
    ensures
        r == (a@ == b@),
{
    broadcast use vstd::utf8::encode_utf8_decode_utf8;

    let x = a.as_bytes();
    let y = b.as_bytes();
    if x.len() != y.len() {
        return false;
    }
    let mut i: usize = 0;
    while i < x.len()
        invariant
            i <= x.len(),
            x.len() == y.len(),
            x@ == encode_utf8(a@),
            y@ == encode_utf8(b@),
            forall|k: int| 0 <= k < i ==> x@[k] == y@[k],
        decreases x.len() - i,
    {
        if x[i] != y[i] {
            return false;
        }
        i += 1;
    }
    assert(x@ =~= y@);
    assert(a@ == decode_utf8(encode_utf8(a@)));
    assert(b@ == decode_utf8(encode_utf8(b@)));
    true
}

/// The characters of a string.
pub fn chars(s: &str) -> (v: Vec<char>)
    ensures
        v@ == s@,
{
    let mut v: Vec<char> = Vec::new();
    for c in it: s.chars()
        invariant
            it.seq() == s@,
            v@ == s@.take(it.index() as int),
    {
        proof {
            seqs::take_step(s@, it.index() as int);
        }
        v.push(c);
    }
    proof {
        seqs::take_ends(s@);
    }
    v
}

/// The string made of the characters `from..to` of `v`.
pub fn slice(v: &Vec<char>, from: usize, to: usize) -> (s: String)
    requires
        from <= to <= v@.len(),
    ensures
        s@ == v@.subrange(from as int, to as int),
{
    let mut s = String::new();
    let mut i: usize = from;
    while i < to
        invariant
            from <= i <= to <= v@.len(),
            s@ == v@.subrange(from as int, i as int),
        decreases to - i,
    {
        s.push(v[i]);
        assert(v@.subrange(from as int, i + 1) =~= v@.subrange(from as int, i as int).push(
            v@[i as int],
        ));
        i += 1;
    }
    s
}

/// `a` followed by `b`.
pub fn concat(a: &str, b: &str) -> (s: String)
    ensures
        s@ == a@ + b@,
{
    let mut s = a.to_owned();
    s.append(b);
    s
}

// ---------------------------------------------------------------------------
// Trimming
// ---------------------------------------------------------------------------

/// The characters with the Unicode property `White_Space`.
pub open spec fn is_space(c: char) -> bool {
    ||| '\u{9}' <= c <= '\u{d}'
    ||| c == '\u{20}'
    ||| c == '\u{85}'
    ||| c == '\u{a0}'
    ||| c == '\u{1680}'
    ||| '\u{2000}' <= c <= '\u{200a}'
    ||| c == '\u{2028}'
    ||| c == '\u{2029}'
    ||| c == '\u{202f}'
    ||| c == '\u{205f}'
    ||| c == '\u{3000}'
}

/// Whether `c` is white space.
pub fn space(c: char) -> (r: bool)
    ensures
        r == is_space(c),
{
    ('\u{9}' <= c && c <= '\u{d}') || c == '\u{20}' || c == '\u{85}' || c == '\u{a0}' || c
        == '\u{1680}' || ('\u{2000}' <= c && c <= '\u{200a}') || c == '\u{2028}' || c == '\u{2029}'
        || c == '\u{202f}' || c == '\u{205f}' || c == '\u{3000}'
}

/// `s` without its leading white space.
pub open spec fn trim_start_of(s: Seq<char>) -> Seq<char>
    decreases s.len(),
{
    if s.len() > 0 && is_space(s[0]) {
        trim_start_of(s.drop_first())
    } else {
        s
    }
}

/// `s` without its trailing white space.
pub open spec fn trim_end_of(s: Seq<char>) -> Seq<char>
    decreases s.len(),
{
    if s.len() > 0 && is_space(s.last()) {
        trim_end_of(s.drop_last())
    } else {
        s
    }
}

/// `s` without white space at either end.
pub open spec fn trim_of(s: Seq<char>) -> Seq<char> {
    trim_end_of(trim_start_of(s))
}

/// `s` without leading occurrences of `c`.
pub open spec fn trim_start_char_of(s: Seq<char>, c: char) -> Seq<char>
    decreases s.len(),
{
    if s.len() > 0 && s[0] == c {
        trim_start_char_of(s.drop_first(), c)
    } else {
        s
    }
}

/// `s` without trailing occurrences of `c`.
pub open spec fn trim_end_char_of(s: Seq<char>, c: char) -> Seq<char>
    decreases s.len(),
{
    if s.len() > 0 && s.last() == c {
        trim_end_char_of(s.drop_last(), c)
    } else {
        s
    }
}

/// The number of leading white space characters of `v[from..to]`, as the index
/// of the first character that is kept.
pub(crate) fn skip_spaces(v: &Vec<char>, from: usize, to: usize) -> (a: usize)
    requires
        from <= to <= v@.len(),
    ensures
        from <= a <= to,
        v@.subrange(a as int, to as int) == trim_start_of(v@.subrange(from as int, to as int)),
{
    let mut a: usize = from;
    while a < to && space(v[a])
        invariant
            from <= a <= to <= v@.len(),
            trim_start_of(v@.subrange(a as int, to as int)) == trim_start_of(
                v@.subrange(from as int, to as int),
            ),
        decreases to - a,
    {
        assert(v@.subrange(a as int, to as int).drop_first() =~= v@.subrange(a + 1, to as int));
        a += 1;
    }
    a
}

/// The end of `v[from..to]` once its trailing white space is left out.
pub(crate) fn drop_spaces(v: &Vec<char>, from: usize, to: usize) -> (b: usize)
    requires
        from <= to <= v@.len(),
    ensures
        from <= b <= to,
        v@.subrange(from as int, b as int) == trim_end_of(v@.subrange(from as int, to as int)),
{
    let mut b: usize = to;
    while b > from && space(v[b - 1])
        invariant
            from <= b <= to <= v@.len(),
            trim_end_of(v@.subrange(from as int, b as int)) == trim_end_of(
                v@.subrange(from as int, to as int),
            ),
        decreases b - from,
    {
        assert(v@.subrange(from as int, b as int).drop_last() =~= v@.subrange(
            from as int,
            b - 1,
        ));
        b -= 1;
    }
    b
}

/// `s` without white space at either end.
pub fn trim(s: &str) -> (r: String)
    ensures
        r@ == trim_of(s@),
{
    let v = chars(s);
    assert(v@.subrange(0, v@.len() as int) =~= s@);
    let a = skip_spaces(&v, 0, v.len());
    let b = drop_spaces(&v, a, v.len());
    slice(&v, a, b)
}

/// `s` without its leading white space.
pub fn trim_start(s: &str) -> (r: String)
    ensures
        r@ == trim_start_of(s@),
{
    let v = chars(s);
    assert(v@.subrange(0, v@.len() as int) =~= s@);
    let a = skip_spaces(&v, 0, v.len());
    slice(&v, a, v.len())
}

/// `s` without leading occurrences of `c`.
pub fn trim_start_char(s: &str, c: char) -> (r: String)
    ensures
        r@ == trim_start_char_of(s@, c),
{
    let v = chars(s);
    let mut a: usize = 0;
    assert(v@.subrange(0, v@.len() as int) =~= s@);
    while a < v.len() && v[a] == c
        invariant
            a <= v@.len(),
            trim_start_char_of(v@.subrange(a as int, v@.len() as int), c) == trim_start_char_of(
                s@,
                c,
            ),
        decreases v.len() - a,
    {
        assert(v@.subrange(a as int, v@.len() as int).drop_first() =~= v@.subrange(
            a + 1,
            v@.len() as int,
        ));
        a += 1;
    }
    slice(&v, a, v.len())
}

/// `s` without trailing occurrences of `c`.
pub fn trim_end_char(s: &str, c: char) -> (r: String)
    ensures
        r@ == trim_end_char_of(s@, c),
{
    let v = chars(s);
    let mut b: usize = v.len();
    assert(v@.subrange(0, b as int) =~= s@);
    while b > 0 && v[b - 1] == c
        invariant
            b <= v@.len(),
            trim_end_char_of(v@.subrange(0, b as int), c) == trim_end_char_of(s@, c),
        decreases b,
    {
        assert(v@.subrange(0, b as int).drop_last() =~= v@.subrange(0, b - 1));
        b -= 1;
    }
    slice(&v, 0, b)
}

// ---------------------------------------------------------------------------
// Searching
// ---------------------------------------------------------------------------

/// Whether `p` stands in `s` at position `i`.
pub open spec fn occurs_at(s: Seq<char>, p: Seq<char>, i: int) -> bool {
    0 <= i && i + p.len() <= s.len() && s.subrange(i, i + p.len()) == p
}

/// The first position not before `from` at which `p` stands in `s`.
pub open spec fn find_from(s: Seq<char>, p: Seq<char>, from: int) -> Option<int>
    decreases s.len() + 1 - from,
{
    if from < 0 || from > s.len() {
        None
    } else if occurs_at(s, p, from) {
        Some(from)
    } else {
        find_from(s, p, from + 1)
    }
}

/// The first position at which `p` stands in `s`.
pub open spec fn find_of(s: Seq<char>, p: Seq<char>) -> Option<int> {
    find_from(s, p, 0)
}

/// Whether `p` stands somewhere in `s`.
pub open spec fn contains_of(s: Seq<char>, p: Seq<char>) -> bool {
    exists|i: int| occurs_at(s, p, i)
}

/// Whether `s` begins with `p`.
pub open spec fn starts_with_of(s: Seq<char>, p: Seq<char>) -> bool {
    occurs_at(s, p, 0)
}

/// Whether `s` ends with `p`.
pub open spec fn ends_with_of(s: Seq<char>, p: Seq<char>) -> bool {
    occurs_at(s, p, s.len() - p.len())
}

/// A found position is the least one at which the pattern stands.
pub proof fn find_from_is_least(s: Seq<char>, p: Seq<char>, from: int)
    requires
        0 <= from,
    ensures
        match find_from(s, p, from) {
            Some(i) => from <= i && occurs_at(s, p, i) && forall|k: int|
                from <= k < i ==> !occurs_at(s, p, k),
            None => forall|k: int| from <= k ==> !occurs_at(s, p, k),
        },
    decreases s.len() + 1 - from,
{
    if from <= s.len() && !occurs_at(s, p, from) {
        find_from_is_least(s, p, from + 1);
    }
}

/// Whether the characters `p` stand in `v` at position `i`.
pub fn occurs(v: &Vec<char>, p: &Vec<char>, i: usize) -> (r: bool)
    requires
        i <= v@.len(),
    ensures
        r == occurs_at(v@, p@, i as int),
{
    if p.len() > v.len() - i {
        return false;
    }
    let mut k: usize = 0;
    while k < p.len()
        invariant
            k <= p@.len(),
            i + p@.len() <= v@.len(),
            v@.len() <= usize::MAX,
            forall|j: int| 0 <= j < k ==> v@[i + j] == p@[j],
        decreases p.len() - k,
    {
        if v[i + k] != p[k] {
            assert(v@.subrange(i as int, i + p@.len())[k as int] != p@[k as int]);
            return false;
        }
        k += 1;
    }
    assert(v@.subrange(i as int, i + p@.len()) =~= p@);
    true
}

/// The first position not before `from` at which `p` stands in `v`.
pub fn find_chars(v: &Vec<char>, p: &Vec<char>, from: usize) -> (r: Option<usize>)
    requires
        from <= v@.len(),
    ensures
        match r {
            Some(i) => find_from(v@, p@, from as int) == Some(i as int) && i + p@.len()
                <= v@.len() <= usize::MAX,
            None => find_from(v@, p@, from as int) is None,
        },
{
    let mut i: usize = from;
    while i < v.len()
        invariant
            from <= i <= v@.len(),
            find_from(v@, p@, from as int) == find_from(v@, p@, i as int),
        decreases v.len() - i,
    {
        if occurs(v, p, i) {
            return Some(i);
        }
        i += 1;
    }
    assert(find_from(v@, p@, i + 1) is None);
    if occurs(v, p, i) {
        Some(i)
    } else {
        None
    }
}

/// Whether `s` begins with `p`.
pub fn starts_with(s: &str, p: &str) -> (r: bool)
    ensures
        r == starts_with_of(s@, p@),
{
    occurs(&chars(s), &chars(p), 0)
}

/// Whether `p` stands somewhere in `s`.
pub fn contains(s: &str, p: &str) -> (r: bool)
    ensures
        r == contains_of(s@, p@),
{
    proof {
        find_from_is_least(s@, p@, 0);
    }
    find_chars(&chars(s), &chars(p), 0).is_some()
}

/// What follows `p` in `s`, if `s` begins with `p`.
pub open spec fn strip_prefix_of(s: Seq<char>, p: Seq<char>) -> Option<Seq<char>> {
    if starts_with_of(s, p) {
        Some(s.skip(p.len() as int))
    } else {
        None
    }
}

/// What precedes `p` in `s`, if `s` ends with `p`.
pub open spec fn strip_suffix_of(s: Seq<char>, p: Seq<char>) -> Option<Seq<char>> {
    if ends_with_of(s, p) {
        Some(s.take(s.len() - p.len()))
    } else {
        None
    }
}

/// What follows `p` in `s`, if `s` begins with `p`.
pub fn strip_prefix(s: &str, p: &str) -> (r: Option<String>)
    ensures
        r.deep_view() == strip_prefix_of(s@, p@),
{
    let v = chars(s);
    let w = chars(p);
    if occurs(&v, &w, 0) {
        assert(v@.subrange(w@.len() as int, v@.len() as int) =~= s@.skip(p@.len() as int));
        Some(slice(&v, w.len(), v.len()))
    } else {
        None
    }
}

/// What precedes `p` in `s`, if `s` ends with `p`.
pub fn strip_suffix(s: &str, p: &str) -> (r: Option<String>)
    ensures
        r.deep_view() == strip_suffix_of(s@, p@),
{
    let v = chars(s);
    let w = chars(p);
    if w.len() <= v.len() && occurs(&v, &w, v.len() - w.len()) {
        assert(v@.subrange(0, v@.len() - w@.len()) =~= s@.take(s@.len() - p@.len()));
        Some(slice(&v, 0, v.len() - w.len()))
    } else {
        None
    }
}

// ---------------------------------------------------------------------------
// Lines, joining and prefixes
// ---------------------------------------------------------------------------

/// A line without the carriage return of its line ending.
pub open spec fn without_return(line: Seq<char>) -> Seq<char> {
    if line.len() > 0 && line.last() == '\r' {
        line.drop_last()
    } else {
        line
    }
}

/// The first line feed at or after `from`, or the end of `s`.
pub open spec fn line_end(s: Seq<char>, from: int) -> int
    decreases s.len() - from,
{
    if from < 0 || from >= s.len() || s[from] == '\n' {
        from
    } else {
        line_end(s, from + 1)
    }
}

/// The lines of `s` from position `from` on: a line ends at a line feed, which
/// may follow a carriage return; what follows the last line feed is a line
/// unless it is empty.
pub open spec fn lines_from(s: Seq<char>, from: int) -> Seq<Seq<char>>
    decreases s.len() - from,
    via lines_from_shrinks
{
    if from < 0 || from >= s.len() {
        Seq::empty()
    } else {
        let end = line_end(s, from);
        if end < s.len() {
            seq![without_return(s.subrange(from, end))] + lines_from(s, end + 1)
        } else {
            seq![s.subrange(from, s.len() as int)]
        }
    }
}

#[via_fn]
proof fn lines_from_shrinks(s: Seq<char>, from: int) {
    if 0 <= from < s.len() {
        line_end_bounds(s, from);
    }
}

/// Where a line ends: at a line feed or at the end of the text, with no line
/// feed before.
pub proof fn line_end_bounds(s: Seq<char>, from: int)
    requires
        0 <= from <= s.len(),
    ensures
        from <= line_end(s, from) <= s.len(),
        line_end(s, from) < s.len() ==> s[line_end(s, from)] == '\n',
        forall|k: int| from <= k < line_end(s, from) ==> s[k] != '\n',
    decreases s.len() - from,
{
    if from < s.len() && s[from] != '\n' {
        line_end_bounds(s, from + 1);
    }
}

/// The lines of `s`.
pub open spec fn lines_of(s: Seq<char>) -> Seq<Seq<char>> {
    lines_from(s, 0)
}

/// The position of the first line feed at or after `from`, or the end of `v`.
fn end_of_line(v: &Vec<char>, from: usize) -> (end: usize)
    requires
        from <= v@.len(),
    ensures
        end == line_end(v@, from as int),
        from <= end <= v@.len(),
{
    let mut end: usize = from;
    while end < v.len() && v[end] != '\n'
        invariant
            from <= end <= v@.len(),
            line_end(v@, end as int) == line_end(v@, from as int),
        decreases v.len() - end,
    {
        end += 1;
    }
    end
}

/// The bounds of the lines of `v`, in order.
pub open spec fn spans_view(v: Seq<char>, spans: Seq<(usize, usize)>) -> Seq<Seq<char>> {
    Seq::new(spans.len(), |i: int| v.subrange(spans[i].0 as int, spans[i].1 as int))
}

/// The bounds of the lines of `v`.
pub fn line_spans(v: &Vec<char>) -> (spans: Vec<(usize, usize)>)
    ensures
        spans_view(v@, spans@) == lines_of(v@),
        forall|i: int| 0 <= i < spans@.len() ==> (#[trigger] spans@[i]).0 <= spans@[i].1 <= v@.len(),
{
    let mut spans: Vec<(usize, usize)> = Vec::new();
    let mut from: usize = 0;
    assert(spans_view(v@, spans@) =~= Seq::<Seq<char>>::empty());
    assert(spans_view(v@, spans@) + lines_from(v@, 0) =~= lines_of(v@));
    while from < v.len()
        invariant
            from <= v@.len(),
            spans_view(v@, spans@) + lines_from(v@, from as int) == lines_of(v@),
            forall|i: int|
                0 <= i < spans@.len() ==> (#[trigger] spans@[i]).0 <= spans@[i].1 <= v@.len(),
        decreases v.len() - from,
    {
        let end = end_of_line(v, from);
        let ghost before = spans@;
        if end < v.len() {
            let stop: usize = if end > from && v[end - 1] == '\r' {
                end - 1
            } else {
                end
            };
            spans.push((from, stop));
            proof {
                let line = v@.subrange(from as int, end as int);
                assert(v@.subrange(from as int, stop as int) =~= without_return(line));
                assert(spans_view(v@, spans@) =~= spans_view(v@, before).push(without_return(line)));
                assert(spans_view(v@, spans@) + lines_from(v@, end + 1) =~= spans_view(v@, before)
                    + lines_from(v@, from as int));
            }
            from = end + 1;
        } else {
            spans.push((from, end));
            proof {
                let line = v@.subrange(from as int, end as int);
                assert(spans_view(v@, spans@) =~= spans_view(v@, before).push(line));
                assert(spans_view(v@, spans@) + lines_from(v@, v@.len() as int) =~= spans_view(
                    v@,
                    before,
                ) + lines_from(v@, from as int));
            }
            from = v.len();
        }
    }
    assert(spans_view(v@, spans@) + Seq::<Seq<char>>::empty() =~= spans_view(v@, spans@));
    spans
}

/// The lines of `s`.
pub fn lines(s: &str) -> (r: Vec<String>)
    ensures
        r.deep_view() == lines_of(s@),
{
    let v = chars(s);
    let spans = line_spans(&v);
    let mut r: Vec<String> = seqs::none();
    let mut i: usize = 0;
    let ghost all = spans_view(v@, spans@);
    proof {
        seqs::take_ends(all);
    }
    while i < spans.len()
        invariant
            i <= spans@.len(),
            all == spans_view(v@, spans@),
            all.len() == spans@.len(),
            r.deep_view() == all.take(i as int),
            forall|i: int|
                0 <= i < spans@.len() ==> (#[trigger] spans@[i]).0 <= spans@[i].1 <= v@.len(),
        decreases spans.len() - i,
    {
        seqs::put(&mut r, slice(&v, spans[i].0, spans[i].1));
        proof {
            seqs::take_step(all, i as int);
        }
        i += 1;
    }
    r
}

/// The parts in order, with `sep` between neighbours.
pub open spec fn join_of(parts: Seq<Seq<char>>, sep: Seq<char>) -> Seq<char>
    decreases parts.len(),
{
    if parts.len() == 0 {
        Seq::empty()
    } else if parts.len() == 1 {
        parts[0]
    } else {
        join_of(parts.drop_last(), sep) + sep + parts.last()
    }
}

/// The parts in order, with `sep` between neighbours.
pub fn join(parts: &Vec<String>, sep: &str) -> (r: String)
    ensures
        r@ == join_of(parts.deep_view(), sep@),
{
    let mut r = String::new();
    let mut i: usize = 0;
    let ghost all = parts.deep_view();
    proof {
        seqs::take_ends(all);
    }
    while i < parts.len()
        invariant
            i <= parts@.len(),
            all == parts.deep_view(),
            all.len() == parts@.len(),
            r@ == join_of(all.take(i as int), sep@),
        decreases parts.len() - i,
    {
        proof {
            seqs::take_step(all, i as int);
        }
        if i > 0 {
            r.append(sep);
        } else {
            assert(r@ + parts@[0]@ =~= parts@[0]@);
        }
        r.append(parts[i].as_str());
        i += 1;
    }
    r
}

/// At most the first `n` characters of `s`.
pub open spec fn head_of(s: Seq<char>, n: int) -> Seq<char> {
    if s.len() <= n {
        s
    } else {
        s.take(n)
    }
}

/// At most the first `n` characters of `s`.
pub fn head(s: &str, n: usize) -> (r: String)
    ensures
        r@ == head_of(s@, n as int),
{
    let v = chars(s);
    if v.len() <= n {
        s.to_owned()
    } else {
        assert(v@.subrange(0, n as int) =~= s@.take(n as int));
        slice(&v, 0, n)
    }
}

// ---------------------------------------------------------------------------
// Case and numbers
// ---------------------------------------------------------------------------

/// The ASCII lower case of a character.
pub open spec fn lower_char(c: char) -> char {
    if 'A' <= c <= 'Z' {
        ((c as u32) + 32) as char
    } else {
        c
    }
}

/// `s` with its ASCII capitals replaced by small letters.
pub open spec fn ascii_lower_of(s: Seq<char>) -> Seq<char> {
    Seq::new(s.len(), |i: int| lower_char(s[i]))
}

/// `s` with its ASCII capitals replaced by small letters.
pub fn ascii_lower(s: &str) -> (r: String)
    ensures
        r@ == ascii_lower_of(s@),
{
    let v = chars(s);
    let mut r = String::new();
    let mut i: usize = 0;
    while i < v.len()
        invariant
            i <= v@.len(),
            v@ == s@,
            r@ == ascii_lower_of(s@).take(i as int),
        decreases v.len() - i,
    {
        let c = v[i];
        let d: char = if 'A' <= c && c <= 'Z' {
            ((c as u8) + 32) as char
        } else {
            c
        };
        assert(d == lower_char(c));
        r.push(d);
        proof {
            seqs::take_step(ascii_lower_of(s@), i as int);
        }
        i += 1;
    }
    proof {
        seqs::take_ends(ascii_lower_of(s@));
    }
    r
}

/// The Unicode lower case of a string, as `str::to_lowercase` gives it.
pub uninterp spec fn lowercase_of(s: Seq<char>) -> Seq<char>;

/// `str::to_lowercase` of the standard library. Its result is a function of the
/// characters of the string alone; it is named, not described.
#[verifier::external_body]
pub(crate) fn lowercase(s: &str) -> (r: String)
    ensures
        r@ == lowercase_of(s@),
{
    s.to_lowercase()
}

/// The decimal digit for `d`.
pub open spec fn digit(d: nat) -> char {
    ((d % 10) + 48) as char
}

/// A number in decimal, without leading zeros.
pub open spec fn decimal_of(n: nat) -> Seq<char>
    decreases n,
{
    if n < 10 {
        seq![digit(n)]
    } else {
        decimal_of(n / 10).push(digit(n))
    }
}

/// A number in decimal.
pub fn decimal(n: u64) -> (r: String)
    ensures
        r@ == decimal_of(n as nat),
    decreases n,
{
    let d: u8 = (n % 10) as u8;
    let c = (d + 48) as char;
    assert(c == digit(n as nat));
    let mut r = if n < 10 {
        String::new()
    } else {
        decimal(n / 10)
    };
    r.push(c);
    assert(n < 10 ==> r@ =~= seq![digit(n as nat)]);
    r
}

/// The value of a decimal digit.
pub open spec fn digit_value(c: char) -> Option<nat> {
    if '0' <= c <= '9' {
        Some((c as nat - 48) as nat)
    } else {
        None
    }
}

/// The number that a run of decimal digits stands for, if there are only digits.
pub open spec fn number_of(s: Seq<char>) -> Option<nat>
    decreases s.len(),
{
    if s.len() == 0 {
        Some(0)
    } else {
        match (number_of(s.drop_last()), digit_value(s.last())) {
            (Some(n), Some(d)) => Some(n * 10 + d),
            _ => None,
        }
    }
}

/// The digits of a number that may begin with a plus sign.
pub open spec fn unsigned_digits(s: Seq<char>) -> Seq<char> {
    if s.len() > 0 && s[0] == '+' {
        s.skip(1)
    } else {
        s
    }
}

/// The number that a text stands for: at least one digit, after a plus sign or not,
/// and no more than fits in 64 bits.
pub open spec fn u64_of(s: Seq<char>) -> Option<u64> {
    let digits = unsigned_digits(s);
    match number_of(digits) {
        Some(n) => if digits.len() > 0 && n <= u64::MAX {
            Some(n as u64)
        } else {
            None
        },
        None => None,
    }
}

/// A run with something else than a digit in front is no number, and a number does not
/// shrink when it gets more digits.
proof fn number_of_prefix(s: Seq<char>, i: int)
    requires
        0 <= i <= s.len(),
    ensures
        number_of(s) is Some ==> number_of(s.take(i)) is Some && number_of(s.take(i))->0
            <= number_of(s)->0,
    decreases s.len() - i,
{
    if i == s.len() {
        assert(s.take(i) =~= s);
    } else {
        number_of_prefix(s.drop_last(), i);
        assert(s.drop_last().take(i) =~= s.take(i));
    }
}

/// The number that a text stands for, if it is one that fits in 64 bits.
pub fn parse_u64(s: &str) -> (r: Option<u64>)
    ensures
        r == u64_of(s@),
{
    let v = chars(s);
    let from: usize = if v.len() > 0 && v[0] == '+' {
        1
    } else {
        0
    };
    let ghost digits = unsigned_digits(s@);
    assert(digits =~= v@.subrange(from as int, v@.len() as int));
    if from == v.len() {
        return None;
    }
    let mut n: u64 = 0;
    let mut i: usize = from;
    proof {
        seqs::take_ends(digits);
    }
    while i < v.len()
        invariant
            from <= i <= v@.len(),
            digits == v@.subrange(from as int, v@.len() as int),
            digits == unsigned_digits(s@),
            digits.len() > 0,
            number_of(digits.take(i - from)) == Some(n as nat),
        decreases v.len() - i,
    {
        let c = v[i];
        proof {
            seqs::take_step(digits, i - from);
            number_of_prefix(digits, i - from + 1);
        }
        if c < '0' || c > '9' {
            return None;
        }
        let d: u64 = c as u64 - 48;
        if n > (u64::MAX - d) / 10 {
            return None;
        }
        n = n * 10 + d;
        i += 1;
    }
    proof {
        seqs::take_ends(digits);
    }
    Some(n)
}

} // verus!
