//! What holds of texts: what trimming takes away, how lines and numbers are read, and
//! where a text stands in another.

use vstd::prelude::*;

use crate::text;
use crate::text::{
    ascii_lower_of, contains_of, decimal_of, digit, digit_value, find_of, head_of, is_space,
    join_of, line_end, lines_from, lines_of, number_of, occurs_at, trim_end_char_of, trim_end_of,
    trim_of, trim_start_char_of, trim_start_of, u64_of, without_return,
};

verus! {

/// What stands in a text stands in every text that holds it, too.
pub proof fn occurs_in_more(before: Seq<char>, s: Seq<char>, after: Seq<char>, p: Seq<char>)
    requires
        contains_of(s, p),
    ensures
        contains_of(before + s + after, p),
{
    let i = choose|i: int| occurs_at(s, p, i);
    let all = before + s + after;
    let k = before.len() + i;
    assert(all.subrange(k, k + p.len()) =~= s.subrange(i, i + p.len()));
    assert(occurs_at(all, p, k));
}

/// A text stands in itself.
pub proof fn occurs_in_itself(s: Seq<char>)
    ensures
        contains_of(s, s),
{
    assert(s.subrange(0, s.len() as int) =~= s);
    assert(occurs_at(s, s, 0));
}

/// A pattern is found exactly where it first stands.
pub proof fn finding_is_first(s: Seq<char>, p: Seq<char>, i: int)
    ensures
        find_of(s, p) is Some <==> contains_of(s, p),
        find_of(s, p) == Some(i) <==> occurs_at(s, p, i) && forall|k: int|
            0 <= k < i ==> !occurs_at(s, p, k),
{
    text::find_from_is_least(s, p, 0);
    if let Some(j) = find_of(s, p) {
        assert(occurs_at(s, p, j));
        if occurs_at(s, p, i) && forall|k: int| 0 <= k < i ==> !occurs_at(s, p, k) {
            if j < i {
                assert(!occurs_at(s, p, j));
            }
            if i < j {
                assert(!occurs_at(s, p, i));
            }
        }
    }
}

proof fn trimming_the_start(s: Seq<char>) -> (n: int)
    ensures
        0 <= n <= s.len(),
        trim_start_of(s) == s.skip(n),
        forall|k: int| 0 <= k < n ==> is_space(#[trigger] s[k]),
        n < s.len() ==> !is_space(s[n]),
    decreases s.len(),
{
    if s.len() > 0 && is_space(s[0]) {
        let m = trimming_the_start(s.drop_first());
        assert(s.drop_first().skip(m) =~= s.skip(m + 1));
        assert forall|k: int| 0 <= k < m + 1 implies is_space(#[trigger] s[k]) by {
            if k > 0 {
                assert(s.drop_first()[k - 1] == s[k]);
            }
        }
        if m < s.drop_first().len() {
            assert(s.drop_first()[m] == s[m + 1]);
        }
        m + 1
    } else {
        assert(s.skip(0) =~= s);
        0
    }
}

proof fn trimming_the_end(s: Seq<char>) -> (n: int)
    ensures
        0 <= n <= s.len(),
        trim_end_of(s) == s.take(n),
        forall|k: int| n <= k < s.len() ==> is_space(#[trigger] s[k]),
        n > 0 ==> !is_space(s[n - 1]),
    decreases s.len(),
{
    if s.len() > 0 && is_space(s.last()) {
        let m = trimming_the_end(s.drop_last());
        assert(s.drop_last().take(m) =~= s.take(m));
        assert forall|k: int| m <= k < s.len() implies is_space(#[trigger] s[k]) by {
            if k < s.len() - 1 {
                assert(s.drop_last()[k] == s[k]);
            }
        }
        m
    } else {
        assert(s.take(s.len() as int) =~= s);
        s.len() as int
    }
}

/// Trimming takes white space away at both ends, all of it, and nothing else.
pub proof fn trimming_takes_white_space(s: Seq<char>) -> (r: (int, int))
    ensures
        0 <= r.0 <= r.1 <= s.len(),
        trim_of(s) == s.subrange(r.0, r.1),
        forall|k: int| 0 <= k < r.0 ==> is_space(#[trigger] s[k]),
        forall|k: int| r.1 <= k < s.len() ==> is_space(#[trigger] s[k]),
        trim_of(s).len() > 0 ==> !is_space(trim_of(s)[0]) && !is_space(trim_of(s).last()),
{
    let a = trimming_the_start(s);
    let rest = s.skip(a);
    let n = trimming_the_end(rest);
    assert(rest.take(n) =~= s.subrange(a, a + n));
    assert forall|k: int| a + n <= k < s.len() implies is_space(#[trigger] s[k]) by {
        assert(rest[k - a] == s[k]);
    }
    (a, a + n)
}

/// The blank, the tab, the line feed and the carriage return are white space; letters,
/// digits and the marks of lists and headings are not.
pub proof fn white_space_is_blank(c: char)
    ensures
        c == ' ' || c == '\t' || c == '\n' || c == '\r' ==> is_space(c),
        '!' <= c <= '~' ==> !is_space(c),
{
}

/// Trimming a character takes it away at its end, all of it, and nothing else.
pub proof fn trimming_takes_the_character(s: Seq<char>, c: char)
    ensures
        ({
            let a = trim_start_char_of(s, c);
            let n = s.len() - a.len();
            &&& 0 <= n
            &&& a == s.skip(n)
            &&& forall|k: int| 0 <= k < n ==> #[trigger] s[k] == c
            &&& a.len() > 0 ==> a[0] != c
        }),
        ({
            let b = trim_end_char_of(s, c);
            let n = b.len() as int;
            &&& n <= s.len()
            &&& b == s.take(n)
            &&& forall|k: int| n <= k < s.len() ==> #[trigger] s[k] == c
            &&& b.len() > 0 ==> b.last() != c
        }),
    decreases s.len(),
{
    if s.len() > 0 {
        if s[0] == c {
            trimming_takes_the_character(s.drop_first(), c);
            let a = trim_start_char_of(s, c);
            let n = s.len() - a.len();
            assert(s.drop_first().skip(n - 1) =~= s.skip(n));
            assert forall|k: int| 0 <= k < n implies #[trigger] s[k] == c by {
                if k > 0 {
                    assert(s.drop_first()[k - 1] == s[k]);
                }
            }
        } else {
            assert(s.skip(0) =~= s);
        }
        if s.last() == c {
            trimming_takes_the_character(s.drop_last(), c);
            let n = trim_end_char_of(s, c).len() as int;
            assert(s.drop_last().take(n) =~= s.take(n));
            assert forall|k: int| n <= k < s.len() implies #[trigger] s[k] == c by {
                if k < s.len() - 1 {
                    assert(s.drop_last()[k] == s[k]);
                }
            }
        } else {
            assert(s.take(s.len() as int) =~= s);
        }
    } else {
        assert(s.skip(0) =~= s);
        assert(s.take(0) =~= s);
    }
}

/// A line ends at the first line feed, or at the end of the text.
pub proof fn line_ends_first(s: Seq<char>, from: int, end: int)
    requires
        0 <= from <= end <= s.len(),
        end < s.len() ==> s[end] == '\n',
        forall|k: int| from <= k < end ==> s[k] != '\n',
    ensures
        line_end(s, from) == end,
    decreases end - from,
{
    if from < end {
        line_ends_first(s, from + 1, end);
    }
}

/// The lines of a text that stands at the end of another.
pub proof fn lines_behind(head: Seq<char>, b: Seq<char>, from: int)
    requires
        0 <= from <= b.len(),
    ensures
        lines_from(head + b, head.len() + from) == lines_from(b, from),
    decreases b.len() - from,
{
    let s = head + b;
    let n = head.len() as int;
    if from < b.len() {
        let end = line_end(b, from);
        text::line_end_bounds(b, from);
        assert forall|k: int| n + from <= k < n + end implies s[k] != '\n' by {
            assert(s[k] == b[k - n]);
        }
        line_ends_first(s, n + from, n + end);
        assert(s.subrange(n + from, n + end) =~= b.subrange(from, end));
        if end < b.len() {
            lines_behind(head, b, end + 1);
        }
    }
}

/// A text is read line by line: the first line, which loses a carriage return at its end,
/// comes before those of the rest; a last line needs no end; and no text has no lines.
pub proof fn lines_are_read_in_order(line: Seq<char>, rest: Seq<char>)
    requires
        !line.contains('\n'),
    ensures
        lines_of(line + "\n"@ + rest) == seq![without_return(line)] + lines_of(rest),
        line.len() > 0 ==> lines_of(line) == seq![line],
        lines_of(Seq::empty()).len() == 0,
        without_return(line.push('\r')) == line,
        line.len() > 0 && line.last() != '\r' ==> without_return(line) == line,
{
    reveal_strlit("\n");
    let head = line + "\n"@;
    let s = head + rest;
    let n = line.len() as int;
    assert forall|k: int| 0 <= k < n implies s[k] != '\n' by {
        assert(s[k] == line[k]);
        assert(line.contains(line[k]));
    }
    assert(s[n] == '\n');
    line_ends_first(s, 0, n);
    assert(s.subrange(0, n) =~= line);
    lines_behind(head, rest, 0);
    assert forall|k: int| 0 <= k < n implies line[k] != '\n' by {
        assert(line.contains(line[k]));
    }
    line_ends_first(line, 0, n);
    assert(line.subrange(0, n) =~= line);
    assert(line.push('\r').drop_last() =~= line);
}

/// A number in decimal is read back, and has nothing but digits.
pub proof fn numbers_are_read_back(n: nat)
    ensures
        number_of(decimal_of(n)) == Some(n),
        decimal_of(n).len() > 0,
        forall|i: int| 0 <= i < decimal_of(n).len() ==> '0' <= #[trigger] decimal_of(n)[i] <= '9',
        n <= u64::MAX ==> u64_of(decimal_of(n)) == Some(n as u64),
    decreases n,
{
    let d = decimal_of(n);
    let last = digit(n);
    assert(digit_value(last) == Some(n % 10));
    if n < 10 {
        assert(d.drop_last() =~= Seq::empty());
        reveal_with_fuel(number_of, 2);
    } else {
        numbers_are_read_back(n / 10);
        assert(d.drop_last() =~= decimal_of(n / 10));
        assert((n / 10) * 10 + n % 10 == n);
    }
}

/// A number that is sent with other characters than digits is none, and one without any
/// digit is none.
pub proof fn only_digits_are_numbers(s: Seq<char>, i: int)
    requires
        0 <= i < s.len(),
        !('0' <= s[i] <= '9'),
    ensures
        number_of(s) is None,
        i > 0 || s[i] != '+' ==> u64_of(s) is None,
        u64_of(Seq::empty()) is None,
    decreases s.len(),
{
    if i < s.len() - 1 {
        only_digits_are_numbers(s.drop_last(), i);
    }
    if s[0] == '+' && i > 0 {
        let rest = s.skip(1);
        assert(rest[i - 1] == s[i]);
        digits_only(rest, i - 1);
    }
}

proof fn digits_only(s: Seq<char>, i: int)
    requires
        0 <= i < s.len(),
        !('0' <= s[i] <= '9'),
    ensures
        number_of(s) is None,
    decreases s.len(),
{
    if i < s.len() - 1 {
        digits_only(s.drop_last(), i);
    }
}

/// Small letters stand for capitals, and everything else stays in its place.
pub proof fn lower_case_keeps_its_place(s: Seq<char>, i: int)
    requires
        0 <= i < s.len(),
    ensures
        ascii_lower_of(s).len() == s.len(),
        !('A' <= s[i] <= 'Z') ==> ascii_lower_of(s)[i] == s[i],
        'A' <= s[i] <= 'Z' ==> 'a' <= ascii_lower_of(s)[i] <= 'z' && ascii_lower_of(s)[i] as int
            == s[i] as int + 32,
{
}

/// Of a text that is too long the beginning is kept, and of any other all of it.
pub proof fn heads_are_beginnings(s: Seq<char>, n: nat)
    ensures
        s.len() <= n ==> head_of(s, n as int) == s,
        s.len() > n ==> head_of(s, n as int).len() == n && s.subrange(0, n as int) == head_of(
            s,
            n as int,
        ),
{
    if s.len() > n {
        assert(s.subrange(0, n as int) =~= s.take(n as int));
    }
}

/// Texts are joined in order, with the separator between neighbours.
pub proof fn joining_keeps_the_order(parts: Seq<Seq<char>>, last: Seq<char>, sep: Seq<char>)
    ensures
        join_of(Seq::empty(), sep).len() == 0,
        join_of(seq![last], sep) == last,
        parts.len() > 0 ==> join_of(parts.push(last), sep) == join_of(parts, sep) + sep + last,
{
    assert(parts.push(last).drop_last() =~= parts);
}

} // verus!
