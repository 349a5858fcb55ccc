//! Characters, white space, lines and decimal numbers.
//!
//! Every file this crate understands is plain text. The functions here cut
//! such a text into trimmed lines and read decimal numbers from it. Their
//! contracts are stated over `Seq<char>`, the view of a string.

use vstd::prelude::*;

verus! {

/// `String::push` of the standard library appends one character to the end
/// of the string and leaves the characters before it as they were.
pub assume_specification[ String::push ](s: &mut String, ch: char)
    ensures
        final(s)@ == old(s)@.push(ch),
;

/// The code points that carry the Unicode property `White_Space`.
pub open spec fn is_space(c: char) -> bool {
    let n = c as u32;
    ||| 0x09 <= n <= 0x0d
    ||| n == 0x20
    ||| n == 0x85
    ||| n == 0xa0
    ||| n == 0x1680
    ||| 0x2000 <= n <= 0x200a
    ||| n == 0x2028
    ||| n == 0x2029
    ||| n == 0x202f
    ||| n == 0x205f
    ||| n == 0x3000
}

/// `s` without the white space it starts with.
pub open spec fn trim_start(s: Seq<char>) -> Seq<char>
    decreases s.len(),
{
    if s.len() > 0 && is_space(s.first()) {
        trim_start(s.drop_first())
    } else {
        s
    }
}

/// `s` without the white space it ends with.
pub open spec fn trim_end(s: Seq<char>) -> Seq<char>
    decreases s.len(),
{
    if s.len() > 0 && is_space(s.last()) {
        trim_end(s.drop_last())
    } else {
        s
    }
}

/// `s` without the white space at either end.
pub open spec fn trim(s: Seq<char>) -> Seq<char> {
    trim_end(trim_start(s))
}

/// The index of the first `c` in `s`, or the length of `s` if it holds none.
pub open spec fn first_index_of(s: Seq<char>, c: char) -> nat
    decreases s.len(),
{
    if s.len() == 0 || s.first() == c {
        0
    } else {
        1 + first_index_of(s.drop_first(), c)
    }
}

/// The lines of `s`: the pieces between line feeds. A line feed at the very
/// end closes the last line and opens no new one, so the empty text has no
/// line at all.
pub open spec fn lines(s: Seq<char>) -> Seq<Seq<char>>
    decreases s.len(),
{
    if s.len() == 0 {
        Seq::empty()
    } else {
        let n = first_index_of(s, '\n');
        if n >= s.len() {
            seq![s]
        } else {
            seq![s.take(n as int)] + lines(s.skip(n as int + 1))
        }
    }
}

/// The text whose lines are `ls`, each closed by a line feed.
pub open spec fn unlines(ls: Seq<Seq<char>>) -> Seq<char>
    decreases ls.len(),
{
    if ls.len() == 0 {
        Seq::empty()
    } else {
        ls.first() + seq!['\n'] + unlines(ls.drop_first())
    }
}

/// `s` is not empty and has no white space at either end.
pub open spec fn is_clean(s: Seq<char>) -> bool {
    s.len() > 0 && trim(s) == s
}

/// Each line trimmed, and the lines that are empty after that left out.
pub open spec fn clean(ls: Seq<Seq<char>>) -> Seq<Seq<char>> {
    ls.map_values(|l: Seq<char>| trim(l)).filter(|l: Seq<char>| l.len() > 0)
}

/// The trimmed, non-empty lines of `s`, in the order of the text.
///
/// A carriage return is white space, so a line that ends in a carriage
/// return and a line feed loses both.
pub open spec fn clean_lines(s: Seq<char>) -> Seq<Seq<char>> {
    clean(lines(s))
}

/// A decimal digit.
pub open spec fn is_digit(c: char) -> bool {
    0x30 <= c as u32 <= 0x39
}

/// The number a decimal digit stands for.
pub open spec fn digit_value(c: char) -> nat {
    (c as u32 - 0x30) as nat
}

/// The number that a sequence of decimal digits denotes; zero for none.
pub open spec fn digits_value(s: Seq<char>) -> nat
    decreases s.len(),
{
    if s.len() == 0 {
        0
    } else {
        10 * digits_value(s.drop_last()) + digit_value(s.last())
    }
}

/// Every character of `s` is a decimal digit.
pub open spec fn all_digits(s: Seq<char>) -> bool {
    forall|i: int| 0 <= i < s.len() ==> is_digit(#[trigger] s[i])
}

/// `s` without one plus sign in front of it.
pub open spec fn without_plus(s: Seq<char>) -> Seq<char> {
    if s.len() > 0 && s.first() == '+' {
        s.drop_first()
    } else {
        s
    }
}

/// The 32-bit unsigned number that `s` denotes as a whole: an optional plus
/// sign, then one or more decimal digits whose value fits. Anything else
/// (the empty text, a minus sign, a blank, a second number) denotes nothing.
pub open spec fn parse_u32(s: Seq<char>) -> Option<u32> {
    let d = without_plus(s);
    if d.len() > 0 && all_digits(d) && digits_value(d) <= u32::MAX {
        Some(digits_value(d) as u32)
    } else {
        None
    }
}

/// A place that holds `c`, or the end, with no `c` before it, is where
/// `first_index_of` points.
pub proof fn lemma_first_index_of(s: Seq<char>, c: char, k: int)
    requires
        0 <= k <= s.len(),
        forall|i: int| 0 <= i < k ==> s[i] != c,
        k == s.len() || s[k] == c,
    ensures
        first_index_of(s, c) == k,
    decreases s.len(),
{
    if k > 0 {
        lemma_first_index_of(s.drop_first(), c, k - 1);
    }
}

/// Where `first_index_of` points lies within the text, no `c` stands before
/// it, and a `c` stands at it unless it is the end, which it is exactly
/// when the text holds no `c`.
pub proof fn lemma_first_index_of_is_first(s: Seq<char>, c: char)
    ensures
        first_index_of(s, c) <= s.len(),
        forall|i: int| 0 <= i < first_index_of(s, c) ==> s[i] != c,
        first_index_of(s, c) < s.len() ==> s[first_index_of(s, c) as int] == c,
        first_index_of(s, c) < s.len() <==> s.contains(c),
    decreases s.len(),
{
    if !(s.len() == 0 || s.first() == c) {
        let t = s.drop_first();
        lemma_first_index_of_is_first(t, c);
        assert forall|i: int| 0 <= i < first_index_of(s, c) implies s[i] != c by {
            if i > 0 {
                assert(s[i] == t[i - 1]);
            }
        }
    }
}

/// No line holds a line feed.
pub proof fn lemma_lines_hold_no_line_feed(s: Seq<char>, i: int)
    requires
        0 <= i < lines(s).len(),
    ensures
        !lines(s)[i].contains('\n'),
    decreases s.len(),
{
    lemma_first_index_of_is_first(s, '\n');
    let n = first_index_of(s, '\n') as int;
    if n < s.len() {
        if i == 0 {
            lemma_first_index_of_is_first(s.take(n), '\n');
            lemma_first_index_of(s.take(n), '\n', n);
        } else {
            lemma_lines_hold_no_line_feed(s.skip(n + 1), i - 1);
        }
    }
}

/// The lines, each closed by a line feed, make up the text again; only a
/// line feed that the text lacks at its end is added.
pub proof fn lemma_lines_make_up_the_text(s: Seq<char>)
    ensures
        unlines(lines(s)) == if s.len() == 0 || s.last() == '\n' {
            s
        } else {
            s.push('\n')
        },
    decreases s.len(),
{
    assert(unlines(Seq::<Seq<char>>::empty()) == Seq::<char>::empty());
    if s.len() > 0 {
        lemma_first_index_of_is_first(s, '\n');
        let n = first_index_of(s, '\n') as int;
        if n >= s.len() {
            assert(seq![s].drop_first() == Seq::<Seq<char>>::empty());
            assert(s + seq!['\n'] + Seq::<char>::empty() == s.push('\n'));
        } else {
            let rest = s.skip(n + 1);
            let all = seq![s.take(n)] + lines(rest);
            lemma_lines_make_up_the_text(rest);
            assert(all.first() == s.take(n));
            assert(all.drop_first() == lines(rest));
            assert(unlines(all) == s.take(n) + seq!['\n'] + unlines(lines(rest)));
            assert(s == s.take(n) + seq!['\n'] + rest);
            if rest.len() == 0 {
                assert(s.last() == s[n]);
            } else {
                assert(rest.last() == s.last());
                assert(s.take(n) + seq!['\n'] + rest.push('\n') == s.push('\n'));
            }
        }
    }
}

/// `trim_start` cuts the longest stretch of white space at the front.
pub proof fn lemma_trim_start_is_suffix(s: Seq<char>) -> (a: int)
    ensures
        0 <= a <= s.len(),
        trim_start(s) == s.skip(a),
        forall|i: int| 0 <= i < a ==> is_space(s[i]),
        a < s.len() ==> !is_space(s[a]),
    decreases s.len(),
{
    if s.len() > 0 && is_space(s.first()) {
        let t = s.drop_first();
        let a = lemma_trim_start_is_suffix(t);
        assert forall|i: int| 0 <= i < a + 1 implies is_space(s[i]) by {
            if i > 0 {
                assert(s[i] == t[i - 1]);
            }
        }
        if a + 1 < s.len() {
        }
        a + 1
    } else {
        0
    }
}

/// `trim_end` cuts the longest stretch of white space at the back.
pub proof fn lemma_trim_end_is_prefix(s: Seq<char>) -> (b: int)
    ensures
        0 <= b <= s.len(),
        trim_end(s) == s.take(b),
        forall|i: int| b <= i < s.len() ==> is_space(s[i]),
        b > 0 ==> !is_space(s[b - 1]),
    decreases s.len(),
{
    if s.len() > 0 && is_space(s.last()) {
        let t = s.drop_last();
        let b = lemma_trim_end_is_prefix(t);
        assert forall|i: int| b <= i < s.len() implies is_space(s[i]) by {
            if i < s.len() - 1 {
                assert(s[i] == t[i]);
            }
        }
        if b > 0 {
        }
        b
    } else {
        s.len() as int
    }
}

/// Trimming keeps one stretch of the text: all before it and all after it
/// is white space, and it neither starts nor ends with white space.
pub proof fn lemma_trim_bounds(s: Seq<char>) -> (r: (int, int))
    ensures
        0 <= r.0 <= r.1 <= s.len(),
        trim(s) == s.subrange(r.0, r.1),
        forall|i: int| 0 <= i < r.0 ==> is_space(s[i]),
        forall|i: int| r.1 <= i < s.len() ==> is_space(s[i]),
        r.0 < r.1 ==> !is_space(s[r.0]) && !is_space(s[r.1 - 1]),
{
    let a = lemma_trim_start_is_suffix(s);
    let t = s.skip(a);
    let b = lemma_trim_end_is_prefix(t);
    assert forall|i: int| a + b <= i < s.len() implies is_space(s[i]) by {
        assert(s[i] == t[i - a]);
    }
    if b > 0 {
    }
    (a, a + b)
}

/// A stretch of the text with only white space before and after it, which
/// neither starts nor ends with white space, is the trimmed text.
pub proof fn lemma_trim_is_unique(s: Seq<char>, a: int, b: int)
    requires
        0 <= a <= b <= s.len(),
        forall|i: int| 0 <= i < a ==> is_space(s[i]),
        forall|i: int| b <= i < s.len() ==> is_space(s[i]),
        a < b ==> !is_space(s[a]) && !is_space(s[b - 1]),
    ensures
        trim(s) == s.subrange(a, b),
{
    let (a2, b2) = lemma_trim_bounds(s);
    if a < b {
    } else {
        if a2 < b2 {
        }
    }
}

/// Trimming a trimmed text changes nothing.
pub proof fn lemma_trim_idempotent(s: Seq<char>)
    ensures
        trim(trim(s)) == trim(s),
{
    let (a, b) = lemma_trim_bounds(s);
    let t = s.subrange(a, b);
    if a < b {
    }
}

/// Every one of the clean lines is trimmed and not empty.
pub proof fn lemma_clean_lines_are_trimmed(s: Seq<char>, i: int)
    requires
        0 <= i < clean_lines(s).len(),
    ensures
        is_clean(clean_lines(s)[i]),
{
    let f = |l: Seq<char>| trim(l);
    let p = |l: Seq<char>| l.len() > 0;
    let trimmed = lines(s).map_values(f);
    let line = clean_lines(s)[i];
    trimmed.lemma_filter_pred(p, i);
    trimmed.lemma_filter_contains_rev(p, line);
    let j = choose|j: int| 0 <= j < trimmed.len() && trimmed[j] == line;
    lemma_trim_idempotent(lines(s)[j]);
}

/// Cleaning a first line and the lines after it, one after the other.
pub proof fn lemma_clean_first(l: Seq<char>, rest: Seq<Seq<char>>)
    ensures
        clean(seq![l] + rest) == if trim(l).len() > 0 {
            seq![trim(l)] + clean(rest)
        } else {
            clean(rest)
        },
{
    let f = |l: Seq<char>| trim(l);
    let p = |l: Seq<char>| l.len() > 0;
    let one = seq![l];
    assert((one + rest).map_values(f) == one.map_values(f) + rest.map_values(f));
    Seq::filter_distributes_over_add(one.map_values(f), rest.map_values(f), p);
    reveal_with_fuel(Seq::filter, 2);
}

/// The digits of a text are worth at least as much as any of their prefixes.
pub proof fn lemma_digits_value_grows(s: Seq<char>, k: int)
    requires
        0 <= k <= s.len(),
    ensures
        digits_value(s.take(k)) <= digits_value(s),
    decreases s.len(),
{
    if k < s.len() {
        lemma_digits_value_grows(s.drop_last(), k);
        assert(s.drop_last().take(k) == s.take(k));
    } else {
        assert(s.take(k) == s);
    }
}

/// Tells whether `c` is white space.
pub fn is_whitespace(c: char) -> (r: bool)
    ensures
        r == is_space(c),
{
    let n: u32 = c as u32;
    (0x09 <= n && n <= 0x0d) || n == 0x20 || n == 0x85 || n == 0xa0 || n == 0x1680 || (0x2000 <= n
        && n <= 0x200a) || n == 0x2028 || n == 0x2029 || n == 0x202f || n == 0x205f || n == 0x3000
}

/// The characters of `text`, in order.
pub fn to_chars(text: &str) -> (chars: Vec<char>)
    ensures
        chars@ == text@,
{
    let mut chars: Vec<char> = Vec::new();
    for c in it: text.chars()
        invariant
            it.seq() == text@,
            chars@ == it.seq().take(it.index()),
    {
        chars.push(c);
    }
    chars
}

/// The string made of `chars[lo..hi]`.
pub(crate) fn string_of(chars: &[char], lo: usize, hi: usize) -> (s: String)
    requires
        lo <= hi <= chars@.len(),
    ensures
        s@ == chars@.subrange(lo as int, hi as int),
{
    let mut s = String::new();
    let mut i: usize = lo;
    while i < hi
        invariant
            lo <= i <= hi <= chars@.len(),
            s@ == chars@.subrange(lo as int, i as int),
        decreases hi - i,
    {
        s.push(chars[i]);
        i += 1;
    }
    s
}

/// Where the first `c` of `chars[lo..hi]` stands, or `hi` if there is none.
pub(crate) fn find_char(chars: &[char], lo: usize, hi: usize, c: char) -> (at: usize)
    requires
        lo <= hi <= chars@.len(),
    ensures
        lo <= at <= hi,
        at - lo == first_index_of(chars@.subrange(lo as int, hi as int), c),
{
    let mut i: usize = lo;
    while i < hi && chars[i] != c
        invariant
            lo <= i <= hi <= chars@.len(),
            forall|j: int| lo <= j < i ==> chars@[j] != c,
        decreases hi - i,
    {
        i += 1;
    }
    proof {
        lemma_first_index_of(chars@.subrange(lo as int, hi as int), c, i - lo);
    }
    i
}

/// The bounds of `chars[lo..hi]` once trimmed.
pub(crate) fn trim_bounds(chars: &[char], lo: usize, hi: usize) -> (r: (usize, usize))
    requires
        lo <= hi <= chars@.len(),
    ensures
        lo <= r.0 <= r.1 <= hi,
        chars@.subrange(r.0 as int, r.1 as int) == trim(chars@.subrange(lo as int, hi as int)),
{
    let mut a: usize = lo;
    while a < hi && is_whitespace(chars[a])
        invariant
            lo <= a <= hi <= chars@.len(),
            forall|i: int| lo <= i < a ==> is_space(chars@[i]),
        decreases hi - a,
    {
        a += 1;
    }
    let mut b: usize = hi;
    while a < b && is_whitespace(chars[b - 1])
        invariant
            lo <= a <= b <= hi <= chars@.len(),
            forall|i: int| b <= i < hi ==> is_space(chars@[i]),
        decreases b - a,
    {
        b -= 1;
    }
    proof {
        let s = chars@.subrange(lo as int, hi as int);
        lemma_trim_is_unique(s, a - lo, b - lo);
    }
    (a, b)
}

/// Reads `chars[lo..hi]` as a 32-bit unsigned decimal number.
pub(crate) fn parse_u32_in(chars: &[char], lo: usize, hi: usize) -> (r: Option<u32>)
    requires
        lo <= hi <= chars@.len(),
    ensures
        r == parse_u32(chars@.subrange(lo as int, hi as int)),
{
    let start: usize = if lo < hi && chars[lo] == '+' {
        lo + 1
    } else {
        lo
    };
    let ghost d = chars@.subrange(start as int, hi as int);
    if start == hi {
        return None;
    }
    let mut value: u64 = 0;
    let mut i: usize = start;
    while i < hi
        invariant
            lo <= start <= i <= hi <= chars@.len(),
            d == chars@.subrange(start as int, hi as int),
            d == without_plus(chars@.subrange(lo as int, hi as int)),
            all_digits(d.take(i - start)),
            value == digits_value(d.take(i - start)),
            value <= u32::MAX,
        decreases hi - i,
    {
        let c = chars[i];
        let n: u32 = c as u32;
        if n < 0x30 || n > 0x39 {
            assert(!is_digit(d[i - start]));
            return None;
        }
        let ghost head = d.take(i - start + 1);
        assert(head.drop_last() == d.take(i - start));
        value = value * 10 + (n - 0x30) as u64;
        assert(all_digits(head));
        if value > 0xffff_ffff {
            proof {
                lemma_digits_value_grows(d, i - start + 1);
            }
            return None;
        }
        i += 1;
    }
    assert(d.take(i - start) == d);
    Some(value as u32)
}

/// The trimmed, non-empty lines of `text`, each as a string of its own.
pub fn clean_lines_of(text: &str) -> (out: Vec<String>)
    ensures
        out.deep_view() == clean_lines(text@),
{
    let chars = to_chars(text);
    let len = chars.len();
    let mut out: Vec<String> = Vec::new();
    let mut pos: usize = 0;
    assert(chars@.skip(0) == chars@);
    while pos < len
        invariant
            pos <= len == chars@.len(),
            chars@ == text@,
            out.deep_view() + clean_lines(chars@.skip(pos as int)) == clean_lines(text@),
        decreases len - pos,
    {
        let ghost rest = chars@.skip(pos as int);
        let end = find_char(chars.as_slice(), pos, len, '\n');
        let (a, b) = trim_bounds(chars.as_slice(), pos, end);
        let next: usize = if end < len {
            end + 1
        } else {
            len
        };
        proof {
            assert(chars@.subrange(pos as int, end as int) == rest.take(end - pos));
            if end < len {
                assert(rest.skip(end - pos + 1) == chars@.skip(next as int));
                lemma_clean_first(rest.take(end - pos), lines(chars@.skip(next as int)));
            } else {
                lemma_clean_first(rest, Seq::empty());
            }
        }
        if a < b {
            out.push(string_of(chars.as_slice(), a, b));
        }
        pos = next;
    }
    out
}

} // verus!
