//! Text as sequences of characters.
//!
//! The parsers of this crate read configuration files and the output of
//! command-line tools. They work on slices of `char`, and their contracts
//! speak of `Seq<char>`, the view of `str` and `String`.

use vstd::prelude::*;
use vstd::slice::slice_subrange;
use vstd::string::{StrSliceExecFns, StringExecFns};

verus! {

/// The lower-case form of a text, as the standard library computes it:
/// Unicode lower-casing, which may change the number of characters.
pub uninterp spec fn lowercase_of(s: Seq<char>) -> Seq<char>;

/// `str::to_lowercase`: the result is the lower-case form of the argument.
/// Nothing more is claimed of it than that it depends on the text alone.
pub assume_specification[ str::to_lowercase ](s: &str) -> (r: String)
    ensures
        r@ == lowercase_of(s@),
;

/// `String::push`: appends one character to the end of the string.
pub assume_specification[ String::push ](s: &mut String, ch: char)
    ensures
        final(s)@ == old(s)@.push(ch),
;

/// The characters of a string.
pub fn chars_of(s: &str) -> (v: Vec<char>)
    ensures
        v@ == s@,
{
    let mut v: Vec<char> = Vec::new();
    for c in it: s.chars()
        invariant
            v@ == it.seq().take(it.index() as int),
    {
        v.push(c);
    }
    v
}

/// The string made of the given characters.
pub fn string_of(chars: &[char]) -> (s: String)
    ensures
        s@ == chars@,
{
    let mut s = String::new();
    let mut i: usize = 0;
    while i < chars.len()
        invariant
            i <= chars.len(),
            s@ == chars@.take(i as int),
        decreases chars.len() - i,
    {
        s.push(chars[i]);
        i += 1;
    }
    s
}

/// The lower-case form of a text given as characters.
pub fn lowercase(chars: &[char]) -> (v: Vec<char>)
    ensures
        v@ == lowercase_of(chars@),
{
    let s = string_of(chars);
    let lower = s.as_str().to_lowercase();
    chars_of(lower.as_str())
}

/// Whether a character is white space: one of the characters that Unicode
/// marks as `White_Space`.
pub open spec fn is_whitespace(c: char) -> bool {
    ||| '\u{9}' <= c <= '\u{d}'
    ||| c == ' '
    ||| c == '\u{85}'
    ||| c == '\u{a0}'
    ||| c == '\u{1680}'
    ||| '\u{2000}' <= c <= '\u{200a}'
    ||| c == '\u{2028}'
    ||| c == '\u{2029}'
    ||| c == '\u{202f}'
    ||| c == '\u{205f}'
    ||| c == '\u{3000}'
}

/// Whether a character is an ASCII digit.
pub open spec fn is_ascii_digit(c: char) -> bool {
    '0' <= c <= '9'
}

/// Whether a character is an ASCII letter or digit.
pub open spec fn is_ascii_alphanumeric(c: char) -> bool {
    ||| '0' <= c <= '9'
    ||| 'a' <= c <= 'z'
    ||| 'A' <= c <= 'Z'
}

/// Whether a character is white space.
pub fn char_is_whitespace(c: char) -> (b: bool)
    ensures
        b == is_whitespace(c),
{
    (c >= '\u{9}' && c <= '\u{d}') || c == ' ' || c == '\u{85}' || c == '\u{a0}' || c
        == '\u{1680}' || (c >= '\u{2000}' && c <= '\u{200a}') || c == '\u{2028}' || c
        == '\u{2029}' || c == '\u{202f}' || c == '\u{205f}' || c == '\u{3000}'
}

/// Whether a character is an ASCII digit.
pub fn char_is_ascii_digit(c: char) -> (b: bool)
    ensures
        b == is_ascii_digit(c),
{
    c >= '0' && c <= '9'
}

/// Whether a character is an ASCII letter or digit.
pub fn char_is_ascii_alphanumeric(c: char) -> (b: bool)
    ensures
        b == is_ascii_alphanumeric(c),
{
    (c >= '0' && c <= '9') || (c >= 'a' && c <= 'z') || (c >= 'A' && c <= 'Z')
}

/// Whether `p` stands in `s` at position `i`.
pub open spec fn occurs_at(s: Seq<char>, p: Seq<char>, i: int) -> bool {
    0 <= i && i + p.len() <= s.len() && s.subrange(i, i + p.len()) == p
}

/// Whether `s` begins with `p`.
pub open spec fn starts_with(s: Seq<char>, p: Seq<char>) -> bool {
    occurs_at(s, p, 0)
}

/// Whether `p` occurs somewhere in `s`.
pub open spec fn contains(s: Seq<char>, p: Seq<char>) -> bool {
    exists|i: int| occurs_at(s, p, i)
}

/// The first position at or after `from` where `p` stands in `s`.
pub open spec fn find_from(s: Seq<char>, p: Seq<char>, from: int) -> Option<int>
    decreases s.len() - from,
{
    if from < 0 || from + p.len() > s.len() {
        None
    } else if occurs_at(s, p, from) {
        Some(from)
    } else if from >= s.len() {
        None
    } else {
        find_from(s, p, from + 1)
    }
}

/// The first position where `p` stands in `s`.
pub open spec fn find(s: Seq<char>, p: Seq<char>) -> Option<int> {
    find_from(s, p, 0)
}

/// `find_from` returns the least position at or after `from` where the
/// pattern stands, and `None` exactly when there is none.
pub proof fn lemma_find_from(s: Seq<char>, p: Seq<char>, from: int)
    requires
        0 <= from,
    ensures
        find_from(s, p, from) matches Some(i) ==> from <= i && occurs_at(s, p, i) && forall|j: int|
            from <= j < i ==> !occurs_at(s, p, j),
        find_from(s, p, from) is None ==> forall|j: int| from <= j ==> !occurs_at(s, p, j),
    decreases s.len() - from,
{
    if from + p.len() > s.len() {
    } else if occurs_at(s, p, from) {
    } else if from >= s.len() {
        assert(s.subrange(from, from + p.len()) =~= p);
    } else {
        lemma_find_from(s, p, from + 1);
    }
}

/// `find` is `Some` exactly when the text contains the pattern.
pub proof fn lemma_find_contains(s: Seq<char>, p: Seq<char>)
    ensures
        find(s, p) is Some <==> contains(s, p),
{
    lemma_find_from(s, p, 0);
    if find(s, p) is Some {
        assert(occurs_at(s, p, find(s, p)->0));
    }
}

/// Whether `p` stands in `s` at position `i`.
pub fn has_at(s: &[char], p: &[char], i: usize) -> (b: bool)
    ensures
        b == occurs_at(s@, p@, i as int),
{
    if p.len() > s.len() || i > s.len() - p.len() {
        return false;
    }
    let mut k: usize = 0;
    while k < p.len()
        invariant
            k <= p.len(),
            i + p.len() <= s.len(),
            forall|j: int| 0 <= j < k ==> s@[i + j] == p@[j],
        decreases p.len() - k,
    {
        if s[i + k] != p[k] {
            assert(s@.subrange(i as int, i + p.len())[k as int] == s@[i + k]);
            return false;
        }
        k += 1;
    }
    assert(s@.subrange(i as int, i + p.len()) =~= p@);
    true
}

/// Whether `s` begins with `p`.
pub fn begins_with(s: &[char], p: &[char]) -> (b: bool)
    ensures
        b == starts_with(s@, p@),
{
    has_at(s, p, 0)
}

/// The first position where `p` stands in `s`, if there is one.
pub fn find_in(s: &[char], p: &[char]) -> (r: Option<usize>)
    ensures
        r is Some <==> contains(s@, p@),
        match r {
            Some(i) => find(s@, p@) == Some(i as int) && i + p@.len() <= s@.len(),
            None => find(s@, p@) is None,
        },
{
    proof {
        lemma_find_contains(s@, p@);
    }
    if p.len() > s.len() {
        return None;
    }
    let last = s.len() - p.len();
    let mut i: usize = 0;
    while i < last
        invariant
            i <= last,
            last == s.len() - p.len(),
            p.len() <= s.len(),
            find(s@, p@) == find_from(s@, p@, i as int),
        decreases last - i,
    {
        if has_at(s, p, i) {
            return Some(i);
        }
        i += 1;
    }
    if has_at(s, p, last) {
        Some(last)
    } else {
        proof {
            lemma_find_from(s@, p@, last + 1);
        }
        None
    }
}

/// Whether `p` occurs somewhere in `s`.
pub fn has(s: &[char], p: &[char]) -> (b: bool)
    ensures
        b == contains(s@, p@),
{
    find_in(s, p).is_some()
}

/// The first position at or after `from` that holds `c`, or the length of
/// `s` if there is none.
pub open spec fn index_of_char(s: Seq<char>, c: char, from: int) -> int
    decreases s.len() - from,
{
    if from < 0 || from >= s.len() {
        s.len() as int
    } else if s[from] == c {
        from
    } else {
        index_of_char(s, c, from + 1)
    }
}

/// `index_of_char` returns the least position at or after `from` that holds
/// the character, or the length.
pub proof fn lemma_index_of_char(s: Seq<char>, c: char, from: int)
    requires
        0 <= from <= s.len(),
    ensures
        from <= index_of_char(s, c, from) <= s.len(),
        index_of_char(s, c, from) < s.len() ==> s[index_of_char(s, c, from)] == c,
        forall|j: int| from <= j < index_of_char(s, c, from) ==> s[j] != c,
    decreases s.len() - from,
{
    if from < s.len() && s[from] != c {
        lemma_index_of_char(s, c, from + 1);
    }
}

/// The first position that holds `c`, or the length of `s`.
pub fn position_of(s: &[char], c: char) -> (i: usize)
    ensures
        i == index_of_char(s@, c, 0),
        i <= s@.len(),
        i < s@.len() ==> s@[i as int] == c,
        forall|j: int| 0 <= j < i ==> s@[j] != c,
{
    proof {
        lemma_index_of_char(s@, c, 0);
    }
    let mut i: usize = 0;
    while i < s.len()
        invariant
            i <= s.len(),
            index_of_char(s@, c, 0) == index_of_char(s@, c, i as int),
            forall|j: int| 0 <= j < i ==> s@[j] != c,
        decreases s.len() - i,
    {
        if s[i] == c {
            return i;
        }
        i += 1;
    }
    i
}

/// The first position at or after `from` that holds no white space.
pub open spec fn skip_whitespace(s: Seq<char>, from: int) -> int
    decreases s.len() - from,
{
    if 0 <= from < s.len() && is_whitespace(s[from]) {
        skip_whitespace(s, from + 1)
    } else {
        from
    }
}

/// The end of the text before `to` once trailing white space is left off,
/// never less than `floor`.
pub open spec fn skip_whitespace_back(s: Seq<char>, to: int, floor: int) -> int
    decreases to,
{
    if 0 <= floor < to <= s.len() && is_whitespace(s[to - 1]) {
        skip_whitespace_back(s, to - 1, floor)
    } else {
        to
    }
}

/// Where the text without leading white space begins.
pub open spec fn trim_begin(s: Seq<char>) -> int {
    skip_whitespace(s, 0)
}

/// Where the text without trailing white space ends.
pub open spec fn trim_end(s: Seq<char>) -> int {
    skip_whitespace_back(s, s.len() as int, trim_begin(s))
}

/// The text without leading and trailing white space.
pub open spec fn trimmed(s: Seq<char>) -> Seq<char> {
    s.subrange(trim_begin(s), trim_end(s))
}

/// The text without leading white space.
pub open spec fn trimmed_start(s: Seq<char>) -> Seq<char> {
    s.subrange(trim_begin(s), s.len() as int)
}

/// The bounds of `skip_whitespace`.
pub proof fn lemma_skip_whitespace(s: Seq<char>, from: int)
    requires
        0 <= from <= s.len(),
    ensures
        from <= skip_whitespace(s, from) <= s.len(),
        forall|j: int| from <= j < skip_whitespace(s, from) ==> is_whitespace(s[j]),
        skip_whitespace(s, from) < s.len() ==> !is_whitespace(s[skip_whitespace(s, from)]),
    decreases s.len() - from,
{
    if from < s.len() && is_whitespace(s[from]) {
        lemma_skip_whitespace(s, from + 1);
    }
}

/// The bounds of `skip_whitespace_back`.
pub proof fn lemma_skip_whitespace_back(s: Seq<char>, to: int, floor: int)
    requires
        0 <= floor <= to <= s.len(),
    ensures
        floor <= skip_whitespace_back(s, to, floor) <= to,
        forall|j: int| skip_whitespace_back(s, to, floor) <= j < to ==> is_whitespace(s[j]),
        floor < skip_whitespace_back(s, to, floor) ==> !is_whitespace(
            s[skip_whitespace_back(s, to, floor) - 1],
        ),
    decreases to,
{
    if floor < to && is_whitespace(s[to - 1]) {
        lemma_skip_whitespace_back(s, to - 1, floor);
    }
}

/// The bounds of a trimmed text, and that it neither begins nor ends with
/// white space.
pub proof fn lemma_trim_bounds(s: Seq<char>)
    ensures
        0 <= trim_begin(s) <= trim_end(s) <= s.len(),
        trimmed(s).len() > 0 ==> !is_whitespace(trimmed(s)[0]) && !is_whitespace(
            trimmed(s)[trimmed(s).len() - 1],
        ),
{
    lemma_skip_whitespace(s, 0);
    lemma_skip_whitespace_back(s, s.len() as int, trim_begin(s));
}

/// The bounds of the text without leading and trailing white space.
pub fn trim_range(s: &[char]) -> (r: (usize, usize))
    ensures
        r.0 == trim_begin(s@),
        r.1 == trim_end(s@),
        r.0 <= r.1 <= s@.len(),
{
    proof {
        lemma_trim_bounds(s@);
    }
    let mut a: usize = 0;
    while a < s.len() && char_is_whitespace(s[a])
        invariant
            a <= s.len(),
            skip_whitespace(s@, 0) == skip_whitespace(s@, a as int),
        decreases s.len() - a,
    {
        a += 1;
    }
    let mut b: usize = s.len();
    while b > a && char_is_whitespace(s[b - 1])
        invariant
            a <= b <= s.len(),
            a == trim_begin(s@),
            skip_whitespace_back(s@, s@.len() as int, a as int) == skip_whitespace_back(
                s@,
                b as int,
                a as int,
            ),
        decreases b,
    {
        b -= 1;
    }
    (a, b)
}

/// The text without leading and trailing white space.
pub fn trim(s: &[char]) -> (r: &[char])
    ensures
        r@ == trimmed(s@),
{
    let (a, b) = trim_range(s);
    slice_subrange(s, a, b)
}

/// The text without leading white space.
pub fn trim_start(s: &[char]) -> (r: &[char])
    ensures
        r@ == trimmed_start(s@),
{
    let (a, _) = trim_range(s);
    slice_subrange(s, a, s.len())
}

/// The views of a list of slices.
pub open spec fn views(parts: Seq<&[char]>) -> Seq<Seq<char>> {
    parts.map_values(|part: &[char]| part@)
}

/// A line without the carriage return that ends it, if one does.
pub open spec fn strip_cr(line: Seq<char>) -> Seq<char> {
    if line.len() > 0 && line.last() == '\r' {
        line.drop_last()
    } else {
        line
    }
}

/// The lines of the text from `from` on, where the line being read began at
/// `start`.
pub open spec fn lines_from(s: Seq<char>, from: int, start: int) -> Seq<Seq<char>>
    decreases s.len() - from,
{
    if from < 0 || from >= s.len() {
        if 0 <= start < s.len() {
            seq![s.subrange(start, s.len() as int)]
        } else {
            Seq::<Seq<char>>::empty()
        }
    } else if s[from] == '\n' {
        seq![strip_cr(s.subrange(start, from))] + lines_from(s, from + 1, from + 1)
    } else {
        lines_from(s, from + 1, start)
    }
}

/// The lines of a text.
///
/// A line ends at a line feed, which is left off together with a carriage
/// return just before it. A last line without a line feed counts as it
/// stands; the empty rest after a final line feed does not count.
pub open spec fn lines(s: Seq<char>) -> Seq<Seq<char>> {
    lines_from(s, 0, 0)
}

/// The words of the text from `from` on, where the word being read, if any,
/// began at `start`.
pub open spec fn words_from(s: Seq<char>, from: int, start: int) -> Seq<Seq<char>>
    decreases s.len() - from,
{
    if from < 0 || from >= s.len() {
        if 0 <= start < s.len() {
            seq![s.subrange(start, s.len() as int)]
        } else {
            Seq::<Seq<char>>::empty()
        }
    } else if is_whitespace(s[from]) {
        if start < from {
            seq![s.subrange(start, from)] + words_from(s, from + 1, from + 1)
        } else {
            words_from(s, from + 1, from + 1)
        }
    } else {
        words_from(s, from + 1, start)
    }
}

/// The words of a text: its maximal runs of characters that are not white
/// space, in order.
pub open spec fn words(s: Seq<char>) -> Seq<Seq<char>> {
    words_from(s, 0, 0)
}

/// The lines of a text, as slices of it.
pub fn split_lines<'a>(s: &'a [char]) -> (r: Vec<&'a [char]>)
    ensures
        views(r@) == lines(s@),
{
    let mut out: Vec<&'a [char]> = Vec::new();
    let mut start: usize = 0;
    let mut i: usize = 0;
    assert(views(out@) =~= Seq::<Seq<char>>::empty());
    while i < s.len()
        invariant
            start <= i <= s.len(),
            lines(s@) == views(out@) + lines_from(s@, i as int, start as int),
        decreases s.len() - i,
    {
        if s[i] == '\n' {
            let end = if i > start && s[i - 1] == '\r' {
                i - 1
            } else {
                i
            };
            let line = slice_subrange(s, start, end);
            let ghost before = out@;
            out.push(line);
            proof {
                let whole = s@.subrange(start as int, i as int);
                if i > start && s@[i - 1] == '\r' {
                    assert(whole.last() == '\r');
                    assert(whole.drop_last() =~= s@.subrange(start as int, i - 1));
                }
                assert(line@ == strip_cr(whole));
                assert(views(out@) =~= views(before).push(line@));
                assert(views(before) + (seq![line@] + lines_from(s@, i + 1, i + 1)) =~= views(
                    before,
                ).push(line@) + lines_from(s@, i + 1, i + 1));
            }
            start = i + 1;
        }
        i += 1;
    }
    if start < s.len() {
        let line = slice_subrange(s, start, s.len());
        let ghost before = out@;
        out.push(line);
        proof {
            assert(views(out@) =~= views(before).push(line@));
            assert(views(before) + seq![line@] =~= views(before).push(line@));
        }
    } else {
        assert(views(out@) + Seq::<Seq<char>>::empty() =~= views(out@));
    }
    out
}

/// The words of a text, as slices of it.
pub fn split_words<'a>(s: &'a [char]) -> (r: Vec<&'a [char]>)
    ensures
        views(r@) == words(s@),
{
    let mut out: Vec<&'a [char]> = Vec::new();
    let mut start: usize = 0;
    let mut i: usize = 0;
    assert(views(out@) =~= Seq::<Seq<char>>::empty());
    while i < s.len()
        invariant
            start <= i <= s.len(),
            words(s@) == views(out@) + words_from(s@, i as int, start as int),
        decreases s.len() - i,
    {
        if char_is_whitespace(s[i]) {
            if start < i {
                let word = slice_subrange(s, start, i);
                let ghost before = out@;
                out.push(word);
                proof {
                    assert(views(out@) =~= views(before).push(word@));
                    assert(views(before) + (seq![word@] + words_from(s@, i + 1, i + 1))
                        =~= views(before).push(word@) + words_from(s@, i + 1, i + 1));
                }
            }
            start = i + 1;
        }
        i += 1;
    }
    if start < s.len() {
        let word = slice_subrange(s, start, s.len());
        let ghost before = out@;
        out.push(word);
        proof {
            assert(views(out@) =~= views(before).push(word@));
            assert(views(before) + seq![word@] =~= views(before).push(word@));
        }
    } else {
        assert(views(out@) + Seq::<Seq<char>>::empty() =~= views(out@));
    }
    out
}

/// The character for a digit.
pub open spec fn digit_char(d: int) -> char {
    if d == 0 {
        '0'
    } else if d == 1 {
        '1'
    } else if d == 2 {
        '2'
    } else if d == 3 {
        '3'
    } else if d == 4 {
        '4'
    } else if d == 5 {
        '5'
    } else if d == 6 {
        '6'
    } else if d == 7 {
        '7'
    } else if d == 8 {
        '8'
    } else {
        '9'
    }
}

/// A number written in decimal, without leading zeros.
pub open spec fn decimal(n: nat) -> Seq<char>
    decreases n,
{
    if n < 10 {
        seq![digit_char(n as int)]
    } else {
        decimal(n / 10).push(digit_char((n % 10) as int))
    }
}

fn digit_of(d: u64) -> (c: char)
    requires
        d < 10,
    ensures
        c == digit_char(d as int),
{
    if d == 0 {
        '0'
    } else if d == 1 {
        '1'
    } else if d == 2 {
        '2'
    } else if d == 3 {
        '3'
    } else if d == 4 {
        '4'
    } else if d == 5 {
        '5'
    } else if d == 6 {
        '6'
    } else if d == 7 {
        '7'
    } else if d == 8 {
        '8'
    } else {
        '9'
    }
}

/// Append a number in decimal to a string.
pub fn push_decimal(out: &mut String, n: u64)
    ensures
        final(out)@ == old(out)@ + decimal(n as nat),
    decreases n,
{
    if n >= 10 {
        push_decimal(out, n / 10);
    }
    out.push(digit_of(n % 10));
    proof {
        if n >= 10 {
            assert(final(out)@ =~= old(out)@ + decimal(n as nat));
        } else {
            assert(final(out)@ =~= old(out)@ + decimal(n as nat));
        }
    }
}

/// A text followed by as many spaces as it takes to make it `width`
/// characters long; a longer text is left as it is.
pub open spec fn padded(s: Seq<char>, width: nat) -> Seq<char> {
    if s.len() >= width {
        s
    } else {
        s + Seq::new((width - s.len()) as nat, |i: int| ' ')
    }
}

/// Append a text to a string, then pad with spaces up to `width` characters.
pub fn push_padded(out: &mut String, s: &str, width: usize)
    ensures
        final(out)@ == old(out)@ + padded(s@, width as nat),
{
    let n = s.unicode_len();
    out.append(s);
    let mut k: usize = n;
    assert(out@ =~= old(out)@ + s@ + Seq::new(0nat, |i: int| ' '));
    while k < width
        invariant
            n == s@.len(),
            n <= k,
            n < width ==> k <= width,
            n >= width ==> k == n,
            out@ == old(out)@ + s@ + Seq::new((k - n) as nat, |i: int| ' '),
        decreases width - k,
    {
        out.push(' ');
        k += 1;
        assert(out@ =~= old(out)@ + s@ + Seq::new((k - n) as nat, |i: int| ' '));
    }
    assert(out@ =~= old(out)@ + padded(s@, width as nat));
}

/// Whether every character of a text is an ASCII digit.
pub open spec fn all_digits(s: Seq<char>) -> bool {
    forall|i: int| 0 <= i < s.len() ==> is_ascii_digit(#[trigger] s[i])
}

/// The number a digit stands for.
pub open spec fn digit_value(c: char) -> nat {
    (c as nat - '0' as nat) as nat
}

/// The number a text of digits stands for.
pub open spec fn digits_value(s: Seq<char>) -> nat
    decreases s.len(),
{
    if s.len() == 0 {
        0
    } else {
        digits_value(s.drop_last()) * 10 + digit_value(s.last())
    }
}

/// The digits of a number text: the text without a leading plus sign.
pub open spec fn unsigned_digits(s: Seq<char>) -> Seq<char> {
    if s.len() > 0 && s[0] == '+' {
        s.subrange(1, s.len() as int)
    } else {
        s
    }
}

/// The number a text stands for, read as `u64`: one or more digits, with a
/// plus sign before them or none, standing for a value that fits.
pub open spec fn parsed_u64(s: Seq<char>) -> Option<u64> {
    let d = unsigned_digits(s);
    if d.len() > 0 && all_digits(d) && digits_value(d) <= u64::MAX {
        Some(digits_value(d) as u64)
    } else {
        None
    }
}

/// A text of digits stands for at least as much as any of its beginnings.
pub proof fn lemma_digits_value_grows(s: Seq<char>, k: int)
    requires
        0 <= k <= s.len(),
    ensures
        digits_value(s.take(k)) <= digits_value(s),
    decreases s.len() - k,
{
    if k < s.len() {
        lemma_digits_value_grows(s, k + 1);
        assert(s.take(k + 1).drop_last() =~= s.take(k));
    } else {
        assert(s.take(k) =~= s);
    }
}

/// Read a number as `u64`.
pub fn parse_u64(s: &[char]) -> (r: Option<u64>)
    ensures
        r == parsed_u64(s@),
{
    let d = if s.len() > 0 && s[0] == '+' {
        slice_subrange(s, 1, s.len())
    } else {
        s
    };
    assert(d@ == unsigned_digits(s@));
    if d.len() == 0 {
        return None;
    }
    let mut acc: u64 = 0;
    let mut i: usize = 0;
    while i < d.len()
        invariant
            i <= d.len(),
            d@ == unsigned_digits(s@),
            acc == digits_value(d@.take(i as int)),
            forall|j: int| 0 <= j < i ==> is_ascii_digit(#[trigger] d@[j]),
        decreases d.len() - i,
    {
        let c = d[i];
        if !(c >= '0' && c <= '9') {
            assert(!is_ascii_digit(d@[i as int]));
            return None;
        }
        let v: u64 = (c as u32 - '0' as u32) as u64;
        proof {
            assert(d@.take(i + 1).drop_last() =~= d@.take(i as int));
            assert(d@.take(i + 1).last() == c);
            assert(v == digit_value(c));
            lemma_digits_value_grows(d@, i + 1);
        }
        if acc > (u64::MAX - v) / 10 {
            assert(digits_value(d@.take(i + 1)) > u64::MAX);
            return None;
        }
        acc = acc * 10 + v;
        i += 1;
    }
    assert(d@.take(d@.len() as int) =~= d@);
    Some(acc)
}

/// Where a text begins once leading quotes are left off.
pub open spec fn skip_quotes(s: Seq<char>, from: int) -> int
    decreases s.len() - from,
{
    if 0 <= from < s.len() && s[from] == '"' {
        skip_quotes(s, from + 1)
    } else {
        from
    }
}

/// Where a text ends once trailing quotes are left off, never before
/// `floor`.
pub open spec fn skip_quotes_back(s: Seq<char>, to: int, floor: int) -> int
    decreases to,
{
    if 0 <= floor < to <= s.len() && s[to - 1] == '"' {
        skip_quotes_back(s, to - 1, floor)
    } else {
        to
    }
}

/// A text without the quotes around it, however many there are.
pub open spec fn unquoted(s: Seq<char>) -> Seq<char> {
    s.subrange(skip_quotes(s, 0), skip_quotes_back(s, s.len() as int, skip_quotes(s, 0)))
}

proof fn lemma_skip_quotes(s: Seq<char>, from: int)
    requires
        0 <= from <= s.len(),
    ensures
        from <= skip_quotes(s, from) <= s.len(),
    decreases s.len() - from,
{
    if from < s.len() && s[from] == '"' {
        lemma_skip_quotes(s, from + 1);
    }
}

/// A text without the quotes around it.
pub fn unquote(s: &[char]) -> (r: &[char])
    ensures
        r@ == unquoted(s@),
{
    proof {
        lemma_skip_quotes(s@, 0);
    }
    let mut a: usize = 0;
    while a < s.len() && s[a] == '"'
        invariant
            a <= s.len(),
            skip_quotes(s@, 0) == skip_quotes(s@, a as int),
        decreases s.len() - a,
    {
        a += 1;
    }
    let mut b: usize = s.len();
    while b > a && s[b - 1] == '"'
        invariant
            a <= b <= s.len(),
            a == skip_quotes(s@, 0),
            skip_quotes_back(s@, s@.len() as int, a as int) == skip_quotes_back(
                s@,
                b as int,
                a as int,
            ),
        decreases b,
    {
        b -= 1;
    }
    slice_subrange(s, a, b)
}

/// The part of a text before the first `c`, or all of it.
pub open spec fn before_char(s: Seq<char>, c: char) -> Seq<char> {
    s.subrange(0, index_of_char(s, c, 0))
}

/// The part of a text after the first `c`; empty if there is none.
pub open spec fn after_char(s: Seq<char>, c: char) -> Seq<char> {
    if index_of_char(s, c, 0) < s.len() {
        s.subrange(index_of_char(s, c, 0) + 1, s.len() as int)
    } else {
        Seq::<char>::empty()
    }
}

/// Whether a text holds `c`.
pub open spec fn holds_char(s: Seq<char>, c: char) -> bool {
    index_of_char(s, c, 0) < s.len()
}

/// Whether two texts are the same.
pub fn same_text(a: &[char], b: &[char]) -> (r: bool)
    ensures
        r == (a@ == b@),
{
    if a.len() != b.len() {
        return false;
    }
    let r = begins_with(a, b);
    proof {
        assert(a@.subrange(0, b@.len() as int) =~= a@);
    }
    r
}

/// The view of an optional string.
pub open spec fn text_of(s: Option<String>) -> Option<Seq<char>> {
    match s {
        Some(v) => Some(v@),
        None => None,
    }
}

/// The views of a list of string slices.
pub open spec fn str_views(parts: Seq<&'static str>) -> Seq<Seq<char>> {
    parts.map_values(|part: &'static str| part@)
}

/// Length of a text in bytes, in UTF-8.
pub open spec fn utf8_len(s: Seq<char>) -> nat {
    vstd::utf8::encode_utf8(s).len()
}

} // verus!
