//! Text as a sequence of characters: conversion to and from strings, decimal
//! numerals, lines and their joining, trimming and substring search.

use vstd::prelude::*;

verus! {

/// `String::push` of the standard library: the character is appended to the
/// end of the string and nothing else changes.
pub assume_specification[ String::push ](s: &mut String, c: char)
    ensures
        final(s)@ == old(s)@.push(c),
;

/// Equality of string slices in the standard library (`PartialEq` for `str`):
/// two slices are equal exactly when they hold the same characters.
pub assume_specification[ <str as PartialEq>::eq ](a: &str, b: &str) -> (r: bool)
    ensures
        r == (a@ == b@),
;

/// The characters of `s`, in order.
pub fn chars_of(s: &str) -> (chars: Vec<char>)
    ensures
        chars@ == s@,
{
    let mut chars: Vec<char> = Vec::new();
    for c in it: s.chars()
        invariant
            chars@ == it.seq().take(it.index() as int),
    {
        chars.push(c);
    }
    chars
}

/// Appends `chars[from..to]` to `out`.
pub fn push_chars(out: &mut String, chars: &Vec<char>, from: usize, to: usize)
    requires
        from <= to <= chars.len(),
    ensures
        final(out)@ == old(out)@ + chars@.subrange(from as int, to as int),
{
    let mut i: usize = from;
    while i < to
        invariant
            from <= i <= to <= chars.len(),
            out@ == old(out)@ + chars@.subrange(from as int, i as int),
        decreases to - i,
    {
        out.push(chars[i]);
        i += 1;
    }
}

/// The decimal digit for `d`; `'0'` where `d` is not a digit.
pub open spec fn digit_char(d: nat) -> char {
    if d == 1 {
        '1'
    } else if d == 2 {
        '2'
    } else if d == 3 {
        '3'
    } else if d == 4 {
        '4'
    } else if d == 5 {
        '5'
    } else if d == 6 {
        '6'
    } else if d == 7 {
        '7'
    } else if d == 8 {
        '8'
    } else if d == 9 {
        '9'
    } else {
        '0'
    }
}

/// The decimal numeral of `n`: no sign and no leading zero, `"0"` for zero.
pub open spec fn decimal(n: nat) -> Seq<char>
    decreases n,
{
    if n < 10 {
        seq![digit_char(n)]
    } else {
        decimal(n / 10).push(digit_char(n % 10))
    }
}

/// A decimal numeral holds digits only, and at least one.
pub proof fn lemma_decimal_digits(n: nat)
    ensures
        decimal(n).len() > 0,
        forall|j: int| 0 <= j < decimal(n).len() ==> '0' <= #[trigger] decimal(n)[j] <= '9',
    decreases n,
{
    if n >= 10 {
        lemma_decimal_digits(n / 10);
    }
}

/// Different numbers have different decimal numerals.
pub proof fn lemma_decimal_injective(a: nat, b: nat)
    requires
        decimal(a) == decimal(b),
    ensures
        a == b,
    decreases a,
{
    lemma_decimal_digits(a / 10);
    lemma_decimal_digits(b / 10);
    if a >= 10 && b >= 10 {
        assert(decimal(a).drop_last() == decimal(a / 10));
        assert(decimal(b).drop_last() == decimal(b / 10));
        assert(decimal(a).last() == digit_char(a % 10));
        assert(decimal(b).last() == digit_char(b % 10));
        lemma_decimal_injective(a / 10, b / 10);
        assert(a % 10 == b % 10);
    } else if a < 10 && b < 10 {
        assert(decimal(a)[0] == digit_char(a));
        assert(decimal(b)[0] == digit_char(b));
    } else if a < 10 {
        assert(decimal(a).len() == 1);
        assert(decimal(b).len() == decimal(b / 10).len() + 1);
    } else {
        assert(decimal(b).len() == 1);
        assert(decimal(a).len() == decimal(a / 10).len() + 1);
    }
}

/// The decimal digit for `d`.
pub fn digit(d: usize) -> (c: char)
    requires
        d < 10,
    ensures
        c == digit_char(d as nat),
{
    match d {
        1 => '1',
        2 => '2',
        3 => '3',
        4 => '4',
        5 => '5',
        6 => '6',
        7 => '7',
        8 => '8',
        9 => '9',
        _ => '0',
    }
}

/// Appends the decimal numeral of `n` to `out`.
pub fn push_decimal(out: &mut String, n: usize)
    ensures
        final(out)@ == old(out)@ + decimal(n as nat),
    decreases n,
{
    if n >= 10 {
        push_decimal(out, n / 10);
    }
    out.push(digit(n % 10));
}

/// The position of the first line feed in `s`, or `s.len()` where it holds none.
pub open spec fn first_newline(s: Seq<char>) -> int
    decreases s.len(),
{
    if s.len() == 0 || s[0] == '\n' {
        0
    } else {
        1 + first_newline(s.drop_first())
    }
}

/// `line` without its last character where that is a carriage return.
pub open spec fn without_cr(line: Seq<char>) -> Seq<char> {
    if line.len() > 0 && line.last() == '\r' {
        line.drop_last()
    } else {
        line
    }
}

/// The lines of `s`. A line ends at a line feed, or at a carriage return
/// directly followed by one; neither belongs to the line. The text after the
/// last line feed is a line of its own unless it is empty, and it keeps a
/// carriage return at its end. The empty text has no lines.
pub open spec fn lines_of(s: Seq<char>) -> Seq<Seq<char>>
    decreases s.len(),
{
    if s.len() == 0 {
        Seq::empty()
    } else {
        let end = first_newline(s);
        if 0 <= end < s.len() {
            seq![without_cr(s.take(end))] + lines_of(s.skip(end + 1))
        } else {
            seq![s]
        }
    }
}

/// The lines joined by single line feeds: one between each two neighbours,
/// none before the first or after the last.
pub open spec fn join_lines(lines: Seq<Seq<char>>) -> Seq<char>
    decreases lines.len(),
{
    if lines.len() == 0 {
        Seq::empty()
    } else if lines.len() == 1 {
        lines[0]
    } else {
        join_lines(lines.drop_last()) + seq!['\n'] + lines.last()
    }
}

/// `first_newline(s)` lies within `s`, nothing before it is a line feed, and
/// where it is not the end of `s` it is one.
pub proof fn lemma_first_newline(s: Seq<char>)
    ensures
        0 <= first_newline(s) <= s.len(),
        forall|j: int| 0 <= j < first_newline(s) ==> s[j] != '\n',
        first_newline(s) < s.len() ==> s[first_newline(s)] == '\n',
    decreases s.len(),
{
    if s.len() == 0 || s[0] == '\n' {
    } else {
        let rest = s.drop_first();
        lemma_first_newline(rest);
        assert forall|j: int| 0 <= j < first_newline(s) implies s[j] != '\n' by {
            if j > 0 {
                assert(s[j] == rest[j - 1]);
            }
        }
        if first_newline(s) < s.len() {
            assert(s[first_newline(s)] == rest[first_newline(rest)]);
        }
    }
}

/// A position with no line feed before it, which holds one or is the end of
/// `s`, is `first_newline(s)`.
pub proof fn lemma_first_newline_at(s: Seq<char>, i: int)
    requires
        0 <= i <= s.len(),
        forall|j: int| 0 <= j < i ==> s[j] != '\n',
        i < s.len() ==> s[i] == '\n',
    ensures
        first_newline(s) == i,
{
    lemma_first_newline(s);
    let f = first_newline(s);
    if f < i {
        assert(s[f] == '\n');
    } else if i < f {
        assert(s[i] != '\n');
    }
}

/// Whether `line` holds no line feed.
pub open spec fn has_no_newline(line: Seq<char>) -> bool {
    forall|j: int| 0 <= j < line.len() ==> line[j] != '\n'
}

/// No line of a text holds a line feed.
pub proof fn lemma_lines_hold_no_newline(s: Seq<char>)
    ensures
        forall|i: int| 0 <= i < lines_of(s).len() ==> has_no_newline(#[trigger] lines_of(s)[i]),
    decreases s.len(),
{
    if s.len() > 0 {
        lemma_first_newline(s);
        let end = first_newline(s);
        if end < s.len() {
            let rest = lines_of(s.skip(end + 1));
            lemma_lines_hold_no_newline(s.skip(end + 1));
            assert(has_no_newline(without_cr(s.take(end))));
            assert forall|i: int| 0 <= i < lines_of(s).len() implies has_no_newline(
                #[trigger] lines_of(s)[i],
            ) by {
                if i > 0 {
                    assert(lines_of(s)[i] == rest[i - 1]);
                }
            }
        } else {
            assert(has_no_newline(s));
        }
    }
}

/// A text that is not empty and holds no line feed is one line.
pub proof fn lemma_single_line(line: Seq<char>)
    requires
        line.len() > 0,
        has_no_newline(line),
    ensures
        lines_of(line) == seq![line],
{
    lemma_first_newline_at(line, line.len() as int);
}

/// Of a text that starts with `line` and a line feed, the first line is
/// `line` without a carriage return at its end, and the other lines are those
/// of the text after the line feed.
pub proof fn lemma_lines_after_line(line: Seq<char>, rest: Seq<char>)
    requires
        has_no_newline(line),
    ensures
        lines_of(line + seq!['\n'] + rest) == seq![without_cr(line)] + lines_of(rest),
{
    let s = line + seq!['\n'] + rest;
    lemma_first_newline_at(s, line.len() as int);
    assert(s.take(line.len() as int) == line);
    assert(s.skip(line.len() as int + 1) == rest);
}

/// Splitting undoes joining: of lines without line feeds, joined and followed
/// by a line feed and `rest`, the lines are the joined ones, each without a
/// carriage return at its end, and then the lines of `rest`.
pub proof fn lemma_lines_of_joined(lines: Seq<Seq<char>>, rest: Seq<char>)
    requires
        lines.len() > 0,
        forall|i: int| 0 <= i < lines.len() ==> has_no_newline(#[trigger] lines[i]),
    ensures
        lines_of(join_lines(lines) + seq!['\n'] + rest) == lines.map_values(
            |line: Seq<char>| without_cr(line),
        ) + lines_of(rest),
    decreases lines.len(),
{
    let stripped = lines.map_values(|line: Seq<char>| without_cr(line));
    if lines.len() == 1 {
        lemma_lines_after_line(lines[0], rest);
        assert(stripped == seq![without_cr(lines[0])]);
    } else {
        let front = lines.drop_last();
        let last = lines.last();
        let tail = last + seq!['\n'] + rest;
        lemma_lines_of_joined(front, tail);
        lemma_lines_after_line(last, rest);
        assert(join_lines(lines) + seq!['\n'] + rest == join_lines(front) + seq!['\n'] + tail);
        assert(stripped == front.map_values(|line: Seq<char>| without_cr(line)) + seq![
            without_cr(last),
        ]);
    }
}

/// The end of the line that starts at `from`: the position of the next line
/// feed, or the end of the text.
pub fn line_end(chars: &Vec<char>, from: usize) -> (end: usize)
    requires
        from <= chars.len(),
    ensures
        from <= end <= chars.len(),
        end - from == first_newline(chars@.skip(from as int)),
{
    let mut end: usize = from;
    while end < chars.len() && chars[end] != '\n'
        invariant
            from <= end <= chars.len(),
            forall|j: int| from <= j < end ==> chars@[j] != '\n',
        decreases chars.len() - end,
    {
        end += 1;
    }
    proof {
        let rest = chars@.skip(from as int);
        assert forall|j: int| 0 <= j < end - from implies rest[j] != '\n' by {
            assert(rest[j] == chars@[from + j]);
        }
        lemma_first_newline_at(rest, end - from);
    }
    end
}

/// The number of lines in the text.
pub fn count_lines(chars: &Vec<char>) -> (count: usize)
    ensures
        count == lines_of(chars@).len(),
{
    let mut pos: usize = 0;
    let mut count: usize = 0;
    assert(chars@.skip(0) == chars@);
    while pos < chars.len()
        invariant
            pos <= chars.len(),
            count <= pos,
            count + lines_of(chars@.skip(pos as int)).len() == lines_of(chars@).len(),
        decreases chars.len() - pos,
    {
        let end = line_end(chars, pos);
        proof {
            let rest = chars@.skip(pos as int);
            if end < chars.len() {
                assert(rest.skip(end - pos + 1) == chars@.skip(end + 1));
            } else {
                assert(lines_of(chars@.skip(end as int)).len() == 0);
            }
        }
        count += 1;
        pos = if end < chars.len() {
            end + 1
        } else {
            end
        };
    }
    count
}

/// The number of lines in `text`.
pub fn line_count(text: &str) -> (count: usize)
    ensures
        count == lines_of(text@).len(),
{
    let chars = chars_of(text);
    count_lines(&chars)
}

/// Appends to `out` the first `limit` lines of the text, or all of them where
/// it has fewer, joined by line feeds.
pub fn push_first_lines(out: &mut String, chars: &Vec<char>, limit: usize)
    ensures
        limit <= lines_of(chars@).len() ==> final(out)@ == old(out)@ + join_lines(
            lines_of(chars@).take(limit as int),
        ),
        limit > lines_of(chars@).len() ==> final(out)@ == old(out)@ + join_lines(lines_of(chars@)),
{
    let ghost lines = lines_of(chars@);
    let mut pos: usize = 0;
    let mut taken: usize = 0;
    assert(chars@.skip(0) == chars@);
    assert(lines.skip(0) == lines);
    assert(out@ + join_lines(lines.take(0)) == out@);
    while taken < limit && pos < chars.len()
        invariant
            lines == lines_of(chars@),
            pos <= chars.len(),
            taken <= limit,
            taken <= lines.len(),
            lines.skip(taken as int) == lines_of(chars@.skip(pos as int)),
            out@ == old(out)@ + join_lines(lines.take(taken as int)),
        decreases chars.len() - pos,
    {
        let end = line_end(chars, pos);
        let ended = end < chars.len();
        let stop = if ended && end > pos && chars[end - 1] == '\r' {
            end - 1
        } else {
            end
        };
        if taken > 0 {
            out.push('\n');
        }
        push_chars(out, chars, pos, stop);
        proof {
            let rest = chars@.skip(pos as int);
            let line = chars@.subrange(pos as int, stop as int);
            let tail = lines.skip(taken as int);
            assert(tail.len() > 0);
            assert(lines[taken as int] == tail[0]);
            if ended {
                assert(rest.skip(end - pos + 1) == chars@.skip(end + 1));
                assert(rest.take(end - pos) == chars@.subrange(pos as int, end as int));
                assert(without_cr(rest.take(end - pos)) == line);
                assert(tail.skip(1) == lines_of(chars@.skip(end + 1)));
            } else {
                assert(rest == line);
                assert(tail.skip(1) == lines_of(chars@.skip(end as int)));
            }
            assert(tail[0] == line);
            assert(lines.skip(taken + 1) == tail.skip(1));
            let more = lines.take(taken + 1);
            assert(more.drop_last() == lines.take(taken as int));
            assert(more.last() == line);
        }
        taken += 1;
        pos = if ended {
            end + 1
        } else {
            end
        };
    }
    proof {
        if taken < limit {
            assert(lines.skip(taken as int).len() == 0);
            assert(lines.take(taken as int) == lines);
        }
    }
}

/// Whether `c` is white space to the standard library: the result of
/// `char::is_whitespace`, which goes by the Unicode property `White_Space`.
pub uninterp spec fn is_white_space(c: char) -> bool;

/// Whether `c` is white space. Among the ASCII characters the white space is
/// the space and the five characters from the tabulator to the carriage
/// return; beyond them it is what the standard library takes for white space.
pub open spec fn white_space(c: char) -> bool {
    if c <= '\u{7f}' {
        c == ' ' || '\u{9}' <= c <= '\u{d}'
    } else {
        is_white_space(c)
    }
}

/// `char::is_whitespace` of the standard library. Its answer depends on the
/// character alone and is named `is_white_space`. Of an ASCII character it is
/// stated in full: the property `White_Space` holds there of the space and of
/// U+0009 to U+000D, and of nothing else.
pub assume_specification[ char::is_whitespace ](c: char) -> (b: bool)
    ensures
        b == is_white_space(c),
        c <= '\u{7f}' ==> b == (c == ' ' || '\u{9}' <= c <= '\u{d}'),
;

/// `s` without the white space at its start.
pub open spec fn trim_start(s: Seq<char>) -> Seq<char>
    decreases s.len(),
{
    if s.len() > 0 && white_space(s[0]) {
        trim_start(s.drop_first())
    } else {
        s
    }
}

/// `s` without the white space at its end.
pub open spec fn trim_end(s: Seq<char>) -> Seq<char>
    decreases s.len(),
{
    if s.len() > 0 && white_space(s.last()) {
        trim_end(s.drop_last())
    } else {
        s
    }
}

/// `s` without the white space at either end.
pub open spec fn trimmed(s: Seq<char>) -> Seq<char> {
    trim_end(trim_start(s))
}

/// The text without the white space at either end.
pub fn trim(text: &str) -> (r: String)
    ensures
        r@ == trimmed(text@),
{
    let chars = chars_of(text);
    let mut start: usize = 0;
    assert(chars@.skip(0) == chars@);
    while start < chars.len() && chars[start].is_whitespace()
        invariant
            start <= chars.len(),
            trim_start(chars@) == trim_start(chars@.skip(start as int)),
        decreases chars.len() - start,
    {
        assert(chars@.skip(start as int).drop_first() == chars@.skip(start + 1));
        start += 1;
    }
    let mut end: usize = chars.len();
    assert(chars@.skip(start as int) == chars@.subrange(start as int, end as int));
    while end > start && chars[end - 1].is_whitespace()
        invariant
            start <= end <= chars.len(),
            trim_end(chars@.skip(start as int)) == trim_end(
                chars@.subrange(start as int, end as int),
            ),
        decreases end,
    {
        assert(chars@.subrange(start as int, end as int).drop_last() == chars@.subrange(
            start as int,
            end - 1,
        ));
        end -= 1;
    }
    let mut r = String::new();
    push_chars(&mut r, &chars, start, end);
    assert(r@ == chars@.subrange(start as int, end as int));
    r
}

/// Whether `pattern` stands in `s` at position `at`.
pub open spec fn occurs_at(s: Seq<char>, pattern: Seq<char>, at: int) -> bool {
    0 <= at && at + pattern.len() <= s.len() && s.subrange(at, at + pattern.len()) == pattern
}

/// Whether `pattern` stands somewhere in `s`.
pub open spec fn contains_text(s: Seq<char>, pattern: Seq<char>) -> bool {
    exists|at: int| occurs_at(s, pattern, at)
}

/// Whether `pattern` stands in `chars` at position `at`.
pub fn matches_at(chars: &Vec<char>, pattern: &Vec<char>, at: usize) -> (found: bool)
    requires
        at + pattern.len() <= chars.len(),
    ensures
        found == occurs_at(chars@, pattern@, at as int),
{
    let mut j: usize = 0;
    while j < pattern.len()
        invariant
            j <= pattern.len(),
            at + pattern.len() <= chars.len(),
            forall|k: int| 0 <= k < j ==> chars@[at + k] == pattern@[k],
        decreases pattern.len() - j,
    {
        if chars[at + j] != pattern[j] {
            proof {
                let window = chars@.subrange(at as int, at + pattern.len());
                assert(window[j as int] != pattern@[j as int]);
            }
            return false;
        }
        j += 1;
    }
    assert(chars@.subrange(at as int, at + pattern.len()) == pattern@);
    true
}

/// Whether `pattern` stands somewhere in `text`.
pub fn contains(text: &str, pattern: &str) -> (found: bool)
    ensures
        found == contains_text(text@, pattern@),
{
    let chars = chars_of(text);
    let wanted = chars_of(pattern);
    if wanted.len() > chars.len() {
        return false;
    }
    let last = chars.len() - wanted.len();
    let mut at: usize = 0;
    while at < last
        invariant
            at <= last,
            last == chars.len() - wanted.len(),
            chars@ == text@,
            wanted@ == pattern@,
            forall|k: int| 0 <= k < at ==> !occurs_at(chars@, wanted@, k),
        decreases last - at,
    {
        if matches_at(&chars, &wanted, at) {
            return true;
        }
        at += 1;
    }
    matches_at(&chars, &wanted, last)
}

/// The lower-case form that the standard library gives a text: the result of
/// `str::to_lowercase`, which goes by the Unicode case mappings.
pub uninterp spec fn lowercase(s: Seq<char>) -> Seq<char>;

/// `c` with the letters `A` to `Z` mapped to `a` to `z`.
pub open spec fn ascii_lower_char(c: char) -> char {
    if 'A' <= c <= 'Z' {
        ((c as int) + 32) as char
    } else {
        c
    }
}

/// `s` with each of the letters `A` to `Z` mapped to its lower-case letter.
pub open spec fn ascii_lowercase(s: Seq<char>) -> Seq<char> {
    Seq::new(s.len(), |i: int| ascii_lower_char(s[i]))
}

/// `c` with the letters `a` to `z` mapped to `A` to `Z`.
pub open spec fn ascii_upper_char(c: char) -> char {
    if 'a' <= c <= 'z' {
        ((c as int) - 32) as char
    } else {
        c
    }
}

/// `s` with each of the letters `a` to `z` mapped to its upper-case letter.
pub open spec fn ascii_uppercase(s: Seq<char>) -> Seq<char> {
    Seq::new(s.len(), |i: int| ascii_upper_char(s[i]))
}

/// `str::to_lowercase` of the standard library. Its result depends on the text
/// alone and is named `lowercase`. Of a text of ASCII characters it is stated
/// in full: the letters `A` to `Z` become `a` to `z` and nothing else changes.
pub assume_specification[ str::to_lowercase ](s: &str) -> (r: String)
    ensures
        r@ == lowercase(s@),
        vstd::utf8::is_ascii_chars(s@) ==> r@ == ascii_lowercase(s@),
;

} // verus!
