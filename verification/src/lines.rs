//! Line geometry of a text, stated over its characters.
//!
//! A line break is the character `'\n'`. The start of the text and each
//! position just after a line break start a line, and a line break belongs
//! to the line that it ends. So `"ab\ncd"` has the lines `"ab\n"` and `"cd"`,
//! and `"ab\n"` has the lines `"ab\n"` and `""`.

use vstd::prelude::*;

verus! {

/// The number of line breaks among the first `n` characters of `s`.
pub open spec fn breaks_before(s: Seq<char>, n: int) -> nat
    decreases n,
{
    if n <= 0 {
        0
    } else {
        breaks_before(s, n - 1) + if n <= s.len() && s[n - 1] == '\n' {
            1nat
        } else {
            0nat
        }
    }
}

/// The number of line breaks in `s`.
pub open spec fn break_count(s: Seq<char>) -> nat {
    breaks_before(s, s.len() as int)
}

/// The number of lines of `s`: one more than it has line breaks.
pub open spec fn line_count(s: Seq<char>) -> nat {
    break_count(s) + 1
}

/// The index of the line that holds position `c`, for `0 <= c <= s.len()`:
/// the number of line breaks before `c`.
pub open spec fn line_of(s: Seq<char>, c: int) -> nat {
    breaks_before(s, c)
}

/// The least position at or after `c` that has `line` line breaks before it,
/// or the end of `s` where there is none.
pub open spec fn line_start_from(s: Seq<char>, line: nat, c: int) -> int
    decreases s.len() - c,
{
    if c >= s.len() || breaks_before(s, c) >= line {
        c
    } else {
        line_start_from(s, line, c + 1)
    }
}

/// The position of the first character of line `line`. For a `line` at or
/// past `line_count(s)` it is the end of `s`.
pub open spec fn line_start(s: Seq<char>, line: nat) -> int {
    line_start_from(s, line, 0)
}

/// The characters of line `line`, its line break included where it has one.
pub open spec fn line_text(s: Seq<char>, line: nat) -> Seq<char> {
    s.subrange(line_start(s, line), line_start(s, line + 1))
}

/// The number of characters of `t` that are no line break.
pub open spec fn width_excluding_newline(t: Seq<char>) -> nat {
    (t.len() - break_count(t)) as nat
}

/// The width of line `line`, its line break not counted.
pub open spec fn line_width(s: Seq<char>, line: nat) -> nat {
    width_excluding_newline(line_text(s, line))
}

/// The column of position `c`: its distance from the start of its line.
pub open spec fn column_of(s: Seq<char>, c: int) -> int {
    c - line_start(s, line_of(s, c))
}

/// The index in `t` of its first character that is neither a space nor a
/// line break, where only spaces come before it, else 0.
pub open spec fn first_non_space(t: Seq<char>) -> nat {
    let n = leading_spaces(t, 0);
    if n < t.len() && t[n as int] != '\n' {
        n
    } else {
        0
    }
}

/// The number of consecutive spaces in `t` from position `from` on.
pub open spec fn leading_spaces(t: Seq<char>, from: int) -> nat
    decreases t.len() - from,
{
    if 0 <= from < t.len() && t[from] == ' ' {
        1 + leading_spaces(t, from + 1)
    } else {
        0
    }
}

/// Every character of `t` is a space.
pub open spec fn all_spaces(t: Seq<char>) -> bool {
    forall|i: int| 0 <= i < t.len() ==> t[i] == ' '
}

/// The `parts` put together in their order.
pub open spec fn joined(parts: Seq<Seq<char>>) -> Seq<char>
    decreases parts.len(),
{
    if parts.len() == 0 {
        Seq::empty()
    } else {
        parts[0] + joined(parts.drop_first())
    }
}

/// The characters of each of `strings`.
pub open spec fn texts_of(strings: Seq<String>) -> Seq<Seq<char>> {
    strings.map_values(|string: String| string@)
}

/// The greatest line width of `s`.
pub open spec fn max_line_width(s: Seq<char>) -> nat {
    max_line_width_upto(s, line_count(s))
}

/// The greatest width among the first `lines` lines of `s`, 0 for none.
pub open spec fn max_line_width_upto(s: Seq<char>, lines: nat) -> nat
    decreases lines,
{
    if lines == 0 {
        0
    } else {
        let rest = max_line_width_upto(s, (lines - 1) as nat);
        let last = line_width(s, (lines - 1) as nat);
        if last > rest {
            last
        } else {
            rest
        }
    }
}

/// Line breaks are counted one by one: the count never decreases along the
/// text and grows by at most one per character.
pub proof fn lemma_breaks_monotone(s: Seq<char>, a: int, b: int)
    requires
        a <= b,
    ensures
        breaks_before(s, a) <= breaks_before(s, b),
        a >= 0 ==> breaks_before(s, b) - breaks_before(s, a) <= b - a,
        breaks_before(s, b) <= if b >= 0 { b } else { 0 },
    decreases b - a,
{
    if a < b {
        lemma_breaks_monotone(s, a, b - 1);
    } else {
        lemma_breaks_bounded(s, b);
    }
}

/// There are no more line breaks before a position than characters.
pub proof fn lemma_breaks_bounded(s: Seq<char>, n: int)
    ensures
        breaks_before(s, n) <= if n >= 0 { n } else { 0 },
        n >= s.len() ==> breaks_before(s, n) == break_count(s),
    decreases n,
{
    if n > 0 {
        lemma_breaks_bounded(s, n - 1);
    }
}

/// What `line_start_from` finds, searching from `c`.
pub proof fn lemma_line_start_from(s: Seq<char>, line: nat, c: int)
    requires
        0 <= c <= s.len(),
        breaks_before(s, c) <= line,
        c > 0 && breaks_before(s, c) == line ==> s[c - 1] == '\n' || line == 0,
        line == 0 ==> c == 0,
    ensures
        c <= line_start_from(s, line, c) <= s.len(),
        line <= break_count(s) ==> breaks_before(s, line_start_from(s, line, c)) == line,
        line > break_count(s) ==> line_start_from(s, line, c) == s.len(),
        forall|i: int| c <= i < line_start_from(s, line, c) ==> breaks_before(s, i) < line,
        0 < line <= break_count(s) ==> line_start_from(s, line, c) > 0 && s[line_start_from(
            s,
            line,
            c,
        ) - 1] == '\n',
    decreases s.len() - c,
{
    lemma_breaks_monotone(s, c, s.len() as int);
    if c >= s.len() || breaks_before(s, c) >= line {
    } else {
        lemma_line_start_from(s, line, c + 1);
    }
}

/// Where line `line` starts: within the text, with exactly `line` line
/// breaks before it and the last of them just before it, and nowhere
/// earlier.
pub proof fn lemma_line_start(s: Seq<char>, line: nat)
    ensures
        0 <= line_start(s, line) <= s.len(),
        line == 0 ==> line_start(s, line) == 0,
        line <= break_count(s) ==> line_of(s, line_start(s, line)) == line,
        line > break_count(s) ==> line_start(s, line) == s.len(),
        forall|i: int| 0 <= i < line_start(s, line) ==> breaks_before(s, i) < line,
        0 < line <= break_count(s) ==> line_start(s, line) > 0 && s[line_start(s, line) - 1]
            == '\n',
{
    lemma_line_start_from(s, line, 0);
}

/// Lines start in order: a later line starts no earlier.
pub proof fn lemma_line_start_monotone(s: Seq<char>, a: nat, b: nat)
    requires
        a <= b,
    ensures
        line_start(s, a) <= line_start(s, b),
{
    lemma_line_start(s, a);
    lemma_line_start(s, b);
    if line_start(s, b) < line_start(s, a) {
        // then fewer than `a` breaks come before the start of line `b`
        lemma_breaks_bounded(s, s.len() as int);
        assert(breaks_before(s, line_start(s, b)) < a);
    }
}

/// A position lies on its line: at or after the line's start, and before
/// the start of the next line or at the end of the text.
pub proof fn lemma_position_on_its_line(s: Seq<char>, c: int)
    requires
        0 <= c <= s.len(),
    ensures
        line_of(s, c) <= break_count(s),
        line_start(s, line_of(s, c)) <= c,
        c <= line_start(s, line_of(s, c) + 1),
        c < s.len() ==> c < line_start(s, line_of(s, c) + 1),
        column_of(s, c) >= 0,
{
    let l = line_of(s, c);
    lemma_breaks_monotone(s, c, s.len() as int);
    lemma_line_start(s, l);
    lemma_line_start(s, l + 1);
    if c < line_start(s, l) {
        assert(breaks_before(s, c) < l);
    }
    if l + 1 <= break_count(s) {
        let n = line_start(s, l + 1);
        assert(breaks_before(s, n) == l + 1);
        if n <= c {
            lemma_breaks_monotone(s, n, c);
        }
    }
}

/// The end of line `line` without its line break: the position of the line
/// break that ends it, or the end of the text for the last line.
pub open spec fn line_end(s: Seq<char>, line: nat) -> int {
    if line < break_count(s) {
        line_start(s, line + 1) - 1
    } else {
        s.len() as int
    }
}

/// The line breaks of a part of the text are those of the text in that part.
pub proof fn lemma_breaks_of_subrange(s: Seq<char>, a: int, b: int, n: int)
    requires
        0 <= a <= b <= s.len(),
        0 <= n <= b - a,
    ensures
        breaks_before(s.subrange(a, b), n) == breaks_before(s, a + n) - breaks_before(s, a),
    decreases n,
{
    if n > 0 {
        lemma_breaks_of_subrange(s, a, b, n - 1);
        assert(s.subrange(a, b)[n - 1] == s[a + n - 1]);
    }
}

/// A line of the text holds no line break but the one that ends it, so its
/// width is the distance from its start to that break, or to the end of the
/// text for the last line.
pub proof fn lemma_line_width(s: Seq<char>, line: nat)
    requires
        line < line_count(s),
    ensures
        line_start(s, line) <= line_end(s, line) <= s.len(),
        line_width(s, line) == line_end(s, line) - line_start(s, line),
        line_text(s, line).len() == line_start(s, line + 1) - line_start(s, line),
        line < break_count(s) ==> line_text(s, line).len() == line_width(s, line) + 1
            && s[line_end(s, line)] == '\n',
        line == break_count(s) ==> line_text(s, line).len() == line_width(s, line),
        forall|i: int| line_start(s, line) <= i < line_end(s, line) ==> s[i] != '\n',
        forall|c: int| line_start(s, line) <= c <= line_end(s, line) ==> line_of(s, c) == line,
{
    let a = line_start(s, line);
    let b = line_start(s, line + 1);
    lemma_line_start(s, line);
    lemma_line_start(s, line + 1);
    lemma_line_start_monotone(s, line, line + 1);
    lemma_breaks_of_subrange(s, a, b, b - a);
    lemma_breaks_bounded(s, s.len() as int);
    let e = line_end(s, line);
    assert forall|c: int| a <= c <= e implies line_of(s, c) == line by {
        lemma_breaks_monotone(s, a, c);
        if line < break_count(s) {
            assert(breaks_before(s, c) < line + 1);
        } else {
            lemma_breaks_monotone(s, c, s.len() as int);
        }
    }
    assert forall|i: int| a <= i < e implies s[i] != '\n' by {
        assert(line_of(s, i) == line);
        assert(line_of(s, i + 1) == line);
    }
}

/// A position of the text is at most the width of its line away from the
/// line's start, and exactly so far where it is the line break.
pub proof fn lemma_column_within_width(s: Seq<char>, c: int)
    requires
        0 <= c <= s.len(),
    ensures
        line_of(s, c) < line_count(s),
        0 <= column_of(s, c) <= line_width(s, line_of(s, c)),
        c < s.len() && s[c] == '\n' ==> column_of(s, c) == line_width(s, line_of(s, c)),
{
    let l = line_of(s, c);
    lemma_position_on_its_line(s, c);
    lemma_line_width(s, l);
    lemma_line_start(s, l + 1);
    if c < s.len() && s[c] == '\n' {
        assert(breaks_before(s, c + 1) == l + 1);
        lemma_breaks_monotone(s, c + 1, s.len() as int);
        if c + 1 < line_start(s, l + 1) {
            assert(breaks_before(s, c + 1) < l + 1);
        }
        if c + 1 > line_start(s, l + 1) {
            lemma_breaks_monotone(s, line_start(s, l + 1), c);
        }
    }
}

} // verus!
