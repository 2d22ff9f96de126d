//! The client's window on the text: what of the text, of its line numbers
//! and of its cursors falls inside it.

use vstd::prelude::*;
use ropey::RopeSlice;
use crate::Position;
use crate::lines::{
    column_of, lemma_line_start, lemma_line_width, lemma_position_on_its_line, line_count,
    line_end, line_of, line_start, line_width, max_line_width_upto,
};
use crate::movement::line_width_excluding_newline;
use crate::selection::{Selection, Selection2d};
use crate::text::slice_text;

verus! {

/// The smaller of two numbers.
pub open spec fn least(a: int, b: int) -> int {
    if a <= b {
        a
    } else {
        b
    }
}

/// The line and column of the character offset `offset`.
pub open spec fn position_of(s: Seq<char>, offset: int) -> Position {
    Position { x: column_of(s, offset) as usize, y: line_of(s, offset) as usize }
}

/// A selection by line and column.
pub open spec fn positions_of(selection: Selection, s: Seq<char>) -> Selection2d {
    Selection2d {
        head: position_of(s, selection.head as int),
        anchor: position_of(s, selection.anchor as int),
    }
}

/// Whether `position` lies inside the window `view`.
pub open spec fn in_view(position: Position, view: crate::View) -> bool {
    &&& view.horizontal_start <= position.x < view.horizontal_start + view.width
    &&& view.vertical_start <= position.y < view.vertical_start + view.height
}

/// `position` counted from the top left corner of `view`.
pub open spec fn relative_to(position: Position, view: crate::View) -> Position {
    Position {
        x: (position.x - view.horizontal_start) as usize,
        y: (position.y - view.vertical_start) as usize,
    }
}

/// What of line `line` falls between the left and right edge of `view`,
/// without the line break.
pub open spec fn clip_line(s: Seq<char>, line: nat, view: crate::View) -> Seq<char> {
    let width = line_width(s, line) as int;
    s.subrange(
        line_start(s, line) + least(view.horizontal_start as int, width),
        line_start(s, line) + least(view.horizontal_start + view.width, width),
    )
}

/// Whether line `line` lies between the upper and lower edge of `view`.
pub open spec fn line_in_view(line: int, view: crate::View) -> bool {
    view.vertical_start <= line < view.vertical_start + view.height
}

/// The clipped lines among the first `lines` lines of `s`, each followed by
/// a line break.
pub open spec fn clip_lines(s: Seq<char>, view: crate::View, lines: nat) -> Seq<char>
    decreases lines,
{
    if lines == 0 {
        Seq::empty()
    } else if line_in_view(lines - 1, view) {
        clip_lines(s, view, (lines - 1) as nat) + clip_line(s, (lines - 1) as nat, view) + seq![
            '\n',
        ]
    } else {
        clip_lines(s, view, (lines - 1) as nat)
    }
}

/// The text that `view` shows of `s`.
pub open spec fn clip_text(s: Seq<char>, view: crate::View) -> Seq<char> {
    clip_lines(s, view, line_count(s))
}

/// The character that stands for the digit `d`.
pub open spec fn digit(d: nat) -> char {
    if d == 0 {
        '0'
    } else if d == 1 {
        '1'
    } else if d == 2 {
        '2'
    } else if d == 3 {
        '3'
    } else if d == 4 {
        '4'
    } else if d == 5 {
        '5'
    } else if d == 6 {
        '6'
    } else if d == 7 {
        '7'
    } else if d == 8 {
        '8'
    } else {
        '9'
    }
}

/// `n` written in decimal digits.
pub open spec fn decimal(n: nat) -> Seq<char>
    decreases n,
{
    if n < 10 {
        seq![digit(n)]
    } else {
        decimal(n / 10).push(digit(n % 10))
    }
}

/// The numbers, counted from 1, of those of the first `lines` lines that
/// `view` shows, each followed by a line break.
pub open spec fn clip_numbers(view: crate::View, lines: nat) -> Seq<char>
    decreases lines,
{
    if lines == 0 {
        Seq::empty()
    } else if line_in_view(lines - 1, view) {
        clip_numbers(view, (lines - 1) as nat) + decimal(lines) + seq!['\n']
    } else {
        clip_numbers(view, (lines - 1) as nat)
    }
}

/// The line numbers that `view` shows beside the text `s`.
pub open spec fn clip_line_numbers(s: Seq<char>, view: crate::View) -> Seq<char> {
    clip_numbers(view, line_count(s))
}

/// The positions in `view` of the heads of the first `n` selections, those
/// outside `view` left out.
pub open spec fn clip_cursors(
    s: Seq<char>,
    selections: Seq<Selection>,
    view: crate::View,
    n: nat,
) -> Seq<Position>
    decreases n,
{
    if n == 0 {
        Seq::empty()
    } else {
        let head = position_of(s, selections[n - 1].head as int);
        if in_view(head, view) {
            clip_cursors(s, selections, view, (n - 1) as nat).push(relative_to(head, view))
        } else {
            clip_cursors(s, selections, view, (n - 1) as nat)
        }
    }
}

/// The first line of `view` after scrolling down by `amount`: it stays
/// where the window would reach past the last of `lines` lines.
pub open spec fn scrolled_down(view: crate::View, amount: nat, lines: nat) -> crate::View {
    if view.vertical_start + view.height + amount <= lines {
        crate::View { vertical_start: (view.vertical_start + amount) as usize, ..view }
    } else {
        view
    }
}

/// The window after scrolling right by `amount`: it stays where it would
/// reach past the longest line, of `longest` columns.
pub open spec fn scrolled_right(view: crate::View, amount: nat, longest: nat) -> crate::View {
    if view.horizontal_start + view.width + amount <= longest {
        crate::View { horizontal_start: (view.horizontal_start + amount) as usize, ..view }
    } else {
        view
    }
}

/// The window after scrolling up by `amount`, at most to the first line.
pub open spec fn scrolled_up(view: crate::View, amount: nat) -> crate::View {
    crate::View {
        vertical_start: if amount <= view.vertical_start {
            (view.vertical_start - amount) as usize
        } else {
            0
        },
        ..view
    }
}

/// The window after scrolling left by `amount`, at most to the first column.
pub open spec fn scrolled_left(view: crate::View, amount: nat) -> crate::View {
    crate::View {
        horizontal_start: if amount <= view.horizontal_start {
            (view.horizontal_start - amount) as usize
        } else {
            0
        },
        ..view
    }
}

/// Where a window of `size` lines or columns that starts at `start` starts
/// after it moved just far enough to hold `at`.
pub open spec fn follow(start: usize, size: usize, at: usize) -> usize {
    if at < start {
        at
    } else if at >= start + size {
        if at - size + 1 <= usize::MAX {
            (at - size + 1) as usize
        } else {
            usize::MAX
        }
    } else {
        start
    }
}

/// The window after it moved just far enough to hold `cursor`.
pub open spec fn following(view: crate::View, cursor: Position) -> crate::View {
    crate::View {
        horizontal_start: follow(view.horizontal_start, view.width, cursor.x),
        vertical_start: follow(view.vertical_start, view.height, cursor.y),
        ..view
    }
}

/// The line and column of `offset` in `text`.
pub fn position_at(offset: usize, text: RopeSlice) -> (position: Position)
    requires
        offset <= slice_text(text).len(),
    ensures
        position == position_of(slice_text(text), offset as int),
        position.y < line_count(slice_text(text)),
        position.x <= offset,
{
    proof {
        lemma_position_on_its_line(slice_text(text), offset as int);
        lemma_line_start(slice_text(text), line_of(slice_text(text), offset as int));
    }
    let line_number = text.char_to_line(offset);
    let line_start = text.line_to_char(line_number);
    Position::new(offset - line_start, line_number)
}

/// The cursor of `doc_cursor` as the client sees it in `client_view`, if
/// its head lies inside.
pub fn client_view_cursor_position(doc_cursor: Selection2d, client_view: crate::View) -> (shown:
    Option<Position>)
    ensures
        shown == if in_view(doc_cursor.head, client_view) {
            Some(relative_to(doc_cursor.head, client_view))
        } else {
            None
        },
{
    let head = doc_cursor.head;
    if head.x >= client_view.horizontal_start && head.x - client_view.horizontal_start
        < client_view.width && head.y >= client_view.vertical_start && head.y
        - client_view.vertical_start < client_view.height {
        Some(
            Position {
                x: head.x - client_view.horizontal_start,
                y: head.y - client_view.vertical_start,
            },
        )
    } else {
        None
    }
}

/// Whether line `line` lies between the upper and lower edge of `view`.
fn shows_line(view: crate::View, line: usize) -> (shown: bool)
    ensures
        shown == line_in_view(line as int, view),
{
    line >= view.vertical_start && line - view.vertical_start < view.height
}

/// Appends to `out` what `view` shows of line `line_number`.
fn push_clipped_line(out: &mut String, text: RopeSlice, line_number: usize, view: crate::View)
    requires
        line_number < line_count(slice_text(text)),
    ensures
        final(out)@ == old(out)@ + clip_line(slice_text(text), line_number as nat, view),
{
    let ghost s = slice_text(text);
    let ghost start = line_start(s, line_number as nat);
    let ghost width = line_width(s, line_number as nat) as int;
    let ghost left = view.horizontal_start as int;
    let ghost right = view.horizontal_start + view.width;
    proof {
        lemma_line_width(s, line_number as nat);
        lemma_line_start(s, line_number as nat);
        lemma_line_start(s, line_number as nat + 1);
        assert(out@ =~= old(out)@ + s.subrange(start, start));
    }
    let line = text.line(line_number);
    let n = line.len_chars();
    let mut x: usize = 0;
    while x < n
        invariant
            x <= n,
            n == slice_text(line).len(),
            slice_text(line) == s.subrange(start, line_start(s, line_number as nat + 1)),
            0 <= start <= line_end(s, line_number as nat) <= s.len(),
            width == line_end(s, line_number as nat) - start,
            width <= n <= width + 1,
            n == line_start(s, line_number as nat + 1) - start,
            start + n <= s.len(),
            n == width + 1 ==> s[start + width] == '\n',
            forall|i: int| start <= i < start + width ==> s[i] != '\n',
            left == view.horizontal_start,
            right == view.horizontal_start + view.width,
            out@ == old(out)@ + s.subrange(
                start + least(left, least(x as int, width)),
                start + least(right, least(x as int, width)),
            ),
        decreases n - x,
    {
        let c = line.char(x);
        assert(c == s[start + x]);
        if x >= view.horizontal_start && x - view.horizontal_start < view.width && c != '\n' {
            out.push(c);
            assert(out@ =~= old(out)@ + s.subrange(
                start + least(left, least(x + 1, width)),
                start + least(right, least(x + 1, width)),
            ));
        } else {
            assert(out@ =~= old(out)@ + s.subrange(
                start + least(left, least(x + 1, width)),
                start + least(right, least(x + 1, width)),
            ));
        }
        x = x + 1;
    }
}

/// The text of the lines that `view` shows, each cut at the left and right
/// edge of the window and followed by a line break.
pub fn clip_view_text(text: RopeSlice, view: crate::View) -> (shown: String)
    ensures
        shown@ == clip_text(slice_text(text), view),
{
    let mut shown = String::new();
    let lines = text.len_lines();
    let mut y: usize = 0;
    while y < lines
        invariant
            y <= lines,
            lines == line_count(slice_text(text)),
            shown@ == clip_lines(slice_text(text), view, y as nat),
        decreases lines - y,
    {
        if shows_line(view, y) {
            let ghost before = shown@;
            push_clipped_line(&mut shown, text, y, view);
            shown.push('\n');
            assert(shown@ =~= before + clip_line(slice_text(text), y as nat, view) + seq!['\n']);
        }
        y = y + 1;
    }
    shown
}

/// The character of the digit `d`.
fn digit_char(d: usize) -> (c: char)
    requires
        d < 10,
    ensures
        c == digit(d as nat),
{
    if d == 0 {
        '0'
    } else if d == 1 {
        '1'
    } else if d == 2 {
        '2'
    } else if d == 3 {
        '3'
    } else if d == 4 {
        '4'
    } else if d == 5 {
        '5'
    } else if d == 6 {
        '6'
    } else if d == 7 {
        '7'
    } else if d == 8 {
        '8'
    } else {
        '9'
    }
}

/// Appends `n` in decimal digits to `out`.
fn push_decimal(out: &mut String, n: usize)
    ensures
        final(out)@ == old(out)@ + decimal(n as nat),
    decreases n,
{
    if n >= 10 {
        push_decimal(out, n / 10);
    }
    out.push(digit_char(n % 10));
    assert(out@ =~= old(out)@ + decimal(n as nat));
}

/// The numbers, counted from 1, of the lines that `view` shows, each
/// followed by a line break.
pub fn clip_view_line_numbers(text: RopeSlice, view: crate::View) -> (shown: String)
    ensures
        shown@ == clip_line_numbers(slice_text(text), view),
{
    let mut shown = String::new();
    let lines = text.len_lines();
    let mut y: usize = 0;
    while y < lines
        invariant
            y <= lines,
            lines == line_count(slice_text(text)),
            shown@ == clip_numbers(view, y as nat),
        decreases lines - y,
    {
        if shows_line(view, y) {
            let ghost before = shown@;
            push_decimal(&mut shown, y + 1);
            shown.push('\n');
            assert(shown@ =~= before + decimal((y + 1) as nat) + seq!['\n']);
        }
        y = y + 1;
    }
    shown
}

/// The positions in `view` of the heads of `selections`, in their order,
/// those outside `view` left out.
pub fn clip_view_cursors(text: RopeSlice, selections: &Vec<Selection>, view: crate::View) -> (shown:
    Vec<Position>)
    requires
        forall|i: int|
            0 <= i < selections@.len() ==> (#[trigger] selections@[i]).head <= slice_text(
                text,
            ).len(),
    ensures
        shown@ == clip_cursors(slice_text(text), selections@, view, selections@.len()),
{
    let mut positions: Vec<Position> = Vec::new();
    let mut i: usize = 0;
    while i < selections.len()
        invariant
            i <= selections@.len(),
            forall|i: int|
                0 <= i < selections@.len() ==> (#[trigger] selections@[i]).head <= slice_text(
                    text,
                ).len(),
            positions@ == clip_cursors(slice_text(text), selections@, view, i as nat),
        decreases selections@.len() - i,
    {
        let head = position_at(selections[i].head(), text);
        let cursor = Selection2d::new(head, head);
        if let Some(client_cursor) = client_view_cursor_position(cursor, view) {
            positions.push(client_cursor);
        }
        i = i + 1;
    }
    positions
}

/// The width of the longest line of `text`.
pub fn longest_line_width(text: RopeSlice) -> (longest: usize)
    ensures
        longest == max_line_width_upto(slice_text(text), line_count(slice_text(text))),
{
    let lines = text.len_lines();
    let mut longest: usize = 0;
    let mut y: usize = 0;
    while y < lines
        invariant
            y <= lines,
            lines == line_count(slice_text(text)),
            longest == max_line_width_upto(slice_text(text), y as nat),
        decreases lines - y,
    {
        let line_width = line_width_excluding_newline(text.line(y));
        if line_width > longest {
            longest = line_width;
        }
        y = y + 1;
    }
    longest
}

/// Scrolls `view` down by `amount` lines over a text of `lines` lines.
pub fn scroll_down(view: crate::View, amount: usize, lines: usize) -> (scrolled: crate::View)
    ensures
        scrolled == scrolled_down(view, amount as nat, lines as nat),
{
    if view.height <= lines && view.vertical_start <= lines - view.height && amount <= lines
        - view.height - view.vertical_start {
        crate::View { vertical_start: view.vertical_start + amount, ..view }
    } else {
        view
    }
}

/// Scrolls `view` right by `amount` columns over lines of at most
/// `longest` columns.
pub fn scroll_right(view: crate::View, amount: usize, longest: usize) -> (scrolled: crate::View)
    ensures
        scrolled == scrolled_right(view, amount as nat, longest as nat),
{
    if view.width <= longest && view.horizontal_start <= longest - view.width && amount <= longest
        - view.width - view.horizontal_start {
        crate::View { horizontal_start: view.horizontal_start + amount, ..view }
    } else {
        view
    }
}

/// Moves a window of `size` that starts at `start` just far enough to hold
/// `at`.
fn follow_to(start: usize, size: usize, at: usize) -> (moved: usize)
    ensures
        moved == follow(start, size, at),
{
    if at < start {
        at
    } else if at - start >= size {
        (at - size).saturating_add(1)
    } else {
        start
    }
}

/// Moves `view` just far enough to hold `cursor`.
pub fn follow_cursor(view: crate::View, cursor: Position) -> (moved: crate::View)
    ensures
        moved == following(view, cursor),
{
    crate::View {
        horizontal_start: follow_to(view.horizontal_start, view.width, cursor.x),
        vertical_start: follow_to(view.vertical_start, view.height, cursor.y),
        ..view
    }
}

} // verus!
