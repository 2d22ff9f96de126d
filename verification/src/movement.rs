//! The movement engine: pure functions from a selection and the text to the
//! selection after one step of navigation or extension.
//!
//! For each function a spec function named alike, without `_cursor` or
//! `_selection`, gives its result over the characters of the text.

use vstd::prelude::*;
use ropey::RopeSlice;
use crate::View;
use crate::lines::{
    breaks_before, column_of, first_non_space, leading_spaces, lemma_breaks_bounded,
    lemma_line_width, lemma_position_on_its_line, line_count, line_end, line_of, line_start,
    line_text, line_width, width_excluding_newline,
};
use crate::selection::Selection;
use crate::text::slice_text;

verus! {

/// A cursor at `at` that remembers column `column`.
pub open spec fn cursor_at(at: int, column: int) -> Selection {
    Selection { anchor: at as usize, head: at as usize, stored_line_position: column as usize }
}

/// `selection` with its head at `at` and column `column` remembered.
pub open spec fn head_at(selection: Selection, at: int, column: int) -> Selection {
    Selection { anchor: selection.anchor, head: at as usize, stored_line_position: column as usize }
}

/// The place on line `line` that a cursor remembering column `column` takes:
/// that column, or the end of the line where the line is shorter.
pub open spec fn place_on_line(s: Seq<char>, line: nat, column: nat) -> int {
    line_start(s, line) + if column < line_width(s, line) {
        column
    } else {
        line_width(s, line)
    }
}

/// The soft home of line `line`: the position of its first character that is
/// neither a space nor a line break, or its start where it has none.
pub open spec fn soft_home(s: Seq<char>, line: nat) -> int {
    line_start(s, line) + first_non_space(line_text(s, line))
}

/// Where the home key takes a head at `head`: to the soft home of its line,
/// or from there to the start of the line.
pub open spec fn home_target(s: Seq<char>, head: int) -> int {
    let line = line_of(s, head);
    if head == soft_home(s, line) {
        line_start(s, line)
    } else {
        soft_home(s, line)
    }
}

/// The end of the line of `head`, before its line break.
pub open spec fn end_target(s: Seq<char>, head: int) -> int {
    let line = line_of(s, head);
    line_start(s, line) + line_width(s, line)
}

/// The line that a page up from line `line` reaches in a window of
/// `height` lines.
pub open spec fn page_up_line(line: nat, height: nat) -> nat {
    if height <= 1 {
        line
    } else if line < height - 1 {
        0
    } else {
        (line - (height - 1)) as nat
    }
}

/// The line that a page down from line `line` reaches in a window of
/// `height` lines, in a text of `lines` lines.
pub open spec fn page_down_line(line: nat, height: nat, lines: nat) -> nat {
    let step: nat = if height <= 1 {
        0
    } else {
        (height - 1) as nat
    };
    if line + step < lines {
        line + step
    } else {
        (lines - 1) as nat
    }
}

/// `selection` as a cursor on line `line`, at its remembered column or at
/// the end of the line where the line is shorter; `selection` itself where
/// the text has no such line.
pub open spec fn set_position_from_line_number(
    selection: Selection,
    line: nat,
    s: Seq<char>,
) -> Selection {
    if line < line_count(s) {
        Selection {
            anchor: place_on_line(s, line, selection.stored_line_position as nat) as usize,
            head: place_on_line(s, line, selection.stored_line_position as nat) as usize,
            stored_line_position: selection.stored_line_position,
        }
    } else {
        selection
    }
}

/// `selection` with its head on line `line`, at its remembered column or at
/// the end of the line where the line is shorter; `selection` itself where
/// the text has no such line.
pub open spec fn head_from_line_number(selection: Selection, line: nat, s: Seq<char>) -> Selection {
    if line < line_count(s) {
        Selection {
            anchor: selection.anchor,
            head: place_on_line(s, line, selection.stored_line_position as nat) as usize,
            stored_line_position: selection.stored_line_position,
        }
    } else {
        selection
    }
}

/// `selection` as a cursor one line up, or itself on the first line.
pub open spec fn move_up(selection: Selection, s: Seq<char>) -> Selection {
    let line = line_of(s, selection.head as int);
    if line == 0 {
        selection
    } else {
        set_position_from_line_number(selection, (line - 1) as nat, s)
    }
}

/// `selection` as a cursor one line down, or itself on the last line.
pub open spec fn move_down(selection: Selection, s: Seq<char>) -> Selection {
    set_position_from_line_number(selection, line_of(s, selection.head as int) + 1, s)
}

/// A cursor one character behind the head of `selection`, which may be on
/// the next line; `selection` itself where its head is at the end of the
/// text.
pub open spec fn move_right(selection: Selection, s: Seq<char>) -> Selection {
    if selection.head < s.len() {
        cursor_at(selection.head + 1, column_of(s, selection.head + 1))
    } else {
        selection
    }
}

/// A cursor one character before the head of `selection`, which may be on
/// the line before; `selection` itself where its head is at the start of
/// the text.
pub open spec fn move_left(selection: Selection, s: Seq<char>) -> Selection {
    if selection.head > 0 {
        cursor_at(selection.head - 1, column_of(s, selection.head - 1))
    } else {
        selection
    }
}

/// `selection` as a cursor a page up in a window of `height` lines.
pub open spec fn move_page_up(selection: Selection, s: Seq<char>, height: nat) -> Selection {
    set_position_from_line_number(
        selection,
        page_up_line(line_of(s, selection.head as int), height),
        s,
    )
}

/// `selection` as a cursor a page down in a window of `height` lines.
pub open spec fn move_page_down(selection: Selection, s: Seq<char>, height: nat) -> Selection {
    set_position_from_line_number(
        selection,
        page_down_line(line_of(s, selection.head as int), height, line_count(s)),
        s,
    )
}

/// A cursor where the home key takes the head of `selection`.
pub open spec fn move_home(selection: Selection, s: Seq<char>) -> Selection {
    let to = home_target(s, selection.head as int);
    cursor_at(to, to - line_start(s, line_of(s, selection.head as int)))
}

/// A cursor at the end of the line of the head of `selection`.
pub open spec fn move_end(selection: Selection, s: Seq<char>) -> Selection {
    cursor_at(
        end_target(s, selection.head as int),
        line_width(s, line_of(s, selection.head as int)) as int,
    )
}

/// A cursor at the start of the text.
pub open spec fn move_document_start() -> Selection {
    cursor_at(0, 0)
}

/// A cursor at the end of the text.
pub open spec fn move_document_end(s: Seq<char>) -> Selection {
    cursor_at(s.len() as int, column_of(s, s.len() as int))
}

/// `selection` with its head one character further right.
pub open spec fn extend_right(selection: Selection, s: Seq<char>) -> Selection {
    if selection.head < s.len() {
        head_at(selection, selection.head + 1, column_of(s, selection.head + 1))
    } else {
        selection
    }
}

/// `selection` with its head one character further left.
pub open spec fn extend_left(selection: Selection, s: Seq<char>) -> Selection {
    if selection.head > 0 {
        head_at(selection, selection.head - 1, column_of(s, selection.head - 1))
    } else {
        selection
    }
}

/// `selection` with its head one line up.
pub open spec fn extend_up(selection: Selection, s: Seq<char>) -> Selection {
    let line = line_of(s, selection.head as int);
    if line == 0 {
        selection
    } else {
        head_from_line_number(selection, (line - 1) as nat, s)
    }
}

/// `selection` with its head one line down.
pub open spec fn extend_down(selection: Selection, s: Seq<char>) -> Selection {
    head_from_line_number(selection, line_of(s, selection.head as int) + 1, s)
}

/// `selection` with its head where the home key takes it.
pub open spec fn extend_home(selection: Selection, s: Seq<char>) -> Selection {
    let to = home_target(s, selection.head as int);
    head_at(selection, to, to - line_start(s, line_of(s, selection.head as int)))
}

/// `selection` with its head at the end of its line.
pub open spec fn extend_end(selection: Selection, s: Seq<char>) -> Selection {
    head_at(
        selection,
        end_target(s, selection.head as int),
        line_width(s, line_of(s, selection.head as int)) as int,
    )
}

/// `selection` as a cursor at its head.
pub open spec fn collapse(selection: Selection) -> Selection {
    Selection { anchor: selection.head, ..selection }
}

/// The place that a cursor takes on a line lies on that line, no further
/// from its start than the line is wide.
pub proof fn lemma_place_on_line(s: Seq<char>, line: nat, column: nat)
    requires
        line < line_count(s),
    ensures
        line_start(s, line) <= place_on_line(s, line, column) <= line_end(s, line) <= s.len(),
        line_of(s, place_on_line(s, line, column)) == line,
        column_of(s, place_on_line(s, line, column)) == if column < line_width(s, line) {
            column
        } else {
            line_width(s, line)
        },
{
    lemma_line_width(s, line);
}

/// The soft home of a line lies on that line, before its line break.
pub proof fn lemma_soft_home(s: Seq<char>, line: nat)
    requires
        line < line_count(s),
    ensures
        line_start(s, line) <= soft_home(s, line) <= line_end(s, line) <= s.len(),
        line_of(s, soft_home(s, line)) == line,
{
    lemma_line_width(s, line);
    lemma_leading_spaces(line_text(s, line), 0);
}

/// Counting spaces from `from` stops within the text, at a character that
/// is no space, and passes only spaces.
pub proof fn lemma_leading_spaces(t: Seq<char>, from: int)
    requires
        0 <= from <= t.len(),
    ensures
        from + leading_spaces(t, from) <= t.len(),
        from + leading_spaces(t, from) < t.len() ==> t[from + leading_spaces(t, from)] != ' ',
        forall|i: int| from <= i < from + leading_spaces(t, from) ==> t[i] == ' ',
    decreases t.len() - from,
{
    if from < t.len() && t[from] == ' ' {
        lemma_leading_spaces(t, from + 1);
    }
}

/// The width of a line: the number of its characters that are no line break.
pub fn line_width_excluding_newline(line: RopeSlice) -> (width: usize)
    ensures
        width == width_excluding_newline(slice_text(line)),
{
    let n = line.len_chars();
    let mut width: usize = 0;
    let mut i: usize = 0;
    while i < n
        invariant
            i <= n,
            n == slice_text(line).len(),
            width == i - breaks_before(slice_text(line), i as int),
        decreases n - i,
    {
        proof {
            lemma_breaks_bounded(slice_text(line), i as int);
        }
        if line.char(i) != '\n' {
            width = width + 1;
        }
        i = i + 1;
    }
    width
}

/// The index in `line` of its first character that is neither a space nor a
/// line break, or 0 where it has none.
pub fn get_first_non_whitespace_character_index(line: RopeSlice) -> (index: usize)
    ensures
        index == first_non_space(slice_text(line)),
{
    let n = line.len_chars();
    let mut i: usize = 0;
    while i < n
        invariant
            i <= n,
            n == slice_text(line).len(),
            leading_spaces(slice_text(line), 0) == i + leading_spaces(slice_text(line), i as int),
        decreases n - i,
    {
        let c = line.char(i);
        if c != ' ' {
            if c == '\n' {
                return 0;
            }
            return i;
        }
        i = i + 1;
    }
    0
}

/// The number of spaces that `line` begins with.
pub fn leading_space_count(line: RopeSlice) -> (count: usize)
    ensures
        count == leading_spaces(slice_text(line), 0),
{
    let n = line.len_chars();
    let mut i: usize = 0;
    while i < n
        invariant
            i <= n,
            n == slice_text(line).len(),
            leading_spaces(slice_text(line), 0) == i + leading_spaces(slice_text(line), i as int),
        decreases n - i,
    {
        if line.char(i) != ' ' {
            return i;
        }
        i = i + 1;
    }
    i
}

/// Puts the cursor on line `line_number`, counted from 0, at its remembered
/// column or at the end of the line where the line is shorter. A line that
/// the text does not have leaves the selection as it is.
pub fn set_rope_cursor_position_from_line_number(
    selection: Selection,
    line_number: usize,
    text: RopeSlice,
) -> (placed: Selection)
    ensures
        placed == set_position_from_line_number(selection, line_number as nat, slice_text(text)),
        placed.stored_line_position == selection.stored_line_position,
        line_number < line_count(slice_text(text)) ==> placed.fits(slice_text(text).len()),
        selection.fits(slice_text(text).len()) ==> placed.fits(slice_text(text).len()),
{
    let mut selection = selection;
    if line_number < text.len_lines() {
        proof {
            lemma_place_on_line(
                slice_text(text),
                line_number as nat,
                selection.stored_line_position as nat,
            );
            lemma_line_width(slice_text(text), line_number as nat);
        }
        // every position of the text is at most its length, which is a usize
        let len = text.len_chars();
        let start_of_line = text.line_to_char(line_number);
        let line = text.line(line_number);
        let line_width = line_width_excluding_newline(line);
        assert(start_of_line + line_width <= len);
        if selection.stored_line_position() < line_width {
            selection.set_anchor(start_of_line + selection.stored_line_position());
            selection.set_head(start_of_line + selection.stored_line_position());
        } else {
            selection.set_anchor(start_of_line + line_width);
            selection.set_head(start_of_line + line_width);
        }
    }
    selection
}

/// As `set_rope_cursor_position_from_line_number`, but the anchor stays.
fn set_head_from_line_number(selection: Selection, line_number: usize, text: RopeSlice) -> (placed:
    Selection)
    ensures
        placed == head_from_line_number(selection, line_number as nat, slice_text(text)),
        selection.fits(slice_text(text).len()) ==> placed.fits(slice_text(text).len()),
{
    let placed = set_rope_cursor_position_from_line_number(selection, line_number, text);
    Selection { anchor: selection.anchor, ..placed }
}

/// Moves the cursor one line up, to its remembered column or the end of
/// that line. On the first line it stays.
pub fn move_cursor_up(selection: Selection, text: RopeSlice) -> (moved: Selection)
    requires
        selection.head <= slice_text(text).len(),
    ensures
        moved == move_up(selection, slice_text(text)),
        selection.fits(slice_text(text).len()) ==> moved.fits(slice_text(text).len()),
{
    let line_number = text.char_to_line(selection.head());
    if line_number == 0 {
        return selection;
    }
    set_rope_cursor_position_from_line_number(selection, line_number - 1, text)
}

/// Moves the cursor one line down, to its remembered column or the end of
/// that line. On the last line it stays.
pub fn move_cursor_down(selection: Selection, text: RopeSlice) -> (moved: Selection)
    requires
        selection.head <= slice_text(text).len(),
    ensures
        moved == move_down(selection, slice_text(text)),
        selection.fits(slice_text(text).len()) ==> moved.fits(slice_text(text).len()),
{
    let line_number = text.char_to_line(selection.head());
    let last_line_number = text.len_lines() - 1;
    if line_number < last_line_number {
        set_rope_cursor_position_from_line_number(selection, line_number + 1, text)
    } else {
        selection
    }
}

/// Moves the cursor one character right, from the end of a line to the
/// start of the next, and remembers its new column. At the end of the text
/// it stays.
pub fn move_cursor_right(selection: Selection, text: RopeSlice) -> (moved: Selection)
    requires
        selection.head <= slice_text(text).len(),
    ensures
        moved == move_right(selection, slice_text(text)),
        selection.fits(slice_text(text).len()) ==> moved.fits(slice_text(text).len()),
{
    let mut selection = selection;
    if selection.head() < text.len_chars() {
        let head = selection.head() + 1;
        proof {
            lemma_position_on_its_line(slice_text(text), head as int);
        }
        let line_start = text.line_to_char(text.char_to_line(head));
        selection.set_head(head);
        selection.set_anchor(head);
        selection.set_stored_line_position(head - line_start);
    }
    selection
}

/// Moves the cursor one character left, from the start of a line to the
/// end of the line before, and remembers its new column. At the start of
/// the text it stays.
pub fn move_cursor_left(selection: Selection, text: RopeSlice) -> (moved: Selection)
    requires
        selection.head <= slice_text(text).len(),
    ensures
        moved == move_left(selection, slice_text(text)),
        selection.fits(slice_text(text).len()) ==> moved.fits(slice_text(text).len()),
{
    let mut selection = selection;
    if selection.head() > 0 {
        let head = selection.head() - 1;
        proof {
            lemma_position_on_its_line(slice_text(text), head as int);
        }
        let line_start = text.line_to_char(text.char_to_line(head));
        selection.set_head(head);
        selection.set_anchor(head);
        selection.set_stored_line_position(head - line_start);
    }
    selection
}

/// Moves the cursor up by one line less than the window is high, at most
/// to the first line.
pub fn move_cursor_page_up(selection: Selection, text: RopeSlice, client_view: View) -> (moved:
    Selection)
    requires
        selection.head <= slice_text(text).len(),
    ensures
        moved == move_page_up(selection, slice_text(text), client_view.height as nat),
        moved.fits(slice_text(text).len()),
{
    let line_number = text.char_to_line(selection.head());
    proof {
        lemma_position_on_its_line(slice_text(text), selection.head as int);
    }
    let goal_line_number = line_number.saturating_sub(client_view.height.saturating_sub(1));
    set_rope_cursor_position_from_line_number(selection, goal_line_number, text)
}

/// Moves the cursor down by one line less than the window is high, at most
/// to the last line.
pub fn move_cursor_page_down(selection: Selection, text: RopeSlice, client_view: View) -> (moved:
    Selection)
    requires
        selection.head <= slice_text(text).len(),
    ensures
        moved == move_page_down(selection, slice_text(text), client_view.height as nat),
        moved.fits(slice_text(text).len()),
{
    let document_length = text.len_lines();
    let line_number = text.char_to_line(selection.head());
    proof {
        lemma_position_on_its_line(slice_text(text), selection.head as int);
    }
    let goal_line_number = if client_view.height <= document_length - line_number {
        line_number + client_view.height.saturating_sub(1)
    } else {
        document_length - 1
    };
    set_rope_cursor_position_from_line_number(selection, goal_line_number, text)
}

/// The start of the line of `head`, and where the home key takes `head`.
fn home_of(head: usize, text: RopeSlice) -> (found: (usize, usize))
    requires
        head <= slice_text(text).len(),
    ensures
        found.0 == line_start(slice_text(text), line_of(slice_text(text), head as int)),
        found.1 == home_target(slice_text(text), head as int),
        found.0 <= found.1 <= slice_text(text).len(),
{
    let line_number = text.char_to_line(head);
    proof {
        lemma_position_on_its_line(slice_text(text), head as int);
        lemma_soft_home(slice_text(text), line_number as nat);
    }
    // every position of the text is at most its length, which is a usize
    let len = text.len_chars();
    let line_start = text.line_to_char(line_number);
    let text_start_offset = get_first_non_whitespace_character_index(text.line(line_number));
    assert(line_start + text_start_offset <= len);
    let text_start = line_start + text_start_offset;
    if head == text_start {
        (line_start, line_start)
    } else {
        (line_start, text_start)
    }
}

/// The start of the line of `head`, and the end of that line before its
/// line break.
fn end_of(head: usize, text: RopeSlice) -> (found: (usize, usize))
    requires
        head <= slice_text(text).len(),
    ensures
        found.0 == line_start(slice_text(text), line_of(slice_text(text), head as int)),
        found.1 == end_target(slice_text(text), head as int),
        found.0 <= found.1 <= slice_text(text).len(),
{
    let line_number = text.char_to_line(head);
    proof {
        lemma_position_on_its_line(slice_text(text), head as int);
        lemma_line_width(slice_text(text), line_number as nat);
    }
    // every position of the text is at most its length, which is a usize
    let len = text.len_chars();
    let line = text.line(line_number);
    let line_width = line_width_excluding_newline(line);
    let line_start = text.line_to_char(line_number);
    assert(line_start + line_width <= len);
    (line_start, line_start + line_width)
}

/// Moves the cursor to the first character of its line that is no space,
/// or from there to the start of the line, and remembers its new column.
pub fn move_cursor_home(selection: Selection, text: RopeSlice) -> (moved: Selection)
    requires
        selection.head <= slice_text(text).len(),
    ensures
        moved == move_home(selection, slice_text(text)),
        moved.fits(slice_text(text).len()),
{
    let mut selection = selection;
    let (line_start, target) = home_of(selection.head(), text);
    selection.set_head(target);
    selection.set_anchor(target);
    selection.set_stored_line_position(target - line_start);
    selection
}

/// Moves the cursor to the end of its line, before the line break, and
/// remembers its new column.
pub fn move_cursor_end(selection: Selection, text: RopeSlice) -> (moved: Selection)
    requires
        selection.head <= slice_text(text).len(),
    ensures
        moved == move_end(selection, slice_text(text)),
        moved.fits(slice_text(text).len()),
{
    let mut selection = selection;
    let (line_start, line_end) = end_of(selection.head(), text);
    selection.set_head(line_end);
    selection.set_anchor(line_end);
    selection.set_stored_line_position(line_end - line_start);
    selection
}

/// Moves the cursor to the start of the text.
pub fn move_cursor_document_start(selection: Selection) -> (moved: Selection)
    ensures
        moved == move_document_start(),
{
    let mut selection = selection;
    selection.set_head(0);
    selection.set_anchor(0);
    selection.set_stored_line_position(0);
    selection
}

/// Moves the cursor to the end of the text and remembers its column there.
pub fn move_cursor_document_end(selection: Selection, text: RopeSlice) -> (moved: Selection)
    ensures
        moved == move_document_end(slice_text(text)),
        moved.fits(slice_text(text).len()),
{
    let mut selection = selection;
    let end = text.len_chars();
    proof {
        lemma_position_on_its_line(slice_text(text), end as int);
    }
    selection.set_head(end);
    selection.set_anchor(end);
    let line_start = text.line_to_char(text.char_to_line(end));
    selection.set_stored_line_position(end - line_start);
    selection
}

/// Moves the head one character right; the anchor stays.
pub fn extend_selection_right(selection: Selection, text: RopeSlice) -> (extended: Selection)
    requires
        selection.head <= slice_text(text).len(),
    ensures
        extended == extend_right(selection, slice_text(text)),
        selection.fits(slice_text(text).len()) ==> extended.fits(slice_text(text).len()),
{
    let moved = move_cursor_right(selection, text);
    Selection { anchor: selection.anchor, ..moved }
}

/// Moves the head one character left; the anchor stays.
pub fn extend_selection_left(selection: Selection, text: RopeSlice) -> (extended: Selection)
    requires
        selection.head <= slice_text(text).len(),
    ensures
        extended == extend_left(selection, slice_text(text)),
        selection.fits(slice_text(text).len()) ==> extended.fits(slice_text(text).len()),
{
    let moved = move_cursor_left(selection, text);
    Selection { anchor: selection.anchor, ..moved }
}

/// Moves the head one line up; the anchor stays.
pub fn extend_selection_up(selection: Selection, text: RopeSlice) -> (extended: Selection)
    requires
        selection.head <= slice_text(text).len(),
    ensures
        extended == extend_up(selection, slice_text(text)),
        selection.fits(slice_text(text).len()) ==> extended.fits(slice_text(text).len()),
{
    let line_number = text.char_to_line(selection.head());
    if line_number == 0 {
        return selection;
    }
    set_head_from_line_number(selection, line_number - 1, text)
}

/// Moves the head one line down; the anchor stays.
pub fn extend_selection_down(selection: Selection, text: RopeSlice) -> (extended: Selection)
    requires
        selection.head <= slice_text(text).len(),
    ensures
        extended == extend_down(selection, slice_text(text)),
        selection.fits(slice_text(text).len()) ==> extended.fits(slice_text(text).len()),
{
    let line_number = text.char_to_line(selection.head());
    let last_line_number = text.len_lines() - 1;
    if line_number < last_line_number {
        set_head_from_line_number(selection, line_number + 1, text)
    } else {
        selection
    }
}

/// Moves the head as the home key does; the anchor stays.
pub fn extend_selection_home(selection: Selection, text: RopeSlice) -> (extended: Selection)
    requires
        selection.head <= slice_text(text).len(),
    ensures
        extended == extend_home(selection, slice_text(text)),
        selection.fits(slice_text(text).len()) ==> extended.fits(slice_text(text).len()),
{
    let mut selection = selection;
    let (line_start, target) = home_of(selection.head(), text);
    selection.set_head(target);
    selection.set_stored_line_position(target - line_start);
    selection
}

/// Moves the head to the end of its line; the anchor stays.
pub fn extend_selection_end(selection: Selection, text: RopeSlice) -> (extended: Selection)
    requires
        selection.head <= slice_text(text).len(),
    ensures
        extended == extend_end(selection, slice_text(text)),
        selection.fits(slice_text(text).len()) ==> extended.fits(slice_text(text).len()),
{
    let mut selection = selection;
    let (line_start, line_end) = end_of(selection.head(), text);
    selection.set_head(line_end);
    selection.set_stored_line_position(line_end - line_start);
    selection
}

/// Makes a cursor of the selection, at its head.
pub fn collapse_selection_cursor(selection: Selection) -> (collapsed: Selection)
    ensures
        collapsed == collapse(selection),
{
    let mut selection = selection;
    selection.set_anchor(selection.head());
    selection
}

} // verus!
