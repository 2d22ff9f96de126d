//! What holds of every selection, every text and every edit.

use vstd::prelude::*;
use crate::document::{moved_by, DocumentState, Motion};
use crate::edit::{
    backspace_once, backspace_repeated, behind_tab_of_spaces, delete_at, edit_at, edit_first,
    insert_at, insert_repeated, shift_insert, shift_remove, Buffer, Edit,
};
use crate::lines::{
    column_of, lemma_column_within_width, lemma_line_start, lemma_line_width,
    lemma_position_on_its_line, line_count, line_of, line_width,
};
use crate::movement::{
    collapse, extend_down, extend_end, extend_home, extend_left, extend_right, extend_up,
    head_from_line_number, lemma_place_on_line, lemma_soft_home, move_document_end,
    move_document_start, move_down, move_end, move_home, move_left, move_page_down, move_page_up,
    move_right, move_up, set_position_from_line_number,
};
use crate::selection::Selection;
use crate::viewport::scrolled_down;

verus! {

/// The smaller of a remembered column and the width of a line.
pub open spec fn clamped(column: usize, width: nat) -> nat {
    if column < width {
        column as nat
    } else {
        width
    }
}

/// A cursor put on a line of the text stands on that line, at its
/// remembered column or at the end of the line where the line is shorter,
/// and remembers the same column as before.
pub proof fn lemma_placing_clamps_column(selection: Selection, line: nat, s: Seq<char>)
    requires
        line < line_count(s),
        s.len() <= usize::MAX,
    ensures
        line_of(s, set_position_from_line_number(selection, line, s).head as int) == line,
        column_of(s, set_position_from_line_number(selection, line, s).head as int) == clamped(
            selection.stored_line_position,
            line_width(s, line),
        ),
        set_position_from_line_number(selection, line, s).stored_line_position
            == selection.stored_line_position,
        set_position_from_line_number(selection, line, s).fits(s.len()),
{
    lemma_place_on_line(s, line, selection.stored_line_position as nat);
}

/// Moving down from a line that is not the last puts the head on the next
/// line at the smaller of the remembered column and that line's width;
/// moving up from a line that is not the first does so on the line before.
/// The remembered column stays.
pub proof fn lemma_vertical_move_clamps_column(selection: Selection, s: Seq<char>)
    requires
        selection.head <= s.len() <= usize::MAX,
    ensures
        ({
            let line = line_of(s, selection.head as int);
            let down = move_down(selection, s);
            let up = move_up(selection, s);
            &&& down.stored_line_position == selection.stored_line_position
            &&& up.stored_line_position == selection.stored_line_position
            &&& line + 1 < line_count(s) ==> line_of(s, down.head as int) == line + 1 && column_of(
                s,
                down.head as int,
            ) == clamped(selection.stored_line_position, line_width(s, line + 1))
            &&& line > 0 ==> line_of(s, up.head as int) == line - 1 && column_of(s, up.head as int)
                == clamped(selection.stored_line_position, line_width(s, (line - 1) as nat))
        }),
{
    let line = line_of(s, selection.head as int);
    lemma_position_on_its_line(s, selection.head as int);
    if line + 1 < line_count(s) {
        lemma_placing_clamps_column(selection, line + 1, s);
    }
    if line > 0 {
        lemma_placing_clamps_column(selection, (line - 1) as nat, s);
    }
}

/// A cursor that passed through a shorter line has not lost its column:
/// put on the line `short` and then on a line `long` that is at least as
/// wide as the remembered column, it stands at exactly that column.
pub proof fn lemma_round_trip_restores_column(
    selection: Selection,
    short: nat,
    long: nat,
    s: Seq<char>,
)
    requires
        short < line_count(s),
        long < line_count(s),
        selection.stored_line_position <= line_width(s, long),
        s.len() <= usize::MAX,
    ensures
        ({
            let there = set_position_from_line_number(selection, short, s);
            let back = set_position_from_line_number(there, long, s);
            &&& column_of(s, there.head as int) <= selection.stored_line_position
            &&& line_of(s, back.head as int) == long
            &&& column_of(s, back.head as int) == selection.stored_line_position
            &&& back.stored_line_position == selection.stored_line_position
        }),
{
    lemma_placing_clamps_column(selection, short, s);
    lemma_placing_clamps_column(set_position_from_line_number(selection, short, s), long, s);
}

/// A cursor that stands at its remembered column returns to where it was
/// when it moves down and up again, and when it moves up and down again.
pub proof fn lemma_down_and_up_returns(selection: Selection, s: Seq<char>)
    requires
        selection.head <= s.len() <= usize::MAX,
        selection.anchor == selection.head,
        column_of(s, selection.head as int) == selection.stored_line_position,
    ensures
        line_of(s, selection.head as int) + 1 < line_count(s) ==> move_up(
            move_down(selection, s),
            s,
        ) == selection,
        line_of(s, selection.head as int) > 0 ==> move_down(move_up(selection, s), s)
            == selection,
{
    let line = line_of(s, selection.head as int);
    lemma_position_on_its_line(s, selection.head as int);
    lemma_column_within_width(s, selection.head as int);
    lemma_vertical_move_clamps_column(selection, s);
    if line + 1 < line_count(s) {
        lemma_placing_clamps_column(selection, line + 1, s);
        lemma_placing_clamps_column(move_down(selection, s), line, s);
    }
    if line > 0 {
        lemma_placing_clamps_column(selection, (line - 1) as nat, s);
        lemma_placing_clamps_column(move_up(selection, s), line, s);
    }
}

/// Moving left at the start of the text changes nothing.
pub proof fn lemma_move_left_at_start(selection: Selection, s: Seq<char>)
    requires
        selection.head == 0,
    ensures
        move_left(selection, s) == selection,
        extend_left(selection, s) == selection,
{
}

/// Moving right at the end of the text changes nothing.
pub proof fn lemma_move_right_at_end(selection: Selection, s: Seq<char>)
    requires
        selection.head == s.len(),
    ensures
        move_right(selection, s) == selection,
        extend_right(selection, s) == selection,
{
}

/// Scrolling down changes nothing where the window would then reach past
/// the last line.
pub proof fn lemma_scroll_down_past_end(view: crate::View, amount: nat, s: Seq<char>)
    requires
        view.vertical_start + view.height + amount > line_count(s),
    ensures
        scrolled_down(view, amount, line_count(s)) == view,
{
}

/// Every movement and every extension leaves a selection within the text.
pub proof fn lemma_movement_stays_in_text(selection: Selection, s: Seq<char>, height: nat, line: nat)
    requires
        selection.fits(s.len()),
        s.len() <= usize::MAX,
    ensures
        set_position_from_line_number(selection, line, s).fits(s.len()),
        move_up(selection, s).fits(s.len()),
        move_down(selection, s).fits(s.len()),
        move_left(selection, s).fits(s.len()),
        move_right(selection, s).fits(s.len()),
        move_page_up(selection, s, height).fits(s.len()),
        move_page_down(selection, s, height).fits(s.len()),
        move_home(selection, s).fits(s.len()),
        move_end(selection, s).fits(s.len()),
        move_document_start().fits(s.len()),
        move_document_end(s).fits(s.len()),
        extend_up(selection, s).fits(s.len()),
        extend_down(selection, s).fits(s.len()),
        extend_left(selection, s).fits(s.len()),
        extend_right(selection, s).fits(s.len()),
        extend_home(selection, s).fits(s.len()),
        extend_end(selection, s).fits(s.len()),
        collapse(selection).fits(s.len()),
{
    let head = selection.head as int;
    let here = line_of(s, head);
    lemma_position_on_its_line(s, head);
    lemma_line_width(s, here);
    lemma_soft_home(s, here);
    lemma_line_start(s, here);
    lemma_placed_fits(selection, line, s);
    if here > 0 {
        lemma_placed_fits(selection, (here - 1) as nat, s);
    }
    lemma_placed_fits(selection, here + 1, s);
    lemma_placed_fits(selection, crate::movement::page_up_line(here, height), s);
    lemma_placed_fits(selection, crate::movement::page_down_line(here, height, line_count(s)), s);
    if head < s.len() {
        lemma_position_on_its_line(s, head + 1);
    }
    if head > 0 {
        lemma_position_on_its_line(s, head - 1);
    }
    lemma_position_on_its_line(s, s.len() as int);
}

/// A selection put on a line, with or without its anchor, stays within the
/// text.
pub proof fn lemma_placed_fits(selection: Selection, line: nat, s: Seq<char>)
    requires
        selection.fits(s.len()),
        s.len() <= usize::MAX,
    ensures
        set_position_from_line_number(selection, line, s).fits(s.len()),
        head_from_line_number(selection, line, s).fits(s.len()),
{
    if line < line_count(s) {
        lemma_place_on_line(s, line, selection.stored_line_position as nat);
    }
}

/// Every movement of a document's selection leaves it within the text.
pub proof fn lemma_motion_stays_in_text(motion: Motion, selection: Selection, s: Seq<char>, height: nat)
    requires
        selection.fits(s.len()),
        s.len() <= usize::MAX,
    ensures
        moved_by(motion, selection, s, height).fits(s.len()),
{
    lemma_movement_stays_in_text(collapse(selection), s, height, 0);
}

/// An offset that shifts for an inserted character stands before the same
/// character as it did.
pub proof fn lemma_insert_keeps_characters(text: Seq<char>, at: int, c: char, offset: usize)
    requires
        0 <= at <= text.len(),
        offset < text.len() <= usize::MAX,
    ensures
        text.insert(at, c)[shift_insert(offset, at) as int] == text[offset as int],
        text.insert(at, c)[at] == c,
{
}

/// An offset that shifts for a removed character stands before the same
/// character as it did, unless that is the character removed.
pub proof fn lemma_remove_keeps_characters(text: Seq<char>, at: int, offset: usize)
    requires
        0 <= at < text.len(),
        offset < text.len(),
        offset != at,
    ensures
        text.remove(at)[shift_remove(offset, at) as int] == text[offset as int],
{
}

/// Inserting a character at a selection keeps the number of selections and
/// leaves every selection within the text.
pub proof fn lemma_insert_keeps_selections(b: Buffer, i: int, c: char)
    requires
        b.wf(),
        0 <= i < b.selections.len(),
        b.text.len() <= usize::MAX,
    ensures
        insert_at(b, i, c).wf(),
        insert_at(b, i, c).selections.len() == b.selections.len(),
        insert_at(b, i, c).text.len() <= usize::MAX,
{
    if b.text.len() < usize::MAX {
        let at = b.selections[i].head as int;
        let text = b.text.insert(at, c);
        lemma_position_on_its_line(text, at + 1);
        let after = insert_at(b, i, c);
        assert forall|j: int| 0 <= j < after.selections.len() implies (
        #[trigger] after.selections[j]).fits(after.text.len()) by {
            assert(b.selections[j].fits(b.text.len()));
        }
    }
}

/// Inserting a character several times at a selection keeps the number of
/// selections and leaves every selection within the text.
pub proof fn lemma_insert_repeated_keeps_selections(b: Buffer, i: int, c: char, times: nat)
    requires
        b.wf(),
        0 <= i < b.selections.len(),
        b.text.len() <= usize::MAX,
    ensures
        insert_repeated(b, i, c, times).wf(),
        insert_repeated(b, i, c, times).selections.len() == b.selections.len(),
        insert_repeated(b, i, c, times).text.len() <= usize::MAX,
    decreases times,
{
    if times > 0 {
        lemma_insert_repeated_keeps_selections(b, i, c, (times - 1) as nat);
        lemma_insert_keeps_selections(insert_repeated(b, i, c, (times - 1) as nat), i, c);
    }
}

/// Removing the character at a selection keeps the number of selections
/// and leaves every selection within the text.
pub proof fn lemma_delete_keeps_selections(b: Buffer, i: int)
    requires
        b.wf(),
        0 <= i < b.selections.len(),
    ensures
        delete_at(b, i).wf(),
        delete_at(b, i).selections.len() == b.selections.len(),
        delete_at(b, i).text.len() <= b.text.len(),
{
    let after = delete_at(b, i);
    assert forall|j: int| 0 <= j < after.selections.len() implies (#[trigger] after.selections[j]).fits(
        after.text.len(),
    ) by {
        assert(b.selections[j].fits(b.text.len()));
        assert(b.selections[i].fits(b.text.len()));
    }
}

/// One step back at a selection keeps the number of selections and leaves
/// every selection within the text.
pub proof fn lemma_backspace_once_keeps_selections(b: Buffer, i: int)
    requires
        b.wf(),
        0 <= i < b.selections.len(),
        b.text.len() <= usize::MAX,
    ensures
        backspace_once(b, i).wf(),
        backspace_once(b, i).selections.len() == b.selections.len(),
        backspace_once(b, i).text.len() <= b.text.len(),
{
    if b.selections[i].head > 0 {
        assert(b.selections[i].fits(b.text.len()));
        lemma_movement_stays_in_text(b.selections[i], b.text, 0, 0);
        let moved = Buffer {
            text: b.text,
            selections: b.selections.update(i, move_left(b.selections[i], b.text)),
        };
        assert forall|j: int| 0 <= j < moved.selections.len() implies (
        #[trigger] moved.selections[j]).fits(moved.text.len()) by {
            if j != i {
                assert(b.selections[j].fits(b.text.len()));
            }
        }
        lemma_delete_keeps_selections(moved, i);
    }
}

/// Several steps back at a selection keep the number of selections and
/// leave every selection within the text.
pub proof fn lemma_backspace_repeated_keeps_selections(b: Buffer, i: int, times: nat)
    requires
        b.wf(),
        0 <= i < b.selections.len(),
        b.text.len() <= usize::MAX,
    ensures
        backspace_repeated(b, i, times).wf(),
        backspace_repeated(b, i, times).selections.len() == b.selections.len(),
        backspace_repeated(b, i, times).text.len() <= b.text.len(),
    decreases times,
{
    if times > 0 {
        lemma_backspace_repeated_keeps_selections(b, i, (times - 1) as nat);
        lemma_backspace_once_keeps_selections(backspace_repeated(b, i, (times - 1) as nat), i);
    }
}

/// Inserting a character several times at a selection, in a text that can
/// take so many more, puts them in a row before what stood behind the head
/// and leaves a cursor behind them.
pub proof fn lemma_insert_repeated_puts_a_row(b: Buffer, i: int, c: char, times: nat)
    requires
        b.wf(),
        0 <= i < b.selections.len(),
        b.text.len() + times <= usize::MAX,
    ensures
        insert_repeated(b, i, c, times).text == b.text.subrange(0, b.selections[i].head as int)
            + Seq::new(times, |j: int| c) + b.text.subrange(
            b.selections[i].head as int,
            b.text.len() as int,
        ),
        insert_repeated(b, i, c, times).selections[i].head == b.selections[i].head + times,
        times > 0 ==> insert_repeated(b, i, c, times).selections[i].anchor == b.selections[i].head
            + times,
    decreases times,
{
    let head = b.selections[i].head as int;
    let len = b.text.len() as int;
    assert(b.selections[i].fits(b.text.len()));
    if times == 0 {
        assert(b.text =~= b.text.subrange(0, head) + Seq::new(0, |j: int| c) + b.text.subrange(
            head,
            len,
        ));
    } else {
        let before = insert_repeated(b, i, c, (times - 1) as nat);
        lemma_insert_repeated_puts_a_row(b, i, c, (times - 1) as nat);
        lemma_insert_repeated_keeps_selections(b, i, c, (times - 1) as nat);
        let after = insert_at(before, i, c);
        assert(before.text.len() == len + times - 1);
        assert(after.text =~= b.text.subrange(0, head) + Seq::new(times, |j: int| c)
            + b.text.subrange(head, len));
    }
}

/// Stepping back at a selection as many times as there are characters
/// before its head, or fewer, takes out so many characters before the head
/// and leaves the head where the first of them was, with the anchor.
pub proof fn lemma_backspace_removes_before_head(b: Buffer, i: int, times: nat)
    requires
        b.wf(),
        0 <= i < b.selections.len(),
        times <= b.selections[i].head,
        b.text.len() <= usize::MAX,
    ensures
        backspace_repeated(b, i, times).text == b.text.subrange(0, b.selections[i].head - times)
            + b.text.subrange(b.selections[i].head as int, b.text.len() as int),
        backspace_repeated(b, i, times).selections[i].head == b.selections[i].head - times,
        times > 0 ==> backspace_repeated(b, i, times).selections[i].anchor == b.selections[i].head
            - times,
    decreases times,
{
    let head = b.selections[i].head as int;
    assert(b.selections[i].fits(b.text.len()));
    if times == 0 {
        assert(b.text =~= b.text.subrange(0, head) + b.text.subrange(head, b.text.len() as int));
    } else {
        let before = backspace_repeated(b, i, (times - 1) as nat);
        lemma_backspace_removes_before_head(b, i, (times - 1) as nat);
        lemma_backspace_repeated_keeps_selections(b, i, (times - 1) as nat);
        let after = backspace_once(before, i);
        assert(after.text =~= b.text.subrange(0, head - times) + b.text.subrange(
            head,
            b.text.len() as int,
        ));
    }
}

/// The backspace key behind a tab's width of spaces that ends on a tab stop
/// takes out these spaces; elsewhere it takes out the one character before
/// the head, and nothing at the start of the text. The head ends where the
/// first character taken out was.
pub proof fn lemma_backspace(b: Buffer, i: int)
    requires
        b.wf(),
        0 <= i < b.selections.len(),
        b.text.len() <= usize::MAX,
    ensures
        ({
            let head = b.selections[i].head as int;
            let after = edit_at(Edit::Backspace, b, i);
            let taken: int = if behind_tab_of_spaces(b.text, head) {
                crate::document::TAB_WIDTH as int
            } else if head > 0 {
                1
            } else {
                0
            };
            &&& taken <= head
            &&& after.text == b.text.subrange(0, head - taken) + b.text.subrange(
                head,
                b.text.len() as int,
            )
            &&& after.selections[i].head == head - taken
        }),
{
    let head = b.selections[i].head as int;
    assert(b.selections[i].fits(b.text.len()));
    lemma_position_on_its_line(b.text, head);
    lemma_line_start(b.text, line_of(b.text, head));
    if behind_tab_of_spaces(b.text, head) {
        lemma_backspace_removes_before_head(b, i, crate::document::TAB_WIDTH as nat);
    } else if head > 0 {
        lemma_backspace_removes_before_head(b, i, 1);
        assert(backspace_repeated(b, i, 0) == b);
        assert(backspace_repeated(b, i, 1) == backspace_once(b, i));
    } else {
        assert(b.text =~= b.text.subrange(0, head) + b.text.subrange(head, b.text.len() as int));
    }
}

/// An edit at one selection keeps the number of selections and leaves
/// every selection within the text.
pub proof fn lemma_edit_at_keeps_selections(edit: Edit, b: Buffer, i: int)
    requires
        b.wf(),
        0 <= i < b.selections.len(),
        b.text.len() <= usize::MAX,
    ensures
        edit_at(edit, b, i).wf(),
        edit_at(edit, b, i).selections.len() == b.selections.len(),
        edit_at(edit, b, i).text.len() <= usize::MAX,
{
    match edit {
        Edit::InsertChar(c) => {
            lemma_insert_keeps_selections(b, i, c);
        },
        Edit::Tab => {
            lemma_insert_repeated_keeps_selections(
                b,
                i,
                ' ',
                crate::edit::tab_spaces(b.selections[i].stored_line_position as nat),
            );
        },
        Edit::Delete => {
            lemma_delete_keeps_selections(b, i);
        },
        Edit::Backspace => {
            lemma_backspace_repeated_keeps_selections(b, i, crate::document::TAB_WIDTH as nat);
            lemma_backspace_once_keeps_selections(b, i);
        },
        Edit::Newline => {
            lemma_insert_keeps_selections(b, i, '\n');
            lemma_insert_repeated_keeps_selections(
                insert_at(b, i, '\n'),
                i,
                ' ',
                crate::lines::leading_spaces(
                    crate::lines::line_text(
                        b.text,
                        line_of(b.text, b.selections[i].head as int),
                    ),
                    0,
                ),
            );
        },
    }
}

/// An edit at the first `n` selections keeps the number of selections and
/// leaves every selection within the text.
pub proof fn lemma_edit_first_keeps_selections(edit: Edit, b: Buffer, n: nat)
    requires
        b.wf(),
        n <= b.selections.len(),
        b.text.len() <= usize::MAX,
    ensures
        edit_first(edit, b, n).wf(),
        edit_first(edit, b, n).selections.len() == b.selections.len(),
        edit_first(edit, b, n).text.len() <= usize::MAX,
    decreases n,
{
    if n > 0 {
        lemma_edit_first_keeps_selections(edit, b, (n - 1) as nat);
        lemma_edit_at_keeps_selections(edit, edit_first(edit, b, (n - 1) as nat), n - 1);
    }
}

/// After every edit and every movement a document has as many selections
/// as before, so at least one, and both ends of each lie within the text.
pub proof fn lemma_document_stays_well_formed(state: DocumentState, edit: Edit, motion: Motion)
    requires
        state.wf(),
        state.text.len() <= usize::MAX,
    ensures
        state.edited(edit).wf(),
        state.edited(edit).selections.len() == state.selections.len(),
        state.moved(motion).wf(),
        state.moved(motion).selections.len() == state.selections.len(),
{
    lemma_edit_first_keeps_selections(edit, state.buffer(), state.selections.len());
    let moved = state.moved(motion);
    assert forall|i: int| 0 <= i < moved.selections.len() implies (#[trigger] moved.selections[i]).fits(
        moved.text.len(),
    ) by {
        assert(state.selections[i].fits(state.text.len()));
        lemma_motion_stays_in_text(
            motion,
            state.selections[i],
            state.text,
            state.view.height as nat,
        );
    }
}

} // verus!
