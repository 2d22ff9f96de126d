//! Edits of the text at one selection after another. Each edit moves the
//! ends of every selection that lie behind it, so that they stay with the
//! characters they stood at.

use vstd::prelude::*;
use ropey::{Rope, RopeSlice};
use crate::document::TAB_WIDTH;
use crate::lines::{
    all_spaces, column_of, joined, leading_spaces, lemma_column_within_width, lemma_line_width,
    lemma_position_on_its_line, line_of, line_text, texts_of,
};
use crate::movement::{
    leading_space_count, move_cursor_left, move_cursor_right, move_left,
    move_right,
};
use crate::selection::Selection;
use crate::text::{
    grapheme_clusters, graphemes, remove_range, rope_text, slice_text, to_rope, to_string, whole,
};

verus! {

/// A text with the selections in it.
pub struct Buffer {
    pub text: Seq<char>,
    pub selections: Seq<Selection>,
}

/// Every selection of `selections` lies within a text of `len` characters.
pub open spec fn all_fit(selections: Seq<Selection>, len: nat) -> bool {
    forall|i: int| 0 <= i < selections.len() ==> (#[trigger] selections[i]).fits(len)
}

impl Buffer {
    /// There is at least one selection, and all of them lie within the text.
    pub open spec fn wf(self) -> bool {
        self.selections.len() >= 1 && all_fit(self.selections, self.text.len())
    }
}

/// An edit that a document applies at each of its selections.
#[derive(Clone, Copy, Debug, PartialEq, Eq, Structural)]
pub enum Edit {
    /// Insert a character at the head.
    InsertChar(char),
    /// Insert spaces up to the next tab stop.
    Tab,
    /// Remove the character at the head.
    Delete,
    /// Remove the character before the head, or a tab's width of spaces.
    Backspace,
    /// Break the line at the head and begin the new line with as many
    /// spaces as the broken line begins with.
    Newline,
}

/// An offset after a character was inserted at `at`.
pub open spec fn shift_insert(offset: usize, at: int) -> usize {
    if offset >= at {
        (offset + 1) as usize
    } else {
        offset
    }
}

/// An offset after the character at `at` was removed.
pub open spec fn shift_remove(offset: usize, at: int) -> usize {
    if offset > at {
        (offset - 1) as usize
    } else {
        offset
    }
}

pub open spec fn shifted_by_insert(selection: Selection, at: int) -> Selection {
    Selection {
        anchor: shift_insert(selection.anchor, at),
        head: shift_insert(selection.head, at),
        stored_line_position: selection.stored_line_position,
    }
}

pub open spec fn shifted_by_remove(selection: Selection, at: int) -> Selection {
    Selection {
        anchor: shift_remove(selection.anchor, at),
        head: shift_remove(selection.head, at),
        stored_line_position: selection.stored_line_position,
    }
}

/// `c` inserted at the head of selection `i`, which then moves right past
/// it; the other selections shift. A text of `usize::MAX` characters takes
/// no more.
pub open spec fn insert_at(b: Buffer, i: int, c: char) -> Buffer {
    if b.text.len() < usize::MAX {
        let at = b.selections[i].head as int;
        let text = b.text.insert(at, c);
        Buffer {
            text,
            selections: Seq::new(
                b.selections.len(),
                |j: int|
                    if j == i {
                        move_right(b.selections[i], text)
                    } else {
                        shifted_by_insert(b.selections[j], at)
                    },
            ),
        }
    } else {
        b
    }
}

/// `c` inserted `times` times at selection `i`.
pub open spec fn insert_repeated(b: Buffer, i: int, c: char, times: nat) -> Buffer
    decreases times,
{
    if times == 0 {
        b
    } else {
        insert_at(insert_repeated(b, i, c, (times - 1) as nat), i, c)
    }
}

/// The character at the head of selection `i` removed, where there is one;
/// all selections shift.
pub open spec fn delete_at(b: Buffer, i: int) -> Buffer {
    let at = b.selections[i].head as int;
    if at < b.text.len() {
        Buffer {
            text: b.text.remove(at),
            selections: Seq::new(b.selections.len(), |j: int| shifted_by_remove(b.selections[j], at)),
        }
    } else {
        b
    }
}

/// Selection `i` moved left by one character and that character removed,
/// unless its head is at the start of the text.
pub open spec fn backspace_once(b: Buffer, i: int) -> Buffer {
    if b.selections[i].head > 0 {
        delete_at(
            Buffer {
                text: b.text,
                selections: b.selections.update(i, move_left(b.selections[i], b.text)),
            },
            i,
        )
    } else {
        b
    }
}

/// `backspace_once` applied `times` times at selection `i`.
pub open spec fn backspace_repeated(b: Buffer, i: int, times: nat) -> Buffer
    decreases times,
{
    if times == 0 {
        b
    } else {
        backspace_once(backspace_repeated(b, i, (times - 1) as nat), i)
    }
}

/// Each of `clusters` is a single space.
pub open spec fn all_single_spaces(clusters: Seq<Seq<char>>) -> bool {
    forall|i: int| 0 <= i < clusters.len() ==> #[trigger] clusters[i] == seq![' ']
}

/// The head at `head` stands on a tab stop other than the start of its line,
/// and the tab's width of characters before it are spaces.
pub open spec fn behind_tab_of_spaces(s: Seq<char>, head: int) -> bool {
    let column = column_of(s, head);
    let line = line_text(s, line_of(s, head));
    column >= TAB_WIDTH && column % (TAB_WIDTH as int) == 0 && all_spaces(
        line.subrange(column - TAB_WIDTH, column),
    )
}

/// Parts of which none is empty are all single spaces just where they are
/// parts of one character and all that they make up is spaces.
pub proof fn lemma_single_spaces(parts: Seq<Seq<char>>)
    requires
        forall|i: int| 0 <= i < parts.len() ==> (#[trigger] parts[i]).len() > 0,
    ensures
        all_single_spaces(parts) <==> all_spaces(joined(parts)) && forall|i: int|
            0 <= i < parts.len() ==> (#[trigger] parts[i]).len() == 1,
    decreases parts.len(),
{
    if parts.len() > 0 {
        let rest = parts.drop_first();
        assert forall|i: int| 0 <= i < rest.len() implies (#[trigger] rest[i]).len() > 0 by {
            assert(rest[i] == parts[i + 1]);
        }
        lemma_single_spaces(rest);
        let whole = joined(parts);
        assert(whole == parts[0] + joined(rest));
        if all_single_spaces(parts) {
            assert(parts[0] == seq![' ']);
            assert forall|i: int| 0 <= i < rest.len() implies #[trigger] rest[i] == seq![' '] by {
                assert(rest[i] == parts[i + 1]);
            }
            assert forall|k: int| 0 <= k < whole.len() implies whole[k] == ' ' by {
                if k >= parts[0].len() {
                    assert(whole[k] == joined(rest)[k - parts[0].len()]);
                }
            }
            assert forall|i: int| 0 <= i < parts.len() implies (#[trigger] parts[i]).len() == 1 by {
                assert(parts[i] == seq![' ']);
            }
        }
        if all_spaces(whole) && (forall|i: int|
            0 <= i < parts.len() ==> (#[trigger] parts[i]).len() == 1) {
            assert(parts[0].len() == 1);
            assert(whole[0] == parts[0][0]);
            assert(parts[0] =~= seq![' ']);
            assert forall|k: int| 0 <= k < joined(rest).len() implies joined(rest)[k] == ' ' by {
                assert(joined(rest)[k] == whole[k + 1]);
            }
            assert forall|i: int| 0 <= i < rest.len() implies (#[trigger] rest[i]).len() == 1 by {
                assert(rest[i] == parts[i + 1]);
            }
            assert forall|i: int| 0 <= i < parts.len() implies #[trigger] parts[i] == seq![' '] by {
                if i > 0 {
                    assert(parts[i] == rest[i - 1]);
                }
            }
        }
    }
}

/// The number of spaces that the tab key inserts at column `column`: those
/// to the next tab stop, a full tab's width from a tab stop.
pub open spec fn tab_spaces(column: nat) -> nat {
    (TAB_WIDTH - column % (TAB_WIDTH as nat)) as nat
}

/// What `edit` does at selection `i`.
pub open spec fn edit_at(edit: Edit, b: Buffer, i: int) -> Buffer {
    match edit {
        Edit::InsertChar(c) => insert_at(b, i, c),
        Edit::Tab => insert_repeated(
            b,
            i,
            ' ',
            tab_spaces(b.selections[i].stored_line_position as nat),
        ),
        Edit::Delete => delete_at(b, i),
        Edit::Backspace => if behind_tab_of_spaces(b.text, b.selections[i].head as int) {
            backspace_repeated(b, i, TAB_WIDTH as nat)
        } else {
            backspace_once(b, i)
        },
        Edit::Newline => insert_repeated(
            insert_at(b, i, '\n'),
            i,
            ' ',
            leading_spaces(line_text(b.text, line_of(b.text, b.selections[i].head as int)), 0),
        ),
    }
}

/// `edit` applied at the first `n` selections, one after the other.
pub open spec fn edit_first(edit: Edit, b: Buffer, n: nat) -> Buffer
    decreases n,
{
    if n == 0 {
        b
    } else {
        edit_at(edit, edit_first(edit, b, (n - 1) as nat), n - 1)
    }
}

/// `edit` applied at every selection, in their order.
pub open spec fn edit_all(edit: Edit, b: Buffer) -> Buffer {
    edit_first(edit, b, b.selections.len())
}

/// Whether every cluster is a single space.
pub fn clusters_are_single_spaces(clusters: &Vec<String>) -> (all: bool)
    ensures
        all == all_single_spaces(texts_of(clusters@)),
{
    let mut i: usize = 0;
    while i < clusters.len()
        invariant
            i <= clusters@.len(),
            forall|k: int| 0 <= k < i ==> #[trigger] texts_of(clusters@)[k] == seq![' '],
        decreases clusters@.len() - i,
    {
        let cluster = clusters[i].as_str();
        assert(texts_of(clusters@)[i as int] == cluster@);
        if cluster.unicode_len() != 1 || cluster.get_char(0) != ' ' {
            assert(seq![' '].len() == 1 && seq![' '][0] == ' ');
            return false;
        }
        assert(cluster@ =~= seq![' ']);
        i = i + 1;
    }
    true
}

/// Whether the characters of `line` from position `start_of_slice` up to
/// `end_of_slice` are all spaces: whether each of their grapheme clusters
/// is a single space.
pub fn slice_is_all_spaces(line: &str, start_of_slice: usize, end_of_slice: usize) -> (all: bool)
    requires
        start_of_slice <= end_of_slice <= line@.len(),
    ensures
        all == all_spaces(line@.subrange(start_of_slice as int, end_of_slice as int)),
        all == all_single_spaces(
            grapheme_clusters(line@.subrange(start_of_slice as int, end_of_slice as int)),
        ),
{
    let part = line.substring_char(start_of_slice, end_of_slice);
    let clusters = graphemes(part);
    proof {
        let parts = texts_of(clusters@);
        assert(parts =~= grapheme_clusters(part@));
        assert forall|i: int| 0 <= i < parts.len() implies (#[trigger] parts[i]).len() > 0 by {
            assert(parts[i] == clusters@[i]@);
        }
        lemma_single_spaces(parts);
        if all_spaces(part@) {
            assert forall|i: int| 0 <= i < parts.len() implies (#[trigger] parts[i]).len() == 1 by {
                assert(parts[i] == clusters@[i]@);
            }
        }
    }
    clusters_are_single_spaces(&clusters)
}

/// The number of columns from the remembered column of `cursor` to the next
/// tab stop, 0 on a tab stop.
pub fn distance_to_next_multiple_of_tab_width(cursor: Selection) -> (distance: usize)
    ensures
        distance == if cursor.stored_line_position % TAB_WIDTH != 0 {
            TAB_WIDTH - cursor.stored_line_position % TAB_WIDTH
        } else {
            0
        },
        0 <= distance < TAB_WIDTH,
{
    if cursor.stored_line_position() % TAB_WIDTH != 0 {
        TAB_WIDTH - (cursor.stored_line_position() % TAB_WIDTH)
    } else {
        0
    }
}

/// A copy of `text` with `c` inserted at the head of `selection`, and the
/// selection moved right past it.
pub fn insert_char_at_cursor(selection: Selection, text: RopeSlice, c: char) -> (edited: (
    Selection,
    Rope,
))
    requires
        selection.head <= slice_text(text).len(),
    ensures
        slice_text(text).len() < usize::MAX ==> rope_text(edited.1) == slice_text(text).insert(
            selection.head as int,
            c,
        ) && edited.0 == move_right(selection, rope_text(edited.1)),
        slice_text(text).len() >= usize::MAX ==> rope_text(edited.1) == slice_text(text)
            && edited.0 == selection,
        edited.0.head <= rope_text(edited.1).len(),
        selection.fits(slice_text(text).len()) ==> edited.0.fits(rope_text(edited.1).len()),
{
    let mut new_text = to_rope(text);
    if text.len_chars() < usize::MAX {
        new_text.insert_char(selection.head(), c);
        let moved = move_cursor_right(selection, whole(&new_text));
        (moved, new_text)
    } else {
        (selection, new_text)
    }
}

/// A copy of `text` without the character at the head of `selection`, or
/// with all its characters where the head is at the end.
pub fn delete_at_cursor(selection: Selection, text: RopeSlice) -> (edited: Rope)
    ensures
        rope_text(edited) == if selection.head < slice_text(text).len() {
            slice_text(text).remove(selection.head as int)
        } else {
            slice_text(text)
        },
{
    let mut new_text = to_rope(text);
    if selection.head() < text.len_chars() {
        remove_range(&mut new_text, selection.head(), selection.head() + 1);
        assert(rope_text(new_text) =~= slice_text(text).remove(selection.head as int));
    }
    new_text
}

/// Shifts the selections for a character inserted at `at`, and puts `moved`
/// in place of selection `i`.
fn shift_for_insert(selections: &mut Vec<Selection>, i: usize, moved: Selection, at: usize)
    requires
        i < old(selections)@.len(),
        forall|j: int|
            0 <= j < old(selections)@.len() ==> (#[trigger] old(selections)@[j]).fits(
                (usize::MAX - 1) as nat,
            ),
    ensures
        final(selections)@ == Seq::new(
            old(selections)@.len(),
            |j: int|
                if j == i {
                    moved
                } else {
                    shifted_by_insert(old(selections)@[j], at as int)
                },
        ),
{
    let n = selections.len();
    let mut j: usize = 0;
    while j < n
        invariant
            j <= n,
            i < n,
            n == selections@.len(),
            n == old(selections)@.len(),
            forall|k: int|
                0 <= k < n ==> (#[trigger] old(selections)@[k]).fits((usize::MAX - 1) as nat),
            forall|k: int|
                0 <= k < j ==> #[trigger] selections@[k] == if k == i {
                    moved
                } else {
                    shifted_by_insert(old(selections)@[k], at as int)
                },
            forall|k: int| j <= k < n ==> #[trigger] selections@[k] == old(selections)@[k],
        decreases n - j,
    {
        let other = selections[j];
        assert(other == old(selections)@[j as int]);
        if j == i {
            selections.set(j, moved);
        } else {
            let anchor = if other.anchor >= at {
                other.anchor + 1
            } else {
                other.anchor
            };
            let head = if other.head >= at {
                other.head + 1
            } else {
                other.head
            };
            selections.set(
                j,
                Selection { anchor, head, stored_line_position: other.stored_line_position },
            );
        }
        j = j + 1;
    }
    assert(selections@ =~= Seq::new(
        old(selections)@.len(),
        |j: int|
            if j == i {
                moved
            } else {
                shifted_by_insert(old(selections)@[j], at as int)
            },
    ));
}

/// Shifts the selections for the character at `at` removed.
fn shift_for_remove(selections: &mut Vec<Selection>, at: usize)
    ensures
        final(selections)@ == Seq::new(
            old(selections)@.len(),
            |j: int| shifted_by_remove(old(selections)@[j], at as int),
        ),
{
    let n = selections.len();
    let mut j: usize = 0;
    while j < n
        invariant
            j <= n,
            n == selections@.len(),
            n == old(selections)@.len(),
            forall|k: int|
                0 <= k < j ==> #[trigger] selections@[k] == shifted_by_remove(
                    old(selections)@[k],
                    at as int,
                ),
            forall|k: int| j <= k < n ==> #[trigger] selections@[k] == old(selections)@[k],
        decreases n - j,
    {
        let other = selections[j];
        let anchor = if other.anchor > at {
            other.anchor - 1
        } else {
            other.anchor
        };
        let head = if other.head > at {
            other.head - 1
        } else {
            other.head
        };
        selections.set(
            j,
            Selection { anchor, head, stored_line_position: other.stored_line_position },
        );
        j = j + 1;
    }
    assert(selections@ =~= Seq::new(
        old(selections)@.len(),
        |j: int| shifted_by_remove(old(selections)@[j], at as int),
    ));
}

/// The buffer that a rope and a vector of selections stand for.
pub open spec fn buffer_of(text: Rope, selections: Vec<Selection>) -> Buffer {
    Buffer { text: rope_text(text), selections: selections@ }
}

/// Inserts `c` at selection `i`.
fn insert_at_selection(text: &mut Rope, selections: &mut Vec<Selection>, i: usize, c: char)
    requires
        i < old(selections)@.len(),
        buffer_of(*old(text), *old(selections)).wf(),
    ensures
        buffer_of(*final(text), *final(selections)) == insert_at(
            buffer_of(*old(text), *old(selections)),
            i as int,
            c,
        ),
        buffer_of(*final(text), *final(selections)).wf(),
{
    let selection = selections[i];
    let len = whole(text).len_chars();
    if len < usize::MAX {
        let (moved, new_text) = insert_char_at_cursor(selection, whole(text), c);
        *text = new_text;
        shift_for_insert(selections, i, moved, selection.head);
        assert(buffer_of(*text, *selections).selections =~= insert_at(
            buffer_of(*old(text), *old(selections)),
            i as int,
            c,
        ).selections);
    }
}

/// Inserts `c` at selection `i`, `times` times.
fn insert_repeatedly(
    text: &mut Rope,
    selections: &mut Vec<Selection>,
    i: usize,
    c: char,
    times: usize,
)
    requires
        i < old(selections)@.len(),
        buffer_of(*old(text), *old(selections)).wf(),
    ensures
        buffer_of(*final(text), *final(selections)) == insert_repeated(
            buffer_of(*old(text), *old(selections)),
            i as int,
            c,
            times as nat,
        ),
        buffer_of(*final(text), *final(selections)).wf(),
        final(selections)@.len() == old(selections)@.len(),
{
    let mut k: usize = 0;
    while k < times
        invariant
            k <= times,
            i < selections@.len(),
            selections@.len() == old(selections)@.len(),
            buffer_of(*text, *selections).wf(),
            buffer_of(*text, *selections) == insert_repeated(
                buffer_of(*old(text), *old(selections)),
                i as int,
                c,
                k as nat,
            ),
        decreases times - k,
    {
        insert_at_selection(text, selections, i, c);
        k = k + 1;
    }
}

/// Removes the character at the head of selection `i`.
fn delete_at_selection(text: &mut Rope, selections: &mut Vec<Selection>, i: usize)
    requires
        i < old(selections)@.len(),
        buffer_of(*old(text), *old(selections)).wf(),
    ensures
        buffer_of(*final(text), *final(selections)) == delete_at(
            buffer_of(*old(text), *old(selections)),
            i as int,
        ),
        buffer_of(*final(text), *final(selections)).wf(),
        final(selections)@.len() == old(selections)@.len(),
{
    let selection = selections[i];
    let len = whole(text).len_chars();
    if selection.head() < len {
        let new_text = delete_at_cursor(selection, whole(text));
        *text = new_text;
        shift_for_remove(selections, selection.head);
    }
}

/// Moves selection `i` left and removes the character it passed.
fn backspace_once_at_selection(text: &mut Rope, selections: &mut Vec<Selection>, i: usize)
    requires
        i < old(selections)@.len(),
        buffer_of(*old(text), *old(selections)).wf(),
    ensures
        buffer_of(*final(text), *final(selections)) == backspace_once(
            buffer_of(*old(text), *old(selections)),
            i as int,
        ),
        buffer_of(*final(text), *final(selections)).wf(),
        final(selections)@.len() == old(selections)@.len(),
{
    let selection = selections[i];
    if selection.head() > 0 {
        let moved = move_cursor_left(selection, whole(text));
        selections.set(i, moved);
        delete_at_selection(text, selections, i);
    }
}

/// Removes what is before the head of selection `i`: a tab's width of
/// characters where `whole_tab` says so, else one character.
pub fn backspace_at_selection(
    text: &mut Rope,
    selections: &mut Vec<Selection>,
    i: usize,
    whole_tab: bool,
)
    requires
        i < old(selections)@.len(),
        buffer_of(*old(text), *old(selections)).wf(),
    ensures
        buffer_of(*final(text), *final(selections)) == if whole_tab {
            backspace_repeated(buffer_of(*old(text), *old(selections)), i as int, TAB_WIDTH as nat)
        } else {
            backspace_once(buffer_of(*old(text), *old(selections)), i as int)
        },
        buffer_of(*final(text), *final(selections)).wf(),
        final(selections)@.len() == old(selections)@.len(),
{
    if whole_tab {
        let mut k: usize = 0;
        while k < TAB_WIDTH
            invariant
                k <= TAB_WIDTH,
                i < selections@.len(),
                selections@.len() == old(selections)@.len(),
                buffer_of(*text, *selections).wf(),
                buffer_of(*text, *selections) == backspace_repeated(
                    buffer_of(*old(text), *old(selections)),
                    i as int,
                    k as nat,
                ),
            decreases TAB_WIDTH - k,
        {
            backspace_once_at_selection(text, selections, i);
            k = k + 1;
        }
    } else {
        backspace_once_at_selection(text, selections, i);
    }
}

/// Whether the head of `selection` stands behind a tab's width of spaces
/// that ends on a tab stop.
fn is_behind_tab_of_spaces(selection: Selection, text: RopeSlice) -> (behind: bool)
    requires
        selection.head <= slice_text(text).len(),
    ensures
        behind == behind_tab_of_spaces(slice_text(text), selection.head as int),
{
    proof {
        lemma_position_on_its_line(slice_text(text), selection.head as int);
    }
    let line_number = text.char_to_line(selection.head());
    let cursor_line_position = selection.head() - text.line_to_char(line_number);
    if cursor_line_position >= TAB_WIDTH && cursor_line_position % TAB_WIDTH == 0 {
        let line = to_string(text.line(line_number));
        proof {
            lemma_column_within_width(slice_text(text), selection.head as int);
            lemma_line_width(slice_text(text), line_number as nat);
        }
        slice_is_all_spaces(line.as_str(), cursor_line_position - TAB_WIDTH, cursor_line_position)
    } else {
        false
    }
}

/// Applies `edit` at selection `i`.
fn edit_at_selection(edit: Edit, text: &mut Rope, selections: &mut Vec<Selection>, i: usize)
    requires
        i < old(selections)@.len(),
        buffer_of(*old(text), *old(selections)).wf(),
    ensures
        buffer_of(*final(text), *final(selections)) == edit_at(
            edit,
            buffer_of(*old(text), *old(selections)),
            i as int,
        ),
        buffer_of(*final(text), *final(selections)).wf(),
        final(selections)@.len() == old(selections)@.len(),
{
    match edit {
        Edit::InsertChar(c) => {
            insert_at_selection(text, selections, i, c);
        },
        Edit::Tab => {
            let tab_distance = distance_to_next_multiple_of_tab_width(selections[i]);
            let modified_tab_width = if tab_distance > 0 && tab_distance < TAB_WIDTH {
                tab_distance
            } else {
                TAB_WIDTH
            };
            insert_repeatedly(text, selections, i, ' ', modified_tab_width);
        },
        Edit::Delete => {
            delete_at_selection(text, selections, i);
        },
        Edit::Backspace => {
            let whole_tab = is_behind_tab_of_spaces(selections[i], whole(text));
            backspace_at_selection(text, selections, i, whole_tab);
        },
        Edit::Newline => {
            let slice = whole(text);
            let head = selections[i].head();
            proof {
                lemma_position_on_its_line(slice_text(slice), head as int);
            }
            let indent = leading_space_count(
                slice.line(slice.char_to_line(head)),
            );
            insert_at_selection(text, selections, i, '\n');
            insert_repeatedly(text, selections, i, ' ', indent);
        },
    }
}

/// Applies `edit` at every selection, in their order.
pub fn edit_everywhere(edit: Edit, text: &mut Rope, selections: &mut Vec<Selection>)
    requires
        buffer_of(*old(text), *old(selections)).wf(),
    ensures
        buffer_of(*final(text), *final(selections)) == edit_all(
            edit,
            buffer_of(*old(text), *old(selections)),
        ),
        buffer_of(*final(text), *final(selections)).wf(),
        final(selections)@.len() == old(selections)@.len(),
{
    let n = selections.len();
    let mut i: usize = 0;
    while i < n
        invariant
            i <= n,
            n == selections@.len(),
            n == old(selections)@.len(),
            buffer_of(*text, *selections).wf(),
            buffer_of(*text, *selections) == edit_first(
                edit,
                buffer_of(*old(text), *old(selections)),
                i as nat,
            ),
        decreases n - i,
    {
        edit_at_selection(edit, text, selections, i);
        i = i + 1;
    }
}

} // verus!
