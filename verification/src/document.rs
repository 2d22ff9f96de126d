//! The document: a text, the selections in it and the client's window on
//! it, with one operation for each thing a user does.
//!
//! Of several selections the first is the primary one, which stays when
//! the others are given up; the window follows the last one.

use vstd::prelude::*;
use ropey::{Rope, RopeSlice};
use crate::Position;
use crate::edit::{
    all_fit, buffer_of, delete_at_cursor, edit_all, edit_everywhere, insert_char_at_cursor, Buffer,
    Edit,
};
use crate::lines::{line_count, max_line_width};
use crate::movement;
use crate::selection::{Selection, Selection2d};
use crate::text::{rope_text, slice_text, to_rope, to_string, whole};
use crate::viewport::{
    clip_cursors, clip_line_numbers, clip_text, clip_view_cursors, clip_view_line_numbers,
    clip_view_text, client_view_cursor_position, follow_cursor, following, in_view,
    longest_line_width, position_at, position_of, positions_of, relative_to, scroll_down,
    scroll_right, scrolled_down, scrolled_left, scrolled_right, scrolled_up,
};

verus! {

/// The number of columns from one tab stop to the next. The tab key
/// inserts spaces up to the next tab stop.
pub const TAB_WIDTH: usize = 4;

/// What a document holds.
pub struct DocumentState {
    pub text: Seq<char>,
    pub file_name: Option<Seq<char>>,
    pub modified: bool,
    pub selections: Seq<Selection>,
    pub view: crate::View,
}

/// A movement that a document applies to each of its selections.
#[derive(Clone, Copy, Debug, PartialEq, Eq, Structural)]
pub enum Motion {
    Up,
    Down,
    Right,
    Left,
    PageUp,
    PageDown,
    Home,
    End,
}

/// Where `motion` takes `selection`: it becomes a cursor at its head and
/// then moves, in a window of `height` lines.
pub open spec fn moved_by(motion: Motion, selection: Selection, s: Seq<char>, height: nat) -> Selection {
    let cursor = movement::collapse(selection);
    match motion {
        Motion::Up => movement::move_up(cursor, s),
        Motion::Down => movement::move_down(cursor, s),
        Motion::Right => movement::move_right(cursor, s),
        Motion::Left => movement::move_left(cursor, s),
        Motion::PageUp => movement::move_page_up(cursor, s, height),
        Motion::PageDown => movement::move_page_down(cursor, s, height),
        Motion::Home => movement::move_home(cursor, s),
        Motion::End => movement::move_end(cursor, s),
    }
}

impl DocumentState {
    /// The text with the selections.
    pub open spec fn buffer(self) -> Buffer {
        Buffer { text: self.text, selections: self.selections }
    }

    /// There is at least one selection, and both ends of every selection
    /// lie within the text.
    pub open spec fn wf(self) -> bool {
        self.buffer().wf()
    }

    /// The selection that stays when the others are given up: the first.
    pub open spec fn primary(self) -> Selection {
        self.selections[0]
    }

    /// The selection that the window follows: the last.
    pub open spec fn followed(self) -> Selection {
        self.selections[self.selections.len() - 1]
    }

    /// The line and column of the head of the followed selection.
    pub open spec fn cursor(self) -> Position {
        position_of(self.text, self.followed().head as int)
    }

    /// The state after `edit` at every selection.
    pub open spec fn edited(self, edit: Edit) -> DocumentState {
        DocumentState {
            text: edit_all(edit, self.buffer()).text,
            selections: edit_all(edit, self.buffer()).selections,
            modified: true,
            ..self
        }
    }

    /// The state after `motion` of every selection.
    pub open spec fn moved(self, motion: Motion) -> DocumentState {
        DocumentState {
            selections: Seq::new(
                self.selections.len(),
                |i: int| moved_by(motion, self.selections[i], self.text, self.view.height as nat),
            ),
            ..self
        }
    }

    /// The state with `selection` as the only selection.
    pub open spec fn with_only(self, selection: Selection) -> DocumentState {
        DocumentState { selections: seq![selection], ..self }
    }

    /// The state with the window `view`.
    pub open spec fn with_view(self, view: crate::View) -> DocumentState {
        DocumentState { view, ..self }
    }
}

/// The text of a document together with its selections.
struct Content {
    text: Rope,
    /// Never empty; every selection lies within the text.
    selections: Vec<Selection>,
}

impl Content {
    #[verifier::type_invariant]
    spec fn wf(&self) -> bool {
        buffer_of(self.text, self.selections).wf()
    }
}

/// A text that a client edits, with the client's selections and window.
pub struct Document {
    content: Content,
    file_name: Option<String>,
    modified: bool,
    /// The area that the client has for displaying this document.
    client_view: crate::View,
}

impl View for Document {
    type V = DocumentState;

    closed spec fn view(&self) -> DocumentState {
        DocumentState {
            text: rope_text(self.content.text),
            file_name: match self.file_name {
                Some(name) => Some(name@),
                None => None,
            },
            modified: self.modified,
            selections: self.content.selections@,
            view: self.client_view,
        }
    }
}

/// A copy of `selections`.
fn copy_selections(selections: &Vec<Selection>) -> (copy: Vec<Selection>)
    ensures
        copy@ == selections@,
{
    let mut copy: Vec<Selection> = Vec::new();
    let mut i: usize = 0;
    while i < selections.len()
        invariant
            i <= selections@.len(),
            copy@ == selections@.take(i as int),
        decreases selections@.len() - i,
    {
        copy.push(selections[i]);
        assert(copy@ =~= selections@.take(i + 1));
        i = i + 1;
    }
    assert(selections@.take(selections@.len() as int) =~= selections@);
    copy
}

/// A vector of the one selection `selection`.
fn only(selection: Selection) -> (selections: Vec<Selection>)
    ensures
        selections@ == seq![selection],
{
    let mut selections: Vec<Selection> = Vec::new();
    selections.push(selection);
    assert(selections@ =~= seq![selection]);
    selections
}

impl Default for Document {
    /// A document without text, file or changes, with one cursor at its
    /// start and a window of no size.
    fn default() -> (document: Document)
        ensures
            document@ == (DocumentState {
                text: Seq::empty(),
                file_name: None,
                modified: false,
                selections: seq![Selection { anchor: 0, head: 0, stored_line_position: 0 }],
                view: crate::View { horizontal_start: 0, vertical_start: 0, width: 0, height: 0 },
            }),
    {
        Document {
            content: Content { text: Rope::new(), selections: only(Selection::default()) },
            file_name: None,
            modified: false,
            client_view: crate::View::default(),
        }
    }
}

impl Document {
    /// A document of the text `text` that belongs to the file `file_name`,
    /// without changes, with one cursor at its start and a window of no
    /// size.
    pub fn from_text(text: &str, file_name: Option<String>) -> (document: Document)
        ensures
            document@ == (DocumentState {
                text: text@,
                file_name: match file_name {
                    Some(name) => Some(name@),
                    None => None,
                },
                modified: false,
                selections: seq![Selection { anchor: 0, head: 0, stored_line_position: 0 }],
                view: crate::View { horizontal_start: 0, vertical_start: 0, width: 0, height: 0 },
            }),
            document@.wf(),
    {
        Document {
            content: Content { text: Rope::from_str(text), selections: only(Selection::default()) },
            file_name,
            modified: false,
            client_view: crate::View::default(),
        }
    }

    /// What a document holds that was just opened from a file.
    pub open spec fn opened(text: Seq<char>, file_name: Seq<char>) -> DocumentState {
        DocumentState {
            text,
            file_name: Some(file_name),
            modified: false,
            selections: seq![Selection { anchor: 0, head: 0, stored_line_position: 0 }],
            view: crate::View { horizontal_start: 0, vertical_start: 0, width: 0, height: 0 },
        }
    }

    /// Every document has at least one selection, and both ends of each of
    /// its selections lie within its text. This function does nothing; a
    /// call of it tells the verifier so.
    pub fn well_formed(&self)
        ensures
            self@.wf(),
            self@.selections.len() >= 1,
            all_fit(self@.selections, self@.text.len()),
    {
        proof {
            use_type_invariant(&self.content);
        }
    }

    pub fn text(&self) -> (text: RopeSlice<'_>)
        ensures
            slice_text(text) == self@.text,
    {
        whole(&self.content.text)
    }

    pub fn file_name(&self) -> (file_name: Option<String>)
        ensures
            match file_name {
                Some(name) => self@.file_name == Some(name@),
                None => self@.file_name.is_none(),
            },
    {
        match &self.file_name {
            Some(name) => Some(name.clone()),
            None => None,
        }
    }

    pub fn is_modified(&self) -> (modified: bool)
        ensures
            modified == self@.modified,
    {
        self.modified
    }

    /// The selections, of which there is always at least one, each within
    /// the text.
    pub fn selections(&self) -> (selections: Vec<Selection>)
        ensures
            selections@ == self@.selections,
            selections@.len() >= 1,
            all_fit(selections@, self@.text.len()),
    {
        proof {
            use_type_invariant(&self.content);
        }
        copy_selections(&self.content.selections)
    }

    /// The client's window.
    pub fn client_view(&self) -> (view: crate::View)
        ensures
            view == self@.view,
    {
        self.client_view
    }

    /// The number of lines of the text.
    pub fn len(&self) -> (lines: usize)
        ensures
            lines == line_count(self@.text),
    {
        whole(&self.content.text).len_lines()
    }

    /// Adds `selection` behind the others if it lies within the text, and
    /// says whether it did.
    pub fn add_selection(&mut self, selection: Selection) -> (added: bool)
        ensures
            added == selection.fits(old(self)@.text.len()),
            final(self)@ == if added {
                DocumentState { selections: old(self)@.selections.push(selection), ..old(self)@ }
            } else {
                old(self)@
            },
            final(self)@.wf(),
    {
        proof {
            use_type_invariant(&self.content);
        }
        let len = whole(&self.content.text).len_chars();
        if selection.anchor <= len && selection.head <= len {
            let text = to_rope(whole(&self.content.text));
            let mut selections = copy_selections(&self.content.selections);
            selections.push(selection);
            self.content = Content { text, selections };
            true
        } else {
            false
        }
    }

    /// A selection of offsets as one of lines and columns.
    pub fn rope_cursor_position_to_document_cursor_position(
        rope_cursor: Selection,
        text: RopeSlice,
    ) -> (document_cursor: Selection2d)
        requires
            rope_cursor.fits(slice_text(text).len()),
        ensures
            document_cursor == positions_of(rope_cursor, slice_text(text)),
    {
        Selection2d::new(
            position_at(rope_cursor.head(), text),
            position_at(rope_cursor.anchor(), text),
        )
    }

    /// The line and column of the head of the followed selection, both
    /// counted from 0.
    pub fn document_cursor_position(&self) -> (position: Position)
        ensures
            position == self@.cursor(),
    {
        proof {
            use_type_invariant(&self.content);
        }
        let cursor = self.content.selections[self.content.selections.len() - 1];
        position_at(cursor.head(), whole(&self.content.text))
    }

    /// Gives up all selections but the first.
    pub fn clear_non_primary_selections(cursors: &mut Vec<Selection>)
        ensures
            final(cursors)@ == if old(cursors)@.len() > 0 {
                seq![old(cursors)@[0]]
            } else {
                old(cursors)@
            },
    {
        while cursors.len() > 1
            invariant
                cursors@.len() <= old(cursors)@.len(),
                old(cursors)@.len() > 0 ==> cursors@.len() > 0,
                cursors@ == old(cursors)@.take(cursors@.len() as int),
            decreases cursors@.len(),
        {
            cursors.pop();
            assert(cursors@ =~= old(cursors)@.take(cursors@.len() as int));
        }
        if cursors.len() > 0 {
            assert(cursors@ =~= seq![old(cursors)@[0]]);
        } else {
            assert(cursors@ =~= old(cursors)@);
        }
    }

    pub fn line_width_excluding_newline(line: RopeSlice) -> (width: usize)
        ensures
            width == crate::lines::width_excluding_newline(slice_text(line)),
    {
        movement::line_width_excluding_newline(line)
    }

    /// Sets rope cursor to a 0 based line number.
    pub fn set_rope_cursor_position_from_line_number(
        selection: Selection,
        line_number: usize,
        text: RopeSlice,
    ) -> (placed: Selection)
        ensures
            placed == movement::set_position_from_line_number(
                selection,
                line_number as nat,
                slice_text(text),
            ),
    {
        movement::set_rope_cursor_position_from_line_number(selection, line_number, text)
    }

    /// Applies `edit` at every selection and marks the document as changed.
    fn edit(&mut self, edit: Edit)
        ensures
            final(self)@ == old(self)@.edited(edit),
            final(self)@.wf(),
    {
        proof {
            use_type_invariant(&self.content);
        }
        let mut text = to_rope(whole(&self.content.text));
        let mut selections = copy_selections(&self.content.selections);
        edit_everywhere(edit, &mut text, &mut selections);
        self.content = Content { text, selections };
        self.modified = true;
    }

    /// Inserts `c` at the head of every selection, which moves right past
    /// it.
    pub fn insert_char(&mut self, c: char)
        ensures
            final(self)@ == old(self)@.edited(Edit::InsertChar(c)),
            final(self)@.wf(),
    {
        self.edit(Edit::InsertChar(c));
    }

    pub fn insert_char_at_cursor(selection: Selection, text: RopeSlice, char: char) -> (edited: (
        Selection,
        Rope,
    ))
        requires
            selection.head <= slice_text(text).len(),
        ensures
            slice_text(text).len() < usize::MAX ==> rope_text(edited.1) == slice_text(text).insert(
                selection.head as int,
                char,
            ) && edited.0 == movement::move_right(selection, rope_text(edited.1)),
            slice_text(text).len() >= usize::MAX ==> rope_text(edited.1) == slice_text(text)
                && edited.0 == selection,
    {
        insert_char_at_cursor(selection, text, char)
    }

    /// Breaks the line at the head of every selection and begins the new
    /// line with as many spaces as the broken line begins with.
    pub fn insert_newline(&mut self)
        ensures
            final(self)@ == old(self)@.edited(Edit::Newline),
            final(self)@.wf(),
    {
        self.edit(Edit::Newline);
    }

    /// Inserts spaces at the head of every selection, up to the next tab
    /// stop behind its remembered column.
    pub fn tab(&mut self)
        ensures
            final(self)@ == old(self)@.edited(Edit::Tab),
            final(self)@.wf(),
    {
        self.edit(Edit::Tab);
    }

    /// Removes the character at the head of every selection. At the end of
    /// the text nothing is removed; the document counts as changed all the
    /// same.
    pub fn delete(&mut self)
        ensures
            final(self)@ == old(self)@.edited(Edit::Delete),
            final(self)@.wf(),
    {
        self.edit(Edit::Delete);
    }

    pub fn delete_at_cursor(selection: Selection, text: RopeSlice) -> (edited: Rope)
        ensures
            rope_text(edited) == if selection.head < slice_text(text).len() {
                slice_text(text).remove(selection.head as int)
            } else {
                slice_text(text)
            },
    {
        delete_at_cursor(selection, text)
    }

    /// Removes the character before the head of every selection, or a
    /// tab's width of spaces that ends at the head on a tab stop.
    pub fn backspace(&mut self)
        ensures
            final(self)@ == old(self)@.edited(Edit::Backspace),
            final(self)@.wf(),
    {
        self.edit(Edit::Backspace);
    }

    /// Moves `selection` by `motion` in a window `view`.
    fn move_by(motion: Motion, selection: Selection, text: RopeSlice, view: crate::View) -> (moved:
        Selection)
        requires
            selection.fits(slice_text(text).len()),
        ensures
            moved == moved_by(motion, selection, slice_text(text), view.height as nat),
            moved.fits(slice_text(text).len()),
    {
        let mut selection = selection;
        if selection.head() != selection.anchor() {
            selection = movement::collapse_selection_cursor(selection);
        }
        match motion {
            Motion::Up => movement::move_cursor_up(selection, text),
            Motion::Down => movement::move_cursor_down(selection, text),
            Motion::Right => movement::move_cursor_right(selection, text),
            Motion::Left => movement::move_cursor_left(selection, text),
            Motion::PageUp => movement::move_cursor_page_up(selection, text, view),
            Motion::PageDown => movement::move_cursor_page_down(selection, text, view),
            Motion::Home => movement::move_cursor_home(selection, text),
            Motion::End => movement::move_cursor_end(selection, text),
        }
    }

    /// Moves every selection by `motion`.
    fn move_all(&mut self, motion: Motion)
        ensures
            final(self)@ == old(self)@.moved(motion),
            final(self)@.wf(),
    {
        proof {
            use_type_invariant(&self.content);
        }
        let text = to_rope(whole(&self.content.text));
        let n = self.content.selections.len();
        let mut selections: Vec<Selection> = Vec::new();
        let mut i: usize = 0;
        while i < n
            invariant
                i <= n,
                n == self.content.selections@.len(),
                all_fit(self.content.selections@, rope_text(text).len()),
                selections@.len() == i,
                all_fit(selections@, rope_text(text).len()),
                forall|k: int|
                    0 <= k < i ==> #[trigger] selections@[k] == moved_by(
                        motion,
                        self.content.selections@[k],
                        rope_text(text),
                        self.client_view.height as nat,
                    ),
            decreases n - i,
        {
            let selection = self.content.selections[i];
            let moved = Self::move_by(motion, selection, whole(&text), self.client_view);
            selections.push(moved);
            i = i + 1;
        }
        assert(selections@ =~= old(self)@.moved(motion).selections);
        self.content = Content { text, selections };
    }

    pub fn move_cursors_up(&mut self)
        ensures
            final(self)@ == old(self)@.moved(Motion::Up),
            final(self)@.wf(),
    {
        self.move_all(Motion::Up);
    }

    pub fn move_cursor_up(selection: Selection, text: RopeSlice) -> (moved: Selection)
        requires
            selection.head <= slice_text(text).len(),
        ensures
            moved == movement::move_up(selection, slice_text(text)),
    {
        movement::move_cursor_up(selection, text)
    }

    pub fn move_cursors_down(&mut self)
        ensures
            final(self)@ == old(self)@.moved(Motion::Down),
            final(self)@.wf(),
    {
        self.move_all(Motion::Down);
    }

    pub fn move_cursor_down(selection: Selection, text: RopeSlice) -> (moved: Selection)
        requires
            selection.head <= slice_text(text).len(),
        ensures
            moved == movement::move_down(selection, slice_text(text)),
    {
        movement::move_cursor_down(selection, text)
    }

    pub fn move_cursors_right(&mut self)
        ensures
            final(self)@ == old(self)@.moved(Motion::Right),
            final(self)@.wf(),
    {
        self.move_all(Motion::Right);
    }

    pub fn move_cursor_right(selection: Selection, text: RopeSlice) -> (moved: Selection)
        requires
            selection.head <= slice_text(text).len(),
        ensures
            moved == movement::move_right(selection, slice_text(text)),
    {
        movement::move_cursor_right(selection, text)
    }

    pub fn move_cursors_left(&mut self)
        ensures
            final(self)@ == old(self)@.moved(Motion::Left),
            final(self)@.wf(),
    {
        self.move_all(Motion::Left);
    }

    pub fn move_cursor_left(selection: Selection, text: RopeSlice) -> (moved: Selection)
        requires
            selection.head <= slice_text(text).len(),
        ensures
            moved == movement::move_left(selection, slice_text(text)),
    {
        movement::move_cursor_left(selection, text)
    }

    pub fn move_cursors_page_up(&mut self)
        ensures
            final(self)@ == old(self)@.moved(Motion::PageUp),
            final(self)@.wf(),
    {
        self.move_all(Motion::PageUp);
    }

    pub fn move_cursor_page_up(selection: Selection, text: RopeSlice, client_view: crate::View) -> (moved:
        Selection)
        requires
            selection.head <= slice_text(text).len(),
        ensures
            moved == movement::move_page_up(selection, slice_text(text), client_view.height as nat),
    {
        movement::move_cursor_page_up(selection, text, client_view)
    }

    pub fn move_cursors_page_down(&mut self)
        ensures
            final(self)@ == old(self)@.moved(Motion::PageDown),
            final(self)@.wf(),
    {
        self.move_all(Motion::PageDown);
    }

    pub fn move_cursor_page_down(selection: Selection, text: RopeSlice, client_view: crate::View) -> (moved:
        Selection)
        requires
            selection.head <= slice_text(text).len(),
        ensures
            moved == movement::move_page_down(
                selection,
                slice_text(text),
                client_view.height as nat,
            ),
    {
        movement::move_cursor_page_down(selection, text, client_view)
    }

    pub fn move_cursors_home(&mut self)
        ensures
            final(self)@ == old(self)@.moved(Motion::Home),
            final(self)@.wf(),
    {
        self.move_all(Motion::Home);
    }

    pub fn move_cursor_home(selection: Selection, text: RopeSlice) -> (moved: Selection)
        requires
            selection.head <= slice_text(text).len(),
        ensures
            moved == movement::move_home(selection, slice_text(text)),
    {
        movement::move_cursor_home(selection, text)
    }

    pub fn move_cursors_end(&mut self)
        ensures
            final(self)@ == old(self)@.moved(Motion::End),
            final(self)@.wf(),
    {
        self.move_all(Motion::End);
    }

    pub fn move_cursor_end(selection: Selection, text: RopeSlice) -> (moved: Selection)
        requires
            selection.head <= slice_text(text).len(),
        ensures
            moved == movement::move_end(selection, slice_text(text)),
    {
        movement::move_cursor_end(selection, text)
    }

    /// Gives up all selections but the first, which becomes a cursor at
    /// the start of the text.
    pub fn move_cursors_document_start(&mut self)
        ensures
            final(self)@ == old(self)@.with_only(movement::move_document_start()),
            final(self)@.wf(),
    {
        proof {
            use_type_invariant(&self.content);
        }
        let text = to_rope(whole(&self.content.text));
        let selection = movement::move_cursor_document_start(self.content.selections[0]);
        self.content = Content { text, selections: only(selection) };
    }

    pub fn move_cursor_document_start(selection: Selection) -> (moved: Selection)
        ensures
            moved == movement::move_document_start(),
    {
        movement::move_cursor_document_start(selection)
    }

    /// Gives up all selections but the first, which becomes a cursor at
    /// the end of the text.
    pub fn move_cursors_document_end(&mut self)
        ensures
            final(self)@ == old(self)@.with_only(movement::move_document_end(old(self)@.text)),
            final(self)@.wf(),
    {
        proof {
            use_type_invariant(&self.content);
        }
        let text = to_rope(whole(&self.content.text));
        let selection = movement::move_cursor_document_end(
            self.content.selections[0],
            whole(&text),
        );
        self.content = Content { text, selections: only(selection) };
    }

    pub fn move_cursor_document_end(selection: Selection, text: RopeSlice) -> (moved: Selection)
        ensures
            moved == movement::move_document_end(slice_text(text)),
    {
        movement::move_cursor_document_end(selection, text)
    }

    pub fn extend_selection_right(selection: Selection, text: RopeSlice) -> (extended: Selection)
        requires
            selection.head <= slice_text(text).len(),
        ensures
            extended == movement::extend_right(selection, slice_text(text)),
    {
        movement::extend_selection_right(selection, text)
    }

    pub fn extend_selection_left(selection: Selection, text: RopeSlice) -> (extended: Selection)
        requires
            selection.head <= slice_text(text).len(),
        ensures
            extended == movement::extend_left(selection, slice_text(text)),
    {
        movement::extend_selection_left(selection, text)
    }

    pub fn extend_selection_up(selection: Selection, text: RopeSlice) -> (extended: Selection)
        requires
            selection.head <= slice_text(text).len(),
        ensures
            extended == movement::extend_up(selection, slice_text(text)),
    {
        movement::extend_selection_up(selection, text)
    }

    pub fn extend_selection_down(selection: Selection, text: RopeSlice) -> (extended: Selection)
        requires
            selection.head <= slice_text(text).len(),
        ensures
            extended == movement::extend_down(selection, slice_text(text)),
    {
        movement::extend_selection_down(selection, text)
    }

    pub fn extend_selection_home(selection: Selection, text: RopeSlice) -> (extended: Selection)
        requires
            selection.head <= slice_text(text).len(),
        ensures
            extended == movement::extend_home(selection, slice_text(text)),
    {
        movement::extend_selection_home(selection, text)
    }

    pub fn extend_selection_end(selection: Selection, text: RopeSlice) -> (extended: Selection)
        requires
            selection.head <= slice_text(text).len(),
        ensures
            extended == movement::extend_end(selection, slice_text(text)),
    {
        movement::extend_selection_end(selection, text)
    }

    /// Makes every selection a cursor at its head.
    pub fn collapse_selection_cursors(&mut self)
        ensures
            final(self)@ == (DocumentState {
                selections: Seq::new(
                    old(self)@.selections.len(),
                    |i: int| movement::collapse(old(self)@.selections[i]),
                ),
                ..old(self)@
            }),
            final(self)@.wf(),
    {
        proof {
            use_type_invariant(&self.content);
        }
        let text = to_rope(whole(&self.content.text));
        let n = self.content.selections.len();
        let mut selections: Vec<Selection> = Vec::new();
        let mut i: usize = 0;
        while i < n
            invariant
                i <= n,
                n == self.content.selections@.len(),
                all_fit(self.content.selections@, rope_text(text).len()),
                selections@.len() == i,
                all_fit(selections@, rope_text(text).len()),
                forall|k: int|
                    0 <= k < i ==> #[trigger] selections@[k] == movement::collapse(
                        self.content.selections@[k],
                    ),
            decreases n - i,
        {
            selections.push(movement::collapse_selection_cursor(self.content.selections[i]));
            i = i + 1;
        }
        assert(selections@ =~= Seq::new(
            old(self)@.selections.len(),
            |i: int| movement::collapse(old(self)@.selections[i]),
        ));
        self.content = Content { text, selections };
    }

    pub fn collapse_selection_cursor(selection: Selection) -> (collapsed: Selection)
        ensures
            collapsed == movement::collapse(selection),
    {
        movement::collapse_selection_cursor(selection)
    }

    /// What is to be written where to save the document: the name of its
    /// file and the text. A document without a file has nothing to save.
    pub fn save_request(&self) -> (request: Option<(String, String)>)
        ensures
            match request {
                Some((file_name, text)) => self@.file_name == Some(file_name@) && text@
                    == self@.text,
                None => self@.file_name.is_none(),
            },
    {
        match &self.file_name {
            Some(file_name) => Some((file_name.clone(), to_string(whole(&self.content.text)))),
            None => None,
        }
    }

    /// Records that the text stands in its file as it is.
    pub fn mark_saved(&mut self)
        ensures
            final(self)@ == (DocumentState { modified: false, ..old(self)@ }),
            final(self)@.wf(),
    {
        proof {
            use_type_invariant(&self.content);
        }
        self.modified = false;
    }

    /// Gives up all selections but the first and puts that one on line
    /// `line_number`, counted from 0, if the text has such a line.
    pub fn go_to(&mut self, line_number: usize)
        ensures
            final(self)@ == old(self)@.with_only(
                movement::set_position_from_line_number(
                    old(self)@.primary(),
                    line_number as nat,
                    old(self)@.text,
                ),
            ),
            final(self)@.wf(),
    {
        proof {
            use_type_invariant(&self.content);
        }
        let text = to_rope(whole(&self.content.text));
        let selection = movement::set_rope_cursor_position_from_line_number(
            self.content.selections[0],
            line_number,
            whole(&text),
        );
        self.content = Content { text, selections: only(selection) };
    }

    /// Scrolls the window down by `amount` lines, unless it would then
    /// reach past the last line.
    pub fn scroll_client_view_down(&mut self, amount: usize)
        ensures
            final(self)@ == old(self)@.with_view(
                scrolled_down(old(self)@.view, amount as nat, line_count(old(self)@.text)),
            ),
            final(self)@.wf(),
    {
        proof {
            use_type_invariant(&self.content);
        }
        let lines = whole(&self.content.text).len_lines();
        self.client_view = scroll_down(self.client_view, amount, lines);
    }

    /// Scrolls the window left by `amount` columns, at most to the first.
    pub fn scroll_client_view_left(&mut self, amount: usize)
        ensures
            final(self)@ == old(self)@.with_view(scrolled_left(old(self)@.view, amount as nat)),
            final(self)@.wf(),
    {
        proof {
            use_type_invariant(&self.content);
        }
        self.client_view.horizontal_start = self.client_view.horizontal_start.saturating_sub(
            amount,
        );
    }

    /// Scrolls the window right by `amount` columns, unless it would then
    /// reach past the end of the longest line.
    pub fn scroll_client_view_right(&mut self, amount: usize)
        ensures
            final(self)@ == old(self)@.with_view(
                scrolled_right(old(self)@.view, amount as nat, max_line_width(old(self)@.text)),
            ),
            final(self)@.wf(),
    {
        proof {
            use_type_invariant(&self.content);
        }
        let longest = longest_line_width(whole(&self.content.text));
        self.client_view = scroll_right(self.client_view, amount, longest);
    }

    /// Scrolls the window up by `amount` lines, at most to the first.
    pub fn scroll_client_view_up(&mut self, amount: usize)
        ensures
            final(self)@ == old(self)@.with_view(scrolled_up(old(self)@.view, amount as nat)),
            final(self)@.wf(),
    {
        proof {
            use_type_invariant(&self.content);
        }
        self.client_view.vertical_start = self.client_view.vertical_start.saturating_sub(amount);
    }

    /// Moves the window just far enough to hold the head of the followed
    /// selection, and says whether it moved.
    pub fn scroll_view_following_cursor(&mut self) -> (moved: bool)
        ensures
            final(self)@ == old(self)@.with_view(following(old(self)@.view, old(self)@.cursor())),
            moved == (final(self)@.view != old(self)@.view),
            final(self)@.wf(),
    {
        proof {
            use_type_invariant(&self.content);
        }
        let followed = self.content.selections[self.content.selections.len() - 1];
        let cursor = position_at(followed.head(), whole(&self.content.text));
        let view = follow_cursor(self.client_view, cursor);
        let moved = view != self.client_view;
        self.client_view = view;
        moved
    }

    pub fn set_client_view_size(&mut self, width: usize, height: usize)
        ensures
            final(self)@ == old(self)@.with_view(
                crate::View { width, height, ..old(self)@.view },
            ),
            final(self)@.wf(),
    {
        proof {
            use_type_invariant(&self.content);
        }
        self.client_view.width = width;
        self.client_view.height = height;
    }

    /// The text of the lines in the window, each cut at the window's left
    /// and right edge and followed by a line break.
    pub fn get_client_view_text(&self) -> (shown: String)
        ensures
            shown@ == clip_text(self@.text, self@.view),
    {
        clip_view_text(whole(&self.content.text), self.client_view)
    }

    /// The numbers, counted from 1, of the lines in the window, each
    /// followed by a line break.
    pub fn get_client_view_line_numbers(&self) -> (shown: String)
        ensures
            shown@ == clip_line_numbers(self@.text, self@.view),
    {
        clip_view_line_numbers(whole(&self.content.text), self.client_view)
    }

    /// The places in the window of the heads of the selections that lie
    /// inside it, in the order of the selections.
    pub fn get_client_cursor_positions(&self) -> (shown: Vec<Position>)
        ensures
            shown@ == clip_cursors(
                self@.text,
                self@.selections,
                self@.view,
                self@.selections.len(),
            ),
    {
        proof {
            use_type_invariant(&self.content);
        }
        clip_view_cursors(whole(&self.content.text), &self.content.selections, self.client_view)
    }

    /// Where the window shows a cursor of the document, if it lies inside.
    pub fn client_view_cursor_position(doc_cursor: Selection2d, client_view: crate::View) -> (shown:
        Option<Position>)
        ensures
            shown == if in_view(doc_cursor.head, client_view) {
                Some(relative_to(doc_cursor.head, client_view))
            } else {
                None
            },
    {
        client_view_cursor_position(doc_cursor, client_view)
    }
}

} // verus!
