//! Selections: a cursor or a selected range, as offsets into the text and as
//! line and column positions.

use vstd::prelude::*;
use crate::Position;

verus! {

/// A range of the text between a stationary `anchor` and a mobile `head`,
/// both counted in characters from the start of the text. With
/// `anchor == head` it is a plain cursor.
#[derive(Clone, Copy, Debug, PartialEq, Eq, Structural)]
pub struct Selection {
    /// The end that stays where the selection began.
    pub anchor: usize,
    /// The end that moves when the selection is extended.
    pub head: usize,
    /// The column that vertical movement aims for, kept while the cursor
    /// passes through shorter lines.
    pub stored_line_position: usize,
}

impl Default for Selection {
    fn default() -> (selection: Selection)
        ensures
            selection == (Selection { anchor: 0, head: 0, stored_line_position: 0 }),
    {
        Selection { anchor: 0, head: 0, stored_line_position: 0 }
    }
}

impl Selection {
    /// Both ends lie within a text of `len` characters, its end included.
    pub open spec fn fits(self, len: nat) -> bool {
        self.anchor <= len && self.head <= len
    }

    pub fn new(anchor: usize, head: usize, stored_line_position: usize) -> (selection: Selection)
        ensures
            selection == (Selection { anchor, head, stored_line_position }),
    {
        Selection { anchor, head, stored_line_position }
    }

    pub fn anchor(&self) -> (anchor: usize)
        ensures
            anchor == self.anchor,
    {
        self.anchor
    }

    pub fn set_anchor(&mut self, to: usize)
        ensures
            *final(self) == (Selection { anchor: to, ..*old(self) }),
    {
        self.anchor = to;
    }

    pub fn head(&self) -> (head: usize)
        ensures
            head == self.head,
    {
        self.head
    }

    pub fn set_head(&mut self, to: usize)
        ensures
            *final(self) == (Selection { head: to, ..*old(self) }),
    {
        self.head = to;
    }

    pub fn stored_line_position(&self) -> (column: usize)
        ensures
            column == self.stored_line_position,
    {
        self.stored_line_position
    }

    pub fn set_stored_line_position(&mut self, to: usize)
        ensures
            *final(self) == (Selection { stored_line_position: to, ..*old(self) }),
    {
        self.stored_line_position = to;
    }
}

/// A selection as two positions of line and column.
#[derive(Debug, PartialEq, Eq, Structural)]
pub struct Selection2d {
    pub head: Position,
    pub anchor: Position,
}

impl Default for Selection2d {
    fn default() -> (selection: Selection2d)
        ensures
            selection == (Selection2d {
                head: Position { x: 0, y: 0 },
                anchor: Position { x: 0, y: 0 },
            }),
    {
        Selection2d { head: Position { x: 0, y: 0 }, anchor: Position { x: 0, y: 0 } }
    }
}

impl Selection2d {
    pub fn new(head: Position, anchor: Position) -> (selection: Selection2d)
        ensures
            selection == (Selection2d { head, anchor }),
    {
        Selection2d { head, anchor }
    }

    pub fn head(&self) -> (head: &Position)
        ensures
            *head == self.head,
    {
        &self.head
    }

    pub fn anchor(&self) -> (anchor: &Position)
        ensures
            *anchor == self.anchor,
    {
        &self.anchor
    }
}

} // verus!
