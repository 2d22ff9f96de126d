//! Server-side core of a networked text editor: a document with its text,
//! its cursors and selections, and the window that a client sees of it.

use vstd::prelude::*;
use std::path::PathBuf;

pub mod document;
pub mod edit;
pub mod editor;
pub mod laws;
pub mod lines;
pub mod movement;
pub mod selection;
pub mod server;
pub mod text;
pub mod viewport;

verus! {

/// The greatest number of bytes of one message between client and server.
pub const MESSAGE_SIZE: usize = 8192;

/// `std::path::PathBuf`, the path of a file.
#[verifier::external_type_specification]
#[verifier::external_body]
pub struct ExPathBuf(PathBuf);

/// A change of a text.
pub enum Operation {
    Move(usize),
    Delete(usize),
    Insert(String),
}

/// What a client asks of the server.
#[derive(PartialEq, Debug)]
pub enum ServerAction {
    Backspace,
    CloseConnection,
    Delete,
    GoTo { line_number: usize },
    OpenFile { file_path: PathBuf },
    UpdateClientViewSize { width: u16, height: u16 },
    ScrollClientViewDown { amount: usize },
    ScrollClientViewLeft { amount: usize },
    ScrollClientViewRight { amount: usize },
    ScrollClientViewUp { amount: usize },
    MoveCursorDocumentEnd,
    MoveCursorDocumentStart,
    MoveCursorDown,
    MoveCursorUp,
    MoveCursorRight,
    MoveCursorLeft,
    MoveCursorLineEnd,
    MoveCursorLineStart,
    MoveCursorPageDown,
    MoveCursorPageUp,
    InserChar(char),
    InsertNewline,
    InsertTab,
    Save,
}

/// What the server answers.
#[derive(Debug)]
pub enum ServerResponse {
    FileOpened { file_name: Option<String>, document_length: usize },
    ConnectionSucceeded,
    Acknowledge,
    DisplayView {
        content: String,
        line_numbers: String,
        client_cursor_positions: Vec<Position>,
        document_cursor_position: Position,
        modified: bool,
    },
    /// With the reason for the failure.
    Failed(String),
    CursorPosition { client_cursor_positions: Vec<Position>, document_cursor_position: Position },
}

/// The window, in lines and columns of the document, that a client displays.
#[derive(Debug, Clone, Copy, PartialEq, Eq, Structural)]
pub struct View {
    /// The first column shown.
    pub horizontal_start: usize,
    /// The first line shown.
    pub vertical_start: usize,
    /// The number of columns shown.
    pub width: usize,
    /// The number of lines shown.
    pub height: usize,
}

impl Default for View {
    fn default() -> (view: View)
        ensures
            view == (View { horizontal_start: 0, vertical_start: 0, width: 0, height: 0 }),
    {
        View { horizontal_start: 0, vertical_start: 0, width: 0, height: 0 }
    }
}

/// A place in the text by column `x` and line `y`, both counted from 0.
#[derive(Debug, Clone, Copy, PartialEq, Eq, Structural)]
pub struct Position {
    pub x: usize,
    pub y: usize,
}

impl Default for Position {
    fn default() -> (position: Position)
        ensures
            position == (Position { x: 0, y: 0 }),
    {
        Position { x: 0, y: 0 }
    }
}

impl Position {
    pub fn new(x: usize, y: usize) -> (position: Position)
        ensures
            position == (Position { x, y }),
    {
        Position { x, y }
    }

    pub fn x(&self) -> (x: usize)
        ensures
            x == self.x,
    {
        self.x
    }

    pub fn set_x(&mut self, val: usize)
        ensures
            *final(self) == (Position { x: val, ..*old(self) }),
    {
        self.x = val;
    }

    pub fn y(&self) -> (y: usize)
        ensures
            y == self.y,
    {
        self.y
    }

    pub fn set_y(&mut self, val: usize)
        ensures
            *final(self) == (Position { y: val, ..*old(self) }),
    {
        self.y = val;
    }
}

} // verus!
