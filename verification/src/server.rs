//! The server's side of the protocol: what to do with a client's action on
//! the client's document, and what to answer.
//!
//! Reading and writing files is left to the caller. For an action that
//! needs it, `server_action_to_response` says what to read or write, and
//! `file_opened` or `file_saved` takes the outcome and makes the answer.
//! Without a client's address, `action_on_document` and `document_saved`
//! do the same on one document.

use vstd::prelude::*;
use std::path::PathBuf;
use crate::document::{Document, DocumentState, Motion};
use crate::edit::Edit;
use crate::editor::Editor;
use crate::lines::{line_count, max_line_width};
use crate::movement::{move_document_end, move_document_start, set_position_from_line_number};
use crate::viewport::{
    clip_cursors, clip_line_numbers, clip_text, following, scrolled_down, scrolled_left,
    scrolled_right, scrolled_up,
};
use crate::{Position, ServerAction, ServerResponse};

verus! {

/// What a response holds.
pub enum ResponseView {
    FileOpened { file_name: Option<Seq<char>>, document_length: nat },
    ConnectionSucceeded,
    Acknowledge,
    DisplayView {
        content: Seq<char>,
        line_numbers: Seq<char>,
        client_cursor_positions: Seq<Position>,
        document_cursor_position: Position,
        modified: bool,
    },
    Failed(Seq<char>),
    CursorPosition { client_cursor_positions: Seq<Position>, document_cursor_position: Position },
}

impl View for ServerResponse {
    type V = ResponseView;

    open spec fn view(&self) -> ResponseView {
        match *self {
            ServerResponse::FileOpened { file_name, document_length } => ResponseView::FileOpened {
                file_name: match file_name {
                    Some(name) => Some(name@),
                    None => None,
                },
                document_length: document_length as nat,
            },
            ServerResponse::ConnectionSucceeded => ResponseView::ConnectionSucceeded,
            ServerResponse::Acknowledge => ResponseView::Acknowledge,
            ServerResponse::DisplayView {
                content,
                line_numbers,
                client_cursor_positions,
                document_cursor_position,
                modified,
            } => ResponseView::DisplayView {
                content: content@,
                line_numbers: line_numbers@,
                client_cursor_positions: client_cursor_positions@,
                document_cursor_position,
                modified,
            },
            ServerResponse::Failed(reason) => ResponseView::Failed(reason@),
            ServerResponse::CursorPosition {
                client_cursor_positions,
                document_cursor_position,
            } => ResponseView::CursorPosition {
                client_cursor_positions: client_cursor_positions@,
                document_cursor_position,
            },
        }
    }
}

/// What the server does next for an action.
pub enum Step {
    /// Send this answer.
    Respond(ServerResponse),
    /// Read this file and hand what was read to `file_opened`.
    Open(PathBuf),
    /// Write `text` to the file `file_name` and hand the outcome to
    /// `file_saved`.
    Save { file_name: String, text: String },
    /// Give up the client's document and send nothing.
    Close,
}

/// What a step holds.
pub enum StepView {
    Respond(ResponseView),
    Open(PathBuf),
    Save { file_name: Seq<char>, text: Seq<char> },
    Close,
}

impl View for Step {
    type V = StepView;

    open spec fn view(&self) -> StepView {
        match *self {
            Step::Respond(response) => StepView::Respond(response@),
            Step::Open(file_path) => StepView::Open(file_path),
            Step::Save { file_name, text } => StepView::Save { file_name: file_name@, text: text@ },
            Step::Close => StepView::Close,
        }
    }
}

/// The line and column, counted from 0, of the head of the followed
/// selection.
pub open spec fn document_cursor(state: DocumentState) -> Position {
    state.cursor()
}

/// The answer that shows the window of a document.
pub open spec fn display_view(state: DocumentState) -> ResponseView {
    ResponseView::DisplayView {
        content: clip_text(state.text, state.view),
        line_numbers: clip_line_numbers(state.text, state.view),
        client_cursor_positions: clip_cursors(
            state.text,
            state.selections,
            state.view,
            state.selections.len(),
        ),
        document_cursor_position: document_cursor(state),
        modified: state.modified,
    }
}

/// The answer that shows only where the cursors of a document are.
pub open spec fn cursor_position(state: DocumentState) -> ResponseView {
    ResponseView::CursorPosition {
        client_cursor_positions: clip_cursors(
            state.text,
            state.selections,
            state.view,
            state.selections.len(),
        ),
        document_cursor_position: document_cursor(state),
    }
}

/// The state with the window moved to hold the followed cursor.
pub open spec fn follows(state: DocumentState) -> DocumentState {
    state.with_view(following(state.view, state.cursor()))
}

/// The movement that an action asks for, if it asks for one that moves
/// every selection.
pub open spec fn motion_of(action: ServerAction) -> Option<Motion> {
    match action {
        ServerAction::MoveCursorDown => Some(Motion::Down),
        ServerAction::MoveCursorUp => Some(Motion::Up),
        ServerAction::MoveCursorRight => Some(Motion::Right),
        ServerAction::MoveCursorLeft => Some(Motion::Left),
        ServerAction::MoveCursorLineEnd => Some(Motion::End),
        ServerAction::MoveCursorLineStart => Some(Motion::Home),
        ServerAction::MoveCursorPageDown => Some(Motion::PageDown),
        ServerAction::MoveCursorPageUp => Some(Motion::PageUp),
        _ => None,
    }
}

/// The document after `action`, before the window follows the cursor.
pub open spec fn acted(action: ServerAction, state: DocumentState) -> DocumentState {
    match action {
        ServerAction::Backspace => state.edited(Edit::Backspace),
        ServerAction::Delete => state.edited(Edit::Delete),
        ServerAction::InserChar(c) => state.edited(Edit::InsertChar(c)),
        ServerAction::InsertNewline => state.edited(Edit::Newline),
        ServerAction::InsertTab => state.edited(Edit::Tab),
        ServerAction::GoTo { line_number } => if line_number < line_count(state.text) {
            state.with_only(
                set_position_from_line_number(state.primary(), line_number as nat, state.text),
            )
        } else {
            state
        },
        ServerAction::UpdateClientViewSize { width, height } => state.with_view(
            crate::View { width: width as usize, height: height as usize, ..state.view },
        ),
        ServerAction::ScrollClientViewDown { amount } => state.with_view(
            scrolled_down(state.view, amount as nat, line_count(state.text)),
        ),
        ServerAction::ScrollClientViewLeft { amount } => state.with_view(
            scrolled_left(state.view, amount as nat),
        ),
        ServerAction::ScrollClientViewRight { amount } => state.with_view(
            scrolled_right(state.view, amount as nat, max_line_width(state.text)),
        ),
        ServerAction::ScrollClientViewUp { amount } => state.with_view(
            scrolled_up(state.view, amount as nat),
        ),
        ServerAction::MoveCursorDocumentEnd => state.with_only(move_document_end(state.text)),
        ServerAction::MoveCursorDocumentStart => state.with_only(move_document_start()),
        ServerAction::CloseConnection | ServerAction::OpenFile { .. } | ServerAction::Save => state,
        _ => match motion_of(action) {
            Some(motion) => state.moved(motion),
            None => state,
        },
    }
}

/// Whether the window follows the cursor after `action`.
pub open spec fn window_follows(action: ServerAction, state: DocumentState) -> bool {
    match action {
        ServerAction::Backspace
        | ServerAction::Delete
        | ServerAction::InsertNewline
        | ServerAction::UpdateClientViewSize { .. }
        | ServerAction::MoveCursorDocumentEnd
        | ServerAction::MoveCursorDocumentStart => true,
        ServerAction::GoTo { line_number } => line_number < line_count(state.text),
        _ => motion_of(action).is_some(),
    }
}

/// Whether `action` only moves cursors, so that the answer can leave the
/// window's content out where the window stayed.
pub open spec fn only_moves(action: ServerAction) -> bool {
    match action {
        ServerAction::MoveCursorDocumentEnd | ServerAction::MoveCursorDocumentStart => true,
        _ => motion_of(action).is_some(),
    }
}

/// The document after `action` on it.
pub open spec fn after_action(action: ServerAction, state: DocumentState) -> DocumentState {
    if window_follows(action, state) {
        follows(acted(action, state))
    } else {
        acted(action, state)
    }
}

/// What the server does for `action` on a client's open document.
pub open spec fn step_with_document(action: ServerAction, state: DocumentState) -> StepView {
    let after = after_action(action, state);
    match action {
        ServerAction::CloseConnection => StepView::Close,
        ServerAction::OpenFile { file_path } => StepView::Open(file_path),
        ServerAction::Save => match state.file_name {
            Some(file_name) => StepView::Save { file_name, text: state.text },
            None => StepView::Respond(display_view(state)),
        },
        ServerAction::GoTo { line_number } => if line_number < line_count(state.text) {
            StepView::Respond(display_view(after))
        } else {
            StepView::Respond(ResponseView::Failed("could not go to line number"@))
        },
        _ => if only_moves(action) && after.view == acted(action, state).view {
            StepView::Respond(cursor_position(after))
        } else {
            StepView::Respond(display_view(after))
        },
    }
}

/// What the server does for `action` of a client without a document.
pub open spec fn step_without_document(action: ServerAction) -> StepView {
    match action {
        ServerAction::CloseConnection => StepView::Close,
        ServerAction::OpenFile { file_path } => StepView::Open(file_path),
        _ => StepView::Respond(ResponseView::Failed("no document open"@)),
    }
}

/// The open documents after `action` of the client at `address`.
pub open spec fn documents_after(
    action: ServerAction,
    address: Seq<char>,
    documents: Map<Seq<char>, DocumentState>,
) -> Map<Seq<char>, DocumentState> {
    match action {
        ServerAction::CloseConnection => documents.remove(address),
        _ => if documents.contains_key(address) {
            documents.insert(address, after_action(action, documents[address]))
        } else {
            documents
        },
    }
}

/// What the server does for `action` of the client at `address`.
pub open spec fn step_for(
    action: ServerAction,
    address: Seq<char>,
    documents: Map<Seq<char>, DocumentState>,
) -> StepView {
    if documents.contains_key(address) {
        step_with_document(action, documents[address])
    } else {
        step_without_document(action)
    }
}

/// The answer that shows the window of `document`.
pub fn display(document: &Document) -> (response: ServerResponse)
    ensures
        response@ == display_view(document@),
{
    ServerResponse::DisplayView {
        content: document.get_client_view_text(),
        line_numbers: document.get_client_view_line_numbers(),
        client_cursor_positions: document.get_client_cursor_positions(),
        document_cursor_position: document.document_cursor_position(),
        modified: document.is_modified(),
    }
}

/// The answer that shows only where the cursors of `document` are.
pub fn cursors(document: &Document) -> (response: ServerResponse)
    ensures
        response@ == cursor_position(document@),
{
    ServerResponse::CursorPosition {
        client_cursor_positions: document.get_client_cursor_positions(),
        document_cursor_position: document.document_cursor_position(),
    }
}

/// The answer after cursors moved: the window's content if the window had
/// to follow, else only the cursors.
fn after_movement(document: &mut Document) -> (response: ServerResponse)
    ensures
        final(document)@ == follows(old(document)@),
        response@ == if final(document)@.view == old(document)@.view {
            cursor_position(final(document)@)
        } else {
            display_view(final(document)@)
        },
        final(document)@.wf(),
{
    let should_update_client_view = document.scroll_view_following_cursor();
    if should_update_client_view {
        display(document)
    } else {
        cursors(document)
    }
}

/// The answer after an edit: the window follows and its content is shown.
fn after_edit(document: &mut Document) -> (response: ServerResponse)
    ensures
        final(document)@ == follows(old(document)@),
        response@ == display_view(final(document)@),
        final(document)@.wf(),
{
    let _ = document.scroll_view_following_cursor();
    display(document)
}

/// The answer that says why an action failed.
fn failed(reason: &str) -> (response: ServerResponse)
    ensures
        response@ == ResponseView::Failed(reason@),
{
    ServerResponse::Failed(String::from_str(reason))
}

/// Does what `action` asks on a client's document, if the client has one,
/// and says what the server does next: mostly, which answer it sends.
pub fn action_on_document(action: ServerAction, document: Option<&mut Document>) -> (step: Step)
    ensures
        match document {
            Some(document) => final(document)@ == after_action(action, document@) && step@
                == step_with_document(action, document@) && final(document)@.wf(),
            None => step@ == step_without_document(action),
        },
{
    match document {
        None => match action {
            ServerAction::CloseConnection => Step::Close,
            ServerAction::OpenFile { file_path } => Step::Open(file_path),
            _ => Step::Respond(failed("no document open")),
        },
        Some(doc) => with_document(action, doc),
    }
}

/// Does what `action` asks on `doc`.
fn with_document(action: ServerAction, doc: &mut Document) -> (step: Step)
    ensures
        final(doc)@ == after_action(action, old(doc)@),
        step@ == step_with_document(action, old(doc)@),
        final(doc)@.wf(),
{
    doc.well_formed();
    match action {
        ServerAction::Backspace => {
            doc.backspace();
            Step::Respond(after_edit(doc))
        },
        ServerAction::CloseConnection => Step::Close,
        ServerAction::Delete => {
            doc.delete();
            Step::Respond(after_edit(doc))
        },
        ServerAction::GoTo { line_number } => {
            if line_number < doc.len() {
                doc.go_to(line_number);
                Step::Respond(after_edit(doc))
            } else {
                Step::Respond(failed("could not go to line number"))
            }
        },
        ServerAction::OpenFile { file_path } => Step::Open(file_path),
        ServerAction::UpdateClientViewSize { width, height } => {
            doc.set_client_view_size(width as usize, height as usize);
            Step::Respond(after_edit(doc))
        },
        ServerAction::ScrollClientViewDown { amount } => {
            doc.scroll_client_view_down(amount);
            Step::Respond(display(doc))
        },
        ServerAction::ScrollClientViewLeft { amount } => {
            doc.scroll_client_view_left(amount);
            Step::Respond(display(doc))
        },
        ServerAction::ScrollClientViewRight { amount } => {
            doc.scroll_client_view_right(amount);
            Step::Respond(display(doc))
        },
        ServerAction::ScrollClientViewUp { amount } => {
            doc.scroll_client_view_up(amount);
            Step::Respond(display(doc))
        },
        ServerAction::MoveCursorDocumentEnd => {
            doc.move_cursors_document_end();
            Step::Respond(after_movement(doc))
        },
        ServerAction::MoveCursorDocumentStart => {
            doc.move_cursors_document_start();
            Step::Respond(after_movement(doc))
        },
        ServerAction::MoveCursorDown => {
            doc.move_cursors_down();
            Step::Respond(after_movement(doc))
        },
        ServerAction::MoveCursorUp => {
            doc.move_cursors_up();
            Step::Respond(after_movement(doc))
        },
        ServerAction::MoveCursorRight => {
            doc.move_cursors_right();
            Step::Respond(after_movement(doc))
        },
        ServerAction::MoveCursorLeft => {
            doc.move_cursors_left();
            Step::Respond(after_movement(doc))
        },
        ServerAction::MoveCursorLineEnd => {
            doc.move_cursors_end();
            Step::Respond(after_movement(doc))
        },
        ServerAction::MoveCursorLineStart => {
            doc.move_cursors_home();
            Step::Respond(after_movement(doc))
        },
        ServerAction::MoveCursorPageDown => {
            doc.move_cursors_page_down();
            Step::Respond(after_movement(doc))
        },
        ServerAction::MoveCursorPageUp => {
            doc.move_cursors_page_up();
            Step::Respond(after_movement(doc))
        },
        ServerAction::InserChar(c) => {
            doc.insert_char(c);
            Step::Respond(display(doc))
        },
        ServerAction::InsertNewline => {
            doc.insert_newline();
            Step::Respond(after_edit(doc))
        },
        ServerAction::InsertTab => {
            doc.tab();
            Step::Respond(display(doc))
        },
        ServerAction::Save => match doc.save_request() {
            Some((file_name, text)) => Step::Save { file_name, text },
            None => Step::Respond(display(doc)),
        },
    }
}

/// Does what `action` asks of the client at `client_address` and says
/// what the server does next: mostly, which answer it sends. A client that
/// closes its connection loses its document.
pub fn server_action_to_response(
    action: ServerAction,
    client_address: &String,
    editor: &mut Editor,
) -> (step: Step)
    ensures
        final(editor)@ == documents_after(action, client_address@, old(editor)@),
        step@ == step_for(action, client_address@, old(editor)@),
{
    match action {
        ServerAction::CloseConnection => {
            editor.close_document(client_address.as_str());
            Step::Close
        },
        action => {
            let step = action_on_document(action, editor.document_mut(client_address.as_str()));
            assert(editor@ =~= documents_after(action, client_address@, old(editor)@));
            step
        },
    }
}

/// What the server answers when a file was read for the client at
/// `client_address`: the text becomes the client's document and the answer
/// tells its length in lines; or the answer is the reason why the file
/// could not be read, and the client keeps what it had.
pub fn file_opened(
    read: Result<String, String>,
    file_name: String,
    client_address: &String,
    editor: &mut Editor,
) -> (response: ServerResponse)
    ensures
        match read {
            Ok(text) => final(editor)@ == old(editor)@.insert(
                client_address@,
                Document::opened(text@, file_name@),
            ) && response@ == (ResponseView::FileOpened {
                file_name: Some(file_name@),
                document_length: line_count(text@),
            }),
            Err(reason) => final(editor)@ == old(editor)@ && response@ == ResponseView::Failed(
                reason@,
            ),
        },
{
    match read {
        Ok(text) => {
            let document = Document::from_text(text.as_str(), Some(file_name));
            let response = ServerResponse::FileOpened {
                file_name: document.file_name(),
                document_length: document.len(),
            };
            editor.keep_document(document, client_address.as_str());
            response
        },
        Err(reason) => ServerResponse::Failed(reason),
    }
}

/// What the server answers when the text of the document of the client at
/// `client_address` was written to its file, or could not be.
pub fn file_saved(written: Result<(), String>, client_address: &String, editor: &mut Editor) -> (response:
    ServerResponse)
    ensures
        final(editor)@ == if old(editor)@.contains_key(client_address@) && written.is_ok() {
            old(editor)@.insert(
                client_address@,
                DocumentState { modified: false, ..old(editor)@[client_address@] },
            )
        } else {
            old(editor)@
        },
        response@ == if !old(editor)@.contains_key(client_address@) {
            ResponseView::Failed("no document open"@)
        } else {
            match written {
                Ok(_) => display_view(final(editor)@[client_address@]),
                Err(reason) => ResponseView::Failed("failed to save. error: "@ + reason@),
            }
        },
{
    match editor.document_mut(client_address.as_str()) {
        Some(document) => {
            let response = document_saved(written, document);
            assert(editor@ =~= if written.is_ok() {
                old(editor)@.insert(
                    client_address@,
                    DocumentState { modified: false, ..old(editor)@[client_address@] },
                )
            } else {
                old(editor)@
            });
            response
        },
        None => failed("no document open"),
    }
}

/// What the server answers when the text of `document` was written to its
/// file: the document counts as unchanged and its window is shown; or the
/// reason why it could not be written, and the document stays as it is.
pub fn document_saved(written: Result<(), String>, document: &mut Document) -> (response:
    ServerResponse)
    ensures
        match written {
            Ok(_) => final(document)@ == (DocumentState { modified: false, ..old(document)@ })
                && response@ == display_view(final(document)@),
            Err(reason) => final(document)@ == old(document)@ && response@ == ResponseView::Failed(
                "failed to save. error: "@ + reason@,
            ),
        },
        final(document)@.wf(),
{
    match written {
        Ok(_) => {
            document.mark_saved();
            display(document)
        },
        Err(reason) => {
            document.well_formed();
            ServerResponse::Failed(
                String::from_str("failed to save. error: ").concat(reason.as_str()),
            )
        },
    }
}

} // verus!
