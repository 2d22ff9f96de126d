use nlo_text_editor_server::document::Document;
use nlo_text_editor_server::selection::{Selection, Selection2d};
use nlo_text_editor_server::{Position, View};
use ropey::Rope;

#[test]
fn check_ropey_behavior() {
    let text = Rope::from("idk\nsomething\nelse");
    assert!(text.len_lines() == 3);

    let line = text.line(text.char_to_line(5));
    let line_width = line.len_chars();
    println!("line width: {}", line_width);
    assert!(line_width == 10);
    let last_char = line.char(9);
    assert!(last_char == '\n');
}

#[test]
fn document_cursor_position_works_when_rope_cursor_head_and_anchor_same_and_on_same_line() {
    let text = Rope::from("idk\nsomething");
    let rope_cursor = Selection::new(2, 2, 2);  //id[]k\nsomething
    let doc_cursor = Document::rope_cursor_position_to_document_cursor_position(rope_cursor, text.slice(..));
    let expected_doc_cursor = Selection2d::new(Position::new(2, 0), Position::new(2, 0));
    /*
    id[]k
    something
    */
    println!("expected: {expected_doc_cursor:?}\ngot: {doc_cursor:?}");
    assert!(doc_cursor == expected_doc_cursor);
}

#[test]
fn document_cursor_position_works_when_rope_cursor_head_and_anchor_different_but_on_same_line() {
    let text = Rope::from("idk\nsomething");
    let rope_cursor = Selection::new(1, 2, 2);  //i[d]k\nsomething
    let doc_cursor = Document::rope_cursor_position_to_document_cursor_position(rope_cursor, text.slice(..));
    let expected_doc_cursor = Selection2d::new(Position::new(2, 0), Position::new(1, 0));
    /*
    i[d]k
    something
    */
    println!("expected: {expected_doc_cursor:?}\ngot: {doc_cursor:?}");
    assert!(doc_cursor == expected_doc_cursor);
}

#[test]
fn document_cursor_position_works_when_rope_cursor_head_and_anchor_same_but_on_new_line() {
    let text = Rope::from("idk\nsomething");
    let rope_cursor = Selection::new(4, 4, 0);  //idk\n[]something
    let doc_cursor = Document::rope_cursor_position_to_document_cursor_position(rope_cursor, text.slice(..));
    let expected_doc_cursor = Selection2d::new(Position::new(0, 1), Position::new(0, 1));
    /*
    idk
    []something
    */
    println!("expected: {expected_doc_cursor:?}\ngot: {doc_cursor:?}");
    assert!(doc_cursor == expected_doc_cursor);
}

#[test]
fn document_cursor_position_works_when_rope_cursor_head_and_anchor_different_and_on_different_lines() {
    let text = Rope::from("idk\nsomething");
    let rope_cursor = Selection::new(2, 5, 1);  //id[k\ns]omething
    let doc_cursor = Document::rope_cursor_position_to_document_cursor_position(rope_cursor, text.slice(..));
    let expected_doc_cursor = Selection2d::new(Position::new(1, 1), Position::new(2, 0));
    /*
    id[k
    s]omething
    */
    println!("expected: {expected_doc_cursor:?}\ngot: {doc_cursor:?}");
    assert!(doc_cursor == expected_doc_cursor);
}

#[test]
fn clear_cursors_except_main_works() {
    let mut cursors = vec![Selection::default(), Selection::default(), Selection::default()];
    Document::clear_non_primary_selections(&mut cursors);
    assert!(cursors.get(0).is_some());
    assert!(cursors.get(1).is_none());
}

#[test]
fn document_set_rope_cursor_position_works_when_desired_position_is_inside_doc_boundaries() {
    let text = Rope::from("idk\nsomething\nelse");
    let mut rope_cursor = Selection::default();    //[]idk\nsomething\nelse
    let expected_rope_cursor = Selection::new(14, 14, 0);   //idk\nsomething\n[]else
    let line_number: usize = 2;//3;
    rope_cursor = Document::set_rope_cursor_position_from_line_number(rope_cursor, line_number, text.slice(..));
    println!("expected: {expected_rope_cursor:?}\ngot: {rope_cursor:?}");
    assert!(rope_cursor == expected_rope_cursor);
}

#[test]
fn document_set_rope_cursor_position_should_do_nothing_when_desired_line_number_is_greater_than_doc_length() {
    let text = Rope::from("idk\nsomething\nelse");
    let mut rope_cursor = Selection::default();    //[]idk\nsomething\nelse
    let expected_rope_cursor = Selection::default();   //[]idk\nsomething\nelse
    let line_number: usize = 5;//6;
    rope_cursor = Document::set_rope_cursor_position_from_line_number(rope_cursor, line_number, text.slice(..));
    println!("expected: {expected_rope_cursor:?}\ngot: {rope_cursor:?}");
    assert!(rope_cursor == expected_rope_cursor);
}

#[test]
fn document_set_rope_cursor_position_restricts_cursor_to_line_end_when_cursor_stored_line_position_is_greater_than_line_width() {
    let text = Rope::from("idk\nsomething\nelse");
    let mut rope_cursor = Selection::new(13, 13, 9);    //idk\nsomething[]\nelse
    let expected_rope_cursor = Selection::new(3, 3, 9); //idk[]\nsomething\nelse
    let line_number: usize = 0;//1;
    rope_cursor = Document::set_rope_cursor_position_from_line_number(rope_cursor, line_number, text.slice(..));
    println!("expected: {expected_rope_cursor:?}\ngot: {rope_cursor:?}");
    assert!(rope_cursor == expected_rope_cursor);
}

#[test]
fn enter_works() {
    let text = Rope::from("idk\nsomething");
    let mut rope_cursor = Selection::new(13, 13, 9);    //idk\nsomething[]
    let expected_rope_cursor = Selection::new(14, 14, 0);   //idk\nsomething\n[]
    let new_text;
    let expected_text = Rope::from("idk\nsomething\n");
    (rope_cursor, new_text) = Document::insert_char_at_cursor(rope_cursor, text.slice(..), '\n');
    println!("expected: {expected_rope_cursor:?}\ngot: {rope_cursor:?}");
    println!("{:?} : {:?}", text, new_text);
    assert!(rope_cursor == expected_rope_cursor);
    assert!(new_text == expected_text);
}

#[test]
fn insert_char_works() {
    let text = Rope::from("idk\nsomething\n");
    let mut rope_cursor = Selection::new(4, 4, 0);  //idk\n[]something\n
    let expected_rope_cursor = Selection::new(5, 5, 1); //idk\nx[]something\n
    let new_text;
    let expected_text = Rope::from("idk\nxsomething\n");
    (rope_cursor, new_text) = Document::insert_char_at_cursor(rope_cursor, text.slice(..), 'x');
    println!("expected: {expected_rope_cursor:?}\ngot: {rope_cursor:?}");
    println!("{:?} : {:?}", text, new_text);
    assert!(rope_cursor == expected_rope_cursor);
    assert!(new_text == expected_text);
}

#[test]
fn delete_works() {
    let text = Rope::from("idk\nsomething\n");
    let rope_cursor = Selection::new(4, 4, 0);  //idk\n[]something\n
    let expected_rope_cursor = Selection::new(4, 4, 0); //idk\n[]omething\n
    let new_text;
    let expected_text = Rope::from("idk\nomething\n");
    new_text = Document::delete_at_cursor(rope_cursor.clone(), text.slice(..));
    println!("expected: {expected_rope_cursor:?}\ngot: {rope_cursor:?}");
    println!("{:?} : {:?}", text, new_text);
    assert!(rope_cursor == expected_rope_cursor);
    assert!(new_text == expected_text);
}

#[test]
fn delete_at_end_of_file_does_nothing() {
    let text = Rope::from("idk\nsomething\n");
    let rope_cursor = Selection::new(14, 14, 0);    //idk\nsomething\n[]
    let expected_rope_cursor = Selection::new(14, 14, 0);   //idk\nsomething\n[]
    let new_text;
    let expected_text = Rope::from("idk\nsomething\n");
    new_text = Document::delete_at_cursor(rope_cursor.clone(), text.slice(..));
    println!("expected: {expected_rope_cursor:?}\ngot: {rope_cursor:?}");
    println!("{:?} : {:?}", text, new_text);
    assert!(rope_cursor == expected_rope_cursor);
    assert!(new_text == expected_text);
}

#[test]
fn document_move_cursor_left_at_document_start_does_not_move_cursor() {
    let text = Rope::from("idk\nsomething\nelse");
    let mut rope_cursor = Selection::default();
    let expected_rope_cursor = Selection::default();
    rope_cursor = Document::move_cursor_left(rope_cursor, text.slice(..));
    println!("expected: {expected_rope_cursor:?}\ngot: {rope_cursor:?}");
    assert!(rope_cursor == expected_rope_cursor);
}

#[test]
fn document_move_left_works() {
    let text = Rope::from("idk\nsomething\nelse");
    let mut rope_cursor = Selection::new(2, 2, 2);
    let expected_rope_cursor = Selection::new(1, 1, 1);
    rope_cursor = Document::move_cursor_left(rope_cursor, text.slice(..));
    println!("expected: {expected_rope_cursor:?}\ngot: {rope_cursor:?}");
    assert!(rope_cursor == expected_rope_cursor);
}

#[test]
fn document_move_cursor_left_at_start_of_line_resets_stored_line_position() {
    let text = Rope::from("idk\nsomething\nelse");
    let mut rope_cursor = Selection::new(4, 4, 0);  //idk\n[]something\nelse
    let expected_rope_cursor = Selection::new(3, 3, 3); //idk[]\nsomething\nelse
    rope_cursor = Document::move_cursor_left(rope_cursor, text.slice(..));
    println!("expected: {expected_rope_cursor:?}\ngot: {rope_cursor:?}");
    assert!(rope_cursor == expected_rope_cursor);
}

#[test]
fn document_move_cursor_up_at_document_start_does_not_move_cursor() {
    let text = Rope::from("idk\nsomething\nelse");
    let mut rope_cursor = Selection::default();
    let expected_rope_cursor = Selection::default();
    rope_cursor = Document::move_cursor_up(rope_cursor, text.slice(..));
    println!("expected: {expected_rope_cursor:?}\ngot: {rope_cursor:?}");
    assert!(rope_cursor == expected_rope_cursor);
}

#[test]
fn document_move_cursor_up_works_when_moving_to_shorter_line() {
    let text = Rope::from("idk\nsomething\nelse");
    let mut rope_cursor = Selection::new(13, 13, 9);    //idk\nsomething[]\nelse
    let expected_rope_cursor = Selection::new(3, 3, 9); //idk[]\nsomething\nelse
    rope_cursor = Document::move_cursor_up(rope_cursor, text.slice(..));
    println!("expected: {expected_rope_cursor:?}\ngot: {rope_cursor:?}");
    assert!(rope_cursor == expected_rope_cursor);
}

#[test]
fn document_move_cursor_up_works_when_moving_to_longer_line() {
    let text = Rope::from("idk\nsomething\nelse");
    let mut rope_cursor = Selection::new(18, 18, 4);    //idk\nsomething\nelse[]
    let expected_rope_cursor = Selection::new(8, 8, 4); //idk\nsome[]thing\nelse
    rope_cursor = Document::move_cursor_up(rope_cursor, text.slice(..));
    println!("expected: {expected_rope_cursor:?}\ngot: {rope_cursor:?}");
    assert!(rope_cursor == expected_rope_cursor);
}

#[test]
fn document_move_cursor_right_at_document_end_does_not_move_cursor() {
    let text = Rope::from("012\n");
    let mut rope_cursor = Selection::new(4, 4, 0);  //012\n[]
    let expected_rope_cursor = Selection::new(4, 4, 0); //012\n[]
    rope_cursor = Document::move_cursor_right(rope_cursor, text.slice(..));
    println!("expected: {expected_rope_cursor:?}\ngot: {rope_cursor:?}");
    assert!(rope_cursor == expected_rope_cursor);
}

#[test]
fn document_move_cursor_right_works() {
    let text = Rope::from("012\n");
    let mut rope_cursor = Selection::default();    //[]012\n
    let expected_rope_cursor = Selection::new(1, 1, 1); //0[]12\n
    rope_cursor = Document::move_cursor_right(rope_cursor, text.slice(..));
    println!("expected: {expected_rope_cursor:?}\ngot: {rope_cursor:?}");
    assert!(rope_cursor == expected_rope_cursor);
}

#[test]
fn document_move_cursor_right_at_end_of_line_resets_stored_line_position() {
    let text = Rope::from("012\n0");
    let mut rope_cursor = Selection::new(3, 3, 3);  //012[]\n0
    let expected_rope_cursor = Selection::new(4, 4, 0); //012\n[]0
    rope_cursor = Document::move_cursor_right(rope_cursor, text.slice(..));
    println!("expected: {expected_rope_cursor:?}\ngot: {rope_cursor:?}");
    assert!(rope_cursor == expected_rope_cursor);
}

#[test]
fn document_move_cursor_down_at_document_end_does_not_move_cursor() {
    let text = Rope::from("012\n");
    let mut rope_cursor = Selection::new(4, 4, 0);  //012\n[]
    let expected_rope_cursor = Selection::new(4, 4, 0); //012\n[]
    rope_cursor = Document::move_cursor_down(rope_cursor, text.slice(..));
    println!("expected: {expected_rope_cursor:?}\ngot: {rope_cursor:?}");
    assert!(rope_cursor == expected_rope_cursor);
}

#[test]
fn document_move_cursor_down_works_when_moving_to_shorter_line() {
    let text = Rope::from("012\n0");
    let mut rope_cursor = Selection::new(3, 3, 3);  //012[]\n0
    let expected_rope_cursor = Selection::new(5, 5, 3); //012\n0[]
    rope_cursor = Document::move_cursor_down(rope_cursor, text.slice(..));
    println!("expected: {expected_rope_cursor:?}\ngot: {rope_cursor:?}");
    assert!(rope_cursor == expected_rope_cursor);
}

#[test]
fn document_move_cursor_down_works_when_moving_to_longer_line() {
    let text = Rope::from("idk\nsomething\nelse");
    let mut rope_cursor = Selection::new(3, 3, 3);  //idk[]\nsomething\nelse
    let expected_rope_cursor = Selection::new(7, 7, 3); //idk\nsom[]ething\nelse
    rope_cursor = Document::move_cursor_down(rope_cursor, text.slice(..));
    println!("expected: {expected_rope_cursor:?}\ngot: {rope_cursor:?}");
    assert!(rope_cursor == expected_rope_cursor);
}

#[test]
fn document_move_cursor_page_up_works() {
    let text = Rope::from("idk\nsomething\nelse");
    let client_view = View{horizontal_start: 0, vertical_start: 0, width: 2, height: 2};
    let mut rope_cursor = Selection::new(6, 6, 2);  //idk\nso[]mething\nelse
    let expected_rope_cursor = Selection::new(2, 2, 2); //id[]k\nsomething\nelse
    rope_cursor = Document::move_cursor_page_up(rope_cursor, text.slice(..), client_view);
    println!("expected: {expected_rope_cursor:?}\ngot: {rope_cursor:?}");
    assert!(rope_cursor == expected_rope_cursor);
}

#[test]
fn document_move_cursor_page_down_works() {
    let text = Rope::from("idk\nsomething\nelse");
    let client_view = View{horizontal_start: 0, vertical_start: 0, width: 2, height: 2};
    let mut rope_cursor = Selection::default();  //[]idk\nsomething\nelse
    let expected_rope_cursor = Selection::new(4, 4, 0); //idk\n[]something\nelse
    rope_cursor = Document::move_cursor_page_down(rope_cursor, text.slice(..), client_view);
    println!("expected: {expected_rope_cursor:?}\ngot: {rope_cursor:?}");
    assert!(rope_cursor == expected_rope_cursor);
}

#[test]
fn document_move_cursor_home_moves_cursor_to_text_start_when_cursor_past_text_start() {
    let text = Rope::from("    idk\n");
    let mut rope_cursor = Selection::new(6, 6, 6);  //id[]k\n
    let expected_rope_cursor = Selection::new(4, 4, 4); //    []idk\n
    rope_cursor = Document::move_cursor_home(rope_cursor, text.slice(..));
    println!("expected: {expected_rope_cursor:?}\ngot: {rope_cursor:?}");
    assert!(rope_cursor == expected_rope_cursor);
}

#[test]
fn document_move_cursor_home_moves_cursor_to_line_start_when_cursor_at_text_start() {
    let text = Rope::from("    idk\n");
    let mut rope_cursor = Selection::new(4, 4, 4);  //    []idk\n
    let expected_rope_cursor = Selection::default();   //[]    idk\n
    rope_cursor = Document::move_cursor_home(rope_cursor, text.slice(..));
    println!("expected: {expected_rope_cursor:?}\ngot: {rope_cursor:?}");
    assert!(rope_cursor == expected_rope_cursor);
}

#[test]
fn document_move_cursor_home_moves_cursor_to_text_start_when_cursor_before_text_start() {
    let text = Rope::from("    idk\n");
    let mut rope_cursor = Selection::new(1, 1, 1);  // []   idk\n
    let expected_rope_cursor = Selection::new(4, 4, 4); //    []idk\n
    rope_cursor = Document::move_cursor_home(rope_cursor, text.slice(..));
    println!("expected: {expected_rope_cursor:?}\ngot: {rope_cursor:?}");
    assert!(rope_cursor == expected_rope_cursor);
}

#[test]
fn document_move_cursor_end_moves_cursor_to_line_end() {
    let text = Rope::from("idk\n");
    let mut rope_cursor = Selection::default();    //[]idk\n
    let expected_rope_cursor = Selection::new(3, 3, 3); //idk[]\n
    rope_cursor = Document::move_cursor_end(rope_cursor, text.slice(..));
    println!("expected: {expected_rope_cursor:?}\ngot: {rope_cursor:?}");
    assert!(rope_cursor == expected_rope_cursor);
}

#[test]
fn document_move_cursor_doc_start_works() {
    let mut rope_cursor = Selection::new(12, 12, 12);
    let expected_rope_cursor = Selection::default();
    rope_cursor = Document::move_cursor_document_start(rope_cursor);
    println!("expected: {expected_rope_cursor:?}\ngot: {rope_cursor:?}");
    assert!(rope_cursor == expected_rope_cursor);
}

#[test]
fn document_move_cursor_document_end_works() {
    let text = Rope::from("idk\nsome\nshit");
    let mut rope_cursor = Selection::default();    //[]idk\nsome\nshit
    let expected_rope_cursor = Selection::new(13, 13, 4);   //idk\nsome\nshit[]
    rope_cursor = Document::move_cursor_document_end(rope_cursor, text.slice(..));
    println!("expected: {expected_rope_cursor:?}\ngot: {rope_cursor:?}");
    assert!(rope_cursor == expected_rope_cursor);
}

#[test]
fn document_extend_selection_right_at_document_end_does_not_extend_selection() {
    let text = Rope::from("012\n");
    let mut rope_cursor = Selection::new(4, 4, 0);  //012\n[]
    let expected_rope_cursor = Selection::new(4, 4, 0); //012\n[]
    rope_cursor = Document::extend_selection_right(rope_cursor, text.slice(..));
    println!("expected: {expected_rope_cursor:?}\ngot: {rope_cursor:?}");
    assert!(rope_cursor == expected_rope_cursor);
}

#[test]
fn document_extend_selection_right_works() {
    let text = Rope::from("012\n");
    let mut rope_cursor = Selection::default();    //[]012\n
    let expected_rope_cursor = Selection::new(0, 1, 1); //[0]12\n
    rope_cursor = Document::extend_selection_right(rope_cursor, text.slice(..));
    println!("expected: {expected_rope_cursor:?}\ngot: {rope_cursor:?}");
    assert!(rope_cursor == expected_rope_cursor);
}

#[test]
fn document_extend_selection_right_at_end_of_line_resets_stored_line_position() {
    let text = Rope::from("012\n0");
    let mut rope_cursor = Selection::new(3, 3, 3);  //012[]\n0
    let expected_rope_cursor = Selection::new(3, 4, 0); //012[\n]0
    rope_cursor = Document::extend_selection_right(rope_cursor, text.slice(..));
    println!("expected: {expected_rope_cursor:?}\ngot: {rope_cursor:?}");
    assert!(rope_cursor == expected_rope_cursor);
}

#[test]
fn document_extend_selection_left_at_document_start_does_not_extend_selection() {
    let text = Rope::from("idk\nsomething\nelse");
    let mut rope_cursor = Selection::default();
    let expected_rope_cursor = Selection::default();
    rope_cursor = Document::extend_selection_left(rope_cursor, text.slice(..));
    println!("expected: {expected_rope_cursor:?}\ngot: {rope_cursor:?}");
    assert!(rope_cursor == expected_rope_cursor);
}

#[test]
fn document_extend_selection_left_works() {
    let text = Rope::from("idk\nsomething\nelse");
    let mut rope_cursor = Selection::new(2, 2, 2);  //id[]k\nsomething\nelse
    let expected_rope_cursor = Selection::new(2, 1, 1); //i]d[k\nsomething\nelse
    rope_cursor = Document::extend_selection_left(rope_cursor, text.slice(..));
    println!("expected: {expected_rope_cursor:?}\ngot: {rope_cursor:?}");
    assert!(rope_cursor == expected_rope_cursor);
}

#[test]
fn document_extend_selection_left_at_start_of_line_resets_stored_line_position() {
    let text = Rope::from("idk\nsomething\nelse");
    let mut rope_cursor = Selection::new(4, 4, 0);  //idk\n[]something\nelse
    let expected_rope_cursor = Selection::new(4, 3, 3); //idk]\n[something\nelse
    rope_cursor = Document::extend_selection_left(rope_cursor, text.slice(..));
    println!("expected: {expected_rope_cursor:?}\ngot: {rope_cursor:?}");
    assert!(rope_cursor == expected_rope_cursor);
}

#[test]
fn document_extend_selection_up_at_document_start_does_not_extend_selection() {
    let text = Rope::from("idk\nsomething\nelse");
    let mut rope_cursor = Selection::default();
    let expected_rope_cursor = Selection::default();
    rope_cursor = Document::extend_selection_up(rope_cursor, text.slice(..));
    println!("expected: {expected_rope_cursor:?}\ngot: {rope_cursor:?}");
    assert!(rope_cursor == expected_rope_cursor);
}

#[test]
fn document_extend_selection_up_works_when_moving_to_shorter_line() {
    let text = Rope::from("idk\nsomething\nelse");
    let mut rope_cursor = Selection::new(13, 13, 9);    //idk\nsomething[]\nelse
    let expected_rope_cursor = Selection::new(13, 3, 9);    //idk]\nsomething[\nelse
    rope_cursor = Document::extend_selection_up(rope_cursor, text.slice(..));
    println!("expected: {expected_rope_cursor:?}\ngot: {rope_cursor:?}");
    assert!(rope_cursor == expected_rope_cursor);
}

#[test]
fn document_extend_selection_up_works_when_moving_to_longer_line() {
    let text = Rope::from("idk\nsomething\nelse");
    let mut rope_cursor = Selection::new(18, 18, 4);    //idk\nsomething\nelse[]
    let expected_rope_cursor = Selection::new(18, 8, 4);    //idk\nsome]thing\nelse[
    rope_cursor = Document::extend_selection_up(rope_cursor, text.slice(..));
    println!("expected: {expected_rope_cursor:?}\ngot: {rope_cursor:?}");
    assert!(rope_cursor == expected_rope_cursor);
}

#[test]
fn document_extend_selection_down_at_document_end_does_not_extend_selection() {
    let text = Rope::from("012\n");
    let mut rope_cursor = Selection::new(4, 4, 0);  //012\n[]
    let expected_rope_cursor = Selection::new(4, 4, 0); //012\n[]
    rope_cursor = Document::extend_selection_down(rope_cursor, text.slice(..));
    println!("expected: {expected_rope_cursor:?}\ngot: {rope_cursor:?}");
    assert!(rope_cursor == expected_rope_cursor);
}

#[test]
fn document_extend_selection_down_works_when_moving_to_shorter_line() {
    let text = Rope::from("012\n0");
    let mut rope_cursor = Selection::new(3, 3, 3);  //012[]\n0
    let expected_rope_cursor = Selection::new(3, 5, 3); //012[\n0]
    rope_cursor = Document::extend_selection_down(rope_cursor, text.slice(..));
    println!("expected: {expected_rope_cursor:?}\ngot: {rope_cursor:?}");
    assert!(rope_cursor == expected_rope_cursor);
}

#[test]
fn document_extend_selection_down_works_when_moving_to_longer_line() {
    let text = Rope::from("idk\nsomething\nelse");
    let mut rope_cursor = Selection::new(3, 3, 3);  //idk[]\nsomething\nelse
    let expected_rope_cursor = Selection::new(3, 7, 3); //idk[\nsom]ething\nelse
    rope_cursor = Document::extend_selection_down(rope_cursor, text.slice(..));
    println!("expected: {expected_rope_cursor:?}\ngot: {rope_cursor:?}");
    assert!(rope_cursor == expected_rope_cursor);
}

#[test]
fn document_extend_selection_home_moves_cursor_to_text_start_when_cursor_past_text_start() {
    let text = Rope::from("    idk\n");
    let mut rope_cursor = Selection::new(6, 6, 6);  //    id[]k\n
    let expected_rope_cursor = Selection::new(6, 4, 4); //    ]id[k\n
    rope_cursor = Document::extend_selection_home(rope_cursor, text.slice(..));
    println!("expected: {expected_rope_cursor:?}\ngot: {rope_cursor:?}");
    assert!(rope_cursor == expected_rope_cursor);
}

#[test]
fn document_extend_selection_home_moves_cursor_to_line_start_when_cursor_at_text_start() {
    let text = Rope::from("    idk\n");
    let mut rope_cursor = Selection::new(4, 4, 4);  //    []idk\n
    let expected_rope_cursor = Selection::new(4, 0, 0); //]    [idk\n
    rope_cursor = Document::extend_selection_home(rope_cursor, text.slice(..));
    println!("expected: {expected_rope_cursor:?}\ngot: {rope_cursor:?}");
    assert!(rope_cursor == expected_rope_cursor);
}

#[test]
fn document_extend_selection_home_moves_cursor_to_text_start_when_cursor_before_text_start() {
    let text = Rope::from("    idk\n");
    let mut rope_cursor = Selection::new(1, 1, 1);  // []   idk\n
    let expected_rope_cursor = Selection::new(1, 4, 4); // [   ]idk\n
    rope_cursor = Document::extend_selection_home(rope_cursor, text.slice(..));
    println!("expected: {expected_rope_cursor:?}\ngot: {rope_cursor:?}");
    assert!(rope_cursor == expected_rope_cursor);
}

#[test]
fn document_extend_selection_end_moves_cursor_to_line_end() {
    let text = Rope::from("idk\n");
    let mut rope_cursor = Selection::default();    //[]idk\n
    let expected_rope_cursor = Selection::new(0, 3, 3); //[idk]\n
    rope_cursor = Document::extend_selection_end(rope_cursor, text.slice(..));
    println!("expected: {expected_rope_cursor:?}\ngot: {rope_cursor:?}");
    assert!(rope_cursor == expected_rope_cursor);
}

#[test]
fn document_collapse_selection_cursor_works_when_head_less_than_anchor() {
    let mut selection = Selection::new(5, 0, 0);
    let expected_selection = Selection::new(0, 0, 0);
    selection = Document::collapse_selection_cursor(selection);
    assert!(selection == expected_selection);
}

#[test]
fn document_collapse_selection_cursor_works_when_head_greater_than_anchor() {
    let mut selection = Selection::new(0, 5, 5);
    let expected_selection = Selection::new(5, 5, 5);
    selection = Document::collapse_selection_cursor(selection);
    assert!(selection == expected_selection);
}

#[test]
fn get_client_view_text_works() {
    let mut doc = Document::from_text("idk\nsomething\nelse\n", None);
    doc.set_client_view_size(2, 2);
    println!("{:?}", doc.get_client_view_text());
    assert!(doc.get_client_view_text() == String::from("id\nso\n"));
}
