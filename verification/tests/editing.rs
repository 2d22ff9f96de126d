use nlo_text_editor_server::document::{Document, TAB_WIDTH};
use nlo_text_editor_server::edit::{
    backspace_at_selection, clusters_are_single_spaces, distance_to_next_multiple_of_tab_width,
    edit_everywhere, slice_is_all_spaces, Edit,
};
use nlo_text_editor_server::movement::{
    get_first_non_whitespace_character_index, leading_space_count,
};
use nlo_text_editor_server::selection::Selection;
use ropey::Rope;

fn text_of(doc: &Document) -> String {
    String::from(doc.text())
}

fn cursor_at(text: &str, offset: usize) -> Document {
    let mut doc = Document::from_text(text, None);
    for _ in 0..offset {
        doc.move_cursors_right();
    }
    assert_eq!(doc.selections()[0].head(), offset);
    doc
}

#[test]
fn default_document_is_empty_with_one_cursor() {
    let doc = Document::default();
    assert_eq!(text_of(&doc), "");
    assert_eq!(doc.selections(), vec![Selection::new(0, 0, 0)]);
    assert_eq!(doc.file_name(), None);
    assert!(!doc.is_modified());
    assert_eq!(doc.len(), 1);
}

#[test]
fn from_text_keeps_text_and_file_name() {
    let doc = Document::from_text("idk\nsomething\n", Some(String::from("notes.txt")));
    assert_eq!(text_of(&doc), "idk\nsomething\n");
    assert_eq!(doc.file_name(), Some(String::from("notes.txt")));
    assert_eq!(doc.selections(), vec![Selection::new(0, 0, 0)]);
    assert!(!doc.is_modified());
    assert_eq!(doc.len(), 3);
}

#[test]
fn insert_char_inserts_at_head_and_moves_right() {
    let mut doc = cursor_at("idk", 1);
    doc.insert_char('x');
    assert_eq!(text_of(&doc), "ixdk");
    assert_eq!(doc.selections(), vec![Selection::new(2, 2, 2)]);
    assert!(doc.is_modified());
}

#[test]
fn insert_char_of_line_break_starts_a_line() {
    let mut doc = cursor_at("idk", 3);
    doc.insert_char('\n');
    assert_eq!(text_of(&doc), "idk\n");
    assert_eq!(doc.selections(), vec![Selection::new(4, 4, 0)]);
    assert_eq!(doc.len(), 2);
}

#[test]
fn insert_char_shifts_the_selections_behind() {
    let mut doc = Document::from_text("ab\ncd", None);
    assert!(doc.add_selection(Selection::new(3, 3, 0)));
    doc.insert_char('x');
    assert_eq!(text_of(&doc), "xab\nxcd");
    assert_eq!(doc.selections(), vec![Selection::new(1, 1, 1), Selection::new(5, 5, 1)]);
}

#[test]
fn insert_char_at_two_cursors_in_one_place() {
    let mut doc = Document::from_text("ab", None);
    assert!(doc.add_selection(Selection::new(0, 0, 0)));
    doc.insert_char('x');
    assert_eq!(text_of(&doc), "xxab");
    assert_eq!(doc.selections(), vec![Selection::new(2, 2, 1), Selection::new(2, 2, 2)]);
}

#[test]
fn add_selection_refuses_what_lies_outside_the_text() {
    let mut doc = Document::from_text("ab", None);
    assert!(!doc.add_selection(Selection::new(0, 3, 0)));
    assert!(!doc.add_selection(Selection::new(3, 0, 0)));
    assert_eq!(doc.selections(), vec![Selection::new(0, 0, 0)]);
    assert!(doc.add_selection(Selection::new(2, 1, 1)));
    assert_eq!(doc.selections(), vec![Selection::new(0, 0, 0), Selection::new(2, 1, 1)]);
}

#[test]
fn delete_removes_the_character_at_the_head() {
    let mut doc = cursor_at("idk\nsomething\n", 4);
    doc.delete();
    assert_eq!(text_of(&doc), "idk\nomething\n");
    assert_eq!(doc.selections(), vec![Selection::new(4, 4, 0)]);
    assert!(doc.is_modified());
}

#[test]
fn delete_at_line_end_joins_the_next_line() {
    let mut doc = cursor_at("idk\nsomething", 3);
    doc.delete();
    assert_eq!(text_of(&doc), "idksomething");
    assert_eq!(doc.selections(), vec![Selection::new(3, 3, 3)]);
    assert_eq!(doc.len(), 1);
}

#[test]
fn delete_at_document_end_changes_no_text_but_marks_modified() {
    let mut doc = cursor_at("a", 1);
    doc.delete();
    assert_eq!(text_of(&doc), "a");
    assert_eq!(doc.selections(), vec![Selection::new(1, 1, 1)]);
    assert!(doc.is_modified());
}

#[test]
fn delete_shifts_the_selections_behind() {
    let mut doc = Document::from_text("abcd", None);
    assert!(doc.add_selection(Selection::new(2, 2, 2)));
    doc.delete();
    assert_eq!(text_of(&doc), "bd");
    assert_eq!(doc.selections(), vec![Selection::new(0, 0, 0), Selection::new(1, 1, 2)]);
}

#[test]
fn delete_pulls_an_anchor_behind_the_head_back_into_the_text() {
    let mut doc = Document::from_text("ab", None);
    assert!(doc.add_selection(Selection::new(2, 1, 1)));
    doc.delete();
    assert_eq!(text_of(&doc), "");
    assert_eq!(doc.selections(), vec![Selection::new(0, 0, 0), Selection::new(0, 0, 1)]);
}

#[test]
fn backspace_removes_the_character_before_the_head() {
    let mut doc = cursor_at("abc", 2);
    doc.backspace();
    assert_eq!(text_of(&doc), "ac");
    assert_eq!(doc.selections(), vec![Selection::new(1, 1, 1)]);
    assert!(doc.is_modified());
}

#[test]
fn backspace_at_document_start_changes_no_text() {
    let mut doc = Document::from_text("abc", None);
    doc.backspace();
    assert_eq!(text_of(&doc), "abc");
    assert_eq!(doc.selections(), vec![Selection::new(0, 0, 0)]);
    assert!(doc.is_modified());
}

#[test]
fn backspace_at_line_start_joins_the_previous_line() {
    let mut doc = cursor_at("ab\ncd", 3);
    doc.backspace();
    assert_eq!(text_of(&doc), "abcd");
    assert_eq!(doc.selections(), vec![Selection::new(2, 2, 2)]);
}

#[test]
fn backspace_removes_a_tab_of_spaces() {
    let mut doc = cursor_at("    something", 4);
    doc.backspace();
    assert_eq!(text_of(&doc), "something");
    assert_eq!(doc.selections(), vec![Selection::new(0, 0, 0)]);
}

#[test]
fn backspace_removes_the_second_tab_of_spaces_on_a_later_line() {
    let mut doc = cursor_at("x\n        y", 10);
    doc.backspace();
    assert_eq!(text_of(&doc), "x\n    y");
    assert_eq!(doc.selections(), vec![Selection::new(6, 6, 4)]);
}

#[test]
fn backspace_removes_one_space_off_a_tab_stop() {
    let mut doc = cursor_at("     x", 5);
    doc.backspace();
    assert_eq!(text_of(&doc), "    x");
    assert_eq!(doc.selections(), vec![Selection::new(4, 4, 4)]);
}

#[test]
fn backspace_removes_one_character_where_the_tab_holds_text() {
    let mut doc = cursor_at("a   x", 4);
    doc.backspace();
    assert_eq!(text_of(&doc), "a  x");
    assert_eq!(doc.selections(), vec![Selection::new(3, 3, 3)]);
}

#[test]
fn backspace_at_two_cursors_at_the_end() {
    let mut doc = cursor_at("ab", 2);
    assert!(doc.add_selection(Selection::new(2, 2, 2)));
    doc.backspace();
    assert_eq!(text_of(&doc), "");
    assert_eq!(doc.selections(), vec![Selection::new(0, 0, 1), Selection::new(0, 0, 0)]);
}

#[test]
fn tab_inserts_a_full_tab_on_a_tab_stop() {
    let mut doc = Document::default();
    doc.tab();
    assert_eq!(text_of(&doc), "    ");
    assert_eq!(doc.selections(), vec![Selection::new(TAB_WIDTH, TAB_WIDTH, TAB_WIDTH)]);
    assert!(doc.is_modified());
}

#[test]
fn tab_inserts_up_to_the_next_tab_stop() {
    let mut doc = cursor_at("abcdef", 1);
    doc.tab();
    assert_eq!(text_of(&doc), "a   bcdef");
    assert_eq!(doc.selections(), vec![Selection::new(4, 4, 4)]);
    let mut doc = cursor_at("abcdef", 3);
    doc.tab();
    assert_eq!(text_of(&doc), "abc def");
    assert_eq!(doc.selections(), vec![Selection::new(4, 4, 4)]);
}

#[test]
fn insert_newline_breaks_the_line() {
    let mut doc = cursor_at("abcd", 2);
    doc.insert_newline();
    assert_eq!(text_of(&doc), "ab\ncd");
    assert_eq!(doc.selections(), vec![Selection::new(3, 3, 0)]);
    assert!(doc.is_modified());
}

#[test]
fn insert_newline_indents_like_the_broken_line() {
    let mut doc = cursor_at("    foo", 7);
    doc.insert_newline();
    assert_eq!(text_of(&doc), "    foo\n    ");
    assert_eq!(doc.selections(), vec![Selection::new(12, 12, 4)]);
}

#[test]
fn insert_newline_indents_after_a_line_of_spaces() {
    let mut doc = cursor_at("   \nx", 3);
    doc.insert_newline();
    assert_eq!(text_of(&doc), "   \n   \nx");
    assert_eq!(doc.selections(), vec![Selection::new(7, 7, 3)]);
}

#[test]
fn insert_newline_within_the_leading_spaces_indents_by_all_of_them() {
    let mut doc = cursor_at("    foo", 2);
    doc.insert_newline();
    assert_eq!(text_of(&doc), "  \n      foo");
    assert_eq!(doc.selections(), vec![Selection::new(7, 7, 4)]);
}

#[test]
fn leading_space_count_counts_spaces_only() {
    assert_eq!(leading_space_count(Rope::from("").slice(..)), 0);
    assert_eq!(leading_space_count(Rope::from("idk").slice(..)), 0);
    assert_eq!(leading_space_count(Rope::from("  x \n").slice(..)), 2);
    assert_eq!(leading_space_count(Rope::from("    ").slice(..)), 4);
    assert_eq!(leading_space_count(Rope::from("   \n").slice(..)), 3);
    assert_eq!(leading_space_count(Rope::from(" \tx").slice(..)), 1);
}

#[test]
fn insert_char_at_cursor_leaves_the_given_text_alone() {
    let text = Rope::from("ab");
    let (selection, edited) =
        Document::insert_char_at_cursor(Selection::new(0, 2, 2), text.slice(..), 'c');
    assert_eq!(selection, Selection::new(3, 3, 3));
    assert_eq!(edited, Rope::from("abc"));
    assert_eq!(text, Rope::from("ab"));
}

#[test]
fn delete_at_cursor_past_the_text_removes_nothing() {
    let text = Rope::from("ab");
    let edited = Document::delete_at_cursor(Selection::new(5, 5, 0), text.slice(..));
    assert_eq!(edited, Rope::from("ab"));
}

#[test]
fn slice_is_all_spaces_reads_the_given_characters_only() {
    assert!(slice_is_all_spaces("    x", 0, 4));
    assert!(!slice_is_all_spaces("    x", 1, 5));
    assert!(slice_is_all_spaces("ab  cd", 2, 4));
    assert!(slice_is_all_spaces("ab", 1, 1));
    assert!(!slice_is_all_spaces(" a  ", 0, 4));
    assert!(slice_is_all_spaces("\u{e9}\u{e9}  ", 2, 4));
}

#[test]
fn slice_is_all_spaces_takes_a_space_with_a_mark_for_no_space() {
    assert!(!slice_is_all_spaces(" \u{301}  ", 0, 4));
    assert!(slice_is_all_spaces(" \u{301}  ", 2, 4));
}

#[test]
fn clusters_are_single_spaces_compares_each_cluster() {
    assert!(clusters_are_single_spaces(&vec![]));
    assert!(clusters_are_single_spaces(&vec![String::from(" "), String::from(" ")]));
    assert!(!clusters_are_single_spaces(&vec![String::from(" "), String::from("  ")]));
    assert!(!clusters_are_single_spaces(&vec![String::from("")]));
    assert!(!clusters_are_single_spaces(&vec![String::from("a")]));
}

#[test]
fn distance_to_next_multiple_of_tab_width_counts_columns() {
    assert_eq!(distance_to_next_multiple_of_tab_width(Selection::new(0, 0, 0)), 0);
    assert_eq!(distance_to_next_multiple_of_tab_width(Selection::new(0, 0, 1)), 3);
    assert_eq!(distance_to_next_multiple_of_tab_width(Selection::new(0, 0, 2)), 2);
    assert_eq!(distance_to_next_multiple_of_tab_width(Selection::new(0, 0, 3)), 1);
    assert_eq!(distance_to_next_multiple_of_tab_width(Selection::new(9, 9, 8)), 0);
    assert_eq!(distance_to_next_multiple_of_tab_width(Selection::new(0, 0, 13)), 3);
}

#[test]
fn first_non_whitespace_character_index_skips_spaces() {
    assert_eq!(get_first_non_whitespace_character_index(Rope::from("").slice(..)), 0);
    assert_eq!(get_first_non_whitespace_character_index(Rope::from("idk").slice(..)), 0);
    assert_eq!(get_first_non_whitespace_character_index(Rope::from("  x\n").slice(..)), 2);
    assert_eq!(get_first_non_whitespace_character_index(Rope::from("    ").slice(..)), 0);
    assert_eq!(get_first_non_whitespace_character_index(Rope::from("   \n").slice(..)), 0);
    assert_eq!(get_first_non_whitespace_character_index(Rope::from("\n").slice(..)), 0);
    assert_eq!(get_first_non_whitespace_character_index(Rope::from(" \tx").slice(..)), 1);
}

#[test]
fn backspace_at_selection_removes_a_tab_or_one_character() {
    let mut text = Rope::from("abcdef");
    let mut selections = vec![Selection::new(5, 5, 5), Selection::new(6, 2, 2)];
    backspace_at_selection(&mut text, &mut selections, 0, true);
    assert_eq!(text, Rope::from("af"));
    assert_eq!(selections, vec![Selection::new(1, 1, 1), Selection::new(2, 1, 2)]);
    backspace_at_selection(&mut text, &mut selections, 1, false);
    assert_eq!(text, Rope::from("f"));
    assert_eq!(selections, vec![Selection::new(0, 0, 1), Selection::new(0, 0, 0)]);
    backspace_at_selection(&mut text, &mut selections, 1, true);
    assert_eq!(text, Rope::from("f"));
    assert_eq!(selections, vec![Selection::new(0, 0, 1), Selection::new(0, 0, 0)]);
}

#[test]
fn edit_everywhere_applies_the_edit_in_the_order_of_the_selections() {
    let mut text = Rope::from("ab\ncd");
    let mut selections = vec![Selection::new(3, 3, 0), Selection::new(0, 0, 0)];
    edit_everywhere(Edit::InsertChar('x'), &mut text, &mut selections);
    assert_eq!(text, Rope::from("xab\nxcd"));
    assert_eq!(selections, vec![Selection::new(5, 5, 1), Selection::new(1, 1, 1)]);
    edit_everywhere(Edit::Delete, &mut text, &mut selections);
    assert_eq!(text, Rope::from("xb\nxd"));
    assert_eq!(selections, vec![Selection::new(4, 4, 1), Selection::new(1, 1, 1)]);
    edit_everywhere(Edit::Tab, &mut text, &mut selections);
    assert_eq!(text, Rope::from("x   b\nx   d"));
    assert_eq!(selections, vec![Selection::new(10, 10, 4), Selection::new(4, 4, 4)]);
    edit_everywhere(Edit::Backspace, &mut text, &mut selections);
    assert_eq!(text, Rope::from("x  b\nx  d"));
    assert_eq!(selections, vec![Selection::new(8, 8, 3), Selection::new(3, 3, 3)]);
    edit_everywhere(Edit::Newline, &mut text, &mut selections);
    assert_eq!(text, Rope::from("x  \nb\nx  \nd"));
    assert_eq!(selections, vec![Selection::new(10, 10, 0), Selection::new(4, 4, 0)]);
}
