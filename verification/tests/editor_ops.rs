use minime::editor::Editor;
use minime::selection::{Cursor, Selection};
use minime::styles::{Paint, Span};

fn at(ln: usize, col: usize) -> Cursor {
    Cursor { ln, col }
}

fn editor_with(text: &str, focus: Cursor, anchor: Option<Cursor>) -> Editor {
    let mut editor = Editor::new();
    editor.set_contents(text);
    editor.set_selection(Selection { focus, anchor });
    editor
}

fn text_of(editor: &Editor) -> String {
    let lines: Vec<String> = (0..editor.line_count()).map(|i| editor.line(i)).collect();
    lines.join("\n")
}

#[test]
fn new_editor_is_empty() {
    let editor = Editor::new();
    assert_eq!(editor.line_count(), 1);
    assert_eq!(editor.char_count(), 0);
    assert_eq!(editor.contents(), "");
    assert_eq!(editor.focus(), at(0, 0));
    assert_eq!(editor.anchor(), None);
    assert!(editor.is_valid());
    let editor = Editor::default();
    assert_eq!(editor.contents(), "");
}

#[test]
fn contents_strips_one_trailing_break() {
    let mut editor = Editor::new();
    editor.set_contents("a\nb\n");
    assert_eq!(editor.contents(), "a\nb");
    assert_eq!(editor.line_count(), 3);
    assert_eq!(editor.char_count(), 4);
    assert_eq!(editor.last_line(), "");
    assert_eq!(editor.line(1), "b");
}

#[test]
fn clamp_brings_the_column_onto_the_line() {
    let mut editor = editor_with("abcdef\nab", at(0, 6), None);
    editor.move_down(false);
    assert_eq!(editor.focus(), at(1, 6));
    editor.clamp();
    assert_eq!(editor.focus(), at(1, 2));
    assert!(editor.focus().col <= editor.curr_ln_len());
    assert!(editor.focus().ln < editor.line_count());
}

#[test]
fn every_operation_keeps_the_cursor_on_the_text() {
    let mut editor = editor_with("ab\n\ncdef", at(2, 4), None);
    editor.move_up(false);
    assert!(editor.is_valid());
    editor.backspace();
    assert!(editor.is_valid());
    editor.move_to_bottom(true);
    assert!(editor.is_valid());
    editor.delete();
    assert!(editor.is_valid());
    editor.type_char('\n');
    assert!(editor.is_valid());
    editor.move_down(false);
    editor.move_down(false);
    assert!(editor.is_valid());
    editor.clamp();
    assert!(editor.focus().col <= editor.curr_ln_len());
}

#[test]
fn moves_that_do_not_extend_drop_the_selection() {
    let mut editor = editor_with("abc\ndef", at(1, 1), Some(at(0, 1)));
    editor.move_left(false);
    assert_eq!(editor.anchor(), None);
    let mut editor = editor_with("abc\ndef", at(1, 1), Some(at(0, 1)));
    editor.move_up(false);
    assert_eq!(editor.anchor(), None);
    let mut editor = editor_with("abc\ndef", at(1, 1), Some(at(0, 1)));
    editor.move_to_col(2, false);
    assert_eq!(editor.anchor(), None);
    let mut editor = editor_with("abc\ndef", at(1, 1), Some(at(0, 1)));
    editor.move_to_top(false);
    assert_eq!(editor.anchor(), None);
    assert_eq!(editor.focus(), at(0, 1));
}

#[test]
fn a_move_onto_the_anchor_drops_it() {
    let mut editor = editor_with("abc", at(0, 1), None);
    editor.move_right(true);
    assert_eq!(editor.anchor(), Some(at(0, 1)));
    assert_eq!(editor.focus(), at(0, 2));
    editor.move_left(true);
    assert_eq!(editor.anchor(), None);
    assert_eq!(editor.focus(), at(0, 1));
}

#[test]
fn extending_keeps_the_first_anchor() {
    let mut editor = editor_with("abc\ndef", at(0, 1), None);
    editor.move_right(true);
    editor.move_down(true);
    editor.move_to_line_end(true);
    assert_eq!(editor.anchor(), Some(at(0, 1)));
    assert_eq!(editor.focus(), at(1, 3));
    assert_eq!(editor.curr_sel(), Some("bc\ndef".to_string()));
}

#[test]
fn left_and_right_wrap_over_line_ends() {
    let mut editor = editor_with("ab\ncd", at(1, 0), None);
    editor.move_left(false);
    assert_eq!(editor.focus(), at(0, 2));
    editor.move_right(false);
    assert_eq!(editor.focus(), at(1, 0));
    let mut editor = editor_with("ab\ncd", at(0, 0), None);
    editor.move_left(false);
    assert_eq!(editor.focus(), at(0, 0));
    let mut editor = editor_with("ab\ncd", at(1, 2), None);
    editor.move_right(false);
    assert_eq!(editor.focus(), at(1, 2));
}

#[test]
fn up_and_down_clamp_at_the_ends_of_the_text() {
    let mut editor = editor_with("abc\ndef", at(0, 2), None);
    editor.move_up(false);
    assert_eq!(editor.focus(), at(0, 0));
    let mut editor = editor_with("abc\ndefgh", at(1, 1), None);
    editor.move_down(false);
    assert_eq!(editor.focus(), at(1, 5));
    let mut editor = editor_with("abc\ndefgh", at(1, 4), None);
    editor.move_up(false);
    assert_eq!(editor.focus(), at(0, 4));
}

#[test]
fn direct_moves() {
    let mut editor = editor_with("abc\ndefgh\nij", at(1, 3), None);
    editor.move_to_line_start(false);
    assert_eq!(editor.focus(), at(1, 0));
    editor.move_to_line_end(false);
    assert_eq!(editor.focus(), at(1, 5));
    editor.move_to_top(false);
    assert_eq!(editor.focus(), at(0, 5));
    editor.move_to_bottom(false);
    assert_eq!(editor.focus(), at(2, 5));
    editor.move_to_col(1, true);
    assert_eq!(editor.focus(), at(2, 1));
    assert_eq!(editor.anchor(), Some(at(2, 5)));
}

#[test]
fn insert_then_delete_restores_the_text() {
    let before_text = "first line\nsecond line\nthird";
    let inserted = "x\ny\u{e9}\n\nz";
    let mut editor = editor_with(before_text, at(1, 3), None);
    let before = editor.focus();
    editor.insert_str(inserted);
    assert_eq!(editor.focus(), at(4, 1));
    editor.set_selection(Selection { focus: before, anchor: None });
    for _ in 0..inserted.chars().count() {
        editor.delete();
    }
    assert_eq!(text_of(&editor), before_text);
    assert_eq!(editor.focus(), before);
}

#[test]
fn split_then_backspace_restores_the_line() {
    let mut editor = editor_with("abcdef", at(0, 2), None);
    editor.type_char('\n');
    assert_eq!(text_of(&editor), "ab\ncdef");
    assert_eq!(editor.focus(), at(1, 0));
    editor.backspace();
    assert_eq!(text_of(&editor), "abcdef");
    assert_eq!(editor.focus(), at(0, 2));
}

#[test]
fn backspace_and_delete_at_the_ends_do_nothing() {
    let mut editor = editor_with("ab", at(0, 0), None);
    editor.backspace();
    assert_eq!(text_of(&editor), "ab");
    assert_eq!(editor.focus(), at(0, 0));
    let mut editor = editor_with("ab", at(0, 2), None);
    editor.delete();
    assert_eq!(text_of(&editor), "ab");
    assert_eq!(editor.focus(), at(0, 2));
}

#[test]
fn backspace_and_delete_take_one_character() {
    let mut editor = editor_with("abc\ndef", at(0, 2), None);
    editor.backspace();
    assert_eq!(text_of(&editor), "ac\ndef");
    assert_eq!(editor.focus(), at(0, 1));
    editor.delete();
    assert_eq!(text_of(&editor), "a\ndef");
    assert_eq!(editor.focus(), at(0, 1));
    editor.delete();
    assert_eq!(text_of(&editor), "adef");
    assert_eq!(editor.focus(), at(0, 1));
}

#[test]
fn backspace_clamps_first() {
    let mut editor = editor_with("abc", at(0, 9), None);
    editor.backspace();
    assert_eq!(text_of(&editor), "ab");
    assert_eq!(editor.focus(), at(0, 2));
}

#[test]
fn backspace_takes_the_selection_out() {
    let mut editor = editor_with("one\ntwo\nthree", at(0, 1), Some(at(2, 2)));
    editor.backspace();
    assert_eq!(text_of(&editor), "oree");
    assert_eq!(editor.focus(), at(0, 1));
    assert_eq!(editor.anchor(), None);
}

#[test]
fn typing_replaces_the_selection() {
    let mut editor = editor_with("hello world", at(0, 11), Some(at(0, 6)));
    editor.type_char('W');
    assert_eq!(text_of(&editor), "hello W");
    assert_eq!(editor.focus(), at(0, 7));
    assert_eq!(editor.anchor(), None);
    let mut editor = editor_with("hello world", at(0, 0), Some(at(0, 5)));
    editor.insert_str("bye\nbye");
    assert_eq!(text_of(&editor), "bye\nbye world");
    assert_eq!(editor.focus(), at(1, 3));
}

#[test]
fn insert_str_advances_the_cursor() {
    let mut editor = editor_with("ab", at(0, 1), None);
    editor.insert_str("xyz");
    assert_eq!(text_of(&editor), "axyzb");
    assert_eq!(editor.focus(), at(0, 4));
    editor.insert_str("1\n22\n333");
    assert_eq!(text_of(&editor), "axyz1\n22\n333b");
    assert_eq!(editor.focus(), at(2, 3));
    editor.insert_str("\n");
    assert_eq!(editor.focus(), at(3, 0));
    editor.insert_str("");
    assert_eq!(editor.focus(), at(3, 0));
}

#[test]
fn selection_text_is_the_range_in_text_order() {
    let editor = editor_with("one\ntwo\nthree", at(2, 2), Some(at(0, 1)));
    assert_eq!(editor.curr_sel(), Some("ne\ntwo\nth".to_string()));
    let editor = editor_with("one\ntwo\nthree", at(0, 1), Some(at(2, 2)));
    assert_eq!(editor.curr_sel(), Some("ne\ntwo\nth".to_string()));
    let editor = editor_with("one\ntwo\nthree", at(0, 1), Some(at(0, 3)));
    assert_eq!(editor.curr_sel(), Some("ne".to_string()));
    let editor = editor_with("one", at(0, 1), None);
    assert_eq!(editor.curr_sel(), None);
}

#[test]
fn set_selection_brings_lines_onto_the_text() {
    let editor = editor_with("a\nb", at(7, 3), Some(at(9, 1)));
    assert_eq!(editor.focus(), at(1, 3));
    assert_eq!(editor.anchor(), Some(at(1, 1)));
    let editor = editor_with("a\nb", at(1, 1), Some(at(1, 1)));
    assert_eq!(editor.anchor(), None);
    assert_eq!(editor.selection(), Selection { focus: at(1, 1), anchor: None });
}

#[test]
fn tab_goes_to_the_next_multiple_of_four() {
    let mut editor = editor_with("ab", at(0, 2), None);
    editor.tab();
    assert_eq!(text_of(&editor), "ab  ");
    assert_eq!(editor.focus(), at(0, 4));
    editor.tab();
    assert_eq!(text_of(&editor), "ab      ");
    assert_eq!(editor.focus(), at(0, 8));
    let mut editor = editor_with("abc", at(0, 1), None);
    editor.tab();
    assert_eq!(text_of(&editor), "a   bc");
    assert_eq!(editor.focus(), at(0, 4));
    let mut editor = editor_with("abcdefg", at(0, 7), None);
    editor.tab();
    assert_eq!(text_of(&editor), "abcdefg ");
}

#[test]
fn home_toggles_between_indent_and_line_start() {
    let mut editor = editor_with("   abc", at(0, 5), None);
    assert_eq!(editor.indent(), 3);
    editor.home(false);
    assert_eq!(editor.focus(), at(0, 3));
    editor.home(false);
    assert_eq!(editor.focus(), at(0, 0));
    editor.home(true);
    assert_eq!(editor.focus(), at(0, 3));
    assert_eq!(editor.anchor(), Some(at(0, 0)));
    let editor = editor_with(" \t x", at(0, 0), None);
    assert_eq!(editor.indent(), 3);
    let editor = editor_with("   ", at(0, 0), None);
    assert_eq!(editor.indent(), 3);
}

#[test]
fn unindent_takes_up_to_four_leading_spaces() {
    let mut editor = editor_with("      abc", at(0, 8), None);
    editor.unindent();
    assert_eq!(text_of(&editor), "  abc");
    assert_eq!(editor.focus(), at(0, 4));
    editor.unindent();
    assert_eq!(text_of(&editor), "abc");
    assert_eq!(editor.focus(), at(0, 2));
    editor.unindent();
    assert_eq!(text_of(&editor), "abc");
    let mut editor = editor_with("x\n    abc", at(1, 1), None);
    editor.unindent();
    assert_eq!(text_of(&editor), "x\nabc");
    assert_eq!(editor.focus(), at(1, 1));
}

#[test]
fn remove_line_gives_the_line_back() {
    let mut editor = editor_with("one\ntwo\nthree", at(1, 2), None);
    assert_eq!(editor.remove_line(1), "two");
    assert_eq!(text_of(&editor), "one\nthree");
    assert_eq!(editor.focus(), at(1, 0));
    let mut editor = editor_with("one\ntwo", at(1, 2), None);
    assert_eq!(editor.remove_line(0), "one");
    assert_eq!(text_of(&editor), "two");
    assert_eq!(editor.focus(), at(0, 2));
}

#[test]
fn current_line_and_character() {
    let editor = editor_with("one\ntw\u{f6}", at(1, 2), None);
    assert_eq!(editor.curr_ln(), "tw\u{f6}");
    assert_eq!(editor.curr_ln_len(), 3);
    assert_eq!(editor.line_len(0), 3);
    assert_eq!(editor.curr_char(), '\u{f6}');
}

fn span(text: &str, paint: Paint) -> Span {
    Span { text: text.to_string(), paint }
}

#[test]
fn write_line_marks_the_selected_part() {
    let editor = editor_with("one\ntwo\nthree", at(2, 2), Some(at(0, 1)));
    assert_eq!(
        editor.write_line(0),
        vec![span("o", Paint::Plain), span("ne", Paint::Selected), span("", Paint::Plain)]
    );
    assert_eq!(
        editor.write_line(1),
        vec![span("", Paint::Plain), span("two", Paint::Selected), span("", Paint::Plain)]
    );
    assert_eq!(
        editor.write_line(2),
        vec![span("", Paint::Plain), span("th", Paint::Selected), span("ree", Paint::Plain)]
    );
    let editor = editor_with("one\ntwo\nthree", at(1, 1), Some(at(1, 9)));
    assert_eq!(editor.write_line(0), vec![span("one", Paint::Plain)]);
    assert_eq!(
        editor.write_line(1),
        vec![span("t", Paint::Plain), span("wo", Paint::Selected), span("", Paint::Plain)]
    );
    let editor = editor_with("one", at(0, 1), None);
    assert_eq!(editor.write_line(0), vec![span("one", Paint::Plain)]);
}
