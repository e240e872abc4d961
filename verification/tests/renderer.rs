use minime::editor::Editor;
use minime::renderer::{Diff, Layout, Renderer, TermOp};
use minime::selection::{Cursor, Selection};
use minime::renderer::TermOp::{
    ClearFromCursorDown, ClearLine, Flush, Footer, Header, Line, Margin, MoveDown, MoveRight,
    MoveLeft, MoveToColumn, MoveUp, NewLine,
};

fn editor_with(text: &str, ln: usize, col: usize) -> Editor {
    let mut editor = Editor::new();
    editor.set_contents(text);
    editor.set_selection(Selection { focus: Cursor { ln, col }, anchor: None });
    editor
}

fn line(i: usize) -> Vec<TermOp> {
    vec![MoveToColumn(0), ClearLine, Margin(i), Line(i)]
}

fn ten_lines() -> &'static str {
    "0\n1\n2\n3\n4\n5\n6\n7\n8\n9"
}

#[test]
fn text_rows_leaves_room_for_header_and_footer() {
    let plain = Renderer::new(true);
    assert_eq!(plain.text_rows(Some(24)), 24);
    assert_eq!(plain.text_rows(None), usize::MAX);
    let decorated = Renderer::new(true)
        .max_height(Some(10))
        .with_layout(Layout { header_rows: 1, footer_rows: 1, gutter_width: 9 });
    assert_eq!(decorated.text_rows(Some(24)), 8);
    assert_eq!(decorated.text_rows(Some(5)), 3);
    assert_eq!(decorated.text_rows(Some(2)), 0);
    assert_eq!(decorated.text_rows(Some(1)), 0);
    assert_eq!(decorated.text_rows(None), 8);
}

#[test]
fn draw_draws_every_line_and_places_the_cursor() {
    let editor = editor_with("one\ntwo\nthree", 1, 2);
    let mut renderer = Renderer::new(true);
    let ops = renderer.draw(&editor, Some(24));
    let mut expected = vec![MoveToColumn(0)];
    expected.extend(line(0));
    expected.push(NewLine);
    expected.extend(line(1));
    expected.push(NewLine);
    expected.extend(line(2));
    expected.extend(vec![ClearFromCursorDown, MoveUp(1), MoveToColumn(0), MoveRight(2), Flush]);
    assert_eq!(ops, expected);
    let state = renderer.state();
    assert_eq!((state.low, state.high), (0, 3));
    assert_eq!(state.height, 3);
    assert_eq!(state.cursor, Cursor { ln: 1, col: 2 });
    assert_eq!((state.anchor_row, state.anchor_col), (0, 0));
    assert_eq!(state.snapshot, vec!["one", "two", "three"]);
}

#[test]
fn draw_with_decoration() {
    let editor = editor_with("one\ntwo", 0, 9);
    let mut renderer =
        Renderer::new(true).with_layout(Layout { header_rows: 1, footer_rows: 1, gutter_width: 9 });
    let ops = renderer.draw(&editor, Some(24));
    let mut expected = vec![MoveToColumn(0), MoveToColumn(0), ClearLine, Header, NewLine];
    expected.extend(line(0));
    expected.push(NewLine);
    expected.extend(line(1));
    expected.extend(vec![NewLine, MoveToColumn(0), ClearLine, Footer]);
    expected.extend(vec![ClearFromCursorDown, MoveUp(2), MoveToColumn(9), MoveRight(3), Flush]);
    assert_eq!(ops, expected);
    let state = renderer.state();
    assert_eq!(state.height, 4);
    assert_eq!(state.cursor, Cursor { ln: 0, col: 3 });
    assert_eq!((state.anchor_row, state.anchor_col), (1, 9));

    let again = renderer.draw(&editor, Some(24));
    assert_eq!(again[0], MoveUp(1));
    assert_eq!(again[1..], expected[..]);
}

#[test]
fn draw_without_rows_does_nothing() {
    let editor = editor_with("one", 0, 0);
    let mut renderer =
        Renderer::new(true).with_layout(Layout { header_rows: 1, footer_rows: 1, gutter_width: 0 });
    assert_eq!(renderer.draw(&editor, Some(2)), vec![]);
    assert_eq!(renderer.state().height, 0);
}

#[test]
fn draw_shows_a_window_of_a_long_text() {
    let editor = editor_with(ten_lines(), 7, 0);
    let mut renderer = Renderer::new(true);
    let ops = renderer.draw(&editor, Some(5));
    let drawn: Vec<usize> = ops
        .iter()
        .filter_map(|op| match op {
            Line(i) => Some(*i),
            _ => None,
        })
        .collect();
    assert_eq!(drawn, vec![3, 4, 5, 6, 7]);
    let state = renderer.state();
    assert_eq!((state.low, state.high), (3, 8));
    assert_eq!(state.height, 5);
    assert_eq!(state.cursor, Cursor { ln: 4, col: 0 });
    assert_eq!(state.snapshot, vec!["3", "4", "5", "6", "7"]);
    assert_eq!(ops[ops.len() - 3..], [ClearFromCursorDown, MoveToColumn(0), Flush]);
}

#[test]
fn first_redraw_draws_everything() {
    let editor = editor_with("one\ntwo", 0, 0);
    let mut renderer = Renderer::new(true);
    assert_eq!(renderer.find_diff(&editor, Some(24)), Diff::RedrawAll);
    let ops = renderer.redraw(&editor, Some(24));
    let mut expected = vec![MoveToColumn(0)];
    expected.extend(line(0));
    expected.push(NewLine);
    expected.extend(line(1));
    expected.extend(vec![ClearFromCursorDown, MoveUp(1), MoveToColumn(0), Flush]);
    assert_eq!(ops, expected);
}

#[test]
fn redraw_of_an_unchanged_text_does_nothing() {
    let editor = editor_with("one\ntwo", 1, 1);
    let mut renderer = Renderer::new(true);
    renderer.redraw(&editor, Some(24));
    assert_eq!(renderer.find_diff(&editor, Some(24)), Diff::NoChange);
    assert_eq!(renderer.redraw(&editor, Some(24)), vec![]);
}

#[test]
fn redraw_after_a_move_only_moves_the_cursor() {
    let mut editor = editor_with("one\ntwo\nthree", 1, 2);
    let mut renderer = Renderer::new(true);
    renderer.draw(&editor, Some(24));
    editor.move_right(false);
    assert_eq!(renderer.find_diff(&editor, Some(24)), Diff::RedrawCursor);
    assert_eq!(renderer.redraw(&editor, Some(24)), vec![MoveRight(1), Flush]);
    editor.move_up(false);
    editor.move_left(false);
    editor.move_left(false);
    assert_eq!(renderer.redraw(&editor, Some(24)), vec![MoveUp(1), MoveLeft(2), Flush]);
    editor.move_to_bottom(false);
    editor.move_to_line_end(false);
    assert_eq!(renderer.redraw(&editor, Some(24)), vec![MoveDown(2), MoveRight(4), Flush]);
    assert_eq!(renderer.state().cursor, Cursor { ln: 2, col: 5 });
}

#[test]
fn redraw_of_a_column_past_the_line_end_does_nothing() {
    let mut editor = editor_with("abcdef\nab", 1, 2);
    let mut renderer = Renderer::new(true);
    renderer.draw(&editor, Some(24));
    editor.move_to_col(6, false);
    assert_eq!(renderer.redraw(&editor, Some(24)), vec![]);
}

#[test]
fn redraw_of_one_changed_line_draws_only_that_line() {
    let mut editor = editor_with("one\ntwo\nthree", 1, 3);
    let mut renderer = Renderer::new(true);
    renderer.draw(&editor, Some(24));
    editor.type_char('x');
    assert_eq!(renderer.find_diff(&editor, Some(24)), Diff::RedrawLine(1));
    let ops = renderer.redraw(&editor, Some(24));
    assert_eq!(ops, vec![MoveToColumn(0), ClearLine, Margin(1), Line(1), Flush]);
    assert_eq!(renderer.state().snapshot, vec!["one", "twox", "three"]);
    assert_eq!(renderer.state().cursor, Cursor { ln: 1, col: 4 });
    assert_eq!(renderer.redraw(&editor, Some(24)), vec![]);

    editor.move_left(false);
    editor.move_left(false);
    renderer.redraw(&editor, Some(24));
    editor.backspace();
    let ops = renderer.redraw(&editor, Some(24));
    assert_eq!(
        ops,
        vec![MoveToColumn(0), ClearLine, Margin(1), Line(1), MoveLeft(2), Flush]
    );
    assert_eq!(renderer.state().snapshot, vec!["one", "tox", "three"]);
}

#[test]
fn redraw_of_a_changed_line_away_from_the_cursor() {
    let mut editor = editor_with("one\ntwo\nthree", 0, 3);
    let mut renderer = Renderer::new(true);
    renderer.draw(&editor, Some(24));
    editor.type_char('!');
    editor.move_to_bottom(false);
    let ops = renderer.redraw(&editor, Some(24));
    assert_eq!(
        ops,
        vec![MoveToColumn(0), ClearLine, Margin(0), Line(0), MoveDown(2), Flush]
    );
    assert_eq!(renderer.state().cursor, Cursor { ln: 2, col: 4 });
}

#[test]
fn redraw_of_several_changed_lines_draws_everything() {
    let mut editor = editor_with("one\ntwo\nthree", 1, 1);
    let mut renderer = Renderer::new(true);
    renderer.draw(&editor, Some(24));
    editor.type_char('\n');
    assert_eq!(renderer.find_diff(&editor, Some(24)), Diff::RedrawAll);
    let ops = renderer.redraw(&editor, Some(24));
    let mut expected =
        vec![MoveDown(1), ClearLine, MoveUp(2), MoveToColumn(0), ClearFromCursorDown];
    expected.push(MoveToColumn(0));
    expected.extend(line(0));
    expected.push(NewLine);
    expected.extend(line(1));
    expected.push(NewLine);
    expected.extend(line(2));
    expected.push(NewLine);
    expected.extend(line(3));
    expected.extend(vec![ClearFromCursorDown, MoveUp(1), MoveToColumn(0), Flush]);
    assert_eq!(ops, expected);
    assert_eq!(renderer.state().snapshot, vec!["one", "t", "wo", "three"]);
}

#[test]
fn redraw_after_a_scroll_draws_everything() {
    let mut editor = editor_with(ten_lines(), 4, 0);
    let mut renderer = Renderer::new(true);
    renderer.draw(&editor, Some(5));
    assert_eq!((renderer.state().low, renderer.state().high), (0, 5));
    editor.move_down(false);
    assert_eq!(renderer.find_diff(&editor, Some(5)), Diff::RedrawAll);
    renderer.redraw(&editor, Some(5));
    assert_eq!((renderer.state().low, renderer.state().high), (1, 6));
    assert_eq!(renderer.state().snapshot, vec!["1", "2", "3", "4", "5"]);
    editor.move_up(false);
    assert_eq!(renderer.redraw(&editor, Some(5)), vec![MoveUp(1), Flush]);
    assert_eq!((renderer.state().low, renderer.state().high), (1, 6));
}

#[test]
fn a_renderer_that_is_not_lazy_always_draws_everything() {
    let editor = editor_with("one", 0, 1);
    let mut renderer = Renderer::new(false);
    renderer.draw(&editor, Some(24));
    assert_eq!(renderer.find_diff(&editor, Some(24)), Diff::RedrawAll);
    let ops = renderer.redraw(&editor, Some(24));
    let mut expected = vec![ClearLine, MoveToColumn(0), ClearFromCursorDown, MoveToColumn(0)];
    expected.extend(line(0));
    expected.extend(vec![ClearFromCursorDown, MoveToColumn(0), MoveRight(1), Flush]);
    assert_eq!(ops, expected);
}

#[test]
fn clear_draw_clears_the_frame() {
    let editor = editor_with("one\ntwo\nthree", 0, 1);
    let mut renderer =
        Renderer::new(true).with_layout(Layout { header_rows: 1, footer_rows: 1, gutter_width: 4 });
    assert_eq!(renderer.clear_draw(), vec![]);
    renderer.draw(&editor, Some(24));
    assert_eq!(
        renderer.clear_draw(),
        vec![MoveDown(3), ClearLine, MoveUp(4), MoveToColumn(0), ClearFromCursorDown]
    );
    let state = renderer.state();
    assert_eq!((state.low, state.high, state.height), (0, 0, 0));
    assert_eq!(state.cursor, Cursor { ln: 0, col: 0 });
    assert!(state.snapshot.is_empty());
    assert_eq!(renderer.clear_draw(), vec![]);
}

#[test]
fn finish_clears_and_flushes() {
    let editor = editor_with("one\ntwo", 1, 0);
    let mut renderer = Renderer::new(true);
    renderer.draw(&editor, Some(24));
    assert_eq!(
        renderer.finish(),
        vec![ClearLine, MoveUp(1), MoveToColumn(0), ClearFromCursorDown, Flush]
    );
    assert_eq!(renderer.finish(), vec![Flush]);
}
