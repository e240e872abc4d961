use minime::editor::Editor;
use minime::keybindings::{
    ClipboardAction, DebugKeybinding, KeyCode, KeyEvent, NormalKeybinding,
};
use minime::selection::{Cursor, Selection};

fn key(code: KeyCode) -> KeyEvent {
    KeyEvent { code, shift: false, control: false, alt: false }
}

fn shift(code: KeyCode) -> KeyEvent {
    KeyEvent { code, shift: true, control: false, alt: false }
}

fn at(ln: usize, col: usize) -> Cursor {
    Cursor { ln, col }
}

fn editor_with(text: &str, focus: Cursor) -> Editor {
    let mut editor = Editor::new();
    editor.set_contents(text);
    editor.set_selection(Selection { focus, anchor: None });
    editor
}

fn press(editor: &mut Editor, event: KeyEvent) -> bool {
    NormalKeybinding::process_key_event(editor, event)
}

#[test]
fn escape_ends_the_session() {
    let mut editor = editor_with("abc", at(0, 1));
    assert!(!press(&mut editor, key(KeyCode::Esc)));
    assert_eq!(editor.contents(), "abc");
    assert_eq!(editor.focus(), at(0, 1));
}

#[test]
fn enter_on_an_empty_last_line_ends_the_session() {
    let mut editor = Editor::new();
    assert!(!press(&mut editor, key(KeyCode::Enter)));
    assert_eq!(editor.contents(), "");
    let mut editor = editor_with("abc\n", at(1, 0));
    assert!(!press(&mut editor, key(KeyCode::Enter)));
    assert_eq!(editor.contents(), "abc");
}

#[test]
fn enter_elsewhere_breaks_the_line() {
    let mut editor = editor_with("\nabc", at(0, 0));
    assert!(press(&mut editor, key(KeyCode::Enter)));
    assert_eq!(editor.line_count(), 3);
    assert_eq!(editor.focus(), at(1, 0));
    let mut editor = editor_with("abc", at(0, 3));
    assert!(press(&mut editor, key(KeyCode::Enter)));
    assert_eq!(editor.line_count(), 2);
    assert_eq!(editor.focus(), at(1, 0));
}

#[test]
fn enter_with_alt_always_breaks_the_line() {
    let mut editor = Editor::new();
    let event = KeyEvent { code: KeyCode::Enter, shift: false, control: false, alt: true };
    assert!(press(&mut editor, event));
    assert_eq!(editor.line_count(), 2);
    assert_eq!(editor.focus(), at(1, 0));
}

#[test]
fn arrows_move_and_shift_extends() {
    let mut editor = editor_with("abc\ndef", at(0, 1));
    assert!(press(&mut editor, key(KeyCode::Right)));
    assert_eq!(editor.focus(), at(0, 2));
    assert!(press(&mut editor, key(KeyCode::Down)));
    assert_eq!(editor.focus(), at(1, 2));
    assert!(press(&mut editor, key(KeyCode::Left)));
    assert_eq!(editor.focus(), at(1, 1));
    assert!(press(&mut editor, key(KeyCode::Up)));
    assert_eq!(editor.focus(), at(0, 1));
    assert_eq!(editor.anchor(), None);
    assert!(press(&mut editor, shift(KeyCode::Down)));
    assert_eq!(editor.focus(), at(1, 1));
    assert_eq!(editor.anchor(), Some(at(0, 1)));
    assert!(press(&mut editor, key(KeyCode::Right)));
    assert_eq!(editor.anchor(), None);
}

#[test]
fn page_keys_jump_to_the_ends() {
    let mut editor = editor_with("a\nb\nc\nd", at(1, 1));
    assert!(press(&mut editor, key(KeyCode::PageDown)));
    assert_eq!(editor.focus(), at(3, 1));
    assert!(press(&mut editor, key(KeyCode::PageUp)));
    assert_eq!(editor.focus(), at(0, 1));
}

#[test]
fn home_and_end() {
    let mut editor = editor_with("  abc", at(0, 4));
    assert!(press(&mut editor, key(KeyCode::Home)));
    assert_eq!(editor.focus(), at(0, 2));
    assert!(press(&mut editor, key(KeyCode::Home)));
    assert_eq!(editor.focus(), at(0, 0));
    assert!(press(&mut editor, key(KeyCode::End)));
    assert_eq!(editor.focus(), at(0, 5));
}

#[test]
fn backspace_delete_and_control_h() {
    let mut editor = editor_with("abcd", at(0, 2));
    assert!(press(&mut editor, key(KeyCode::Backspace)));
    assert_eq!(editor.contents(), "acd");
    assert!(press(&mut editor, key(KeyCode::Delete)));
    assert_eq!(editor.contents(), "ad");
    let event = KeyEvent { code: KeyCode::Char('h'), shift: false, control: true, alt: false };
    assert!(press(&mut editor, event));
    assert_eq!(editor.contents(), "d");
    assert!(press(&mut editor, key(KeyCode::Char('h'))));
    assert_eq!(editor.contents(), "hd");
}

#[test]
fn tab_and_back_tab() {
    let mut editor = editor_with("ab", at(0, 1));
    assert!(press(&mut editor, key(KeyCode::Tab)));
    assert_eq!(editor.contents(), "a   b");
    assert_eq!(editor.focus(), at(0, 4));
    let mut editor = editor_with("     ab", at(0, 6));
    assert!(press(&mut editor, key(KeyCode::BackTab)));
    assert_eq!(editor.contents(), " ab");
    assert_eq!(editor.focus(), at(0, 2));
}

#[test]
fn other_keys_change_nothing() {
    let mut editor = editor_with("abc", at(0, 1));
    assert!(press(&mut editor, key(KeyCode::Other)));
    assert_eq!(editor.contents(), "abc");
    assert_eq!(editor.focus(), at(0, 1));
}

#[test]
fn debug_keys_type_the_description() {
    let mut editor = Editor::new();
    assert!(DebugKeybinding::process_key_event(&mut editor, key(KeyCode::Tab), "Tab\npressed"));
    assert_eq!(editor.contents(), "Tab\npressed");
    assert_eq!(editor.focus(), at(1, 7));
    assert!(!DebugKeybinding::process_key_event(&mut editor, key(KeyCode::Esc), "Esc"));
    assert_eq!(editor.contents(), "Tab\npressed");
}

fn control(c: char) -> KeyEvent {
    KeyEvent { code: KeyCode::Char(c), shift: false, control: true, alt: false }
}

#[test]
fn copy_takes_the_selection_or_the_line() {
    let mut editor = editor_with("one\ntwo", at(1, 1));
    assert_eq!(
        NormalKeybinding::clipboard_key(&mut editor, control('c')),
        ClipboardAction::Copy("two".to_string())
    );
    editor.move_right(true);
    assert_eq!(
        NormalKeybinding::clipboard_key(&mut editor, control('c')),
        ClipboardAction::Copy("w".to_string())
    );
    assert_eq!(editor.contents(), "one\ntwo");
    assert_eq!(editor.anchor(), Some(at(1, 1)));
}

#[test]
fn cut_takes_the_text_out() {
    let mut editor = editor_with("one\ntwo\nthree", at(1, 1));
    editor.move_right(true);
    assert_eq!(
        NormalKeybinding::clipboard_key(&mut editor, control('x')),
        ClipboardAction::Cut("w".to_string())
    );
    assert_eq!(editor.contents(), "one\nto\nthree");
    assert_eq!(editor.focus(), at(1, 1));
    assert_eq!(
        NormalKeybinding::clipboard_key(&mut editor, control('x')),
        ClipboardAction::Cut("to".to_string())
    );
    assert_eq!(editor.contents(), "one\nthree");
    assert_eq!(editor.focus(), at(1, 0));
}

#[test]
fn paste_and_other_keys() {
    let mut editor = editor_with("one", at(0, 1));
    assert_eq!(NormalKeybinding::clipboard_key(&mut editor, control('v')), ClipboardAction::Paste);
    assert_eq!(
        NormalKeybinding::clipboard_key(&mut editor, control('a')),
        ClipboardAction::Nothing
    );
    assert_eq!(
        NormalKeybinding::clipboard_key(&mut editor, key(KeyCode::Char('c'))),
        ClipboardAction::Nothing
    );
    assert_eq!(
        NormalKeybinding::clipboard_key(&mut editor, key(KeyCode::Enter)),
        ClipboardAction::Nothing
    );
    assert_eq!(editor.contents(), "one");
}
