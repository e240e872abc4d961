//! The keys: what each key press does to the editor, and whether the session
//! goes on after it.

use vstd::prelude::*;
use crate::editor::Editor;
use crate::model::EditorView;
use crate::text::{line_count, line_text};

verus! {

/// A key.
#[derive(Debug, Clone, Copy, PartialEq, Eq, Structural)]
pub enum KeyCode {
    Backspace,
    Enter,
    Left,
    Right,
    Up,
    Down,
    Home,
    End,
    PageUp,
    PageDown,
    Tab,
    BackTab,
    Delete,
    Esc,
    /// A key that stands for a character.
    Char(char),
    /// Any other key.
    Other,
}

/// A key press: the key, and the modifier keys that were held with it.
#[derive(Debug, Clone, Copy, PartialEq, Eq, Structural)]
pub struct KeyEvent {
    pub code: KeyCode,
    pub shift: bool,
    pub control: bool,
    pub alt: bool,
}

/// Whether a key press ends the session: escape does, and so does enter on
/// the last line where that line is empty, unless alt is held.
pub open spec fn ends_session(v: EditorView, event: KeyEvent) -> bool {
    match event.code {
        KeyCode::Esc => true,
        KeyCode::Enter => !event.alt && v.len_at(v.focus) == 0 && v.focus.ln + 1 == line_count(
            v.text,
        ),
        _ => false,
    }
}

/// The editor after a key press. The arrows move the cursor, page up and
/// page down move it to the first and the last line, home and end along its
/// line, each extending the selection while shift is held. Backspace, and `h`
/// with control, and delete take text out; tab and back tab step the
/// indentation; enter and the characters are typed. A key press that ends the
/// session changes nothing, and so does any other key.
pub open spec fn pressed(v: EditorView, event: KeyEvent) -> EditorView {
    if ends_session(v, event) {
        v
    } else {
        match event.code {
            KeyCode::Down => v.move_down(event.shift),
            KeyCode::Up => v.move_up(event.shift),
            KeyCode::Left => v.move_left(event.shift),
            KeyCode::Right => v.move_right(event.shift),
            KeyCode::PageDown => v.move_to_bottom(event.shift),
            KeyCode::PageUp => v.move_to_top(event.shift),
            KeyCode::Home => v.home(event.shift),
            KeyCode::End => v.move_to_line_end(event.shift),
            KeyCode::Backspace => v.backspace(),
            KeyCode::Delete => v.delete(),
            KeyCode::Tab => v.tab(),
            KeyCode::BackTab => v.unindent(),
            KeyCode::Enter => v.type_char('\n'),
            KeyCode::Char(c) => if c == 'h' && event.control {
                v.backspace()
            } else {
                v.type_char(c)
            },
            KeyCode::Esc => v,
            KeyCode::Other => v,
        }
    }
}

/// The usual keys of the editor.
#[derive(Debug, Clone, Copy, PartialEq, Eq, Structural)]
pub struct NormalKeybinding;

impl NormalKeybinding {
    /// Do to the editor what a key press asks for. The result says whether
    /// the session goes on.
    pub fn process_key_event(editor: &mut Editor, event: KeyEvent) -> (go_on: bool)
        requires
            old(editor)@.wf(),
        ensures
            go_on == !ends_session(old(editor)@, event),
            final(editor)@ == pressed(old(editor)@, event),
            final(editor)@.wf(),
    {
        let shifted = event.shift;
        match event.code {
            KeyCode::Down => editor.move_down(shifted),
            KeyCode::Up => editor.move_up(shifted),
            KeyCode::Left => editor.move_left(shifted),
            KeyCode::Right => editor.move_right(shifted),
            KeyCode::PageDown => editor.move_to_bottom(shifted),
            KeyCode::PageUp => editor.move_to_top(shifted),
            KeyCode::Home => editor.home(shifted),
            KeyCode::End => editor.move_to_line_end(shifted),
            KeyCode::Backspace => editor.backspace(),
            KeyCode::Delete => editor.delete(),
            KeyCode::Tab => editor.tab(),
            KeyCode::BackTab => editor.unindent(),
            KeyCode::Esc => {
                return false;
            },
            KeyCode::Enter => {
                let lines = editor.line_count();
                if !event.alt && editor.curr_ln_len() == 0 && editor.focus().ln + 1 == lines {
                    return false;
                } else {
                    editor.type_char('\n');
                }
            },
            KeyCode::Char(c) => {
                if c == 'h' && event.control {
                    editor.backspace();
                } else {
                    editor.type_char(c);
                }
            },
            KeyCode::Other => {},
        }
        true
    }
}

/// Keys for trying the editor out: escape ends the session, and every other
/// key press types a description of itself.
#[derive(Debug, Clone, Copy, PartialEq, Eq, Structural)]
pub struct DebugKeybinding;

impl DebugKeybinding {
    /// Type `description`, which describes the key press `event`, unless the
    /// key is escape. The result says whether the session goes on.
    pub fn process_key_event(editor: &mut Editor, event: KeyEvent, description: &str) -> (go_on:
        bool)
        requires
            old(editor)@.wf(),
        ensures
            go_on == !(event.code is Esc),
            final(editor)@ == if event.code is Esc {
                old(editor)@
            } else {
                old(editor)@.insert_str(description@)
            },
            final(editor)@.wf(),
    {
        match event.code {
            KeyCode::Esc => false,
            _ => {
                editor.insert_str(description);
                true
            },
        }
    }
}

/// What a key press asks of the clipboard.
#[derive(Debug, Clone, PartialEq, Eq)]
pub enum ClipboardAction {
    /// Nothing: the key is not one of the clipboard's.
    Nothing,
    /// Put this text on the clipboard.
    Copy(String),
    /// Put this text, which was taken out of the editor, on the clipboard.
    Cut(String),
    /// Type what is on the clipboard.
    Paste,
}

/// The text that copy and cut take: the selection, or without one the line
/// of the cursor.
pub open spec fn clipboard_text(v: EditorView) -> Seq<char> {
    match v.curr_sel() {
        Some(s) => s,
        None => line_text(v.text, v.focus.ln),
    }
}

/// The editor after a key press of the clipboard's. Cut takes the selection
/// out, or without one the line of the cursor; the other keys change nothing.
pub open spec fn clipped(v: EditorView, event: KeyEvent) -> EditorView {
    if event.control && event.code == KeyCode::Char('x') {
        if v.anchor is Some {
            v.delete()
        } else {
            v.remove_line(v.focus.ln)
        }
    } else {
        v
    }
}

impl NormalKeybinding {
    /// See whether a key press is one of the clipboard's, which are `c`, `x`
    /// and `v` with control, and do to the editor what it asks for. What is
    /// to be done with the clipboard is handed back.
    pub fn clipboard_key(editor: &mut Editor, event: KeyEvent) -> (action: ClipboardAction)
        requires
            old(editor)@.wf(),
        ensures
            final(editor)@ == clipped(old(editor)@, event),
            final(editor)@.wf(),
            match action {
                ClipboardAction::Nothing => !event.control || (event.code != KeyCode::Char('c')
                    && event.code != KeyCode::Char('x') && event.code != KeyCode::Char('v')),
                ClipboardAction::Copy(s) => event.control && event.code == KeyCode::Char('c')
                    && s@ == clipboard_text(old(editor)@),
                ClipboardAction::Cut(s) => event.control && event.code == KeyCode::Char('x')
                    && s@ == clipboard_text(old(editor)@),
                ClipboardAction::Paste => event.control && event.code == KeyCode::Char('v'),
            },
    {
        if !event.control {
            return ClipboardAction::Nothing;
        }
        match event.code {
            KeyCode::Char(c) => {
                if c == 'c' {
                    match editor.curr_sel() {
                        Some(s) => ClipboardAction::Copy(s),
                        None => ClipboardAction::Copy(editor.curr_ln()),
                    }
                } else if c == 'x' {
                    match editor.curr_sel() {
                        Some(s) => {
                            editor.delete();
                            ClipboardAction::Cut(s)
                        },
                        None => {
                            let line = editor.focus().ln;
                            ClipboardAction::Cut(editor.remove_line(line))
                        },
                    }
                } else if c == 'v' {
                    ClipboardAction::Paste
                } else {
                    ClipboardAction::Nothing
                }
            },
            _ => ClipboardAction::Nothing,
        }
    }
}

} // verus!
