//! The editor: a text buffer with a cursor and a selection, and the
//! operations that edit the one and move the other.

use vstd::prelude::*;
use crate::buffer::Buffer;
use crate::model::EditorView;
use crate::selection::{place_of, Cursor, Selection};
use crate::styles::{shown, Paint, Span};
use crate::text::{
    count_breaks, insert_at, is_break, lemma_count_breaks_one,
    lemma_insert_at_breaks, lemma_leading_whitespace, line_end, line_start, spaces, white_space,
    lemma_insert_at_line_start, lemma_line_bounds, lemma_line_of_within, lemma_line_start,
    lemma_line_start_is, lemma_remove_range_breaks, lemma_within_line_of, line_count, line_len,
    line_text,
    trimmed,
};

verus! {

/// The editable document. Its focus and its anchor always lie on lines that
/// the text has.
pub struct Editor {
    selection: Selection,
    buf: Buffer,
}

impl View for Editor {
    type V = EditorView;

    closed spec fn view(&self) -> EditorView {
        EditorView {
            text: self.buf@,
            focus: self.selection.focus@,
            anchor: place_of(self.selection.anchor),
        }
    }
}

impl Default for Editor {
    fn default() -> (e: Editor)
        ensures
            e@.text == Seq::<char>::empty(),
            e.focus() == (Cursor { ln: 0, col: 0 }),
            e@.anchor is None,
            e@.wf(),
    {
        Editor::new()
    }
}

impl Editor {
    /// An editor with an empty text and the cursor at its start.
    pub fn new() -> (e: Editor)
        ensures
            e@.text == Seq::<char>::empty(),
            e.focus() == (Cursor { ln: 0, col: 0 }),
            e@.anchor is None,
            e@.wf(),
    {
        Editor { selection: Selection::default(), buf: Buffer::new() }
    }

    /// Replace the text. The cursor goes to the start and the selection is
    /// dropped.
    pub fn set_contents(&mut self, text: &str)
        ensures
            final(self)@.text == text@,
            final(self).focus() == (Cursor { ln: 0, col: 0 }),
            final(self)@.anchor is None,
            final(self)@.wf(),
    {
        self.buf = Buffer::from_str(text);
        self.selection = Selection::default();
    }

    /// The text without one trailing line break.
    pub fn contents(&self) -> (s: String)
        ensures
            s@ == trimmed(self@.text),
    {
        self.buf.trimmed()
    }

    /// The number of lines.
    pub fn line_count(&self) -> (n: usize)
        ensures
            n == line_count(self@.text),
            n >= 1,
    {
        self.buf.len_lines()
    }

    /// The number of characters, line breaks counted.
    pub fn char_count(&self) -> (n: usize)
        ensures
            n == self@.text.len(),
    {
        self.buf.len_chars()
    }

    /// Line `index` without its line break.
    pub fn line(&self, index: usize) -> (s: String)
        requires
            index < line_count(self@.text),
        ensures
            s@ == line_text(self@.text, index as nat),
    {
        self.buf.line_trimmed(index)
    }

    /// The number of characters on line `index`, its line break not counted.
    pub fn line_len(&self, index: usize) -> (n: usize)
        requires
            index < line_count(self@.text),
        ensures
            n == line_len(self@.text, index as nat),
            n == line_text(self@.text, index as nat).len(),
    {
        proof {
            lemma_line_bounds(self@.text, index as nat);
        }
        self.buf.line_len(index)
    }

    /// The last line.
    pub fn last_line(&self) -> (s: String)
        ensures
            s@ == line_text(self@.text, (line_count(self@.text) - 1) as nat),
    {
        self.buf.line_trimmed(self.buf.len_lines() - 1)
    }

    /// The cursor, as the editor holds it.
    pub closed spec fn focus_spec(&self) -> Cursor {
        self.selection.focus
    }

    /// The anchor, as the editor holds it.
    pub closed spec fn anchor_spec(&self) -> Option<Cursor> {
        self.selection.anchor
    }

    /// The cursor and the anchor that the editor holds are those of its view.
    pub proof fn lemma_view(&self)
        ensures
            self@.focus == self.focus_spec()@,
            self@.anchor == place_of(self.anchor_spec()),
    {
    }

    /// Where the cursor is.
    #[verifier::when_used_as_spec(focus_spec)]
    pub fn focus(&self) -> (c: Cursor)
        ensures
            c == self.focus_spec(),
            c@ == self@.focus,
    {
        self.selection.focus
    }

    /// Where the selection began, if there is one.
    #[verifier::when_used_as_spec(anchor_spec)]
    pub fn anchor(&self) -> (a: Option<Cursor>)
        ensures
            a == self.anchor_spec(),
            place_of(a) == self@.anchor,
    {
        self.selection.anchor
    }

    /// Focus and anchor.
    pub fn selection(&self) -> (s: Selection)
        ensures
            s@ == self@.selection(),
            s.focus == self.focus_spec(),
            s.anchor == self.anchor_spec(),
    {
        self.selection
    }

    /// The length of the line of the cursor.
    pub fn curr_ln_len(&self) -> (n: usize)
        requires
            self@.wf(),
        ensures
            n == self@.len_at(self@.focus),
    {
        self.buf.line_len(self.selection.focus.ln)
    }

    /// The line of the cursor, without its line break.
    pub fn curr_ln(&self) -> (s: String)
        requires
            self@.wf(),
        ensures
            s@ == line_text(self@.text, self@.focus.ln as nat),
    {
        self.buf.line_trimmed(self.selection.focus.ln)
    }

    /// Bring the column of the cursor back onto its line.
    pub fn clamp(&mut self)
        requires
            old(self)@.wf(),
        ensures
            final(self)@ == old(self)@.clamped(),
            final(self)@.wf(),
            final(self)@.focus.col <= final(self)@.len_at(final(self)@.focus),
    {
        let len = self.curr_ln_len();
        if self.selection.focus.col > len {
            self.selection.focus.col = len;
        }
    }

    /// Move the cursor right, over the end of a line to the start of the
    /// next. With `anchored` the selection is extended, else it is dropped.
    pub fn move_right(&mut self, anchored: bool)
        requires
            old(self)@.wf(),
        ensures
            final(self)@ == old(self)@.move_right(anchored),
            !anchored ==> final(self)@.anchor is None,
            final(self)@.anchor != Some(final(self)@.focus),
            old(self)@.anchor == Some(final(self)@.focus) ==> final(self)@.anchor is None,
            final(self)@.wf(),
    {
        self.clamp();
        self.selection.set_anchor(anchored);
        let len = self.curr_ln_len();
        let lines = self.line_count();
        if self.selection.focus.col < len {
            self.selection.focus.col += 1;
        } else if self.selection.focus.ln + 1 < lines {
            self.selection.focus.ln += 1;
            self.selection.focus.col = 0;
        }
        self.selection.fix_anchor();
    }

    /// Move the cursor left, over the start of a line to the end of the one
    /// above. With `anchored` the selection is extended, else it is dropped.
    pub fn move_left(&mut self, anchored: bool)
        requires
            old(self)@.wf(),
        ensures
            final(self)@ == old(self)@.move_left(anchored),
            !anchored ==> final(self)@.anchor is None,
            final(self)@.anchor != Some(final(self)@.focus),
            old(self)@.anchor == Some(final(self)@.focus) ==> final(self)@.anchor is None,
            final(self)@.wf(),
    {
        self.clamp();
        self.selection.set_anchor(anchored);
        if self.selection.focus.col > 0 {
            self.selection.focus.col -= 1;
        } else if self.selection.focus.ln > 0 {
            self.selection.focus.ln -= 1;
            self.selection.focus.col = self.curr_ln_len();
        }
        self.selection.fix_anchor();
    }

    /// Move the cursor one line up; on the first line, to its start. With
    /// `anchored` the selection is extended, else it is dropped.
    pub fn move_up(&mut self, anchored: bool)
        requires
            old(self)@.wf(),
        ensures
            final(self)@ == old(self)@.move_up(anchored),
            !anchored ==> final(self)@.anchor is None,
            final(self)@.anchor != Some(final(self)@.focus),
            old(self)@.anchor == Some(final(self)@.focus) ==> final(self)@.anchor is None,
            final(self)@.wf(),
    {
        self.selection.set_anchor(anchored);
        if self.selection.focus.ln == 0 {
            self.selection.focus.col = 0;
        } else {
            self.selection.focus.ln -= 1;
        }
        self.selection.fix_anchor();
    }

    /// Move the cursor one line down; on the last line, to its end. With
    /// `anchored` the selection is extended, else it is dropped.
    pub fn move_down(&mut self, anchored: bool)
        requires
            old(self)@.wf(),
        ensures
            final(self)@ == old(self)@.move_down(anchored),
            !anchored ==> final(self)@.anchor is None,
            final(self)@.anchor != Some(final(self)@.focus),
            old(self)@.anchor == Some(final(self)@.focus) ==> final(self)@.anchor is None,
            final(self)@.wf(),
    {
        self.selection.set_anchor(anchored);
        let lines = self.line_count();
        if self.selection.focus.ln + 1 == lines {
            self.selection.focus.col = self.curr_ln_len();
        } else {
            self.selection.focus.ln += 1;
        }
        self.selection.fix_anchor();
    }

    /// Move the cursor to a column of its line. With `anchored` the selection
    /// is extended, else it is dropped.
    pub fn move_to_col(&mut self, col: usize, anchored: bool)
        requires
            old(self)@.wf(),
        ensures
            final(self)@ == old(self)@.move_to_col(col as nat, anchored),
            !anchored ==> final(self)@.anchor is None,
            final(self)@.anchor != Some(final(self)@.focus),
            old(self)@.anchor == Some(final(self)@.focus) ==> final(self)@.anchor is None,
            final(self)@.wf(),
    {
        self.selection.set_anchor(anchored);
        self.selection.focus.col = col;
        self.selection.fix_anchor();
    }

    /// Move the cursor to the start of its line.
    pub fn move_to_line_start(&mut self, anchored: bool)
        requires
            old(self)@.wf(),
        ensures
            final(self)@ == old(self)@.move_to_line_start(anchored),
            !anchored ==> final(self)@.anchor is None,
            final(self)@.anchor != Some(final(self)@.focus),
            old(self)@.anchor == Some(final(self)@.focus) ==> final(self)@.anchor is None,
            final(self)@.wf(),
    {
        self.move_to_col(0, anchored);
    }

    /// Move the cursor to the end of its line.
    pub fn move_to_line_end(&mut self, anchored: bool)
        requires
            old(self)@.wf(),
        ensures
            final(self)@ == old(self)@.move_to_line_end(anchored),
            !anchored ==> final(self)@.anchor is None,
            final(self)@.anchor != Some(final(self)@.focus),
            old(self)@.anchor == Some(final(self)@.focus) ==> final(self)@.anchor is None,
            final(self)@.wf(),
    {
        let len = self.curr_ln_len();
        self.move_to_col(len, anchored);
    }

    /// Move the cursor to the first line, its column kept.
    pub fn move_to_top(&mut self, anchored: bool)
        requires
            old(self)@.wf(),
        ensures
            final(self)@ == old(self)@.move_to_top(anchored),
            !anchored ==> final(self)@.anchor is None,
            final(self)@.anchor != Some(final(self)@.focus),
            old(self)@.anchor == Some(final(self)@.focus) ==> final(self)@.anchor is None,
            final(self)@.wf(),
    {
        self.selection.set_anchor(anchored);
        self.selection.focus.ln = 0;
        self.selection.fix_anchor();
    }

    /// Move the cursor to the last line, its column kept.
    pub fn move_to_bottom(&mut self, anchored: bool)
        requires
            old(self)@.wf(),
        ensures
            final(self)@ == old(self)@.move_to_bottom(anchored),
            !anchored ==> final(self)@.anchor is None,
            final(self)@.anchor != Some(final(self)@.focus),
            old(self)@.anchor == Some(final(self)@.focus) ==> final(self)@.anchor is None,
            final(self)@.wf(),
    {
        self.selection.set_anchor(anchored);
        self.selection.focus.ln = self.line_count() - 1;
        self.selection.fix_anchor();
    }

    /// The selected text, or `None` where nothing is selected.
    pub fn curr_sel(&self) -> (r: Option<String>)
        requires
            self@.wf(),
        ensures
            r is Some <==> self@.anchor is Some,
            r matches Some(s) ==> Some(s@) == self@.curr_sel(),
    {
        match self.selection.range() {
            None => None,
            Some((first, last)) => {
                proof {
                    self@.lemma_selected();
                }
                let from = self.offset(first);
                let to = self.offset(last);
                Some(self.buf.slice(from, to))
            },
        }
    }

    /// Take the selected text out and put the cursor where it began.
    fn delete_selection(&mut self)
        requires
            old(self)@.wf(),
        ensures
            final(self)@ == old(self)@.without_selection(),
            final(self)@.wf(),
    {
        proof {
            self@.lemma_without_selection();
        }
        match self.selection.range() {
            None => {},
            Some((first, last)) => {
                proof {
                    self@.lemma_selected();
                    self@.lemma_offset(first@);
                }
                let from = self.offset(first);
                let to = self.offset(last);
                let start = self.buf.line_to_char(first.ln);
                self.buf.remove(from, to);
                self.selection.focus = Cursor { ln: first.ln, col: from - start };
                self.selection.anchor = None;
            },
        }
    }

    /// Backspace: take out the selection, or the character in front of the
    /// cursor; at the start of a line, join the line to the one above.
    pub fn backspace(&mut self)
        requires
            old(self)@.wf(),
        ensures
            final(self)@ == old(self)@.backspace(),
            final(self)@.wf(),
    {
        self.clamp();
        let focus = self.selection.focus;
        proof {
            self@.lemma_offset(focus@);
            let p = self@.offset(focus@);
            if focus.col == 0 && focus.ln > 0 {
                lemma_line_bounds(self@.text, (focus.ln - 1) as nat);
                lemma_line_of_within(self@.text, (focus.ln - 1) as nat, p - 1);
            }
            if p > 0 {
                lemma_within_line_of(self@.text, p - 1);
                lemma_remove_range_breaks(self@.text, p - 1, p);
                if focus.col > 0 {
                    lemma_line_of_within(self@.text, focus.ln as nat, p - 1);
                }
            }
        }
        if self.selection.anchor.is_some() {
            self.delete_selection();
        } else if focus.col > 0 {
            let p = self.offset(focus);
            self.buf.remove(p - 1, p);
            self.selection.focus.col = focus.col - 1;
        } else if focus.ln > 0 {
            let col = self.buf.line_len(focus.ln - 1);
            let p = self.offset(focus);
            self.buf.remove(p - 1, p);
            self.selection.focus = Cursor { ln: focus.ln - 1, col };
        }
    }

    /// Delete: take out the selection, or the character at the cursor; at
    /// the end of a line, join the next line to this one.
    pub fn delete(&mut self)
        requires
            old(self)@.wf(),
        ensures
            final(self)@ == old(self)@.delete(),
            final(self)@.wf(),
    {
        self.clamp();
        let focus = self.selection.focus;
        proof {
            self@.lemma_offset(focus@);
            lemma_line_bounds(self@.text, focus.ln as nat);
            let p = self@.offset(focus@);
            if p < self@.text.len() {
                lemma_remove_range_breaks(self@.text, p, p + 1);
            }
        }
        if self.selection.anchor.is_some() {
            self.delete_selection();
        } else {
            let p = self.offset(focus);
            if p < self.buf.len_chars() {
                self.buf.remove(p, p + 1);
            }
        }
    }

    /// Type a character: it replaces the selection or goes in at the cursor,
    /// and the cursor steps behind it; behind a line break that is the start
    /// of the next line.
    pub fn type_char(&mut self, c: char)
        requires
            old(self)@.wf(),
        ensures
            final(self)@ == old(self)@.type_char(c),
            final(self)@.wf(),
    {
        self.clamp();
        proof {
            self@.lemma_without_selection();
        }
        self.delete_selection();
        let focus = self.selection.focus;
        let p = self.offset(focus);
        proof {
            self@.lemma_offset(focus@);
            lemma_insert_at_breaks(self@.text, p as int, seq![c]);
            lemma_count_breaks_one(c);
            if is_break(c) {
                assert(seq![c].take(1) =~= seq![c]);
                lemma_line_start_is(seq![c], 1, 1);
            }
        }
        self.buf.insert_char(p, c);
        // What the buffer counts fits its counters; that leaves room for the step.
        let _chars = self.buf.len_chars();
        let _lines = self.buf.len_lines();
        if c == '\n' {
            self.selection.focus = Cursor { ln: focus.ln + 1, col: 0 };
        } else {
            self.selection.focus.col = focus.col + 1;
        }
    }

    /// Put a string in: it replaces the selection or goes in at the cursor,
    /// and the cursor steps behind it.
    pub fn insert_str(&mut self, s: &str)
        requires
            old(self)@.wf(),
        ensures
            final(self)@ == old(self)@.insert_str(s@),
            final(self)@.wf(),
    {
        self.clamp();
        proof {
            self@.lemma_without_selection();
        }
        self.delete_selection();
        let focus = self.selection.focus;
        let p = self.offset(focus);
        proof {
            self@.lemma_offset(focus@);
            lemma_insert_at_breaks(self@.text, p as int, s@);
            lemma_insert_at_line_start(self@.text, p as int, s@);
            lemma_within_line_of(insert_at(self@.text, p as int, s@), p + s@.len());
            if count_breaks(s@) > 0 {
                lemma_line_start(s@, count_breaks(s@));
            }
        }
        self.buf.insert(p, s);
        // What the buffer counts fits its counter; that leaves room for the sum.
        let _chars = self.buf.len_chars();
        let behind = p + s.unicode_len();
        let ln = self.buf.char_to_line(behind);
        let start = self.buf.line_to_char(ln);
        self.selection.focus = Cursor { ln, col: behind - start };
    }

    /// Put focus and anchor where `selection` has them, each on its line or,
    /// where the text has no such line, on the last line. An anchor that
    /// lies on the focus is dropped.
    pub fn set_selection(&mut self, selection: Selection)
        ensures
            final(self)@ == old(self)@.placed(selection@),
            final(self)@.wf(),
    {
        let last = self.buf.len_lines() - 1;
        let mut focus = selection.focus;
        if focus.ln > last {
            focus.ln = last;
        }
        let anchor = match selection.anchor {
            Some(a) => Some(
                Cursor {
                    ln: if a.ln > last {
                        last
                    } else {
                        a.ln
                    },
                    col: a.col,
                },
            ),
            None => None,
        };
        self.selection = Selection { focus, anchor };
        self.selection.fix_anchor();
    }

    /// The number of white space characters that the line of the cursor
    /// begins with.
    pub fn indent(&self) -> (n: usize)
        requires
            self@.wf(),
        ensures
            n == self@.indent(),
            n <= self@.len_at(self@.focus),
    {
        let start = self.buf.line_to_char(self.selection.focus.ln);
        let end = self.buf.line_end(self.selection.focus.ln);
        let ghost line = line_text(self@.text, self@.focus.ln);
        let mut n: usize = 0;
        let mut done = false;
        while !done
            invariant
                start == line_start(self@.text, self@.focus.ln),
                end == line_end(self@.text, self@.focus.ln),
                start <= end <= self@.text.len(),
                line == self@.text.subrange(start as int, end as int),
                n <= end - start,
                forall|i: int| 0 <= i < n ==> white_space(#[trigger] line[i]),
                done ==> n == end - start || !white_space(line[n as int]),
            decreases (end - start - n) + if done { 0int } else { 1int },
        {
            if start + n < end && self.buf.char_at(start + n).is_whitespace() {
                n += 1;
            } else {
                done = true;
            }
        }
        proof {
            lemma_leading_whitespace(line, n as nat);
        }
        n
    }

    /// Home: move the cursor to the first character of its line that is not
    /// white space, or from there to the start of the line.
    pub fn home(&mut self, anchored: bool)
        requires
            old(self)@.wf(),
        ensures
            final(self)@ == old(self)@.home(anchored),
            final(self)@.wf(),
    {
        let indent = self.indent();
        if self.selection.focus.col == indent {
            self.move_to_col(0, anchored);
        } else {
            self.move_to_col(indent, anchored);
        }
    }

    /// Tab: type spaces up to the next column that is a multiple of 4.
    pub fn tab(&mut self)
        requires
            old(self)@.wf(),
        ensures
            final(self)@ == old(self)@.tab(),
            final(self)@.wf(),
    {
        proof {
            self@.lemma_ready();
            reveal_strlit(" ");
            reveal_strlit("  ");
            reveal_strlit("   ");
            reveal_strlit("    ");
            assert(" "@ =~= spaces(1));
            assert("  "@ =~= spaces(2));
            assert("   "@ =~= spaces(3));
            assert("    "@ =~= spaces(4));
        }
        self.clamp();
        self.delete_selection();
        let soft = 4 - self.selection.focus.col % 4;
        if soft == 1 {
            self.insert_str(" ");
        } else if soft == 2 {
            self.insert_str("  ");
        } else if soft == 3 {
            self.insert_str("   ");
        } else {
            self.insert_str("    ");
        }
    }

    /// Step the indentation back: take up to 4 characters of leading white
    /// space from the line of the cursor.
    pub fn unindent(&mut self)
        requires
            old(self)@.wf(),
        ensures
            final(self)@ == old(self)@.unindent(),
            final(self)@.wf(),
    {
        self.clamp();
        proof {
            self@.lemma_outdent();
        }
        let indent = self.indent();
        let n = if indent < 4 {
            indent
        } else {
            4
        };
        let start = self.buf.line_to_char(self.selection.focus.ln);
        // The white space lies in front of the end of the line.
        let _end = self.buf.line_end(self.selection.focus.ln);
        self.buf.remove(start, start + n);
        if self.selection.focus.col >= n {
            self.selection.focus.col -= n;
        }
    }

    /// What line `line_idx` shows: its text, in spans that tell which part
    /// of it is selected.
    pub fn write_line(&self, line_idx: usize) -> (row: Vec<Span>)
        requires
            self@.wf(),
            line_idx < line_count(self@.text),
        ensures
            shown(row@) == self@.line_spans(line_idx as nat),
    {
        let start = self.buf.line_to_char(line_idx);
        let end = self.buf.line_end(line_idx);
        let mut row: Vec<Span> = Vec::new();
        proof {
            self@.lemma_highlight(line_idx as nat);
            lemma_line_bounds(self@.text, line_idx as nat);
        }
        let ghost line = line_text(self@.text, line_idx as nat);
        match self.selection.range() {
            Some((first, last)) => {
                if first.ln <= line_idx && line_idx <= last.ln {
                    proof {
                        self@.lemma_offset(first@);
                        self@.lemma_offset(last@);
                    }
                    let from = if line_idx == first.ln {
                        self.offset(first)
                    } else {
                        start
                    };
                    let to = if line_idx == last.ln {
                        self.offset(last)
                    } else {
                        end
                    };
                    row.push(Span { text: self.buf.slice(start, from), paint: Paint::Plain });
                    row.push(Span { text: self.buf.slice(from, to), paint: Paint::Selected });
                    row.push(Span { text: self.buf.slice(to, end), paint: Paint::Plain });
                    assert(self@.text.subrange(start as int, from as int) =~= line.subrange(
                        0,
                        from - start,
                    ));
                    assert(self@.text.subrange(from as int, to as int) =~= line.subrange(
                        from - start,
                        to - start,
                    ));
                    assert(self@.text.subrange(to as int, end as int) =~= line.subrange(
                        to - start,
                        line.len() as int,
                    ));
                    assert(shown(row@) =~= self@.line_spans(line_idx as nat));
                    return row;
                }
            },
            None => {},
        }
        row.push(Span { text: self.buf.slice(start, end), paint: Paint::Plain });
        assert(shown(row@) =~= self@.line_spans(line_idx as nat));
        row
    }

    /// The character at the cursor.
    pub fn curr_char(&self) -> (c: char)
        requires
            self@.wf(),
            self@.offset(self@.focus) < self@.text.len(),
        ensures
            c == self@.text[self@.offset(self@.focus)],
    {
        let p = self.offset(self.selection.focus);
        self.buf.char_at(p)
    }

    /// Take line `line_idx` out, with its line break, and give back what it
    /// held. A cursor on that line goes to column 0, and cursor and anchor
    /// stay on the text.
    pub fn remove_line(&mut self, line_idx: usize) -> (line: String)
        requires
            old(self)@.wf(),
            line_idx < line_count(old(self)@.text),
        ensures
            line@ == line_text(old(self)@.text, line_idx as nat),
            final(self)@ == old(self)@.remove_line(line_idx as nat),
            final(self)@.wf(),
    {
        let line = self.buf.remove_line(line_idx);
        let mut selection = self.selection;
        if selection.focus.ln == line_idx {
            selection.focus.col = 0;
        }
        self.set_selection(selection);
        line
    }

    /// Whether cursor and anchor lie on lines that the text has. Every
    /// editor that this library hands out does.
    pub fn is_valid(&self) -> (ok: bool)
        ensures
            ok == self@.wf(),
    {
        let lines = self.buf.len_lines();
        self.selection.focus.ln < lines && match self.selection.anchor {
            Some(a) => a.ln < lines,
            None => true,
        }
    }

    /// The character position that `c` stands for, its column clamped.
    fn offset(&self, c: Cursor) -> (p: usize)
        requires
            c.ln < line_count(self@.text),
        ensures
            p == self@.offset(c@),
            p <= self@.text.len(),
    {
        let start = self.buf.line_to_char(c.ln);
        let end = self.buf.line_end(c.ln);
        if c.col <= end - start {
            start + c.col
        } else {
            end
        }
    }
}

} // verus!
