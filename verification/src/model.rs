//! What the editor is, as mathematics: a text, a focus and an anchor, and each
//! editing operation as a function from one such state to the next. The
//! editor's methods promise to do what these functions say.

use vstd::prelude::*;
use crate::selection::{place_le, Place, SelectionView};
use crate::styles::{span_of, Paint, SpanView};
use crate::text::{
    count_breaks, insert_at, is_break, leading_whitespace, lemma_leading_whitespace_bound,
    lemma_line_bounds, lemma_line_has_no_break, lemma_line_of_within, lemma_line_start_monotonic,
    lemma_no_breaks, lemma_remove_range_breaks, lemma_remove_range_line, line_count, line_end,
    line_len, line_of, line_start, line_text, remove_range, spaces,
};

verus! {

/// The state of the editor.
pub struct EditorView {
    pub text: Seq<char>,
    pub focus: Place,
    pub anchor: Option<Place>,
}

impl EditorView {
    /// The focus and the anchor lie on lines that the text has. Their columns
    /// are free.
    pub open spec fn wf(self) -> bool {
        &&& self.focus.ln < line_count(self.text)
        &&& self.anchor matches Some(a) ==> a.ln < line_count(self.text)
    }

    /// Focus and anchor as a selection.
    pub open spec fn selection(self) -> SelectionView {
        SelectionView { focus: self.focus, anchor: self.anchor }
    }

    /// This state with another focus and anchor.
    pub open spec fn with_selection(self, s: SelectionView) -> EditorView {
        EditorView { text: self.text, focus: s.focus, anchor: s.anchor }
    }

    /// This state with the focus at `c`.
    pub open spec fn with_focus(self, c: Place) -> EditorView {
        EditorView { text: self.text, focus: c, anchor: self.anchor }
    }

    /// The number of characters on the line of `c`.
    pub open spec fn len_at(self, c: Place) -> nat {
        line_len(self.text, c.ln)
    }

    /// `c` with its column brought back onto its line.
    pub open spec fn clamp(self, c: Place) -> Place {
        if c.col <= self.len_at(c) {
            c
        } else {
            Place { ln: c.ln, col: self.len_at(c) }
        }
    }

    /// The character position that `c` stands for, its column clamped.
    pub open spec fn offset(self, c: Place) -> int {
        line_start(self.text, c.ln) + self.clamp(c).col
    }

    /// This state with the focus clamped.
    pub open spec fn clamped(self) -> EditorView {
        self.with_focus(self.clamp(self.focus))
    }

    /// The character positions between which the selection lies, in text
    /// order; without an anchor, the position of the focus twice.
    pub open spec fn selected(self) -> (int, int) {
        match self.selection().ordered() {
            Some((first, last)) => (self.offset(first), self.offset(last)),
            None => (self.offset(self.focus), self.offset(self.focus)),
        }
    }

    /// The selected characters, if there is an anchor.
    pub open spec fn curr_sel(self) -> Option<Seq<char>> {
        if self.anchor is Some {
            Some(self.text.subrange(self.selected().0, self.selected().1))
        } else {
            None
        }
    }

    /// The columns of line `i` between which it is selected, if any of it
    /// is: from the start of the selection, or from the start of the line
    /// where the selection starts above it, up to the end of the selection,
    /// or to the end of the line where the selection ends below it.
    pub open spec fn highlight(self, i: nat) -> Option<(nat, nat)> {
        match self.selection().ordered() {
            Some((first, last)) => if first.ln <= i <= last.ln {
                Some(
                    (
                        if i == first.ln {
                            self.clamp(first).col
                        } else {
                            0
                        },
                        if i == last.ln {
                            self.clamp(last).col
                        } else {
                            line_len(self.text, i)
                        },
                    ),
                )
            } else {
                None
            },
            None => None,
        }
    }

    /// What line `i` shows: its text in one plain span, or, where some of it
    /// is selected, the text in front of that, the selected text, and the
    /// text behind it.
    pub open spec fn line_spans(self, i: nat) -> Seq<SpanView> {
        let line = line_text(self.text, i);
        match self.highlight(i) {
            Some((from, to)) => seq![
                span_of(line.subrange(0, from as int), Paint::Plain),
                span_of(line.subrange(from as int, to as int), Paint::Selected),
                span_of(line.subrange(to as int, line.len() as int), Paint::Plain),
            ],
            None => seq![span_of(line, Paint::Plain)],
        }
    }

    /// The selected characters taken out, the focus at the place where they
    /// began, the anchor gone. Without an anchor, this state.
    pub open spec fn without_selection(self) -> EditorView {
        match self.selection().ordered() {
            Some((first, last)) => EditorView {
                text: remove_range(self.text, self.offset(first), self.offset(last)),
                focus: self.clamp(first),
                anchor: None,
            },
            None => self,
        }
    }

    /// The state in which an edit begins: the focus clamped, the selection
    /// taken out.
    pub open spec fn ready(self) -> EditorView {
        self.clamped().without_selection()
    }

    /// After backspace. A selection is taken out. Without one, the character
    /// in front of the focus goes and the focus steps back; at the start of a
    /// line that is the line break, so that the line joins the one above and
    /// the focus stands where that one ended.
    pub open spec fn backspace(self) -> EditorView {
        let v = self.clamped();
        let p = v.offset(v.focus);
        if v.anchor is Some {
            v.without_selection()
        } else if v.focus.col > 0 {
            EditorView {
                text: remove_range(v.text, p - 1, p),
                focus: Place { ln: v.focus.ln, col: (v.focus.col - 1) as nat },
                anchor: None,
            }
        } else if v.focus.ln > 0 {
            EditorView {
                text: remove_range(v.text, p - 1, p),
                focus: Place {
                    ln: (v.focus.ln - 1) as nat,
                    col: line_len(v.text, (v.focus.ln - 1) as nat),
                },
                anchor: None,
            }
        } else {
            v
        }
    }

    /// After delete. A selection is taken out. Without one, the character at
    /// the focus goes; at the end of a line that is the line break, so that
    /// the next line joins this one. The focus stays.
    pub open spec fn delete(self) -> EditorView {
        let v = self.clamped();
        let p = v.offset(v.focus);
        if v.anchor is Some {
            v.without_selection()
        } else if v.focus.col < v.len_at(v.focus) || v.focus.ln + 1 < line_count(v.text) {
            EditorView { text: remove_range(v.text, p, p + 1), focus: v.focus, anchor: None }
        } else {
            v
        }
    }

    /// After delete was pressed `n` times.
    pub open spec fn deleted(self, n: nat) -> EditorView
        decreases n,
    {
        if n == 0 {
            self
        } else {
            self.delete().deleted((n - 1) as nat)
        }
    }

    /// Where the focus stands after `s` was put in at `c`: behind what was put
    /// in. Each line break in `s` is one line further down, and the column is
    /// counted from the last of them.
    pub open spec fn advanced(c: Place, s: Seq<char>) -> Place {
        let breaks = count_breaks(s);
        if breaks == 0 {
            Place { ln: c.ln, col: c.col + s.len() }
        } else {
            Place { ln: c.ln + breaks, col: (s.len() - line_start(s, breaks)) as nat }
        }
    }

    /// After the characters `s` were typed: the selection is replaced by them,
    /// or they are put in at the focus, and the focus stands behind them.
    pub open spec fn insert_str(self, s: Seq<char>) -> EditorView {
        let v = self.ready();
        EditorView {
            text: insert_at(v.text, v.offset(v.focus), s),
            focus: Self::advanced(v.focus, s),
            anchor: None,
        }
    }

    /// After the character `c` was typed.
    pub open spec fn type_char(self, c: char) -> EditorView {
        self.insert_str(seq![c])
    }

    /// This state made ready for a move, the move itself being `to`, and the
    /// anchor dropped if the focus came to lie on it.
    pub open spec fn moved(self, anchored: bool, to: Place) -> EditorView {
        self.with_selection(
            SelectionView { focus: to, anchor: self.selection().anchored(anchored).anchor }.fixed(),
        )
    }

    /// After a move to the right: one column on, or from the end of a line to
    /// the start of the next; at the end of the text the focus stays.
    pub open spec fn move_right(self, anchored: bool) -> EditorView {
        let v = self.clamped();
        let f = v.focus;
        let to = if f.col < v.len_at(f) {
            Place { ln: f.ln, col: f.col + 1 }
        } else if f.ln + 1 < line_count(v.text) {
            Place { ln: f.ln + 1, col: 0 }
        } else {
            f
        };
        v.moved(anchored, to)
    }

    /// After a move to the left: one column back, or from the start of a line
    /// to the end of the one above; at the start of the text the focus stays.
    pub open spec fn move_left(self, anchored: bool) -> EditorView {
        let v = self.clamped();
        let f = v.focus;
        let to = if f.col > 0 {
            Place { ln: f.ln, col: (f.col - 1) as nat }
        } else if f.ln > 0 {
            Place { ln: (f.ln - 1) as nat, col: line_len(v.text, (f.ln - 1) as nat) }
        } else {
            f
        };
        v.moved(anchored, to)
    }

    /// After a move up: one line up with the column kept, or on the first
    /// line to its start.
    pub open spec fn move_up(self, anchored: bool) -> EditorView {
        let f = self.focus;
        let to = if f.ln == 0 {
            Place { ln: 0, col: 0 }
        } else {
            Place { ln: (f.ln - 1) as nat, col: f.col }
        };
        self.moved(anchored, to)
    }

    /// After a move down: one line down with the column kept, or on the last
    /// line to its end.
    pub open spec fn move_down(self, anchored: bool) -> EditorView {
        let f = self.focus;
        let to = if f.ln + 1 == line_count(self.text) {
            Place { ln: f.ln, col: self.len_at(f) }
        } else {
            Place { ln: f.ln + 1, col: f.col }
        };
        self.moved(anchored, to)
    }

    /// After a move to the column `col` of the line of the focus.
    pub open spec fn move_to_col(self, col: nat, anchored: bool) -> EditorView {
        self.moved(anchored, Place { ln: self.focus.ln, col })
    }

    /// After a move to the start of the line of the focus.
    pub open spec fn move_to_line_start(self, anchored: bool) -> EditorView {
        self.move_to_col(0, anchored)
    }

    /// After a move to the end of the line of the focus.
    pub open spec fn move_to_line_end(self, anchored: bool) -> EditorView {
        self.move_to_col(self.len_at(self.focus), anchored)
    }

    /// After a move to the first line, the column kept.
    pub open spec fn move_to_top(self, anchored: bool) -> EditorView {
        self.moved(anchored, Place { ln: 0, col: self.focus.col })
    }

    /// After a move to the last line, the column kept.
    pub open spec fn move_to_bottom(self, anchored: bool) -> EditorView {
        self.moved(
            anchored,
            Place { ln: (line_count(self.text) - 1) as nat, col: self.focus.col },
        )
    }

    /// `c` on its line or, where the text has no such line, on the last
    /// line.
    pub open spec fn onto_text(self, c: Place) -> Place {
        if c.ln < line_count(self.text) {
            c
        } else {
            Place { ln: (line_count(self.text) - 1) as nat, col: c.col }
        }
    }

    /// This state with focus and anchor where `s` has them, each brought
    /// onto the text, and an anchor that then lies on the focus dropped.
    pub open spec fn placed(self, s: SelectionView) -> EditorView {
        self.with_selection(
            SelectionView {
                focus: self.onto_text(s.focus),
                anchor: match s.anchor {
                    Some(a) => Some(self.onto_text(a)),
                    None => None,
                },
            }.fixed(),
        )
    }

    /// After line `i` was taken out with its line break: a focus on that
    /// line stands at column 0, and focus and anchor are brought onto the
    /// text that is left.
    pub open spec fn remove_line(self, i: nat) -> EditorView {
        (EditorView {
            text: remove_range(self.text, line_start(self.text, i), line_start(self.text, i + 1)),
            focus: self.focus,
            anchor: self.anchor,
        }).placed(
            SelectionView {
                focus: if self.focus.ln == i {
                    Place { ln: i, col: 0 }
                } else {
                    self.focus
                },
                anchor: self.anchor,
            },
        )
    }

    /// The number of white space characters that the line of the focus
    /// begins with.
    pub open spec fn indent(self) -> nat {
        leading_whitespace(line_text(self.text, self.focus.ln))
    }

    /// After home: a move to the first character of the line that is not
    /// white space, or from there to the start of the line.
    pub open spec fn home(self, anchored: bool) -> EditorView {
        if self.focus.col == self.indent() {
            self.move_to_col(0, anchored)
        } else {
            self.move_to_col(self.indent(), anchored)
        }
    }

    /// After tab: spaces are typed up to the next column that is a multiple
    /// of 4.
    pub open spec fn tab(self) -> EditorView {
        self.insert_str(spaces((4 - self.ready().focus.col % 4) as nat))
    }

    /// The number of characters that a step back of the indentation takes
    /// from the line of the focus: its leading white space, 4 at most.
    pub open spec fn outdent(self) -> nat {
        if self.indent() < 4 {
            self.indent()
        } else {
            4
        }
    }

    /// After a step back of the indentation: the line of the focus loses up
    /// to 4 characters of leading white space, and a focus behind them moves
    /// left by as many.
    pub open spec fn unindent(self) -> EditorView {
        let v = self.clamped();
        let start = line_start(v.text, v.focus.ln);
        let n = v.outdent();
        EditorView {
            text: remove_range(v.text, start, start + n),
            focus: Place {
                ln: v.focus.ln,
                col: if v.focus.col >= n {
                    (v.focus.col - n) as nat
                } else {
                    v.focus.col
                },
            },
            anchor: v.anchor,
        }
    }
}

impl EditorView {
    /// The position of a place lies on the line of the place, between its
    /// start and its end.
    pub proof fn lemma_offset(self, c: Place)
        requires
            c.ln < line_count(self.text),
        ensures
            0 <= line_start(self.text, c.ln) <= self.offset(c) <= line_end(
                self.text,
                c.ln,
            ) <= self.text.len(),
            line_of(self.text, self.offset(c)) == c.ln,
            self.clamp(c).col <= self.len_at(c),
            self.clamp(c).ln == c.ln,
            self.offset(self.clamp(c)) == self.offset(c),
            self.offset(c) == line_start(self.text, c.ln) + self.clamp(c).col,
    {
        lemma_line_bounds(self.text, c.ln);
        lemma_line_of_within(self.text, c.ln, self.offset(c));
    }

    /// Places in text order have positions in the same order.
    pub proof fn lemma_offset_ordered(self, a: Place, b: Place)
        requires
            place_le(a, b),
            b.ln < line_count(self.text),
        ensures
            self.offset(a) <= self.offset(b),
    {
        self.lemma_offset(a);
        self.lemma_offset(b);
        if a.ln < b.ln {
            lemma_line_start_monotonic(self.text, a.ln, b.ln);
        }
    }

    /// The two ends of the selection are positions of the text, in order.
    pub proof fn lemma_selected(self)
        requires
            self.wf(),
        ensures
            0 <= self.selected().0 <= self.selected().1 <= self.text.len(),
    {
        self.lemma_offset(self.focus);
        match self.selection().ordered() {
            Some((first, last)) => {
                self.lemma_offset(first);
                self.lemma_offset(last);
                self.lemma_offset_ordered(first, last);
            },
            None => {},
        }
    }
    /// With the selection taken out, the focus is on a line of the text and
    /// on that line.
    pub proof fn lemma_without_selection(self)
        requires
            self.wf(),
        ensures
            self.without_selection().wf(),
            self.anchor is Some || self.focus.col <= self.len_at(self.focus)
                ==> self.without_selection().focus.col <= self.without_selection().len_at(
                self.without_selection().focus,
            ),
            self.without_selection().text == remove_range(
                self.text,
                self.selected().0,
                self.selected().1,
            ),
            self.without_selection().offset(self.without_selection().focus) == self.selected().0,
    {
        self.lemma_selected();
        self.lemma_offset(self.focus);
        match self.selection().ordered() {
            Some((first, last)) => {
                self.lemma_offset(first);
                let from = self.offset(first);
                let to = self.offset(last);
                lemma_remove_range_breaks(self.text, from, to);
                lemma_remove_range_line(self.text, from, to);
                self.without_selection().lemma_offset(self.clamp(first));
            },
            None => {
                assert(self.text.take(self.offset(self.focus)) + self.text.skip(
                    self.offset(self.focus),
                ) =~= self.text);
            },
        }
    }
    /// Without a selection, delete takes out the character at the position of
    /// the focus, whether it is a line break or not, and nothing where the
    /// focus is at the end of the text.
    pub proof fn lemma_delete_at(self)
        requires
            self.wf(),
            self.anchor is None,
        ensures
            self.offset(self.focus) < self.text.len() ==> self.delete() == (EditorView {
                text: remove_range(
                    self.text,
                    self.offset(self.focus),
                    self.offset(self.focus) + 1,
                ),
                focus: self.clamp(self.focus),
                anchor: None,
            }),
            self.offset(self.focus) >= self.text.len() ==> self.delete() == self.clamped(),
    {
        self.lemma_offset(self.focus);
        lemma_line_bounds(self.text, self.focus.ln);
    }
    /// A state that is ready for an edit stays as it is when it is made
    /// ready again.
    pub proof fn lemma_ready(self)
        requires
            self.wf(),
        ensures
            self.ready().wf(),
            self.ready().anchor is None,
            self.ready().focus.col <= self.ready().len_at(self.ready().focus),
            self.ready().ready() == self.ready(),
    {
        self.lemma_offset(self.focus);
        self.clamped().lemma_without_selection();
    }

    /// The leading white space of the line of the focus is part of that
    /// line, and taking some of it out takes no line break out.
    pub proof fn lemma_outdent(self)
        requires
            self.wf(),
        ensures
            self.outdent() <= self.indent() <= self.len_at(self.focus),
            line_count(
                remove_range(
                    self.text,
                    line_start(self.text, self.focus.ln),
                    line_start(self.text, self.focus.ln) + self.outdent(),
                ),
            ) == line_count(self.text),
    {
        let ln = self.focus.ln;
        let start = line_start(self.text, ln);
        let line = line_text(self.text, ln);
        lemma_line_bounds(self.text, ln);
        lemma_leading_whitespace_bound(line);
        let n = self.outdent();
        let cut = self.text.subrange(start, start + n);
        assert forall|i: int| 0 <= i < cut.len() implies !is_break(#[trigger] cut[i]) by {
            lemma_line_has_no_break(self.text, ln, start + i);
        }
        lemma_no_breaks(cut);
        lemma_remove_range_breaks(self.text, start, start + n);
    }
    /// The selected part of a line lies on the line, and does not run
    /// backwards.
    pub proof fn lemma_highlight(self, i: nat)
        requires
            self.wf(),
            i < line_count(self.text),
        ensures
            self.highlight(i) matches Some((from, to)) ==> from <= to <= line_len(self.text, i),
    {
        match self.selection().ordered() {
            Some((first, last)) => {
                self.lemma_offset(first);
                self.lemma_offset(last);
                self.lemma_offset_ordered(first, last);
            },
            None => {},
        }
    }
}

} // verus!
