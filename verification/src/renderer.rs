//! The renderer: it remembers the frame that it drew last and works out, for
//! the next one, the fewest terminal operations that bring the screen up to
//! date. It writes nothing itself: it hands the operations out, in order, for
//! a terminal to carry out.

use vstd::prelude::*;
use crate::editor::Editor;
use crate::model::EditorView;
use crate::selection::{Cursor, Place};
use crate::text::{line_count, line_text};
use crate::viewport::{lemma_planned_range, plan, planned};

verus! {

/// One operation of the terminal. Moves are relative to where the terminal's
/// cursor is, except the move to a column, which counts from the left edge.
#[derive(Debug, Clone, Copy, PartialEq, Eq, Structural)]
pub enum TermOp {
    /// Move the cursor up by this many rows.
    MoveUp(usize),
    /// Move the cursor down by this many rows.
    MoveDown(usize),
    /// Move the cursor left by this many columns.
    MoveLeft(usize),
    /// Move the cursor right by this many columns.
    MoveRight(usize),
    /// Move the cursor to this column, counted from 0 at the left edge.
    MoveToColumn(usize),
    /// Clear the row of the cursor.
    ClearLine,
    /// Clear from the cursor to the end of the screen.
    ClearFromCursorDown,
    /// Go to the next row, scrolling where the screen ends.
    NewLine,
    /// Draw the header.
    Header,
    /// Draw the margin of this line of the text.
    Margin(usize),
    /// Write this line of the text.
    Line(usize),
    /// Draw the footer.
    Footer,
    /// Send what was written so far to the terminal.
    Flush,
}

/// The room that the decoration around the text takes: the rows of the header
/// above it, the rows of the footer below it, and the columns of the margin
/// to its left.
#[derive(Debug, Clone, Copy, PartialEq, Eq, Structural)]
pub struct Layout {
    pub header_rows: usize,
    pub footer_rows: usize,
    pub gutter_width: usize,
}

/// What a redraw has to do.
#[derive(Debug, Clone, Copy, PartialEq, Eq, Structural)]
pub enum Diff {
    /// Nothing: the screen is up to date.
    NoChange,
    /// Move the terminal's cursor.
    RedrawCursor,
    /// Draw this one line of the text again, and move the terminal's cursor.
    RedrawLine(usize),
    /// Draw the whole frame again.
    RedrawAll,
}

/// What was drawn last. The frame is `height` rows high, the text area lies
/// `anchor_row` rows below and `anchor_col` columns right of its top left
/// corner and shows the lines from `low` up to `high`, and the terminal's
/// cursor stands in the text area at `cursor`. `snapshot` holds the text of
/// each line as it was drawn.
#[derive(Debug, Clone)]
pub struct DrawState {
    pub low: usize,
    pub high: usize,
    pub height: usize,
    pub cursor: Cursor,
    pub anchor_row: usize,
    pub anchor_col: usize,
    pub snapshot: Vec<String>,
}

/// The draw state, as mathematics.
pub struct DrawStateView {
    pub low: nat,
    pub high: nat,
    pub height: nat,
    pub cursor: Place,
    pub anchor_row: nat,
    pub anchor_col: nat,
    pub snapshot: Seq<Seq<char>>,
}

impl View for DrawState {
    type V = DrawStateView;

    open spec fn view(&self) -> DrawStateView {
        DrawStateView {
            low: self.low as nat,
            high: self.high as nat,
            height: self.height as nat,
            cursor: self.cursor@,
            anchor_row: self.anchor_row as nat,
            anchor_col: self.anchor_col as nat,
            snapshot: Seq::new(self.snapshot@.len(), |k: int| self.snapshot@[k]@),
        }
    }
}

/// The draw state in which nothing is drawn.
pub open spec fn nothing_drawn() -> DrawStateView {
    DrawStateView {
        low: 0,
        high: 0,
        height: 0,
        cursor: Place { ln: 0, col: 0 },
        anchor_row: 0,
        anchor_col: 0,
        snapshot: Seq::empty(),
    }
}

/// The operations that move the cursor up by `n` rows: none for no row.
pub open spec fn ups(n: int) -> Seq<TermOp> {
    if n > 0 {
        seq![TermOp::MoveUp(n as usize)]
    } else {
        Seq::empty()
    }
}

/// The operations that move the cursor down by `n` rows: none for no row.
pub open spec fn downs(n: int) -> Seq<TermOp> {
    if n > 0 {
        seq![TermOp::MoveDown(n as usize)]
    } else {
        Seq::empty()
    }
}

/// The operations that move the cursor left by `n` columns.
pub open spec fn lefts(n: int) -> Seq<TermOp> {
    if n > 0 {
        seq![TermOp::MoveLeft(n as usize)]
    } else {
        Seq::empty()
    }
}

/// The operations that move the cursor right by `n` columns.
pub open spec fn rights(n: int) -> Seq<TermOp> {
    if n > 0 {
        seq![TermOp::MoveRight(n as usize)]
    } else {
        Seq::empty()
    }
}

/// The operations that move the cursor from one place of the text area to
/// another: first along the rows, then along the columns.
pub open spec fn moves(from: Place, to: Place) -> Seq<TermOp> {
    (if to.ln < from.ln {
        ups(from.ln - to.ln)
    } else {
        downs(to.ln - from.ln)
    }) + (if to.col < from.col {
        lefts(from.col - to.col)
    } else {
        rights(to.col - from.col)
    })
}

/// The operations that draw line `i` of the text on the row of the cursor.
pub open spec fn line_ops(i: int) -> Seq<TermOp> {
    seq![
        TermOp::MoveToColumn(0),
        TermOp::ClearLine,
        TermOp::Margin(i as usize),
        TermOp::Line(i as usize),
    ]
}

/// The operations that draw the lines from `low` up to `high`, one to a row.
pub open spec fn lines_ops(low: int, high: int) -> Seq<TermOp>
    decreases high - low,
{
    if high <= low {
        Seq::empty()
    } else if high == low + 1 {
        line_ops(low)
    } else {
        lines_ops(low, high - 1) + seq![TermOp::NewLine] + line_ops(high - 1)
    }
}

/// The operations that draw a header of `rows` rows: none for no row.
pub open spec fn header_ops(rows: usize) -> Seq<TermOp> {
    if rows > 0 {
        seq![TermOp::MoveToColumn(0), TermOp::ClearLine, TermOp::Header, TermOp::NewLine]
    } else {
        Seq::empty()
    }
}

/// The operations that draw a footer of `rows` rows: none for no row.
pub open spec fn footer_ops(rows: usize) -> Seq<TermOp> {
    if rows > 0 {
        seq![TermOp::NewLine, TermOp::MoveToColumn(0), TermOp::ClearLine, TermOp::Footer]
    } else {
        Seq::empty()
    }
}

/// The text of the lines from `low` up to `high`, each without its line
/// break.
pub open spec fn lines_text(text: Seq<char>, low: nat, high: nat) -> Seq<Seq<char>> {
    Seq::new((high - low) as nat, |k: int| line_text(text, (low + k) as nat))
}

/// A text that a machine can hold: its characters and its lines can be
/// counted.
pub open spec fn countable(text: Seq<char>) -> bool {
    text.len() <= usize::MAX && line_count(text) <= usize::MAX
}

/// The renderer, as mathematics: what was drawn, and how it is set up.
pub struct RendererView {
    pub state: DrawStateView,
    pub lazy: bool,
    pub max_height: Option<usize>,
    pub layout: Layout,
}

impl RendererView {
    /// Either nothing is drawn, or a frame is: header, at least one line of
    /// text, footer, with the terminal's cursor on one of the lines.
    pub open spec fn wf(self) -> bool {
        let st = self.state;
        if st.height == 0 {
            st == nothing_drawn()
        } else {
            &&& st.low < st.high <= usize::MAX
            &&& st.height == self.layout.header_rows + (st.high - st.low) + self.layout.footer_rows
            &&& st.height <= usize::MAX
            &&& st.cursor.ln < st.high - st.low
            &&& st.cursor.col <= usize::MAX
            &&& st.anchor_row == self.layout.header_rows
            &&& st.anchor_col == self.layout.gutter_width
            &&& st.snapshot.len() == st.high - st.low
        }
    }

    /// The rows that are there for the text: the rows of the terminal, or
    /// fewer if the frame's height is limited, less the header and the
    /// footer. A terminal that does not tell its size is taken to be large
    /// enough.
    pub open spec fn text_rows(self, term_rows: Option<usize>) -> nat {
        let avail: nat = match (self.max_height, term_rows) {
            (Some(m), Some(r)) => if m <= r {
                m as nat
            } else {
                r as nat
            },
            (Some(m), None) => m as nat,
            (None, Some(r)) => r as nat,
            (None, None) => usize::MAX as nat,
        };
        let used = self.layout.header_rows + self.layout.footer_rows;
        if avail >= used {
            (avail - used) as nat
        } else {
            0
        }
    }

    /// The lines to show, as the viewport planner gives them.
    pub open spec fn window(self, v: EditorView, term_rows: Option<usize>) -> (nat, nat) {
        planned(
            line_count(v.text),
            v.focus.ln,
            self.text_rows(term_rows),
            self.state.low,
            self.state.high,
        )
    }

    /// Where in the text area the terminal's cursor belongs: on the row of
    /// the focus, at its column, clamped.
    pub open spec fn target(v: EditorView, low: nat) -> Place {
        Place { ln: (v.focus.ln - low) as nat, col: v.clamp(v.focus).col }
    }

    /// The operations that bring the terminal's cursor to the top left
    /// corner of the frame.
    pub open spec fn to_top(self) -> Seq<TermOp> {
        ups((self.state.anchor_row + self.state.cursor.ln) as int) + seq![TermOp::MoveToColumn(0)]
    }

    /// The operations that put the terminal's cursor on the column `col` of
    /// the text area.
    pub open spec fn column_ops(self, col: nat) -> Seq<TermOp> {
        seq![TermOp::MoveToColumn(self.layout.gutter_width)] + rights(col as int)
    }

    /// The operations of a full draw: to the top of the old frame, then
    /// header, lines and footer, then a clear of what is left below, then the
    /// cursor to its place, then a flush. With no row for the text there are
    /// none.
    pub open spec fn draw_ops(self, v: EditorView, term_rows: Option<usize>) -> Seq<TermOp> {
        let (low, high) = self.window(v, term_rows);
        if self.text_rows(term_rows) == 0 {
            Seq::empty()
        } else {
            self.to_top() + header_ops(self.layout.header_rows) + lines_ops(low as int, high as int)
                + footer_ops(self.layout.footer_rows) + seq![TermOp::ClearFromCursorDown] + ups(
                (high - 1 - v.focus.ln) + self.layout.footer_rows,
            ) + self.column_ops(v.clamp(v.focus).col) + seq![TermOp::Flush]
        }
    }

    /// The renderer after a full draw.
    pub open spec fn drawn(self, v: EditorView, term_rows: Option<usize>) -> RendererView {
        let (low, high) = self.window(v, term_rows);
        if self.text_rows(term_rows) == 0 {
            self
        } else {
            RendererView {
                state: DrawStateView {
                    low,
                    high,
                    height: (self.layout.header_rows + (high - low) + self.layout.footer_rows) as nat,
                    cursor: Self::target(v, low),
                    anchor_row: self.layout.header_rows as nat,
                    anchor_col: self.layout.gutter_width as nat,
                    snapshot: lines_text(v.text, low, high),
                },
                ..self
            }
        }
    }

    /// The operations that clear the frame: down to its last row, which is
    /// cleared, up to its first row, and from there a clear to the end of the
    /// screen. Where nothing is drawn there are none.
    pub open spec fn clear_ops(self) -> Seq<TermOp> {
        let st = self.state;
        if st.height == 0 {
            Seq::empty()
        } else {
            downs(st.height - 1 - (st.anchor_row + st.cursor.ln)) + seq![TermOp::ClearLine] + ups(
                st.height - 1,
            ) + seq![TermOp::MoveToColumn(0), TermOp::ClearFromCursorDown]
        }
    }

    /// The renderer after the frame was cleared.
    pub open spec fn cleared(self) -> RendererView {
        RendererView { state: nothing_drawn(), ..self }
    }

    /// Whether line `k` of the frame shows what the text now holds there.
    pub open spec fn same_line(self, v: EditorView, k: int) -> bool {
        self.state.snapshot[k] == line_text(v.text, (self.state.low + k) as nat)
    }

    /// Whether line `k` of the frame is the only one that shows something
    /// else than the text now holds.
    pub open spec fn only_change(self, v: EditorView, k: int) -> bool {
        &&& 0 <= k < self.state.snapshot.len()
        &&& !self.same_line(v, k)
        &&& forall|j: int| 0 <= j < self.state.snapshot.len() && j != k ==> self.same_line(v, j)
    }

    /// Whether a redraw may do less than a full draw: the renderer is lazy,
    /// a frame is drawn, and the lines to show are those that it shows.
    pub open spec fn can_patch(self, v: EditorView, term_rows: Option<usize>) -> bool {
        &&& self.lazy
        &&& self.state.height > 0
        &&& self.text_rows(term_rows) > 0
        &&& self.window(v, term_rows) == (self.state.low, self.state.high)
    }

    /// What a redraw has to do. Where it may do less than a full draw: with
    /// no line changed, nothing, or a move of the cursor if that is not
    /// where it belongs; with one line changed, that line; with more, all.
    pub open spec fn classify(self, v: EditorView, term_rows: Option<usize>) -> Diff {
        if !self.can_patch(v, term_rows) {
            Diff::RedrawAll
        } else if forall|j: int| 0 <= j < self.state.snapshot.len() ==> self.same_line(v, j) {
            if self.state.cursor == Self::target(v, self.state.low) {
                Diff::NoChange
            } else {
                Diff::RedrawCursor
            }
        } else if exists|k: int| self.only_change(v, k) {
            Diff::RedrawLine((self.state.low + choose|k: int| self.only_change(v, k)) as usize)
        } else {
            Diff::RedrawAll
        }
    }

    /// The operations that draw line `i` of the text again: to its row, the
    /// line, and the cursor from the end of the line to its place.
    pub open spec fn patch_ops(self, v: EditorView, i: nat) -> Seq<TermOp> {
        let row = (i - self.state.low) as nat;
        moves(self.state.cursor, Place { ln: row, col: self.state.cursor.col }) + line_ops(
            i as int,
        ) + moves(
            Place { ln: row, col: line_text(v.text, i).len() },
            Self::target(v, self.state.low),
        )
    }

    /// The operations of a redraw.
    pub open spec fn redraw_ops(self, v: EditorView, term_rows: Option<usize>) -> Seq<TermOp> {
        match self.classify(v, term_rows) {
            Diff::NoChange => Seq::empty(),
            Diff::RedrawCursor => moves(self.state.cursor, Self::target(v, self.state.low))
                + seq![TermOp::Flush],
            Diff::RedrawLine(i) => self.patch_ops(v, i as nat) + seq![TermOp::Flush],
            Diff::RedrawAll => self.clear_ops() + self.cleared().draw_ops(v, term_rows),
        }
    }

    /// The renderer after a redraw.
    pub open spec fn redrawn(self, v: EditorView, term_rows: Option<usize>) -> RendererView {
        match self.classify(v, term_rows) {
            Diff::NoChange => self,
            Diff::RedrawCursor => RendererView {
                state: DrawStateView { cursor: Self::target(v, self.state.low), ..self.state },
                ..self
            },
            Diff::RedrawLine(i) => RendererView {
                state: DrawStateView {
                    cursor: Self::target(v, self.state.low),
                    snapshot: self.state.snapshot.update(
                        i - self.state.low,
                        line_text(v.text, i as nat),
                    ),
                    ..self.state
                },
                ..self
            },
            Diff::RedrawAll => self.cleared().drawn(v, term_rows),
        }
    }
}

/// Add the move up by `n` rows, if `n` is not 0.
fn push_ups(ops: &mut Vec<TermOp>, n: usize)
    ensures
        final(ops)@ == old(ops)@ + ups(n as int),
{
    if n > 0 {
        ops.push(TermOp::MoveUp(n));
        assert(ops@ =~= old(ops)@ + ups(n as int));
    } else {
        assert(ops@ =~= old(ops)@ + ups(n as int));
    }
}

/// Add the move down by `n` rows, if `n` is not 0.
fn push_downs(ops: &mut Vec<TermOp>, n: usize)
    ensures
        final(ops)@ == old(ops)@ + downs(n as int),
{
    if n > 0 {
        ops.push(TermOp::MoveDown(n));
        assert(ops@ =~= old(ops)@ + downs(n as int));
    } else {
        assert(ops@ =~= old(ops)@ + downs(n as int));
    }
}

/// Add the move left by `n` columns, if `n` is not 0.
fn push_lefts(ops: &mut Vec<TermOp>, n: usize)
    ensures
        final(ops)@ == old(ops)@ + lefts(n as int),
{
    if n > 0 {
        ops.push(TermOp::MoveLeft(n));
        assert(ops@ =~= old(ops)@ + lefts(n as int));
    } else {
        assert(ops@ =~= old(ops)@ + lefts(n as int));
    }
}

/// Add the move right by `n` columns, if `n` is not 0.
fn push_rights(ops: &mut Vec<TermOp>, n: usize)
    ensures
        final(ops)@ == old(ops)@ + rights(n as int),
{
    if n > 0 {
        ops.push(TermOp::MoveRight(n));
        assert(ops@ =~= old(ops)@ + rights(n as int));
    } else {
        assert(ops@ =~= old(ops)@ + rights(n as int));
    }
}

/// Add the moves from one place of the text area to another.
fn push_moves(ops: &mut Vec<TermOp>, from: Cursor, to: Cursor)
    ensures
        final(ops)@ == old(ops)@ + moves(from@, to@),
{
    if to.ln < from.ln {
        push_ups(ops, from.ln - to.ln);
    } else {
        push_downs(ops, to.ln - from.ln);
    }
    if to.col < from.col {
        push_lefts(ops, from.col - to.col);
    } else {
        push_rights(ops, to.col - from.col);
    }
    assert(ops@ =~= old(ops)@ + moves(from@, to@));
}

/// Add the operations that draw line `i` on the row of the cursor.
fn push_line(ops: &mut Vec<TermOp>, i: usize)
    ensures
        final(ops)@ == old(ops)@ + line_ops(i as int),
{
    ops.push(TermOp::MoveToColumn(0));
    ops.push(TermOp::ClearLine);
    ops.push(TermOp::Margin(i));
    ops.push(TermOp::Line(i));
    assert(ops@ =~= old(ops)@ + line_ops(i as int));
}

/// Add the operations that draw a header of `rows` rows.
fn push_header(ops: &mut Vec<TermOp>, rows: usize)
    ensures
        final(ops)@ == old(ops)@ + header_ops(rows),
{
    if rows > 0 {
        ops.push(TermOp::MoveToColumn(0));
        ops.push(TermOp::ClearLine);
        ops.push(TermOp::Header);
        ops.push(TermOp::NewLine);
    }
    assert(ops@ =~= old(ops)@ + header_ops(rows));
}

/// Add the operations that draw a footer of `rows` rows.
fn push_footer(ops: &mut Vec<TermOp>, rows: usize)
    ensures
        final(ops)@ == old(ops)@ + footer_ops(rows),
{
    if rows > 0 {
        ops.push(TermOp::NewLine);
        ops.push(TermOp::MoveToColumn(0));
        ops.push(TermOp::ClearLine);
        ops.push(TermOp::Footer);
    }
    assert(ops@ =~= old(ops)@ + footer_ops(rows));
}

/// Add the operations that draw the lines from `low` up to `high`, and give
/// the text of those lines.
fn push_lines(ops: &mut Vec<TermOp>, data: &Editor, low: usize, high: usize) -> (snapshot: Vec<
    String,
>)
    requires
        low <= high <= line_count(data@.text),
    ensures
        final(ops)@ == old(ops)@ + lines_ops(low as int, high as int),
        snapshot@.len() == high - low,
        forall|k: int|
            0 <= k < high - low ==> (#[trigger] snapshot@[k])@ == line_text(
                data@.text,
                (low + k) as nat,
            ),
{
    let mut snapshot: Vec<String> = Vec::new();
    let mut i = low;
    assert(ops@ =~= old(ops)@ + lines_ops(low as int, i as int));
    while i < high
        invariant
            low <= i <= high <= line_count(data@.text),
            ops@ == old(ops)@ + lines_ops(low as int, i as int),
            snapshot@.len() == i - low,
            forall|k: int|
                0 <= k < i - low ==> (#[trigger] snapshot@[k])@ == line_text(
                    data@.text,
                    (low + k) as nat,
                ),
        decreases high - i,
    {
        if i > low {
            ops.push(TermOp::NewLine);
        }
        push_line(ops, i);
        snapshot.push(data.line(i));
        assert(ops@ =~= old(ops)@ + lines_ops(low as int, i + 1));
        i += 1;
    }
    snapshot
}

/// The renderer. It owns the draw state; the editor is only read.
pub struct Renderer {
    state: DrawState,
    lazy: bool,
    max_height: Option<usize>,
    layout: Layout,
}

impl View for Renderer {
    type V = RendererView;

    closed spec fn view(&self) -> RendererView {
        RendererView {
            state: self.state@,
            lazy: self.lazy,
            max_height: self.max_height,
            layout: self.layout,
        }
    }
}

impl Renderer {
    /// A renderer that has drawn nothing yet, without decoration and without
    /// a limit on its height. A lazy one redraws no more than has changed; one
    /// that is not draws the whole frame each time.
    pub fn new(lazy: bool) -> (r: Renderer)
        ensures
            r@ == (RendererView {
                state: nothing_drawn(),
                lazy,
                max_height: None,
                layout: Layout { header_rows: 0, footer_rows: 0, gutter_width: 0 },
            }),
            r@.wf(),
    {
        let r = Renderer {
            state: DrawState {
                low: 0,
                high: 0,
                height: 0,
                cursor: Cursor { ln: 0, col: 0 },
                anchor_row: 0,
                anchor_col: 0,
                snapshot: Vec::new(),
            },
            lazy,
            max_height: None,
            layout: Layout { header_rows: 0, footer_rows: 0, gutter_width: 0 },
        };
        assert(r.state@.snapshot =~= Seq::empty());
        r
    }

    /// The same renderer with a limit on the height of its frame, or none.
    pub fn max_height(self, max_height: Option<usize>) -> (r: Renderer)
        ensures
            r@ == (RendererView { max_height, ..self@ }),
    {
        Renderer { state: self.state, lazy: self.lazy, max_height, layout: self.layout }
    }

    /// A renderer set up like this one, for a decoration that takes the room
    /// `layout`. It has drawn nothing yet.
    pub fn with_layout(self, layout: Layout) -> (r: Renderer)
        ensures
            r@ == (RendererView { state: nothing_drawn(), layout, ..self@ }),
            r@.wf(),
    {
        let mut r = Renderer::new(self.lazy);
        r.max_height = self.max_height;
        r.layout = layout;
        r
    }

    /// What was drawn last.
    pub fn state(&self) -> (st: &DrawState)
        ensures
            st@ == self@.state,
    {
        &self.state
    }

    /// Whether what the renderer remembers is a frame, or nothing. Every
    /// renderer that this library hands out is in order.
    pub fn is_valid(&self) -> (ok: bool)
        ensures
            ok == self@.wf(),
    {
        let st = &self.state;
        if st.height == 0 {
            let ok = st.low == 0 && st.high == 0 && st.cursor.ln == 0 && st.cursor.col == 0
                && st.anchor_row == 0 && st.anchor_col == 0 && st.snapshot.len() == 0;
            proof {
                if ok {
                    assert(st@.snapshot =~= Seq::empty());
                } else if st.snapshot.len() != 0 {
                    assert(st@.snapshot.len() != 0);
                }
            }
            ok
        } else {
            st.low < st.high && st.anchor_row == self.layout.header_rows && st.anchor_col
                == self.layout.gutter_width && st.cursor.ln < st.high - st.low
                && st.snapshot.len() == st.high - st.low && st.height >= st.anchor_row
                && st.height - st.anchor_row >= st.high - st.low && st.height - st.anchor_row - (
            st.high - st.low) == self.layout.footer_rows
        }
    }

    /// The rows that are there for the text, of a terminal with `term_rows`
    /// rows; `None` for a terminal that does not tell.
    pub fn text_rows(&self, term_rows: Option<usize>) -> (rows: usize)
        ensures
            rows == self@.text_rows(term_rows),
    {
        let avail = match (self.max_height, term_rows) {
            (Some(m), Some(r)) => if m <= r {
                m
            } else {
                r
            },
            (Some(m), None) => m,
            (None, Some(r)) => r,
            (None, None) => usize::MAX,
        };
        if avail >= self.layout.header_rows && avail - self.layout.header_rows
            >= self.layout.footer_rows {
            avail - self.layout.header_rows - self.layout.footer_rows
        } else {
            0
        }
    }

    /// Where in the text area the terminal's cursor belongs.
    fn target(data: &Editor, low: usize) -> (c: Cursor)
        requires
            data@.wf(),
            low <= data@.focus.ln,
        ensures
            c@ == RendererView::target(data@, low as nat),
    {
        let focus = data.focus();
        let len = data.curr_ln_len();
        Cursor {
            ln: focus.ln - low,
            col: if focus.col <= len {
                focus.col
            } else {
                len
            },
        }
    }

    /// Clear the frame and forget it.
    pub fn clear_draw(&mut self) -> (ops: Vec<TermOp>)
        requires
            old(self)@.wf(),
        ensures
            ops@ == old(self)@.clear_ops(),
            final(self)@ == old(self)@.cleared(),
            final(self)@.wf(),
    {
        let mut ops: Vec<TermOp> = Vec::new();
        if self.state.height > 0 {
            let row = self.state.anchor_row + self.state.cursor.ln;
            push_downs(&mut ops, self.state.height - 1 - row);
            ops.push(TermOp::ClearLine);
            push_ups(&mut ops, self.state.height - 1);
            ops.push(TermOp::MoveToColumn(0));
            ops.push(TermOp::ClearFromCursorDown);
            assert(ops@ =~= old(self)@.clear_ops());
        }
        self.state = DrawState {
            low: 0,
            high: 0,
            height: 0,
            cursor: Cursor { ln: 0, col: 0 },
            anchor_row: 0,
            anchor_col: 0,
            snapshot: Vec::new(),
        };
        assert(self.state@.snapshot =~= Seq::empty());
        ops
    }

    /// Clear the frame for good: as `clear_draw`, and a flush.
    pub fn finish(&mut self) -> (ops: Vec<TermOp>)
        requires
            old(self)@.wf(),
        ensures
            ops@ == old(self)@.clear_ops() + seq![TermOp::Flush],
            final(self)@ == old(self)@.cleared(),
            final(self)@.wf(),
    {
        let mut ops = self.clear_draw();
        ops.push(TermOp::Flush);
        ops
    }

    /// Draw the whole frame.
    pub fn draw(&mut self, data: &Editor, term_rows: Option<usize>) -> (ops: Vec<TermOp>)
        requires
            old(self)@.wf(),
            data@.wf(),
        ensures
            ops@ == old(self)@.draw_ops(data@, term_rows),
            final(self)@ == old(self)@.drawn(data@, term_rows),
            final(self)@.wf(),
    {
        let mut ops: Vec<TermOp> = Vec::new();
        let rows = self.text_rows(term_rows);
        if rows == 0 {
            return ops;
        }
        let lines = data.line_count();
        let focus = data.focus();
        let header_rows = self.layout.header_rows;
        let footer_rows = self.layout.footer_rows;
        let (low, high) = plan(lines, focus.ln, rows, (self.state.low, self.state.high));
        proof {
            lemma_planned_range(
                lines as nat,
                focus.ln as nat,
                rows as nat,
                self.state.low as nat,
                self.state.high as nat,
            );
        }
        let height = header_rows + (high - low) + footer_rows;

        push_ups(&mut ops, self.state.anchor_row + self.state.cursor.ln);
        ops.push(TermOp::MoveToColumn(0));
        assert(ops@ =~= old(self)@.to_top());
        push_header(&mut ops, header_rows);
        let snapshot = push_lines(&mut ops, data, low, high);
        push_footer(&mut ops, footer_rows);
        ops.push(TermOp::ClearFromCursorDown);
        let target = Self::target(data, low);
        push_ups(&mut ops, (high - 1 - focus.ln) + footer_rows);
        ops.push(TermOp::MoveToColumn(self.layout.gutter_width));
        push_rights(&mut ops, target.col);
        ops.push(TermOp::Flush);
        assert(ops@ =~= old(self)@.draw_ops(data@, term_rows));

        self.state = DrawState {
            low,
            high,
            height,
            cursor: target,
            anchor_row: header_rows,
            anchor_col: self.layout.gutter_width,
            snapshot,
        };
        assert(self.state@.snapshot =~= old(self)@.drawn(data@, term_rows).state.snapshot);
        ops
    }
}

impl Renderer {
    /// Work out what a redraw has to do.
    pub fn find_diff(&self, data: &Editor, term_rows: Option<usize>) -> (d: Diff)
        requires
            self@.wf(),
            data@.wf(),
        ensures
            d == self@.classify(data@, term_rows),
            d matches Diff::RedrawLine(i) ==> self@.state.low <= i < self@.state.high
                && self@.only_change(data@, i - self@.state.low),
            d != Diff::RedrawAll ==> self@.can_patch(data@, term_rows),
    {
        let rows = self.text_rows(term_rows);
        if !self.lazy || self.state.height == 0 || rows == 0 {
            return Diff::RedrawAll;
        }
        let lines = data.line_count();
        let focus = data.focus();
        let low = self.state.low;
        let high = self.state.high;
        let window = plan(lines, focus.ln, rows, (low, high));
        if window.0 != low || window.1 != high {
            return Diff::RedrawAll;
        }
        let mut changes: usize = 0;
        let mut line: usize = 0;
        let mut k: usize = 0;
        while k < high - low
            invariant
                self@.wf(),
                self@.state.height > 0,
                low == self@.state.low,
                high == self@.state.high,
                high <= lines == line_count(data@.text),
                k <= high - low,
                changes <= k,
                changes == 0 ==> forall|j: int| 0 <= j < k ==> self@.same_line(data@, j),
                changes == 1 ==> line < k && !self@.same_line(data@, line as int) && forall|j: int|
                    0 <= j < k && j != line ==> self@.same_line(data@, j),
                changes >= 2 ==> exists|a: int, b: int|
                    0 <= a < b < k && !self@.same_line(data@, a) && !self@.same_line(data@, b),
            decreases high - low - k,
        {
            let text = data.line(low + k);
            if !(text == self.state.snapshot[k]) {
                proof {
                    if changes == 1 {
                        assert(!self@.same_line(data@, line as int) && !self@.same_line(
                            data@,
                            k as int,
                        ));
                    }
                }
                changes += 1;
                line = k;
            }
            k += 1;
        }
        if changes == 0 {
            let target = Self::target(data, low);
            if target.ln == self.state.cursor.ln && target.col == self.state.cursor.col {
                Diff::NoChange
            } else {
                Diff::RedrawCursor
            }
        } else if changes == 1 {
            assert(self@.only_change(data@, line as int));
            Diff::RedrawLine(low + line)
        } else {
            Diff::RedrawAll
        }
    }

    /// Bring the screen up to date with as little as will do.
    pub fn redraw(&mut self, data: &Editor, term_rows: Option<usize>) -> (ops: Vec<TermOp>)
        requires
            old(self)@.wf(),
            data@.wf(),
        ensures
            ops@ == old(self)@.redraw_ops(data@, term_rows),
            final(self)@ == old(self)@.redrawn(data@, term_rows),
            final(self)@.wf(),
    {
        match self.find_diff(data, term_rows) {
            Diff::NoChange => Vec::new(),
            Diff::RedrawCursor => {
                let mut ops: Vec<TermOp> = Vec::new();
                let target = Self::target(data, self.state.low);
                push_moves(&mut ops, self.state.cursor, target);
                ops.push(TermOp::Flush);
                self.state.cursor = target;
                assert(ops@ =~= old(self)@.redraw_ops(data@, term_rows));
                ops
            },
            Diff::RedrawLine(i) => {
                let mut ops: Vec<TermOp> = Vec::new();
                let low = self.state.low;
                let row = i - low;
                proof {
                    lemma_planned_range(
                        line_count(data@.text),
                        data@.focus.ln,
                        self@.text_rows(term_rows),
                        self@.state.low,
                        self@.state.high,
                    );
                }
                let target = Self::target(data, low);
                let text = data.line(i);
                let len = data.line_len(i);
                push_moves(
                    &mut ops,
                    self.state.cursor,
                    Cursor { ln: row, col: self.state.cursor.col },
                );
                push_line(&mut ops, i);
                push_moves(&mut ops, Cursor { ln: row, col: len }, target);
                ops.push(TermOp::Flush);
                self.state.snapshot[row] = text;
                self.state.cursor = target;
                assert(ops@ =~= old(self)@.redraw_ops(data@, term_rows));
                assert(self.state@.snapshot =~= old(self)@.redrawn(
                    data@,
                    term_rows,
                ).state.snapshot);
                ops
            },
            Diff::RedrawAll => {
                let mut ops = self.clear_draw();
                let mut rest = self.draw(data, term_rows);
                ops.append(&mut rest);
                ops
            },
        }
    }
}

} // verus!
