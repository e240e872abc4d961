//! The terminal's cursor, followed through the operations that the renderer
//! hands out. This is how the renderer's book-keeping is held to account: the
//! place that it remembers for the cursor is the place where its operations
//! leave it.

use vstd::prelude::*;
use crate::model::EditorView;
use crate::renderer::{
    countable, downs, footer_ops, header_ops, lefts, line_ops, lines_ops, moves, rights, ups, Diff,
    DrawStateView, Layout, RendererView, TermOp,
};
use crate::selection::Place;
use crate::text::{lemma_line_bounds, line_count, line_len, line_text};
use crate::viewport::lemma_planned_range;

verus! {

/// A place on the screen, in rows and columns from the top left corner of
/// the frame.
pub struct Spot {
    pub row: int,
    pub col: int,
}

/// What is fixed while operations are carried out: the text, the room of the
/// decoration, and the column at which header and footer leave the cursor,
/// which is theirs to choose.
pub struct Scene {
    pub text: Seq<char>,
    pub layout: Layout,
    pub drift: int,
}

/// Where the cursor stands after one operation. A new line goes one row
/// down. The header and the footer end on their last row. The margin takes
/// its columns and a line those of its characters.
pub open spec fn step(op: TermOp, at: Spot, scene: Scene) -> Spot {
    match op {
        TermOp::MoveUp(n) => Spot { row: at.row - n, col: at.col },
        TermOp::MoveDown(n) => Spot { row: at.row + n, col: at.col },
        TermOp::MoveLeft(n) => Spot { row: at.row, col: at.col - n },
        TermOp::MoveRight(n) => Spot { row: at.row, col: at.col + n },
        TermOp::MoveToColumn(c) => Spot { row: at.row, col: c as int },
        TermOp::NewLine => Spot { row: at.row + 1, col: at.col },
        TermOp::Header => Spot {
            row: at.row + scene.layout.header_rows - 1,
            col: scene.drift,
        },
        TermOp::Footer => Spot {
            row: at.row + scene.layout.footer_rows - 1,
            col: scene.drift,
        },
        TermOp::Margin(i) => Spot { row: at.row, col: at.col + scene.layout.gutter_width },
        TermOp::Line(i) => Spot { row: at.row, col: at.col + line_len(scene.text, i as nat) },
        TermOp::ClearLine => at,
        TermOp::ClearFromCursorDown => at,
        TermOp::Flush => at,
    }
}

/// Where the cursor stands after the operations `ops`, one after another.
pub open spec fn run(ops: Seq<TermOp>, at: Spot, scene: Scene) -> Spot
    decreases ops.len(),
{
    if ops.len() == 0 {
        at
    } else {
        step(ops.last(), run(ops.drop_last(), at, scene), scene)
    }
}

/// The place on the screen that a draw state remembers for the cursor.
pub open spec fn remembered(st: DrawStateView) -> Spot {
    Spot {
        row: (st.anchor_row + st.cursor.ln) as int,
        col: (st.anchor_col + st.cursor.col) as int,
    }
}

/// Operations that are carried out one batch after another lead where the
/// batches lead.
pub proof fn lemma_run_add(a: Seq<TermOp>, b: Seq<TermOp>, at: Spot, scene: Scene)
    ensures
        run(a + b, at, scene) == run(b, run(a, at, scene), scene),
    decreases b.len(),
{
    if b.len() == 0 {
        assert(a + b =~= a);
    } else {
        assert((a + b).drop_last() =~= a + b.drop_last());
        lemma_run_add(a, b.drop_last(), at, scene);
    }
}

/// One operation leads where its step leads, and none leads nowhere.
pub proof fn lemma_run_one(op: TermOp, at: Spot, scene: Scene)
    ensures
        run(seq![op], at, scene) == step(op, at, scene),
        run(Seq::empty(), at, scene) == at,
{
    assert(seq![op].drop_last() =~= Seq::<TermOp>::empty());
    assert(seq![op].last() == op);
    assert(run(Seq::<TermOp>::empty(), at, scene) == at);
}

/// Moves lead where they say.
pub proof fn lemma_run_moves(n: int, at: Spot, scene: Scene)
    requires
        0 <= n <= usize::MAX,
    ensures
        run(ups(n), at, scene) == (Spot { row: at.row - n, col: at.col }),
        run(downs(n), at, scene) == (Spot { row: at.row + n, col: at.col }),
        run(lefts(n), at, scene) == (Spot { row: at.row, col: at.col - n }),
        run(rights(n), at, scene) == (Spot { row: at.row, col: at.col + n }),
{
    lemma_run_one(TermOp::MoveUp(n as usize), at, scene);
    lemma_run_one(TermOp::MoveDown(n as usize), at, scene);
    lemma_run_one(TermOp::MoveLeft(n as usize), at, scene);
    lemma_run_one(TermOp::MoveRight(n as usize), at, scene);
}

/// The moves from one place of the text area to another lead there.
pub proof fn lemma_run_between(from: Place, to: Place, at: Spot, scene: Scene)
    requires
        from.ln <= usize::MAX,
        from.col <= usize::MAX,
        to.ln <= usize::MAX,
        to.col <= usize::MAX,
    ensures
        run(moves(from, to), at, scene) == (Spot {
            row: at.row + to.ln - from.ln,
            col: at.col + to.col - from.col,
        }),
{
    let rows = if to.ln < from.ln {
        ups(from.ln - to.ln)
    } else {
        downs(to.ln - from.ln)
    };
    let cols = if to.col < from.col {
        lefts(from.col - to.col)
    } else {
        rights(to.col - from.col)
    };
    lemma_run_add(rows, cols, at, scene);
    let mid = run(rows, at, scene);
    if to.ln < from.ln {
        lemma_run_moves(from.ln - to.ln, at, scene);
    } else {
        lemma_run_moves(to.ln - from.ln, at, scene);
    }
    if to.col < from.col {
        lemma_run_moves(from.col - to.col, mid, scene);
    } else {
        lemma_run_moves(to.col - from.col, mid, scene);
    }
}

/// Drawing a line leaves the cursor on its row, behind the margin and the
/// characters of the line.
pub proof fn lemma_run_line(i: int, at: Spot, scene: Scene)
    requires
        0 <= i <= usize::MAX,
    ensures
        run(line_ops(i), at, scene) == (Spot {
            row: at.row,
            col: scene.layout.gutter_width + line_len(scene.text, i as nat),
        }),
{
    let ops = line_ops(i);
    let a = seq![TermOp::MoveToColumn(0)];
    let b = seq![TermOp::ClearLine];
    let c = seq![TermOp::Margin(i as usize)];
    let d = seq![TermOp::Line(i as usize)];
    assert(ops =~= a + b + c + d);
    lemma_run_add(a + b + c, d, at, scene);
    lemma_run_add(a + b, c, at, scene);
    lemma_run_add(a, b, at, scene);
    lemma_run_one(TermOp::MoveToColumn(0), at, scene);
    let s1 = run(a, at, scene);
    lemma_run_one(TermOp::ClearLine, s1, scene);
    let s2 = run(a + b, at, scene);
    lemma_run_one(TermOp::Margin(i as usize), s2, scene);
    let s3 = run(a + b + c, at, scene);
    lemma_run_one(TermOp::Line(i as usize), s3, scene);
}

/// Drawing lines one below the other leaves the cursor on the row of the
/// last of them.
pub proof fn lemma_run_lines(low: int, high: int, at: Spot, scene: Scene)
    requires
        0 <= low < high <= usize::MAX,
    ensures
        run(lines_ops(low, high), at, scene) == (Spot {
            row: at.row + (high - low - 1),
            col: scene.layout.gutter_width + line_len(scene.text, (high - 1) as nat),
        }),
    decreases high - low,
{
    if high == low + 1 {
        lemma_run_line(low, at, scene);
    } else {
        let head = lines_ops(low, high - 1);
        lemma_run_lines(low, high - 1, at, scene);
        lemma_run_add(head + seq![TermOp::NewLine], line_ops(high - 1), at, scene);
        lemma_run_add(head, seq![TermOp::NewLine], at, scene);
        lemma_run_one(TermOp::NewLine, run(head, at, scene), scene);
        lemma_run_line(high - 1, run(head + seq![TermOp::NewLine], at, scene), scene);
    }
}

/// Drawing the header leaves the cursor on the first row below it.
pub proof fn lemma_run_header(rows: usize, at: Spot, scene: Scene)
    requires
        rows == scene.layout.header_rows,
    ensures
        run(header_ops(rows), at, scene).row == at.row + rows,
{
    if rows > 0 {
        let a = seq![TermOp::MoveToColumn(0)];
        let b = seq![TermOp::ClearLine];
        let c = seq![TermOp::Header];
        let d = seq![TermOp::NewLine];
        assert(header_ops(rows) =~= a + b + c + d);
        lemma_run_add(a + b + c, d, at, scene);
        lemma_run_add(a + b, c, at, scene);
        lemma_run_add(a, b, at, scene);
        lemma_run_one(TermOp::MoveToColumn(0), at, scene);
        lemma_run_one(TermOp::ClearLine, run(a, at, scene), scene);
        lemma_run_one(TermOp::Header, run(a + b, at, scene), scene);
        lemma_run_one(TermOp::NewLine, run(a + b + c, at, scene), scene);
    } else {
        lemma_run_one(TermOp::Flush, at, scene);
    }
}

/// Drawing the footer leaves the cursor on its last row.
pub proof fn lemma_run_footer(rows: usize, at: Spot, scene: Scene)
    requires
        rows == scene.layout.footer_rows,
    ensures
        run(footer_ops(rows), at, scene).row == at.row + rows,
{
    if rows > 0 {
        let a = seq![TermOp::NewLine];
        let b = seq![TermOp::MoveToColumn(0)];
        let c = seq![TermOp::ClearLine];
        let d = seq![TermOp::Footer];
        assert(footer_ops(rows) =~= a + b + c + d);
        lemma_run_add(a + b + c, d, at, scene);
        lemma_run_add(a + b, c, at, scene);
        lemma_run_add(a, b, at, scene);
        lemma_run_one(TermOp::NewLine, at, scene);
        lemma_run_one(TermOp::MoveToColumn(0), run(a, at, scene), scene);
        lemma_run_one(TermOp::ClearLine, run(a + b, at, scene), scene);
        lemma_run_one(TermOp::Footer, run(a + b + c, at, scene), scene);
    } else {
        lemma_run_one(TermOp::Flush, at, scene);
    }
}

/// After a full draw the renderer remembers a frame.
pub proof fn lemma_drawn_wf(r: RendererView, v: EditorView, term_rows: Option<usize>)
    requires
        r.wf(),
        v.wf(),
        countable(v.text),
    ensures
        r.drawn(v, term_rows).wf(),
        r.text_rows(term_rows) > 0 ==> r.drawn(v, term_rows).state.height > 0,
{
    v.lemma_offset(v.focus);
    lemma_planned_range(
        line_count(v.text),
        v.focus.ln,
        r.text_rows(term_rows),
        r.state.low,
        r.state.high,
    );
}

/// A full draw leaves the terminal's cursor where the renderer then
/// remembers it, wherever in its row the cursor stood before and wherever
/// header and footer leave it.
pub proof fn lemma_draw_tracks_cursor(
    r: RendererView,
    v: EditorView,
    term_rows: Option<usize>,
    at: Spot,
    drift: int,
)
    requires
        r.wf(),
        v.wf(),
        countable(v.text),
        r.text_rows(term_rows) > 0,
        at.row == remembered(r.state).row,
    ensures
        run(
            r.draw_ops(v, term_rows),
            at,
            Scene { text: v.text, layout: r.layout, drift },
        ) == remembered(r.drawn(v, term_rows).state),
{
    let scene = Scene { text: v.text, layout: r.layout, drift };
    let (low, high) = r.window(v, term_rows);
    let hr = r.layout.header_rows;
    let fr = r.layout.footer_rows;
    let c = v.focus.ln;
    let col = v.clamp(v.focus).col;
    lemma_planned_range(
        line_count(v.text),
        c,
        r.text_rows(term_rows),
        r.state.low,
        r.state.high,
    );
    lemma_drawn_wf(r, v, term_rows);
    v.lemma_offset(v.focus);
    let up0 = ups((r.state.anchor_row + r.state.cursor.ln) as int);
    let p0 = up0 + seq![TermOp::MoveToColumn(0)];
    let p1 = p0 + header_ops(hr);
    let p2 = p1 + lines_ops(low as int, high as int);
    let p3 = p2 + footer_ops(fr);
    let p4 = p3 + seq![TermOp::ClearFromCursorDown];
    let back = ups((high - 1 - c) + fr);
    let p5 = p4 + back;
    let to_col = seq![TermOp::MoveToColumn(r.layout.gutter_width)];
    let p6 = p5 + (to_col + rights(col as int));
    let p7 = p6 + seq![TermOp::Flush];
    assert(r.draw_ops(v, term_rows) == p7);

    lemma_run_add(up0, seq![TermOp::MoveToColumn(0)], at, scene);
    lemma_run_moves((r.state.anchor_row + r.state.cursor.ln) as int, at, scene);
    let s_up = run(up0, at, scene);
    lemma_run_one(TermOp::MoveToColumn(0), s_up, scene);
    let s0 = run(p0, at, scene);
    assert(s0.row == 0);

    lemma_run_add(p0, header_ops(hr), at, scene);
    lemma_run_header(hr, s0, scene);
    let s1 = run(p1, at, scene);
    assert(s1.row == hr);

    lemma_run_add(p1, lines_ops(low as int, high as int), at, scene);
    lemma_run_lines(low as int, high as int, s1, scene);
    let s2 = run(p2, at, scene);
    assert(s2.row == hr + (high - low - 1));

    lemma_run_add(p2, footer_ops(fr), at, scene);
    lemma_run_footer(fr, s2, scene);
    let s3 = run(p3, at, scene);

    lemma_run_add(p3, seq![TermOp::ClearFromCursorDown], at, scene);
    lemma_run_one(TermOp::ClearFromCursorDown, s3, scene);
    let s4 = run(p4, at, scene);

    lemma_run_add(p4, back, at, scene);
    lemma_run_moves((high - 1 - c) + fr, s4, scene);
    let s5 = run(p5, at, scene);
    assert(s5.row == hr + (c - low));

    lemma_run_add(p5, to_col + rights(col as int), at, scene);
    lemma_run_add(to_col, rights(col as int), s5, scene);
    lemma_run_one(TermOp::MoveToColumn(r.layout.gutter_width), s5, scene);
    lemma_run_moves(col as int, run(to_col, s5, scene), scene);
    let s6 = run(p6, at, scene);

    lemma_run_add(p6, seq![TermOp::Flush], at, scene);
    lemma_run_one(TermOp::Flush, s6, scene);
}

/// Clearing the frame leaves the terminal's cursor in the top left corner
/// of where the frame was.
pub proof fn lemma_clear_tracks_cursor(r: RendererView, scene: Scene)
    requires
        r.wf(),
    ensures
        run(r.clear_ops(), remembered(r.state), scene) == remembered(r.cleared().state),
        remembered(r.cleared().state) == (Spot { row: 0, col: 0 }),
{
    let st = r.state;
    let at = remembered(st);
    if st.height == 0 {
        lemma_run_one(TermOp::Flush, at, scene);
    } else {
        let a = downs(st.height - 1 - (st.anchor_row + st.cursor.ln));
        let b = seq![TermOp::ClearLine];
        let c = ups(st.height - 1);
        let d = seq![TermOp::MoveToColumn(0), TermOp::ClearFromCursorDown];
        let d1 = seq![TermOp::MoveToColumn(0)];
        let d2 = seq![TermOp::ClearFromCursorDown];
        assert(d =~= d1 + d2);
        assert(r.clear_ops() == a + b + c + d);
        lemma_run_add(a + b + c, d, at, scene);
        lemma_run_add(a + b, c, at, scene);
        lemma_run_add(a, b, at, scene);
        lemma_run_moves(st.height - 1 - (st.anchor_row + st.cursor.ln), at, scene);
        lemma_run_one(TermOp::ClearLine, run(a, at, scene), scene);
        lemma_run_moves(st.height - 1, run(a + b, at, scene), scene);
        let s = run(a + b + c, at, scene);
        lemma_run_add(d1, d2, s, scene);
        lemma_run_one(TermOp::MoveToColumn(0), s, scene);
        lemma_run_one(TermOp::ClearFromCursorDown, run(d1, s, scene), scene);
    }
}

/// A redraw, whatever it finds to do, leaves the terminal's cursor where the
/// renderer then remembers it.
pub proof fn lemma_redraw_tracks_cursor(
    r: RendererView,
    v: EditorView,
    term_rows: Option<usize>,
    drift: int,
)
    requires
        r.wf(),
        v.wf(),
        countable(v.text),
    ensures
        run(
            r.redraw_ops(v, term_rows),
            remembered(r.state),
            Scene { text: v.text, layout: r.layout, drift },
        ) == remembered(r.redrawn(v, term_rows).state),
{
    let scene = Scene { text: v.text, layout: r.layout, drift };
    let at = remembered(r.state);
    let st = r.state;
    let target = RendererView::target(v, st.low);
    v.lemma_offset(v.focus);
    lemma_planned_range(
        line_count(v.text),
        v.focus.ln,
        r.text_rows(term_rows),
        st.low,
        st.high,
    );
    match r.classify(v, term_rows) {
        Diff::NoChange => {
            lemma_run_one(TermOp::Flush, at, scene);
        },
        Diff::RedrawCursor => {
            let m = moves(st.cursor, target);
            lemma_run_add(m, seq![TermOp::Flush], at, scene);
            lemma_run_between(st.cursor, target, at, scene);
            lemma_run_one(TermOp::Flush, run(m, at, scene), scene);
        },
        Diff::RedrawLine(i) => {
            let k = choose|k: int| r.only_change(v, k);
            assert(r.only_change(v, k));
            let row = (i - st.low) as nat;
            let here = Place { ln: row, col: st.cursor.col };
            let end = Place { ln: row, col: line_text(v.text, i as nat).len() };
            lemma_line_bounds(v.text, i as nat);
            let a = moves(st.cursor, here);
            let b = line_ops(i as int);
            let c = moves(end, target);
            assert(r.redraw_ops(v, term_rows) == a + b + c + seq![TermOp::Flush]);
            lemma_run_add(a + b + c, seq![TermOp::Flush], at, scene);
            lemma_run_add(a + b, c, at, scene);
            lemma_run_add(a, b, at, scene);
            lemma_run_between(st.cursor, here, at, scene);
            lemma_run_line(i as int, run(a, at, scene), scene);
            lemma_run_between(end, target, run(a + b, at, scene), scene);
            lemma_run_one(TermOp::Flush, run(a + b + c, at, scene), scene);
        },
        Diff::RedrawAll => {
            let cleared = r.cleared();
            lemma_clear_tracks_cursor(r, scene);
            lemma_run_add(r.clear_ops(), cleared.draw_ops(v, term_rows), at, scene);
            let top = run(r.clear_ops(), at, scene);
            if r.text_rows(term_rows) > 0 {
                lemma_draw_tracks_cursor(cleared, v, term_rows, top, drift);
            } else {
                lemma_run_one(TermOp::Flush, top, scene);
            }
        },
    }
}

} // verus!
