//! What holds of the editor whatever its state: theorems over the functions
//! that its operations are stated by.

use vstd::prelude::*;
use crate::model::EditorView;
use crate::renderer::{countable, lines_text, line_ops, moves, Diff, RendererView, TermOp};
use crate::selection::Place;
use crate::text::{
    count_breaks, insert_at, lemma_line_start, is_break, lemma_count_breaks_one, lemma_insert_at_breaks,
    lemma_insert_at_line_start, lemma_line_bounds, lemma_line_of_within, lemma_line_start_is,
    lemma_remove_range_breaks, lemma_same_prefix, lemma_within_line_of,
    line_count, line_len, line_text, remove_range,
};
use crate::viewport::lemma_planned_range;

verus! {

/// Text that was put in and taken out again leaves the text as it was.
pub proof fn lemma_insert_remove_inverse(s: Seq<char>, p: int, t: Seq<char>)
    requires
        0 <= p <= s.len(),
    ensures
        remove_range(insert_at(s, p, t), p, p + t.len()) == s,
{
    assert(remove_range(insert_at(s, p, t), p, p + t.len()) =~= s);
}

/// A move that does not extend the selection leaves none, and no move
/// leaves an anchor under the focus: a move that brings the focus onto the
/// anchor drops the anchor.
pub proof fn lemma_move_collapses(v: EditorView, anchored: bool, to: Place)
    ensures
        !anchored ==> v.moved(anchored, to).anchor is None,
        v.moved(anchored, to).anchor != Some(v.moved(anchored, to).focus),
        v.anchor == Some(to) ==> v.moved(anchored, to).anchor is None,
        v.moved(anchored, to).focus == to,
        v.moved(anchored, to).text == v.text,
{
}

/// Enter and then backspace: a line that is split at the cursor and joined
/// again is the line it was, and the cursor is back where it was.
pub proof fn lemma_split_join_inverse(v: EditorView)
    requires
        v.wf(),
        v.anchor is None,
    ensures
        v.type_char('\n').backspace() == v.clamped(),
{
    let c = v.clamped();
    let f = c.focus;
    let p = c.offset(f);
    let nl = seq!['\n'];
    let w = v.type_char('\n');
    c.lemma_offset(f);
    v.lemma_offset(v.focus);
    lemma_count_breaks_one('\n');
    assert(nl.take(1) =~= nl);
    lemma_line_start_is(nl, 1, 1);
    lemma_insert_at_breaks(c.text, p, nl);
    lemma_insert_at_line_start(c.text, p, nl);
    assert(w.text.take(p) =~= c.text.take(p));
    lemma_same_prefix(c.text, w.text, p);
    lemma_line_bounds(w.text, f.ln);
    lemma_line_bounds(w.text, f.ln + 1);
    assert(w.focus == Place { ln: f.ln + 1, col: 0 });
    assert(line_len(w.text, f.ln) == f.col);
    assert(w.offset(w.focus) == p + 1);
    assert(remove_range(w.text, p, p + 1) =~= c.text);
}

/// Delete, pressed once for each character of `s` at the place where `s` was
/// put into the text `t`, leaves `t`, with the focus where it was.
proof fn lemma_delete_inserted(t: Seq<char>, f: Place, s: Seq<char>)
    requires
        f.ln < line_count(t),
        f.col <= line_len(t, f.ln),
    ensures
        ({
            let v = EditorView { text: t, focus: f, anchor: None };
            (EditorView { text: insert_at(t, v.offset(f), s), focus: f, anchor: None }).deleted(
                s.len(),
            ) == v
        }),
    decreases s.len(),
{
    let v = EditorView { text: t, focus: f, anchor: None };
    let p = v.offset(f);
    let u = EditorView { text: insert_at(t, p, s), focus: f, anchor: None };
    v.lemma_offset(f);
    if s.len() == 0 {
        assert(u.text =~= t);
    } else {
        lemma_insert_at_breaks(t, p, s);
        assert(u.text.take(p) =~= t.take(p));
        lemma_same_prefix(t, u.text, p);
        lemma_line_bounds(u.text, f.ln);
        u.lemma_offset(f);
        u.lemma_delete_at();
        assert(remove_range(u.text, p, p + 1) =~= insert_at(t, p, s.skip(1)));
        lemma_delete_inserted(t, f, s.skip(1));
    }
}

/// Typing and then deleting: a string that is put in at the cursor and then
/// deleted forward from there, one press of delete for each of its
/// characters, leaves the text as it was and the cursor where it was.
pub proof fn lemma_insert_delete_inverse(v: EditorView, s: Seq<char>)
    requires
        v.wf(),
        v.anchor is None,
    ensures
        v.insert_str(s).with_focus(v.clamp(v.focus)).deleted(s.len()) == v.clamped(),
{
    v.lemma_offset(v.focus);
    let c = v.clamped();
    c.lemma_offset(c.focus);
    lemma_delete_inserted(c.text, c.focus, s);
}

/// Whether an operation draws anything of the frame: the header, the footer,
/// a margin or a line of the text, or a clear of the screen below.
pub open spec fn draws(op: TermOp) -> bool {
    op is Header || op is Footer || op is Margin || op is Line || op is ClearFromCursorDown
}

/// A lazy redraw that finds one line changed draws that line, once, and
/// nothing else: no other line, no other margin, no header and no footer, and
/// it clears no more than the row of that line. Afterwards the frame shows
/// what the text holds.
pub proof fn lemma_single_line_redraw(
    r: RendererView,
    v: EditorView,
    term_rows: Option<usize>,
    k: int,
)
    requires
        r.wf(),
        v.wf(),
        r.can_patch(v, term_rows),
        r.only_change(v, k),
    ensures
        ({
            let ops = r.redraw_ops(v, term_rows);
            let i = (r.state.low + k) as usize;
            &&& r.classify(v, term_rows) == Diff::RedrawLine(i)
            &&& i == r.state.low + k
            &&& forall|n: int|
                0 <= n < ops.len() && draws(#[trigger] ops[n]) ==> ops[n] == TermOp::Margin(i)
                    || ops[n] == TermOp::Line(i)
            &&& forall|n: int, m: int|
                0 <= n < ops.len() && 0 <= m < ops.len() && ops[n] == TermOp::Line(i) && ops[m]
                    == TermOp::Line(i) ==> n == m
            &&& exists|n: int| 0 <= n < ops.len() && ops[n] == TermOp::Line(i)
            &&& r.redrawn(v, term_rows).state.snapshot == lines_text(
                v.text,
                r.state.low,
                r.state.high,
            )
            &&& r.redrawn(v, term_rows).state.cursor == RendererView::target(v, r.state.low)
        }),
{
    let ops = r.redraw_ops(v, term_rows);
    let i = (r.state.low + k) as usize;
    assert(!r.same_line(v, k));
    let c = choose|c: int| r.only_change(v, c);
    assert(r.only_change(v, c));
    if c != k {
        assert(r.same_line(v, k));
    }
    let row = k as nat;
    let a = moves(r.state.cursor, Place { ln: row, col: r.state.cursor.col });
    let b = line_ops(i as int);
    let d = moves(
        Place { ln: row, col: line_text(v.text, i as nat).len() },
        RendererView::target(v, r.state.low),
    );
    assert(ops == a + b + d + seq![TermOp::Flush]);
    assert(a.len() <= 2 && d.len() <= 2);
    assert(forall|n: int| 0 <= n < a.len() ==> !draws(#[trigger] a[n]));
    assert(forall|n: int| 0 <= n < d.len() ==> !draws(#[trigger] d[n]));
    assert(ops[a.len() as int + 3] == TermOp::Line(i));
    assert(r.redrawn(v, term_rows).state.snapshot =~= lines_text(
        v.text,
        r.state.low,
        r.state.high,
    )) by {
        assert forall|j: int| 0 <= j < r.state.snapshot.len() implies r.redrawn(
            v,
            term_rows,
        ).state.snapshot[j] == line_text(v.text, (r.state.low + j) as nat) by {
            if j != k {
                assert(r.same_line(v, j));
            }
        }
    }
}

/// A frame that was just drawn or redrawn is up to date: a lazy redraw of
/// the same text on the same terminal does nothing.
pub proof fn lemma_redraw_settles(r: RendererView, v: EditorView, term_rows: Option<usize>)
    requires
        r.wf(),
        v.wf(),
        countable(v.text),
        r.lazy,
        r.text_rows(term_rows) > 0,
    ensures
        r.redrawn(v, term_rows).wf(),
        r.redrawn(v, term_rows).classify(v, term_rows) == Diff::NoChange,
        r.redrawn(v, term_rows).redraw_ops(v, term_rows) == Seq::<TermOp>::empty(),
        r.redrawn(v, term_rows).redrawn(v, term_rows) == r.redrawn(v, term_rows),
{
    let n = line_count(v.text);
    let c = v.focus.ln;
    let t = r.text_rows(term_rows);
    let after = r.redrawn(v, term_rows);
    v.lemma_offset(v.focus);
    lemma_planned_range(n, c, t, r.state.low, r.state.high);
    lemma_planned_range(n, c, t, 0, 0);
    lemma_planned_range(n, c, t, after.state.low, after.state.high);
    match r.classify(v, term_rows) {
        Diff::NoChange => {},
        Diff::RedrawCursor => {
            assert forall|j: int| 0 <= j < after.state.snapshot.len() implies after.same_line(
                v,
                j,
            ) by {
                assert(r.same_line(v, j));
            }
        },
        Diff::RedrawLine(i) => {
            let k = choose|k: int| r.only_change(v, k);
            assert(r.only_change(v, k));
            assert forall|j: int| 0 <= j < after.state.snapshot.len() implies after.same_line(
                v,
                j,
            ) by {
                if j != k {
                    assert(r.same_line(v, j));
                }
            }
        },
        Diff::RedrawAll => {
            assert forall|j: int| 0 <= j < after.state.snapshot.len() implies after.same_line(
                v,
                j,
            ) by {};
        },
    }
}

/// Whatever move is made, the focus and the anchor stay on lines that the
/// text has, and a clamped focus is on its line.
pub proof fn lemma_moves_keep_wf(v: EditorView, col: nat, anchored: bool)
    requires
        v.wf(),
    ensures
        v.clamped().wf(),
        v.clamped().focus.col <= v.clamped().len_at(v.clamped().focus),
        v.move_left(anchored).wf(),
        v.move_right(anchored).wf(),
        v.move_up(anchored).wf(),
        v.move_down(anchored).wf(),
        v.move_to_col(col, anchored).wf(),
        v.move_to_line_start(anchored).wf(),
        v.move_to_line_end(anchored).wf(),
        v.move_to_top(anchored).wf(),
        v.move_to_bottom(anchored).wf(),
{
}

/// After backspace the focus is on a line that the text has.
pub proof fn lemma_backspace_keeps_wf(v: EditorView)
    requires
        v.wf(),
    ensures
        v.backspace().wf(),
{
    let c = v.clamped();
    let p = c.offset(c.focus);
    c.lemma_offset(c.focus);
    c.lemma_without_selection();
    if c.anchor is None && p > 0 {
        lemma_remove_range_breaks(c.text, p - 1, p);
        if c.focus.col > 0 {
            lemma_line_of_within(c.text, c.focus.ln, p - 1);
        } else if c.focus.ln > 0 {
            lemma_line_bounds(c.text, (c.focus.ln - 1) as nat);
            lemma_line_of_within(c.text, (c.focus.ln - 1) as nat, p - 1);
        }
    }
}

/// After delete the focus is on a line that the text has.
pub proof fn lemma_delete_keeps_wf(v: EditorView)
    requires
        v.wf(),
    ensures
        v.delete().wf(),
{
    let c = v.clamped();
    let p = c.offset(c.focus);
    c.lemma_offset(c.focus);
    c.lemma_without_selection();
    lemma_line_bounds(c.text, c.focus.ln);
    if c.anchor is None && p < c.text.len() {
        lemma_remove_range_breaks(c.text, p, p + 1);
    }
}

/// After text was typed the focus is on a line that the text has, at a
/// column of that line, behind what was typed.
pub proof fn lemma_insert_keeps_wf(v: EditorView, s: Seq<char>)
    requires
        v.wf(),
    ensures
        v.insert_str(s).wf(),
        v.insert_str(s).focus.col <= v.insert_str(s).len_at(v.insert_str(s).focus),
        v.insert_str(s).offset(v.insert_str(s).focus) == v.ready().offset(v.ready().focus)
            + s.len(),
{
    let r = v.ready();
    v.lemma_ready();
    r.lemma_offset(r.focus);
    let q = r.offset(r.focus);
    let t = insert_at(r.text, q, s);
    lemma_insert_at_breaks(r.text, q, s);
    lemma_insert_at_line_start(r.text, q, s);
    lemma_within_line_of(t, q + s.len());
    if count_breaks(s) > 0 {
        lemma_line_start(s, count_breaks(s));
    }
    let w = v.insert_str(s);
    lemma_line_bounds(t, w.focus.ln);
}

} // verus!
