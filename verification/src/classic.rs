//! The parts of a decoration one by one: headers, footers and margins that
//! can be put together freely, among them the classic ones, drawn with lines.

use vstd::prelude::*;
use crate::editor::Editor;
use crate::model::EditorView;
use crate::renderer::Layout;
use crate::styles::{
    decimal, decimal_padded, digits, padded, shown, span_of, Paint, Span, SpanView, Style,
};
use crate::text::line_count;

verus! {

/// A header: the rows that it takes, and what it shows.
pub trait Header {
    /// The rows that the header takes.
    spec fn height(&self) -> usize;

    /// The rows that the header takes.
    fn rows(&self) -> (n: usize)
        ensures
            n == self.height(),
    ;

    /// What the header shows.
    spec fn shows(&self, v: EditorView) -> Seq<SpanView>;

    /// What the header shows.
    fn draw(&self, data: &Editor) -> (row: Vec<Span>)
        requires
            data@.wf(),
        ensures
            shown(row@) == self.shows(data@),
    ;
}

/// A footer: the rows that it takes, and what it shows.
pub trait Footer {
    /// The rows that the footer takes.
    spec fn height(&self) -> usize;

    /// The rows that the footer takes.
    fn rows(&self) -> (n: usize)
        ensures
            n == self.height(),
    ;

    /// What the footer shows.
    spec fn shows(&self, v: EditorView) -> Seq<SpanView>;

    /// What the footer shows.
    fn draw(&self, data: &Editor) -> (row: Vec<Span>)
        requires
            data@.wf(),
        ensures
            shown(row@) == self.shows(data@),
    ;
}

/// A margin: the columns that it takes, and what it shows beside a line.
pub trait Margin {
    /// The columns that the margin takes.
    spec fn columns(&self) -> usize;

    /// The columns that the margin takes.
    fn width(&self) -> (n: usize)
        ensures
            n == self.columns(),
    ;

    /// What the margin shows beside line `i`.
    spec fn shows(&self, v: EditorView, i: nat) -> Seq<SpanView>;

    /// What the margin shows beside line `line_idx`.
    fn draw(&self, line_idx: usize, data: &Editor) -> (row: Vec<Span>)
        requires
            data@.wf(),
            line_idx < usize::MAX,
        ensures
            shown(row@) == self.shows(data@, line_idx as nat),
    ;
}

/// A row with one plain span.
fn plain_row(text: String) -> (row: Vec<Span>)
    ensures
        shown(row@) == seq![span_of(text@, Paint::Plain)],
{
    let mut row: Vec<Span> = Vec::new();
    row.push(Span { text, paint: Paint::Plain });
    assert(shown(row@) =~= seq![span_of(text@, Paint::Plain)]);
    row
}

/// A row without a span.
fn no_row() -> (row: Vec<Span>)
    ensures
        shown(row@) == Seq::<SpanView>::empty(),
{
    let row: Vec<Span> = Vec::new();
    assert(shown(row@) =~= Seq::<SpanView>::empty());
    row
}

/// No header.
#[derive(Debug, Clone, Copy, PartialEq, Eq, Structural)]
pub struct NoHeader;

impl Header for NoHeader {
    open spec fn height(&self) -> usize {
        0
    }

    fn rows(&self) -> (n: usize) {
        0
    }

    open spec fn shows(&self, v: EditorView) -> Seq<SpanView> {
        Seq::empty()
    }

    fn draw(&self, data: &Editor) -> (row: Vec<Span>) {
        no_row()
    }
}

/// The classic header: one row with a title.
#[derive(Debug, Clone, Copy, PartialEq, Eq, Structural)]
pub struct ClassicHeader;

/// What the classic header shows.
pub open spec fn classic_header() -> Seq<SpanView> {
    seq![
        span_of(
            "      \u{256d}\u{2500}\u{2500}\u{2500} Input Prompt \u{2500}\u{2500}\u{2500}\u{2500}\u{2500}\u{2500}\u{2500}\u{2500}\u{2500}"@,
            Paint::Plain,
        ),
    ]
}

impl Header for ClassicHeader {
    open spec fn height(&self) -> usize {
        1
    }

    fn rows(&self) -> (n: usize) {
        1
    }

    open spec fn shows(&self, v: EditorView) -> Seq<SpanView> {
        classic_header()
    }

    fn draw(&self, data: &Editor) -> (row: Vec<Span>) {
        plain_row(
            String::from_str(
                "      \u{256d}\u{2500}\u{2500}\u{2500} Input Prompt \u{2500}\u{2500}\u{2500}\u{2500}\u{2500}\u{2500}\u{2500}\u{2500}\u{2500}",
            ),
        )
    }
}

/// No footer.
#[derive(Debug, Clone, Copy, PartialEq, Eq, Structural)]
pub struct NoFooter;

impl Footer for NoFooter {
    open spec fn height(&self) -> usize {
        0
    }

    fn rows(&self) -> (n: usize) {
        0
    }

    open spec fn shows(&self, v: EditorView) -> Seq<SpanView> {
        Seq::empty()
    }

    fn draw(&self, data: &Editor) -> (row: Vec<Span>) {
        no_row()
    }
}

/// The classic footer: one row that counts lines and characters and tells
/// where the cursor is.
#[derive(Debug, Clone, Copy, PartialEq, Eq, Structural)]
pub struct ClassicFooter;

/// What the classic footer shows: the number of lines, the number of
/// characters, and the line and the clamped column of the cursor.
pub open spec fn classic_footer(v: EditorView) -> Seq<SpanView> {
    seq![
        span_of(
            "      \u{2570}\u{2500}\u{2500}\u{2524} Lines: "@ + digits(line_count(v.text))
                + " \u{251c}\u{2500}\u{2524} Chars: "@ + digits(v.text.len())
                + " \u{251c}\u{2500}\u{2524} Ln: "@ + digits(v.focus.ln) + ", Col: "@ + digits(
                v.clamp(v.focus).col,
            ),
            Paint::Plain,
        ),
    ]
}

impl Footer for ClassicFooter {
    open spec fn height(&self) -> usize {
        1
    }

    fn rows(&self) -> (n: usize) {
        1
    }

    open spec fn shows(&self, v: EditorView) -> Seq<SpanView> {
        classic_footer(v)
    }

    fn draw(&self, data: &Editor) -> (row: Vec<Span>) {
        let focus = data.focus();
        let len = data.curr_ln_len();
        let col = if focus.col <= len {
            focus.col
        } else {
            len
        };
        let mut text = String::from_str("      \u{2570}\u{2500}\u{2500}\u{2524} Lines: ");
        text.append(decimal(data.line_count()).as_str());
        text.append(" \u{251c}\u{2500}\u{2524} Chars: ");
        text.append(decimal(data.char_count()).as_str());
        text.append(" \u{251c}\u{2500}\u{2524} Ln: ");
        text.append(decimal(focus.ln).as_str());
        text.append(", Col: ");
        text.append(decimal(col).as_str());
        plain_row(text)
    }
}

/// No margin.
#[derive(Debug, Clone, Copy, PartialEq, Eq, Structural)]
pub struct NoMargin;

impl Margin for NoMargin {
    open spec fn columns(&self) -> usize {
        0
    }

    fn width(&self) -> (n: usize) {
        0
    }

    open spec fn shows(&self, v: EditorView, i: nat) -> Seq<SpanView> {
        Seq::empty()
    }

    fn draw(&self, line_idx: usize, data: &Editor) -> (row: Vec<Span>) {
        no_row()
    }
}

/// The classic margin: the number of the line, counted from 1 and set to the
/// right in 5 columns, and a bar, which is bold beside the line of the
/// cursor.
#[derive(Debug, Clone, Copy, PartialEq, Eq, Structural)]
pub struct ClassicGutter;

/// What the classic margin shows beside line `i`.
pub open spec fn classic_gutter(v: EditorView, i: nat) -> Seq<SpanView> {
    seq![
        span_of(
            padded(i + 1, 5) + if i == v.focus.ln {
                " \u{2503} "@
            } else {
                " \u{2502} "@
            },
            Paint::Plain,
        ),
    ]
}

impl Margin for ClassicGutter {
    open spec fn columns(&self) -> usize {
        8
    }

    fn width(&self) -> (n: usize) {
        8
    }

    open spec fn shows(&self, v: EditorView, i: nat) -> Seq<SpanView> {
        classic_gutter(v, i)
    }

    fn draw(&self, line_idx: usize, data: &Editor) -> (row: Vec<Span>) {
        let mut text = decimal_padded(line_idx + 1, 5);
        if line_idx == data.focus().ln {
            text.append(" \u{2503} ");
        } else {
            text.append(" \u{2502} ");
        }
        plain_row(text)
    }
}

/// A decoration put together from a header, a margin and a footer.
#[derive(Debug, Clone, Copy)]
pub struct Parts<H, M, F> {
    pub header: H,
    pub margin: M,
    pub footer: F,
}

impl<H: Header, M: Margin, F: Footer> Style for Parts<H, M, F> {
    open spec fn layout(&self) -> Layout {
        Layout {
            header_rows: self.header.height(),
            footer_rows: self.footer.height(),
            gutter_width: self.margin.columns(),
        }
    }

    open spec fn header(&self, v: EditorView) -> Seq<SpanView> {
        self.header.shows(v)
    }

    open spec fn gutter(&self, v: EditorView, i: nat) -> Seq<SpanView> {
        self.margin.shows(v, i)
    }

    open spec fn footer(&self, v: EditorView) -> Seq<SpanView> {
        self.footer.shows(v)
    }

    fn footer_rows(&self) -> (n: usize) {
        self.footer.rows()
    }

    fn header_rows(&self) -> (n: usize) {
        self.header.rows()
    }

    fn gutter_width(&self) -> (n: usize) {
        self.margin.width()
    }

    fn draw_header(&self, data: &Editor) -> (row: Vec<Span>) {
        self.header.draw(data)
    }

    fn draw_gutter(&self, line_idx: usize, data: &Editor) -> (row: Vec<Span>) {
        self.margin.draw(line_idx, data)
    }

    fn draw_footer(&self, data: &Editor) -> (row: Vec<Span>) {
        self.footer.draw(data)
    }
}

} // verus!
