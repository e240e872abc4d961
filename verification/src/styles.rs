//! The decoration of the frame: a header above the text, a margin to its
//! left and a footer below it. A style says how much room each takes and
//! what it shows, as spans of text that say how they are to be painted; the
//! painting itself is the terminal's.

use vstd::prelude::*;
use crate::editor::Editor;
use crate::model::EditorView;
use crate::renderer::Layout;
use crate::text::{line_count, line_len, spaces};

verus! {

/// The decimal digit for `d`, which is less than 10.
pub open spec fn digit(d: nat) -> char {
    if d == 0 {
        '0'
    } else if d == 1 {
        '1'
    } else if d == 2 {
        '2'
    } else if d == 3 {
        '3'
    } else if d == 4 {
        '4'
    } else if d == 5 {
        '5'
    } else if d == 6 {
        '6'
    } else if d == 7 {
        '7'
    } else if d == 8 {
        '8'
    } else {
        '9'
    }
}

/// The decimal digits of `n`, without leading zeros.
pub open spec fn digits(n: nat) -> Seq<char>
    decreases n,
{
    if n < 10 {
        seq![digit(n)]
    } else {
        digits(n / 10).push(digit(n % 10))
    }
}

/// The decimal digits of `n`, with spaces in front of them where they are
/// fewer than `width`.
pub open spec fn padded(n: nat, width: nat) -> Seq<char> {
    if digits(n).len() < width {
        spaces((width - digits(n).len()) as nat) + digits(n)
    } else {
        digits(n)
    }
}

/// The digit for `d` as a string.
fn digit_str(d: usize) -> (s: &'static str)
    requires
        d < 10,
    ensures
        s@ == seq![digit(d as nat)],
{
    proof {
        reveal_strlit("0");
        reveal_strlit("1");
        reveal_strlit("2");
        reveal_strlit("3");
        reveal_strlit("4");
        reveal_strlit("5");
        reveal_strlit("6");
        reveal_strlit("7");
        reveal_strlit("8");
        reveal_strlit("9");
    }
    let s = if d == 0 {
        "0"
    } else if d == 1 {
        "1"
    } else if d == 2 {
        "2"
    } else if d == 3 {
        "3"
    } else if d == 4 {
        "4"
    } else if d == 5 {
        "5"
    } else if d == 6 {
        "6"
    } else if d == 7 {
        "7"
    } else if d == 8 {
        "8"
    } else {
        "9"
    };
    assert(s@ =~= seq![digit(d as nat)]);
    s
}

/// `n` in decimal digits.
pub fn decimal(n: usize) -> (s: String)
    ensures
        s@ == digits(n as nat),
    decreases n,
{
    if n < 10 {
        String::from_str(digit_str(n))
    } else {
        let mut s = decimal(n / 10);
        s.append(digit_str(n % 10));
        assert(s@ =~= digits(n as nat));
        s
    }
}

/// `n` in decimal digits, set to the right in `width` columns.
pub fn decimal_padded(n: usize, width: usize) -> (s: String)
    ensures
        s@ == padded(n as nat, width as nat),
{
    let body = decimal(n);
    let len = body.as_str().unicode_len();
    let mut s = String::new();
    let mut i = len;
    proof {
        reveal_strlit(" ");
    }
    while i < width
        invariant
            len <= i,
            i <= width || i == len,
            s@ == spaces((i - len) as nat),
            " "@ == seq![' '],
        decreases width - i,
    {
        s.append(" ");
        i += 1;
        assert(s@ =~= spaces((i - len) as nat));
    }
    s.append(body.as_str());
    assert(s@ =~= padded(n as nat, width as nat));
    s
}

/// How a span of text is to be painted.
#[derive(Debug, Clone, Copy, PartialEq, Eq, Structural)]
pub enum Paint {
    /// As the terminal paints text that nothing is said of.
    Plain,
    /// Black on dark grey.
    BlackOnDarkGrey,
    /// Black on green.
    BlackOnGreen,
    /// Dark grey.
    DarkGrey,
    /// On dark grey.
    OnDarkGrey,
    /// As selected text.
    Selected,
}

/// A piece of text and how it is to be painted.
#[derive(Debug, Clone, PartialEq, Eq)]
pub struct Span {
    pub text: String,
    pub paint: Paint,
}

/// A span, as mathematics.
pub struct SpanView {
    pub text: Seq<char>,
    pub paint: Paint,
}

impl View for Span {
    type V = SpanView;

    open spec fn view(&self) -> SpanView {
        SpanView { text: self.text@, paint: self.paint }
    }
}

/// What a row of spans shows.
pub open spec fn shown(spans: Seq<Span>) -> Seq<SpanView> {
    Seq::new(spans.len(), |i: int| spans[i]@)
}

/// The span `text`, painted `paint`.
pub open spec fn span_of(text: Seq<char>, paint: Paint) -> SpanView {
    SpanView { text, paint }
}

/// Add a span to a row.
fn push_span(row: &mut Vec<Span>, text: String, paint: Paint)
    ensures
        shown(final(row)@) == shown(old(row)@).push(span_of(text@, paint)),
{
    row.push(Span { text, paint });
    assert(shown(row@) =~= shown(old(row)@).push(span_of(text@, paint)));
}

/// Add a span that holds `text` to a row.
fn push_str(row: &mut Vec<Span>, text: &str, paint: Paint)
    ensures
        shown(final(row)@) == shown(old(row)@).push(span_of(text@, paint)),
{
    push_span(row, String::from_str(text), paint);
}

/// A row without a span.
fn empty_row() -> (row: Vec<Span>)
    ensures
        shown(row@) == Seq::<SpanView>::empty(),
{
    let row: Vec<Span> = Vec::new();
    assert(shown(row@) =~= Seq::<SpanView>::empty());
    row
}

/// A decoration of the frame. It says how many rows its header and its
/// footer take and how many columns its margin, and what each shows.
pub trait Style {
    /// The room that the decoration takes.
    spec fn layout(&self) -> Layout;

    /// What the header shows.
    spec fn header(&self, v: EditorView) -> Seq<SpanView>;

    /// What the margin shows beside line `i`.
    spec fn gutter(&self, v: EditorView, i: nat) -> Seq<SpanView>;

    /// What the footer shows.
    spec fn footer(&self, v: EditorView) -> Seq<SpanView>;

    /// The rows of the footer.
    fn footer_rows(&self) -> (n: usize)
        ensures
            n == self.layout().footer_rows,
    ;

    /// The rows of the header.
    fn header_rows(&self) -> (n: usize)
        ensures
            n == self.layout().header_rows,
    ;

    /// The columns of the margin.
    fn gutter_width(&self) -> (n: usize)
        ensures
            n == self.layout().gutter_width,
    ;

    /// What the header shows.
    fn draw_header(&self, data: &Editor) -> (row: Vec<Span>)
        requires
            data@.wf(),
        ensures
            shown(row@) == self.header(data@),
    ;

    /// What the margin shows beside line `line_idx`.
    fn draw_gutter(&self, line_idx: usize, data: &Editor) -> (row: Vec<Span>)
        requires
            data@.wf(),
            line_idx < usize::MAX,
        ensures
            shown(row@) == self.gutter(data@, line_idx as nat),
    ;

    /// What the footer shows.
    fn draw_footer(&self, data: &Editor) -> (row: Vec<Span>)
        requires
            data@.wf(),
        ensures
            shown(row@) == self.footer(data@),
    ;
}

/// The room that a style takes.
pub fn layout_of<S: Style>(style: &S) -> (layout: Layout)
    ensures
        layout == style.layout(),
{
    Layout {
        header_rows: style.header_rows(),
        footer_rows: style.footer_rows(),
        gutter_width: style.gutter_width(),
    }
}

/// No decoration at all.
#[derive(Debug, Clone, Copy, PartialEq, Eq, Structural)]
pub struct NoStyle;

impl Style for NoStyle {
    open spec fn layout(&self) -> Layout {
        Layout { header_rows: 0, footer_rows: 0, gutter_width: 0 }
    }

    fn footer_rows(&self) -> (n: usize) {
        0
    }

    fn header_rows(&self) -> (n: usize) {
        0
    }

    fn gutter_width(&self) -> (n: usize) {
        0
    }

    open spec fn header(&self, v: EditorView) -> Seq<SpanView> {
        Seq::empty()
    }

    open spec fn gutter(&self, v: EditorView, i: nat) -> Seq<SpanView> {
        Seq::empty()
    }

    open spec fn footer(&self, v: EditorView) -> Seq<SpanView> {
        Seq::empty()
    }

    fn draw_header(&self, data: &Editor) -> (row: Vec<Span>) {
        empty_row()
    }

    fn draw_gutter(&self, line_idx: usize, data: &Editor) -> (row: Vec<Span>) {
        empty_row()
    }

    fn draw_footer(&self, data: &Editor) -> (row: Vec<Span>) {
        empty_row()
    }
}

/// A coloured decoration: an optional header with a message, a margin with
/// line numbers that marks the line of the cursor and shows a message beside
/// an empty last line, and a footer that counts lines and characters and
/// tells where the cursor is.
#[derive(Debug, Clone, Copy)]
pub struct FancyStyle<'s> {
    header_message: Option<&'s str>,
    gutter_message: &'s str,
}

/// What the header of the fancy style shows, with or without a message.
pub open spec fn fancy_header(message: Option<Seq<char>>) -> Seq<SpanView> {
    match message {
        Some(m) => seq![
            span_of("       "@, Paint::BlackOnDarkGrey),
            span_of(" "@, Paint::Plain),
            span_of(m, Paint::Plain),
        ],
        None => Seq::empty(),
    }
}

/// What the margin of the fancy style shows beside line `i`. Below the text
/// it is blank. Beside an empty last line it is an arrow and the message.
/// Beside any other line it is the number of the line, counted from 1. On
/// the line of the cursor the painted part is one column wider.
pub open spec fn fancy_gutter(v: EditorView, i: nat, message: Seq<char>) -> Seq<SpanView> {
    if i + 1 > line_count(v.text) {
        seq![span_of("       "@, Paint::OnDarkGrey), span_of("  "@, Paint::Plain)]
    } else if i + 1 == line_count(v.text) && line_len(v.text, i) == 0 {
        if i == v.focus.ln {
            seq![
                span_of("      \u{25b6} "@, Paint::BlackOnGreen),
                span_of(" "@, Paint::Plain),
                span_of(message, Paint::DarkGrey),
            ]
        } else {
            seq![
                span_of("     \u{25b6} "@, Paint::BlackOnGreen),
                span_of("  "@, Paint::Plain),
                span_of(message, Paint::DarkGrey),
            ]
        }
    } else if i == v.focus.ln {
        seq![
            span_of("  "@ + padded(i + 1, 5) + " "@, Paint::BlackOnDarkGrey),
            span_of(" "@, Paint::Plain),
        ]
    } else {
        seq![
            span_of(" "@ + padded(i + 1, 5) + " "@, Paint::BlackOnDarkGrey),
            span_of("  "@, Paint::Plain),
        ]
    }
}

/// What the footer of the fancy style shows: the number of lines, the number
/// of characters, and the line and the clamped column of the cursor.
pub open spec fn fancy_footer(v: EditorView) -> Seq<SpanView> {
    seq![
        span_of("  info "@, Paint::BlackOnDarkGrey),
        span_of(" Lines: "@ + padded(line_count(v.text), 3) + " "@, Paint::Plain),
        span_of(" Chars: "@ + padded(v.text.len(), 3) + " "@, Paint::Plain),
        span_of(
            " Ln "@ + digits(v.focus.ln) + ", Col "@ + digits(v.clamp(v.focus).col) + " "@,
            Paint::Plain,
        ),
    ]
}

/// The string that holds `a`, then the digits `n`, then `b`.
fn framed(a: &str, n: String, b: &str) -> (s: String)
    ensures
        s@ == a@ + n@ + b@,
{
    let mut s = String::from_str(a);
    s.append(n.as_str());
    s.append(b);
    s
}

impl<'s> FancyStyle<'s> {
    /// The header message, if there is one.
    pub closed spec fn header_message(&self) -> Option<Seq<char>> {
        match self.header_message {
            Some(m) => Some(m@),
            None => None,
        }
    }

    /// The message beside an empty last line.
    pub closed spec fn gutter_message(&self) -> Seq<char> {
        self.gutter_message@
    }

    /// The fancy style without a header and with an empty message.
    pub fn new() -> (style: Self)
        ensures
            style.header_message() is None,
            style.gutter_message() == Seq::<char>::empty(),
    {
        proof {
            reveal_strlit("");
        }
        let style = Self { header_message: None, gutter_message: "" };
        assert(style.gutter_message() =~= Seq::<char>::empty());
        style
    }

    /// This style with another message beside an empty last line.
    pub fn with_gutter_message(self, gutter_message: &'s str) -> (style: Self)
        ensures
            style.gutter_message() == gutter_message@,
            style.header_message() == self.header_message(),
    {
        Self { header_message: self.header_message, gutter_message }
    }

    /// This style with another header message, or without a header.
    pub fn with_header_message(self, header_message: Option<&'s str>) -> (style: Self)
        ensures
            style.header_message() == match header_message {
                Some(m) => Some(m@),
                None => None,
            },
            style.gutter_message() == self.gutter_message(),
    {
        Self { header_message, gutter_message: self.gutter_message }
    }
}

impl<'s> Style for FancyStyle<'s> {
    open spec fn layout(&self) -> Layout {
        Layout {
            header_rows: if self.header_message() is Some {
                1
            } else {
                0
            },
            footer_rows: 1,
            gutter_width: 9,
        }
    }

    open spec fn header(&self, v: EditorView) -> Seq<SpanView> {
        fancy_header(self.header_message())
    }

    open spec fn gutter(&self, v: EditorView, i: nat) -> Seq<SpanView> {
        fancy_gutter(v, i, self.gutter_message())
    }

    open spec fn footer(&self, v: EditorView) -> Seq<SpanView> {
        fancy_footer(v)
    }

    fn footer_rows(&self) -> (n: usize) {
        1
    }

    fn header_rows(&self) -> (n: usize) {
        if self.header_message.is_some() {
            1
        } else {
            0
        }
    }

    fn gutter_width(&self) -> (n: usize) {
        9
    }

    fn draw_header(&self, data: &Editor) -> (row: Vec<Span>) {
        let mut row = empty_row();
        match self.header_message {
            Some(m) => {
                push_str(&mut row, "       ", Paint::BlackOnDarkGrey);
                push_str(&mut row, " ", Paint::Plain);
                push_str(&mut row, m, Paint::Plain);
                assert(shown(row@) =~= fancy_header(self.header_message()));
            },
            None => {},
        }
        row
    }

    fn draw_gutter(&self, line_idx: usize, data: &Editor) -> (row: Vec<Span>) {
        let mut row = empty_row();
        let lines = data.line_count();
        let on_cursor = line_idx == data.focus().ln;
        if line_idx + 1 > lines {
            push_str(&mut row, "       ", Paint::OnDarkGrey);
            push_str(&mut row, "  ", Paint::Plain);
        } else if line_idx + 1 == lines && data.line_len(line_idx) == 0 {
            if on_cursor {
                push_str(&mut row, "      \u{25b6} ", Paint::BlackOnGreen);
                push_str(&mut row, " ", Paint::Plain);
            } else {
                push_str(&mut row, "     \u{25b6} ", Paint::BlackOnGreen);
                push_str(&mut row, "  ", Paint::Plain);
            }
            push_str(&mut row, self.gutter_message, Paint::DarkGrey);
        } else if on_cursor {
            let number = decimal_padded(line_idx + 1, 5);
            push_span(&mut row, framed("  ", number, " "), Paint::BlackOnDarkGrey);
            push_str(&mut row, " ", Paint::Plain);
        } else {
            let number = decimal_padded(line_idx + 1, 5);
            push_span(&mut row, framed(" ", number, " "), Paint::BlackOnDarkGrey);
            push_str(&mut row, "  ", Paint::Plain);
        }
        assert(shown(row@) =~= fancy_gutter(data@, line_idx as nat, self.gutter_message()));
        row
    }

    fn draw_footer(&self, data: &Editor) -> (row: Vec<Span>) {
        let mut row = empty_row();
        let focus = data.focus();
        let len = data.curr_ln_len();
        let col = if focus.col <= len {
            focus.col
        } else {
            len
        };
        push_str(&mut row, "  info ", Paint::BlackOnDarkGrey);
        push_span(
            &mut row,
            framed(" Lines: ", decimal_padded(data.line_count(), 3), " "),
            Paint::Plain,
        );
        push_span(
            &mut row,
            framed(" Chars: ", decimal_padded(data.char_count(), 3), " "),
            Paint::Plain,
        );
        let mut place = framed(" Ln ", decimal(focus.ln), ", Col ");
        place.append(decimal(col).as_str());
        place.append(" ");
        push_span(&mut row, place, Paint::Plain);
        assert(shown(row@) =~= fancy_footer(data@));
        row
    }
}

} // verus!
