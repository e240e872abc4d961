use minime::classic::{
    ClassicFooter, ClassicGutter, ClassicHeader, Footer, Header, Margin, NoFooter, NoHeader,
    NoMargin,
};
use minime::editor::Editor;
use minime::renderer::Layout;
use minime::selection::{Cursor, Selection};
use minime::styles::{
    decimal, decimal_padded, layout_of, FancyStyle, NoStyle, Paint, Span, Style,
};
use minime::term::{Anchor, MultilineTermBuilder, Prompt};

fn editor_with(text: &str, ln: usize, col: usize) -> Editor {
    let mut editor = Editor::new();
    editor.set_contents(text);
    editor.set_selection(Selection { focus: Cursor { ln, col }, anchor: None });
    editor
}

fn span(text: &str, paint: Paint) -> Span {
    Span { text: text.to_string(), paint }
}

#[test]
fn decimal_writes_numbers() {
    assert_eq!(decimal(0), "0");
    assert_eq!(decimal(7), "7");
    assert_eq!(decimal(10), "10");
    assert_eq!(decimal(1234567890), "1234567890");
    assert_eq!(decimal(usize::MAX), format!("{}", usize::MAX));
}

#[test]
fn decimal_padded_sets_numbers_to_the_right() {
    assert_eq!(decimal_padded(7, 5), "    7");
    assert_eq!(decimal_padded(12345, 5), "12345");
    assert_eq!(decimal_padded(123456, 5), "123456");
    assert_eq!(decimal_padded(42, 0), "42");
    assert_eq!(decimal_padded(42, 3), format!("{:>3}", 42));
}

#[test]
fn no_style_takes_no_room_and_shows_nothing() {
    let editor = editor_with("abc", 0, 0);
    assert_eq!(NoStyle.header_rows(), 0);
    assert_eq!(NoStyle.footer_rows(), 0);
    assert_eq!(NoStyle.gutter_width(), 0);
    assert_eq!(NoStyle.draw_header(&editor), vec![]);
    assert_eq!(NoStyle.draw_gutter(0, &editor), vec![]);
    assert_eq!(NoStyle.draw_footer(&editor), vec![]);
    assert_eq!(layout_of(&NoStyle), Layout { header_rows: 0, footer_rows: 0, gutter_width: 0 });
}

#[test]
fn fancy_style_room() {
    let style = FancyStyle::new();
    assert_eq!(style.header_rows(), 0);
    assert_eq!(style.footer_rows(), 1);
    assert_eq!(style.gutter_width(), 9);
    let style = style.with_header_message(Some("file.txt"));
    assert_eq!(style.header_rows(), 1);
    assert_eq!(layout_of(&style), Layout { header_rows: 1, footer_rows: 1, gutter_width: 9 });
    let style = style.with_header_message(None);
    assert_eq!(style.header_rows(), 0);
}

#[test]
fn fancy_header_shows_the_message() {
    let editor = editor_with("abc", 0, 0);
    let style = FancyStyle::new().with_gutter_message("go").with_header_message(Some("file.txt"));
    assert_eq!(
        style.draw_header(&editor),
        vec![
            span("       ", Paint::BlackOnDarkGrey),
            span(" ", Paint::Plain),
            span("file.txt", Paint::Plain),
        ]
    );
    assert_eq!(FancyStyle::new().draw_header(&editor), vec![]);
}

#[test]
fn fancy_gutter_numbers_the_lines() {
    let editor = editor_with("one\ntwo\n", 1, 0);
    let style = FancyStyle::new().with_gutter_message("Press enter to submit");
    assert_eq!(
        style.draw_gutter(0, &editor),
        vec![span("     1 ", Paint::BlackOnDarkGrey), span("  ", Paint::Plain)]
    );
    assert_eq!(
        style.draw_gutter(1, &editor),
        vec![span("      2 ", Paint::BlackOnDarkGrey), span(" ", Paint::Plain)]
    );
    assert_eq!(
        style.draw_gutter(2, &editor),
        vec![
            span("     \u{25b6} ", Paint::BlackOnGreen),
            span("  ", Paint::Plain),
            span("Press enter to submit", Paint::DarkGrey),
        ]
    );
    assert_eq!(
        style.draw_gutter(3, &editor),
        vec![span("       ", Paint::OnDarkGrey), span("  ", Paint::Plain)]
    );
    let editor = editor_with("one\ntwo\n", 2, 0);
    assert_eq!(
        style.draw_gutter(2, &editor),
        vec![
            span("      \u{25b6} ", Paint::BlackOnGreen),
            span(" ", Paint::Plain),
            span("Press enter to submit", Paint::DarkGrey),
        ]
    );
}

#[test]
fn fancy_footer_counts() {
    let editor = editor_with("one\ntwo\nthree", 1, 9);
    assert_eq!(
        FancyStyle::new().draw_footer(&editor),
        vec![
            span("  info ", Paint::BlackOnDarkGrey),
            span(" Lines:   3 ", Paint::Plain),
            span(" Chars:  13 ", Paint::Plain),
            span(" Ln 1, Col 3 ", Paint::Plain),
        ]
    );
}

#[test]
fn classic_parts() {
    let editor = editor_with("one\ntwo", 1, 2);
    assert_eq!(NoHeader.rows(), 0);
    assert_eq!(NoFooter.rows(), 0);
    assert_eq!(NoMargin.width(), 0);
    assert_eq!(NoHeader.draw(&editor), vec![]);
    assert_eq!(NoFooter.draw(&editor), vec![]);
    assert_eq!(NoMargin.draw(0, &editor), vec![]);
    assert_eq!(ClassicHeader.rows(), 1);
    assert_eq!(ClassicFooter.rows(), 1);
    assert_eq!(ClassicGutter.width(), 8);
    assert_eq!(
        ClassicHeader.draw(&editor),
        vec![span(
            "      \u{256d}\u{2500}\u{2500}\u{2500} Input Prompt \u{2500}\u{2500}\u{2500}\u{2500}\u{2500}\u{2500}\u{2500}\u{2500}\u{2500}",
            Paint::Plain
        )]
    );
    assert_eq!(
        ClassicFooter.draw(&editor),
        vec![span(
            "      \u{2570}\u{2500}\u{2500}\u{2524} Lines: 2 \u{251c}\u{2500}\u{2524} Chars: 7 \u{251c}\u{2500}\u{2524} Ln: 1, Col: 2",
            Paint::Plain
        )]
    );
    assert_eq!(ClassicGutter.draw(0, &editor), vec![span("    1 \u{2502} ", Paint::Plain)]);
    assert_eq!(ClassicGutter.draw(1, &editor), vec![span("    2 \u{2503} ", Paint::Plain)]);
}

#[test]
fn builder_builds_the_editor() {
    let mut builder = MultilineTermBuilder::default();
    builder
        .anchor(Anchor::Bottom)
        .buffers(vec!["one".to_string(), "two".to_string(), "".to_string()])
        .line(1)
        .index(2)
        .prompt(Prompt::Fancy);
    assert_eq!(builder.anchored(), Anchor::Bottom);
    assert_eq!(builder.decoration(), Prompt::Fancy);
    let editor = builder.build();
    assert_eq!(editor.contents(), "one\ntwo");
    assert_eq!(editor.line_count(), 3);
    assert_eq!(editor.focus(), Cursor { ln: 1, col: 2 });
    assert_eq!(editor.anchor(), None);
}

#[test]
fn builder_defaults() {
    let builder = MultilineTermBuilder::default();
    assert_eq!(builder.anchored(), Anchor::InPlace);
    assert_eq!(builder.decoration(), Prompt::Plain);
    assert_eq!(Anchor::default(), Anchor::InPlace);
    let editor = builder.build();
    assert_eq!(editor.contents(), "");
    assert_eq!(editor.line_count(), 1);
    let mut builder = MultilineTermBuilder::default();
    builder.buffers(vec!["a".to_string()]).line(5).index(7);
    let editor = builder.build();
    assert_eq!(editor.focus(), Cursor { ln: 0, col: 7 });
}

#[test]
fn prompt_room() {
    assert_eq!(Prompt::Plain.layout(), Layout { header_rows: 0, footer_rows: 0, gutter_width: 0 });
    assert_eq!(
        Prompt::Classic.layout(),
        Layout { header_rows: 1, footer_rows: 1, gutter_width: 8 }
    );
    assert_eq!(Prompt::Fancy.layout(), Layout { header_rows: 0, footer_rows: 1, gutter_width: 9 });
}
