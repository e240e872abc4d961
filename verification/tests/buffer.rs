use minime::buffer::Buffer;

#[test]
fn empty_buffer_has_one_empty_line() {
    let b = Buffer::new();
    assert_eq!(b.len_chars(), 0);
    assert_eq!(b.len_lines(), 1);
    assert_eq!(b.line_to_char(0), 0);
    assert_eq!(b.line_to_char(1), 0);
    assert_eq!(b.line_len(0), 0);
    assert_eq!(b.line_trimmed(0), "");
    assert_eq!(b.trimmed(), "");
}

#[test]
fn lines_are_cut_at_line_feeds() {
    let b = Buffer::from_str("Hello\nworld\n");
    assert_eq!(b.len_chars(), 12);
    assert_eq!(b.len_lines(), 3);
    assert_eq!(b.line_to_char(0), 0);
    assert_eq!(b.line_to_char(1), 6);
    assert_eq!(b.line_to_char(2), 12);
    assert_eq!(b.line_to_char(3), 12);
    assert_eq!(b.line_end(0), 5);
    assert_eq!(b.line_end(1), 11);
    assert_eq!(b.line_end(2), 12);
    assert_eq!(b.line_len(0), 5);
    assert_eq!(b.line_len(1), 5);
    assert_eq!(b.line_len(2), 0);
    assert_eq!(b.line_trimmed(0), "Hello");
    assert_eq!(b.line_trimmed(1), "world");
    assert_eq!(b.line_trimmed(2), "");
}

#[test]
fn only_the_line_feed_breaks_a_line() {
    let b = Buffer::from_str("a\rb\u{2028}c\u{0b}d\u{85}e");
    assert_eq!(b.len_lines(), 1);
    assert_eq!(b.line_len(0), 9);
    let b = Buffer::from_str("a\r\nb");
    assert_eq!(b.len_lines(), 2);
    assert_eq!(b.line_trimmed(0), "a\r");
    assert_eq!(b.line_to_char(1), 3);
}

#[test]
fn char_to_line_counts_the_breaks_in_front() {
    let b = Buffer::from_str("ab\ncd\n\nef");
    assert_eq!(b.char_to_line(0), 0);
    assert_eq!(b.char_to_line(2), 0);
    assert_eq!(b.char_to_line(3), 1);
    assert_eq!(b.char_to_line(5), 1);
    assert_eq!(b.char_to_line(6), 2);
    assert_eq!(b.char_to_line(7), 3);
    assert_eq!(b.char_to_line(9), 3);
}

#[test]
fn positions_count_characters_not_bytes() {
    let b = Buffer::from_str("h\u{e9}llo\nw\u{f6}rld");
    assert_eq!(b.len_chars(), 11);
    assert_eq!(b.line_to_char(1), 6);
    assert_eq!(b.char_at(1), '\u{e9}');
    assert_eq!(b.char_at(7), '\u{f6}');
    assert_eq!(b.slice(1, 4), "\u{e9}ll");
}

#[test]
fn slice_gives_the_range() {
    let b = Buffer::from_str("Hello world!");
    assert_eq!(b.slice(0, 5), "Hello");
    assert_eq!(b.slice(6, 12), "world!");
    assert_eq!(b.slice(3, 3), "");
    assert_eq!(b.slice(0, 12), "Hello world!");
}

#[test]
fn insert_puts_text_in_front_of_the_position() {
    let mut b = Buffer::from_str("Hello!");
    b.insert(5, " world");
    assert_eq!(b.slice(0, b.len_chars()), "Hello world!");
    b.insert(0, ">> ");
    assert_eq!(b.slice(0, b.len_chars()), ">> Hello world!");
    let n = b.len_chars();
    b.insert(n, "\n");
    assert_eq!(b.len_lines(), 2);
    b.insert_char(0, '#');
    assert_eq!(b.char_at(0), '#');
    assert_eq!(b.trimmed(), "#>> Hello world!");
}

#[test]
fn remove_takes_the_range_out() {
    let mut b = Buffer::from_str("Hello world!");
    b.remove(5, 11);
    assert_eq!(b.slice(0, b.len_chars()), "Hello!");
    b.remove(2, 2);
    assert_eq!(b.slice(0, b.len_chars()), "Hello!");
    b.remove(0, 6);
    assert_eq!(b.len_chars(), 0);
}

#[test]
fn trimmed_strips_one_trailing_break() {
    assert_eq!(Buffer::from_str("a\nb\n").trimmed(), "a\nb");
    assert_eq!(Buffer::from_str("a\nb\n\n").trimmed(), "a\nb\n");
    assert_eq!(Buffer::from_str("a\nb").trimmed(), "a\nb");
    assert_eq!(Buffer::from_str("\n").trimmed(), "");
}

#[test]
fn remove_line_takes_the_line_and_its_break() {
    let mut b = Buffer::from_str("one\ntwo\nthree");
    assert_eq!(b.remove_line(1), "two");
    assert_eq!(b.slice(0, b.len_chars()), "one\nthree");
    assert_eq!(b.remove_line(1), "three");
    assert_eq!(b.slice(0, b.len_chars()), "one\n");
    assert_eq!(b.len_lines(), 2);
}

#[test]
fn insert_line_makes_a_line_of_its_own() {
    let mut b = Buffer::from_str("one\nthree");
    b.insert_line(1, "tw\u{f6}");
    assert_eq!(b.slice(0, b.len_chars()), "one\ntw\u{f6}\nthree");
    b.insert_line(0, "zero");
    assert_eq!(b.line_trimmed(0), "zero");
    assert_eq!(b.len_lines(), 4);
}
