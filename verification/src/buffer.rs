//! The text buffer: a rope of characters with its lines.
//!
//! The rope is `ropey::Rope`, built to take the line feed alone for a line
//! break. Verus does not look into it: what its methods do is stated here, over
//! the sequence of characters that the rope holds, and believed. The rest of
//! the library reaches the rope through `Buffer`.

use vstd::prelude::*;
use crate::text::{
    insert_at, lemma_line_bounds, lemma_line_start_is, lemma_within_line_of, line_count, line_end,
    line_len, line_of, line_start, line_text, remove_range, starts_line, trimmed,
};

verus! {

/// `ropey::Rope`, the rope of the `ropey` crate, taken as it is: nothing is
/// known of what is inside it.
#[verifier::external_type_specification]
#[verifier::external_body]
pub struct ExRope(ropey::Rope);

/// The characters that a rope holds, in order. The contracts below say what
/// each method of the rope does to them.
pub uninterp spec fn rope_chars(rope: ropey::Rope) -> Seq<char>;

/// `Rope::new` makes a rope that holds no character.
pub assume_specification[ ropey::Rope::new ]() -> (rope: ropey::Rope)
    ensures
        rope_chars(rope) == Seq::<char>::empty(),
;

/// `Rope::from_str` makes a rope that holds the characters of `text`.
pub assume_specification[ ropey::Rope::from_str ](text: &str) -> (rope: ropey::Rope)
    ensures
        rope_chars(rope) == text@,
;

/// `Rope::len_chars` is the number of characters that the rope holds.
pub assume_specification[ ropey::Rope::len_chars ](rope: &ropey::Rope) -> (n: usize)
    ensures
        n == rope_chars(*rope).len(),
;

/// `Rope::len_lines` is the number of lines: one more than the line breaks.
pub assume_specification[ ropey::Rope::len_lines ](rope: &ropey::Rope) -> (n: usize)
    ensures
        n == line_count(rope_chars(*rope)),
;

/// `Rope::line_to_char` is the position of the first character of a line: a
/// position at the start of the text or right behind a line break, with
/// `line_idx` line breaks in front of it. One past the last line it is the
/// length of the text. It panics on a line further out.
pub assume_specification[ ropey::Rope::line_to_char ](rope: &ropey::Rope, line_idx: usize) -> (p:
    usize)
    requires
        line_idx <= line_count(rope_chars(*rope)),
    ensures
        line_idx < line_count(rope_chars(*rope)) ==> starts_line(rope_chars(*rope), p as int)
            && line_of(rope_chars(*rope), p as int) == line_idx,
        line_idx == line_count(rope_chars(*rope)) ==> p == rope_chars(*rope).len(),
;

/// `Rope::char_to_line` is the line that a character position lies on: the
/// number of line breaks in front of it. It panics on a position past the
/// length of the text.
pub assume_specification[ ropey::Rope::char_to_line ](rope: &ropey::Rope, char_idx: usize) -> (i:
    usize)
    requires
        char_idx <= rope_chars(*rope).len(),
    ensures
        i == line_of(rope_chars(*rope), char_idx as int),
;

/// `Rope::char` is the character at a position. It panics on a position that
/// holds none.
pub assume_specification[ ropey::Rope::char ](rope: &ropey::Rope, char_idx: usize) -> (c: char)
    requires
        char_idx < rope_chars(*rope).len(),
    ensures
        c == rope_chars(*rope)[char_idx as int],
;

/// `Rope::insert` puts the characters of `text` in front of the position
/// `char_idx`. It panics on a position past the length of the text.
pub assume_specification[ ropey::Rope::insert ](
    rope: &mut ropey::Rope,
    char_idx: usize,
    text: &str,
)
    requires
        char_idx <= rope_chars(*old(rope)).len(),
    ensures
        rope_chars(*final(rope)) == insert_at(rope_chars(*old(rope)), char_idx as int, text@),
;

/// `Rope::insert_char` puts one character in front of the position
/// `char_idx`. It panics on a position past the length of the text.
pub assume_specification[ ropey::Rope::insert_char ](
    rope: &mut ropey::Rope,
    char_idx: usize,
    ch: char,
)
    requires
        char_idx <= rope_chars(*old(rope)).len(),
    ensures
        rope_chars(*final(rope)) == insert_at(rope_chars(*old(rope)), char_idx as int, seq![ch]),
;

/// `Rope::remove` takes out the characters of a range of positions. It
/// panics where the range runs backwards or ends past the length of the text.
#[verifier::external_body]
fn rope_remove(rope: &mut ropey::Rope, from: usize, to: usize)
    requires
        from <= to <= rope_chars(*old(rope)).len(),
    ensures
        rope_chars(*final(rope)) == remove_range(rope_chars(*old(rope)), from as int, to as int),
{
    rope.remove(from..to)
}

/// `Rope::slice`, turned into a `String`, holds the characters of a range of
/// positions. It panics where the range runs backwards or ends past the
/// length of the text.
#[verifier::external_body]
fn rope_slice(rope: &ropey::Rope, from: usize, to: usize) -> (s: String)
    requires
        from <= to <= rope_chars(*rope).len(),
    ensures
        s@ == rope_chars(*rope).subrange(from as int, to as int),
{
    String::from(rope.slice(from..to))
}


/// A text buffer. Its view is the sequence of characters that it holds.
pub struct Buffer {
    rope: ropey::Rope,
}

impl View for Buffer {
    type V = Seq<char>;

    closed spec fn view(&self) -> Seq<char> {
        rope_chars(self.rope)
    }
}

impl Buffer {
    /// An empty buffer: no character, one empty line.
    pub fn new() -> (b: Buffer)
        ensures
            b@ == Seq::<char>::empty(),
    {
        Buffer { rope: ropey::Rope::new() }
    }

    /// A buffer that holds `text`.
    pub fn from_str(text: &str) -> (b: Buffer)
        ensures
            b@ == text@,
    {
        Buffer { rope: ropey::Rope::from_str(text) }
    }

    /// The number of characters.
    pub fn len_chars(&self) -> (n: usize)
        ensures
            n == self@.len(),
    {
        self.rope.len_chars()
    }

    /// The number of lines.
    pub fn len_lines(&self) -> (n: usize)
        ensures
            n == line_count(self@),
            n >= 1,
    {
        self.rope.len_lines()
    }

    /// The position at which line `i` starts; one past the last line, the
    /// length of the text.
    pub fn line_to_char(&self, i: usize) -> (p: usize)
        requires
            i <= line_count(self@),
        ensures
            p == line_start(self@, i as nat),
            p <= self@.len(),
    {
        let p = self.rope.line_to_char(i);
        proof {
            if i < line_count(self@) {
                lemma_line_start_is(self@, i as nat, p as int);
            }
        }
        p
    }

    /// The line on which the position `p` lies.
    pub fn char_to_line(&self, p: usize) -> (i: usize)
        requires
            p <= self@.len(),
        ensures
            i == line_of(self@, p as int),
            i < line_count(self@),
    {
        proof {
            lemma_within_line_of(self@, p as int);
        }
        self.rope.char_to_line(p)
    }

    /// The position at which line `i` ends, in front of its line break.
    pub fn line_end(&self, i: usize) -> (p: usize)
        requires
            i < line_count(self@),
        ensures
            p == line_end(self@, i as nat),
            line_start(self@, i as nat) <= p <= self@.len(),
    {
        let n = self.rope.len_lines();
        let next = self.line_to_char(i + 1);
        proof {
            lemma_line_bounds(self@, i as nat);
        }
        if i + 1 < n {
            next - 1
        } else {
            next
        }
    }

    /// The number of characters on line `i`, its line break not counted.
    pub fn line_len(&self, i: usize) -> (n: usize)
        requires
            i < line_count(self@),
        ensures
            n == line_len(self@, i as nat),
    {
        let start = self.line_to_char(i);
        let end = self.line_end(i);
        end - start
    }

    /// The character at the position `p`.
    pub fn char_at(&self, p: usize) -> (c: char)
        requires
            p < self@.len(),
        ensures
            c == self@[p as int],
    {
        self.rope.char(p)
    }

    /// The characters from the position `from` up to `to`.
    pub fn slice(&self, from: usize, to: usize) -> (s: String)
        requires
            from <= to <= self@.len(),
        ensures
            s@ == self@.subrange(from as int, to as int),
    {
        rope_slice(&self.rope, from, to)
    }

    /// Line `i` without its line break.
    pub fn line_trimmed(&self, i: usize) -> (s: String)
        requires
            i < line_count(self@),
        ensures
            s@ == line_text(self@, i as nat),
    {
        let start = self.line_to_char(i);
        let end = self.line_end(i);
        self.slice(start, end)
    }

    /// The whole text without one trailing line break.
    pub fn trimmed(&self) -> (s: String)
        ensures
            s@ == trimmed(self@),
    {
        let n = self.rope.len_chars();
        if n > 0 && self.rope.char(n - 1) == '\n' {
            let s = self.slice(0, n - 1);
            assert(self@.subrange(0, n - 1) =~= self@.drop_last());
            s
        } else {
            let s = self.slice(0, n);
            assert(self@.subrange(0, n as int) =~= self@);
            s
        }
    }

    /// Put the characters of `text` in front of the position `p`.
    pub fn insert(&mut self, p: usize, text: &str)
        requires
            p <= old(self)@.len(),
        ensures
            final(self)@ == insert_at(old(self)@, p as int, text@),
    {
        self.rope.insert(p, text);
    }

    /// Put the character `c` in front of the position `p`.
    pub fn insert_char(&mut self, p: usize, c: char)
        requires
            p <= old(self)@.len(),
        ensures
            final(self)@ == insert_at(old(self)@, p as int, seq![c]),
    {
        self.rope.insert_char(p, c);
    }

    /// Take out the characters from the position `from` up to `to`.
    pub fn remove(&mut self, from: usize, to: usize)
        requires
            from <= to <= old(self)@.len(),
        ensures
            final(self)@ == remove_range(old(self)@, from as int, to as int),
    {
        rope_remove(&mut self.rope, from, to);
    }
}

impl Buffer {
    /// Take line `i` out, with its line break, and give back what it held
    /// without the break.
    pub fn remove_line(&mut self, i: usize) -> (line: String)
        requires
            i < line_count(old(self)@),
        ensures
            line@ == line_text(old(self)@, i as nat),
            final(self)@ == remove_range(
                old(self)@,
                line_start(old(self)@, i as nat),
                line_start(old(self)@, (i + 1) as nat),
            ),
    {
        proof {
            lemma_line_bounds(self@, i as nat);
        }
        // The number of lines fits its counter; that leaves room for `i + 1`.
        let _lines = self.rope.len_lines();
        let line = self.line_trimmed(i);
        let from = self.line_to_char(i);
        let to = self.line_to_char(i + 1);
        self.remove(from, to);
        line
    }

    /// Put `text` in as a line of its own in front of line `i`.
    pub fn insert_line(&mut self, i: usize, text: &str)
        requires
            i <= line_count(old(self)@),
        ensures
            final(self)@ == insert_at(
                old(self)@,
                line_start(old(self)@, i as nat),
                text@ + seq!['\n'],
            ),
    {
        let at = self.line_to_char(i);
        self.rope.insert_char(at, '\n');
        self.rope.insert(at, text);
        assert(self@ =~= insert_at(old(self)@, at as int, text@ + seq!['\n']));
    }
}

} // verus!
