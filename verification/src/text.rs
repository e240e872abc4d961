//! Text as a sequence of characters, and the lines that its line feeds cut it
//! into. The buffer and the editor state their contracts over the functions
//! of this file. But for what std tells of white space, everything here is
//! specification and proof.

use vstd::prelude::*;

verus! {

/// Whether a character is white space, as Unicode has it.
pub uninterp spec fn white_space(c: char) -> bool;

/// `char::is_whitespace` of std tells whether a character has the Unicode
/// property of white space. Nothing more is said of it here than that it
/// gives one answer for one character.
pub assume_specification[ char::is_whitespace ](c: char) -> (b: bool)
    ensures
        b == white_space(c),
;

/// The number of white space characters that `s` begins with.
pub open spec fn leading_whitespace(s: Seq<char>) -> nat
    decreases s.len(),
{
    if s.len() == 0 || !white_space(s[0]) {
        0
    } else {
        1 + leading_whitespace(s.skip(1))
    }
}

/// `n` spaces.
pub open spec fn spaces(n: nat) -> Seq<char> {
    Seq::new(n, |i: int| ' ')
}

/// The character that ends a line.
pub open spec fn is_break(c: char) -> bool {
    c == '\n'
}

/// The number of line breaks in `s`.
pub open spec fn count_breaks(s: Seq<char>) -> nat
    decreases s.len(),
{
    if s.len() == 0 {
        0
    } else {
        count_breaks(s.drop_last()) + if is_break(s.last()) {
            1nat
        } else {
            0nat
        }
    }
}

/// The number of lines of `s`: one more than its line breaks, so that the empty
/// text has one line and a text that ends in a break has an empty last line.
pub open spec fn line_count(s: Seq<char>) -> nat {
    count_breaks(s) + 1
}

/// The index of the line on which the character position `p` lies: the number
/// of line breaks in front of it.
pub open spec fn line_of(s: Seq<char>, p: int) -> nat {
    count_breaks(s.take(p))
}

/// Whether a line starts at the character position `p`: at the start of the
/// text and behind each line break.
pub open spec fn starts_line(s: Seq<char>, p: int) -> bool {
    0 <= p <= s.len() && (p == 0 || is_break(s[p - 1]))
}

/// The character position at which line `i` starts. For `i` past the last
/// line it is the length of the text.
pub open spec fn line_start(s: Seq<char>, i: nat) -> int {
    if i < line_count(s) {
        choose|p: int| starts_line(s, p) && line_of(s, p) == i
    } else {
        s.len() as int
    }
}

/// The character position at which line `i` ends, its line break not counted.
pub open spec fn line_end(s: Seq<char>, i: nat) -> int {
    if i + 1 < line_count(s) {
        line_start(s, i + 1) - 1
    } else {
        s.len() as int
    }
}

/// The number of characters on line `i`, its line break not counted.
pub open spec fn line_len(s: Seq<char>, i: nat) -> nat {
    (line_end(s, i) - line_start(s, i)) as nat
}

/// The characters of line `i`, its line break not counted.
pub open spec fn line_text(s: Seq<char>, i: nat) -> Seq<char> {
    s.subrange(line_start(s, i), line_end(s, i))
}

/// `s` with the characters `t` put in front of position `p`.
pub open spec fn insert_at(s: Seq<char>, p: int, t: Seq<char>) -> Seq<char> {
    s.take(p) + t + s.skip(p)
}

/// `s` without the characters from position `from` up to `to`.
pub open spec fn remove_range(s: Seq<char>, from: int, to: int) -> Seq<char> {
    s.take(from) + s.skip(to)
}

/// `s` without one trailing line break, if it ends in one.
pub open spec fn trimmed(s: Seq<char>) -> Seq<char> {
    if s.len() > 0 && is_break(s.last()) {
        s.drop_last()
    } else {
        s
    }
}

/// Line breaks add up over concatenation.
pub proof fn lemma_count_breaks_add(a: Seq<char>, b: Seq<char>)
    ensures
        count_breaks(a + b) == count_breaks(a) + count_breaks(b),
    decreases b.len(),
{
    if b.len() == 0 {
        assert(a + b =~= a);
    } else {
        assert((a + b).drop_last() =~= a + b.drop_last());
        lemma_count_breaks_add(a, b.drop_last());
    }
}

/// A single character counts as a break exactly if it is one.
pub proof fn lemma_count_breaks_one(c: char)
    ensures
        count_breaks(seq![c]) == if is_break(c) {
            1nat
        } else {
            0nat
        },
{
    assert(seq![c].drop_last() =~= Seq::<char>::empty());
    assert(count_breaks(Seq::<char>::empty()) == 0);
    assert(seq![c].last() == c);
}

/// The line index does not go down along the text, and the last position lies
/// on the last line.
pub proof fn lemma_line_of_monotonic(s: Seq<char>, p: int, q: int)
    requires
        0 <= p <= q <= s.len(),
    ensures
        line_of(s, p) <= line_of(s, q),
        line_of(s, q) == line_of(s, p) + count_breaks(s.subrange(p, q)),
        line_of(s, s.len() as int) == count_breaks(s),
        line_of(s, 0) == 0,
{
    assert(s.take(q) =~= s.take(p) + s.subrange(p, q));
    lemma_count_breaks_add(s.take(p), s.subrange(p, q));
    assert(s.take(s.len() as int) =~= s);
}

/// Stepping over one character moves to the next line exactly if the
/// character is a break.
pub proof fn lemma_line_of_step(s: Seq<char>, p: int)
    requires
        0 <= p < s.len(),
    ensures
        line_of(s, p + 1) == line_of(s, p) + if is_break(s[p]) {
            1nat
        } else {
            0nat
        },
{
    assert(s.take(p + 1).drop_last() =~= s.take(p));
}

/// Two positions that start the same line are the same position.
pub proof fn lemma_starts_line_unique(s: Seq<char>, p: int, q: int)
    requires
        starts_line(s, p),
        starts_line(s, q),
        line_of(s, p) == line_of(s, q),
    ensures
        p == q,
{
    if p < q {
        lemma_line_of_step(s, q - 1);
        lemma_line_of_monotonic(s, p, q - 1);
    } else if q < p {
        lemma_line_of_step(s, p - 1);
        lemma_line_of_monotonic(s, q, p - 1);
    }
}

/// Every line of the text starts somewhere.
pub proof fn lemma_line_start_exists(s: Seq<char>, i: nat)
    requires
        i < line_count(s),
    ensures
        exists|p: int| starts_line(s, p) && line_of(s, p) == i,
    decreases s.len(),
{
    if i == 0 {
        assert(s.take(0) =~= Seq::<char>::empty());
        assert(starts_line(s, 0) && line_of(s, 0) == 0);
    } else if is_break(s.last()) && count_breaks(s) == i {
        let p = s.len() as int;
        assert(s.take(p) =~= s);
        assert(starts_line(s, p) && line_of(s, p) == i);
    } else {
        let t = s.drop_last();
        lemma_line_start_exists(t, i);
        let p = choose|p: int| starts_line(t, p) && line_of(t, p) == i;
        assert(s.take(p) =~= t.take(p));
        assert(starts_line(s, p) && line_of(s, p) == i);
    }
}

/// What `line_start` is for a line of the text: the one position that starts
/// a line and has `i` breaks in front of it.
pub proof fn lemma_line_start(s: Seq<char>, i: nat)
    requires
        i < line_count(s),
    ensures
        starts_line(s, line_start(s, i)),
        line_of(s, line_start(s, i)) == i,
        0 <= line_start(s, i) <= s.len(),
{
    lemma_line_start_exists(s, i);
}

/// A position that starts line `i` is `line_start(s, i)`.
pub proof fn lemma_line_start_is(s: Seq<char>, i: nat, p: int)
    requires
        starts_line(s, p),
        line_of(s, p) == i,
    ensures
        i < line_count(s),
        line_start(s, i) == p,
{
    lemma_line_of_monotonic(s, p, s.len() as int);
    lemma_line_start(s, i);
    lemma_starts_line_unique(s, p, line_start(s, i));
}

/// The shape of one line: it starts no later than it ends, its break (if it
/// has one) stands right behind its end, and the next line starts behind that.
pub proof fn lemma_line_bounds(s: Seq<char>, i: nat)
    requires
        i < line_count(s),
    ensures
        0 <= line_start(s, i) <= line_end(s, i) <= s.len(),
        line_end(s, i) <= line_start(s, i + 1) <= s.len(),
        i + 1 < line_count(s) ==> line_start(s, i + 1) == line_end(s, i) + 1 && is_break(
            s[line_end(s, i)],
        ),
        i + 1 == line_count(s) ==> line_start(s, i + 1) == line_end(s, i),
        line_len(s, i) == line_end(s, i) - line_start(s, i),
{
    lemma_line_start(s, i);
    if i + 1 < line_count(s) {
        lemma_line_start(s, i + 1);
        let a = line_start(s, i);
        let b = line_start(s, i + 1);
        if b <= a {
            lemma_line_of_monotonic(s, b, a);
        }
    }
}

/// Every position from the start of a line to its end lies on that line.
pub proof fn lemma_line_of_within(s: Seq<char>, i: nat, p: int)
    requires
        i < line_count(s),
        line_start(s, i) <= p <= line_end(s, i),
    ensures
        line_of(s, p) == i,
        0 <= p <= s.len(),
{
    lemma_line_bounds(s, i);
    lemma_line_start(s, i);
    let a = line_start(s, i);
    lemma_line_of_monotonic(s, a, p);
    if i + 1 < line_count(s) {
        let b = line_start(s, i + 1);
        lemma_line_start(s, i + 1);
        lemma_line_of_monotonic(s, p, b - 1);
        lemma_line_of_step(s, b - 1);
    } else {
        lemma_line_of_monotonic(s, p, s.len() as int);
    }
}

/// A position lies between the start and the end of its own line.
pub proof fn lemma_within_line_of(s: Seq<char>, p: int)
    requires
        0 <= p <= s.len(),
    ensures
        line_of(s, p) < line_count(s),
        line_start(s, line_of(s, p)) <= p <= line_end(s, line_of(s, p)),
{
    let i = line_of(s, p);
    lemma_line_of_monotonic(s, p, s.len() as int);
    lemma_line_bounds(s, i);
    lemma_line_start(s, i);
    let a = line_start(s, i);
    if p < a {
        lemma_line_of_monotonic(s, p, a - 1);
        lemma_line_of_step(s, a - 1);
    }
    if i + 1 < line_count(s) {
        let b = line_start(s, i + 1);
        lemma_line_start(s, i + 1);
        if p >= b {
            lemma_line_of_monotonic(s, b, p);
        }
    }
}

/// No line holds a line break.
pub proof fn lemma_line_has_no_break(s: Seq<char>, i: nat, p: int)
    requires
        i < line_count(s),
        line_start(s, i) <= p < line_end(s, i),
    ensures
        !is_break(s[p]),
{
    lemma_line_bounds(s, i);
    lemma_line_of_within(s, i, p);
    lemma_line_of_within(s, i, p + 1);
    lemma_line_of_step(s, p);
}

/// Later lines start later, and a line ends before any later line starts.
pub proof fn lemma_line_start_monotonic(s: Seq<char>, i: nat, j: nat)
    requires
        i <= j < line_count(s),
    ensures
        line_start(s, i) <= line_start(s, j),
        i < j ==> line_end(s, i) < line_start(s, j),
{
    lemma_line_start(s, i);
    lemma_line_start(s, j);
    lemma_line_bounds(s, i);
    if i < j {
        lemma_line_start(s, i + 1);
        let a = line_start(s, i + 1);
        let b = line_start(s, j);
        if b < a {
            lemma_line_of_monotonic(s, b, a);
        }
    }
}

/// Taking characters out takes out their line breaks and no others.
pub proof fn lemma_remove_range_breaks(s: Seq<char>, from: int, to: int)
    requires
        0 <= from <= to <= s.len(),
    ensures
        count_breaks(remove_range(s, from, to)) + count_breaks(s.subrange(from, to))
            == count_breaks(s),
        line_of(s, from) < line_count(remove_range(s, from, to)),
        remove_range(s, from, to).len() == s.len() - (to - from),
{
    assert(s =~= s.take(from) + s.subrange(from, to) + s.skip(to));
    lemma_count_breaks_add(s.take(from), s.subrange(from, to));
    lemma_count_breaks_add(s.take(from) + s.subrange(from, to), s.skip(to));
    lemma_count_breaks_add(s.take(from), s.skip(to));
}

/// Putting characters in adds their line breaks and no others.
pub proof fn lemma_insert_at_breaks(s: Seq<char>, p: int, t: Seq<char>)
    requires
        0 <= p <= s.len(),
    ensures
        count_breaks(insert_at(s, p, t)) == count_breaks(s) + count_breaks(t),
        insert_at(s, p, t).len() == s.len() + t.len(),
        line_of(insert_at(s, p, t), p + t.len()) == line_of(s, p) + count_breaks(t),
{
    assert(s =~= s.take(p) + s.skip(p));
    lemma_count_breaks_add(s.take(p), s.skip(p));
    lemma_count_breaks_add(s.take(p), t);
    lemma_count_breaks_add(s.take(p) + t, s.skip(p));
    assert(insert_at(s, p, t).take(p + t.len()) =~= s.take(p) + t);
}

/// Where the line starts on which text that was put in ends: where it did
/// before, if the text has no line break, and else behind the last of its
/// line breaks.
pub proof fn lemma_insert_at_line_start(s: Seq<char>, p: int, t: Seq<char>)
    requires
        0 <= p <= s.len(),
    ensures
        line_start(insert_at(s, p, t), line_of(s, p) + count_breaks(t)) == if count_breaks(t)
            == 0 {
            line_start(s, line_of(s, p))
        } else {
            p + line_start(t, count_breaks(t))
        },
{
    let r = insert_at(s, p, t);
    let i = line_of(s, p);
    let k = count_breaks(t);
    if k == 0 {
        let a = line_start(s, i);
        lemma_within_line_of(s, p);
        lemma_line_start(s, i);
        assert(r.take(a) =~= s.take(a));
        lemma_line_start_is(r, i, a);
    } else {
        let b = line_start(t, k);
        lemma_line_start(t, k);
        assert(t.take(0) =~= Seq::<char>::empty());
        assert(r.take(p + b) =~= s.take(p) + t.take(b));
        lemma_count_breaks_add(s.take(p), t.take(b));
        lemma_line_start_is(r, i + k, p + b);
    }
}

/// The line on which characters were taken out still starts where it did, and
/// still reaches the place where they stood.
pub proof fn lemma_remove_range_line(s: Seq<char>, from: int, to: int)
    requires
        0 <= from <= to <= s.len(),
    ensures
        line_of(remove_range(s, from, to), from) == line_of(s, from),
        line_start(remove_range(s, from, to), line_of(s, from)) == line_start(
            s,
            line_of(s, from),
        ),
        from <= line_end(remove_range(s, from, to), line_of(s, from)),
{
    let r = remove_range(s, from, to);
    let i = line_of(s, from);
    let a = line_start(s, i);
    lemma_within_line_of(s, from);
    lemma_line_start(s, i);
    assert(r.take(a) =~= s.take(a));
    assert(r.take(from) =~= s.take(from));
    lemma_line_start_is(r, i, a);
    lemma_within_line_of(r, from);
}

/// Two texts that agree up to the position `p` agree on the line of `p`, on
/// where that line starts, and in that it reaches `p`.
pub proof fn lemma_same_prefix(s: Seq<char>, r: Seq<char>, p: int)
    requires
        0 <= p <= s.len(),
        p <= r.len(),
        s.take(p) == r.take(p),
    ensures
        line_of(r, p) == line_of(s, p),
        line_start(r, line_of(s, p)) == line_start(s, line_of(s, p)),
        p <= line_end(r, line_of(s, p)),
        forall|i: nat| i < line_of(s, p) ==> line_start(r, i) == line_start(s, i) && line_end(r, i)
            == line_end(s, i),
{
    let n = line_of(s, p);
    lemma_within_line_of(s, p);
    lemma_within_line_of(r, p);
    assert forall|i: nat| i <= n implies line_start(r, i) == line_start(s, i) by {
        lemma_line_start(s, i);
        lemma_line_start_monotonic(s, i, n);
        let a = line_start(s, i);
        assert(s.take(p).take(a) =~= s.take(a));
        assert(r.take(p).take(a) =~= r.take(a));
        if a > 0 {
            assert(s[a - 1] == s.take(p)[a - 1]);
            assert(r[a - 1] == r.take(p)[a - 1]);
        }
        lemma_line_start_is(r, i, a);
    }
    assert forall|i: nat| i < n implies line_start(r, i) == line_start(s, i) && line_end(r, i)
        == line_end(s, i) by {
        assert(line_start(r, i) == line_start(s, i));
        assert(line_start(r, i + 1) == line_start(s, i + 1));
    }
}

/// What `leading_whitespace` counts: the first `n` characters are white
/// space, and the one behind them, if there is one, is not.
pub proof fn lemma_leading_whitespace(s: Seq<char>, n: nat)
    requires
        n <= s.len(),
        forall|i: int| 0 <= i < n ==> white_space(#[trigger] s[i]),
        n < s.len() ==> !white_space(s[n as int]),
    ensures
        leading_whitespace(s) == n,
    decreases n,
{
    if n > 0 {
        let t = s.skip(1);
        assert forall|i: int| 0 <= i < n - 1 implies white_space(#[trigger] t[i]) by {
            assert(t[i] == s[i + 1]);
        }
        lemma_leading_whitespace(t, (n - 1) as nat);
    }
}

/// Characters without a line break among them count for none.
pub proof fn lemma_no_breaks(s: Seq<char>)
    requires
        forall|i: int| 0 <= i < s.len() ==> !is_break(#[trigger] s[i]),
    ensures
        count_breaks(s) == 0,
    decreases s.len(),
{
    if s.len() > 0 {
        lemma_no_breaks(s.drop_last());
    }
}

/// A text begins with no more white space than it has characters.
pub proof fn lemma_leading_whitespace_bound(s: Seq<char>)
    ensures
        leading_whitespace(s) <= s.len(),
    decreases s.len(),
{
    if s.len() > 0 {
        lemma_leading_whitespace_bound(s.skip(1));
    }
}

} // verus!
