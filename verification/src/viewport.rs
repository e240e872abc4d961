//! The viewport planner: which lines of the text are shown, given how many
//! rows there are for them, where the cursor is and what was shown before.

use vstd::prelude::*;

verus! {

/// The window of lines to show: from `low` up to `high`, of `n` lines with
/// the cursor on line `c`, on `t` rows, after the window from `prev_low` up to
/// `prev_high`.
///
/// Text that fits is shown whole. Else the window moves only if the cursor
/// has left it: down until the cursor is its last line, or up until the
/// cursor is its first line. A window that would start above the first line
/// starts there, and none ends below the last line.
pub open spec fn planned(n: nat, c: nat, t: nat, prev_low: nat, prev_high: nat) -> (nat, nat) {
    if n <= t {
        (0, n)
    } else if c >= prev_high {
        if c + 1 >= t {
            ((c + 1 - t) as nat, if c + 1 <= n {
                c + 1
            } else {
                n
            })
        } else {
            (0, t)
        }
    } else if c < prev_low {
        (c, if c + t <= n {
            c + t
        } else {
            n
        })
    } else {
        (prev_low, if prev_high <= n {
            prev_high
        } else {
            n
        })
    }
}

/// The inputs on which the planned window has exactly `t` rows and holds the
/// cursor: there is a row at all, and the window is either moved down to the
/// cursor, or moved up to it with `t` lines left from there, or kept and was
/// `t` lines high to begin with.
pub open spec fn fills_rows(n: nat, c: nat, t: nat, prev_low: nat, prev_high: nat) -> bool {
    &&& 0 < t
    &&& {
        ||| c >= prev_high
        ||| c < prev_low && c + t <= n
        ||| prev_low <= c < prev_high && prev_low + t == if prev_high <= n {
            prev_high
        } else {
            n
        }
    }
}

/// The planned window is a range of lines of the text, and with a row to show
/// it on it holds the cursor.
pub proof fn lemma_planned_range(n: nat, c: nat, t: nat, prev_low: nat, prev_high: nat)
    requires
        c < n,
    ensures
        planned(n, c, t, prev_low, prev_high).0 <= planned(n, c, t, prev_low, prev_high).1 <= n,
        0 < t ==> planned(n, c, t, prev_low, prev_high).0 <= c < planned(
            n,
            c,
            t,
            prev_low,
            prev_high,
        ).1,
        n <= t ==> planned(n, c, t, prev_low, prev_high) == (0nat, n),
        planned(n, c, t, prev_low, prev_high).1 - planned(n, c, t, prev_low, prev_high).0 <= t || (
        planned(n, c, t, prev_low, prev_high).0 == prev_low && planned(
            n,
            c,
            t,
            prev_low,
            prev_high,
        ).1 <= prev_high),
{
}

/// Where the text does not fit, the planned window holds the cursor and is
/// as high as the rows allow, on exactly the inputs of `fills_rows`.
pub proof fn lemma_viewport_containment(n: nat, c: nat, t: nat, prev_low: nat, prev_high: nat)
    requires
        t < n,
        c < n,
    ensures
        ({
            let (low, high) = planned(n, c, t, prev_low, prev_high);
            (low <= c < high && high - low == t) <==> fills_rows(n, c, t, prev_low, prev_high)
        }),
{
}

/// While the cursor stays inside the window that was shown, the window
/// stays: it is planned again as it was, unless it reached below the last
/// line, or the text now fits and the window was not the whole text.
pub proof fn lemma_viewport_stability(n: nat, c: nat, t: nat, prev_low: nat, prev_high: nat)
    requires
        prev_low <= c < prev_high,
    ensures
        planned(n, c, t, prev_low, prev_high) == (prev_low, prev_high) <==> if n <= t {
            prev_low == 0 && prev_high == n
        } else {
            prev_high <= n
        },
{
}

/// Plan the window of lines to show. `lines` is the number of lines of the
/// text, `cursor` the line of the cursor, `rows` the number of rows for the
/// text, and `prev` the window that was shown before, `(0, 0)` at first.
pub fn plan(lines: usize, cursor: usize, rows: usize, prev: (usize, usize)) -> (r: (usize, usize))
    requires
        cursor < lines,
    ensures
        (r.0 as nat, r.1 as nat) == planned(
            lines as nat,
            cursor as nat,
            rows as nat,
            prev.0 as nat,
            prev.1 as nat,
        ),
        r.0 <= r.1 <= lines,
        0 < rows ==> r.0 <= cursor < r.1,
{
    if lines <= rows {
        (0, lines)
    } else if cursor >= prev.1 {
        if cursor + 1 >= rows {
            (cursor + 1 - rows, cursor + 1)
        } else {
            (0, rows)
        }
    } else if cursor < prev.0 {
        if rows <= lines - cursor {
            (cursor, cursor + rows)
        } else {
            (cursor, lines)
        }
    } else if prev.1 <= lines {
        (prev.0, prev.1)
    } else {
        (prev.0, lines)
    }
}

} // verus!
