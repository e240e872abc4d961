//! The cursor and the selection: a focus that moves, and an anchor that stays
//! where a selection began.

use vstd::prelude::*;

verus! {

/// A place in a text, as mathematics: a line, and a column on it.
pub struct Place {
    pub ln: nat,
    pub col: nat,
}

/// The order of places in a text: by line, then by column.
pub open spec fn place_le(a: Place, b: Place) -> bool {
    a.ln < b.ln || (a.ln == b.ln && a.col <= b.col)
}

/// A selection, as mathematics: the place of the focus, and that of the
/// anchor if there is one.
pub struct SelectionView {
    pub focus: Place,
    pub anchor: Option<Place>,
}

impl SelectionView {
    /// The selection with an anchor that lies on the focus taken away.
    pub open spec fn fixed(self) -> SelectionView {
        if self.anchor == Some(self.focus) {
            SelectionView { focus: self.focus, anchor: None }
        } else {
            self
        }
    }

    /// The selection made ready for a move. A move that extends it starts one
    /// at the focus where there is none; a move that does not, drops it.
    pub open spec fn anchored(self, anchored: bool) -> SelectionView {
        if !anchored {
            SelectionView { focus: self.focus, anchor: None }
        } else if self.anchor is None {
            SelectionView { focus: self.focus, anchor: Some(self.focus) }
        } else {
            self
        }
    }

    /// The two ends of the selection in text order, if there is one.
    pub open spec fn ordered(self) -> Option<(Place, Place)> {
        match self.anchor {
            None => None,
            Some(a) => if place_le(self.focus, a) {
                Some((self.focus, a))
            } else {
                Some((a, self.focus))
            },
        }
    }
}

/// A place in the text: a line, and a column on it. The column may lie past
/// the end of the line; whoever turns it into a character position clamps it.
#[derive(Debug, Clone, Copy, PartialEq, Eq, PartialOrd, Ord, Hash, Structural)]
pub struct Cursor {
    pub ln: usize,
    pub col: usize,
}

impl View for Cursor {
    type V = Place;

    open spec fn view(&self) -> Place {
        Place { ln: self.ln as nat, col: self.col as nat }
    }
}

impl Cursor {
    /// Whether `self` comes no later than `other`, by line and then by column.
    pub fn le(&self, other: &Cursor) -> (r: bool)
        ensures
            r == place_le(self@, other@),
    {
        self.ln < other.ln || (self.ln == other.ln && self.col <= other.col)
    }
}

impl Default for Cursor {
    fn default() -> (c: Cursor)
        ensures
            c == (Cursor { ln: 0, col: 0 }),
    {
        Cursor { ln: 0, col: 0 }
    }
}

/// The places of an optional cursor.
pub open spec fn place_of(c: Option<Cursor>) -> Option<Place> {
    match c {
        Some(c) => Some(c@),
        None => None,
    }
}

/// The focus, where the cursor is, and the anchor, the other end of the
/// selection. Without an anchor nothing is selected.
#[derive(Debug, Clone, Copy, PartialEq, Eq, Structural)]
pub struct Selection {
    pub focus: Cursor,
    pub anchor: Option<Cursor>,
}

impl View for Selection {
    type V = SelectionView;

    open spec fn view(&self) -> SelectionView {
        SelectionView { focus: self.focus@, anchor: place_of(self.anchor) }
    }
}

impl Default for Selection {
    fn default() -> (s: Selection)
        ensures
            s == (Selection { focus: Cursor { ln: 0, col: 0 }, anchor: None }),
    {
        Selection { focus: Cursor { ln: 0, col: 0 }, anchor: None }
    }
}

impl Selection {
    /// Remove the anchor if it is on the focus.
    pub fn fix_anchor(&mut self)
        ensures
            final(self)@ == old(self)@.fixed(),
            final(self).focus == old(self).focus,
            final(self).anchor is Some ==> final(self).anchor == old(self).anchor,
    {
        match self.anchor {
            Some(a) => {
                if a.ln == self.focus.ln && a.col == self.focus.col {
                    self.anchor = None;
                }
            },
            None => {},
        }
    }

    /// Anchor at the focus if there was no anchor yet, or drop the anchor.
    pub fn set_anchor(&mut self, anchored: bool)
        ensures
            final(self)@ == old(self)@.anchored(anchored),
            final(self).focus == old(self).focus,
            final(self).anchor == old(self).anchor || final(self).anchor is None || final(self).anchor
                == Some(old(self).focus),
    {
        if anchored {
            if self.anchor.is_none() {
                self.anchor = Some(self.focus);
            }
        } else {
            self.anchor = None;
        }
    }

    /// The two ends of the selection in text order, or `None` where nothing is
    /// selected.
    pub fn range(&self) -> (r: Option<(Cursor, Cursor)>)
        ensures
            r is Some <==> self.anchor is Some,
            r matches Some((first, last)) ==> self@.ordered() == Some((first@, last@)),
            r matches Some((first, last)) ==> (first == self.focus && Some(last) == self.anchor)
                || (Some(first) == self.anchor && last == self.focus),
    {
        match self.anchor {
            None => None,
            Some(a) => {
                if self.focus.le(&a) {
                    Some((self.focus, a))
                } else {
                    Some((a, self.focus))
                }
            },
        }
    }
}

} // verus!
