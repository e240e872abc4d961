//! The set-up of a prompt: the lines it starts with, where its cursor starts,
//! how it is decorated and how it is anchored on the screen.

use vstd::prelude::*;
use crate::editor::Editor;
use crate::model::EditorView;
use crate::renderer::Layout;
use crate::selection::{Cursor, Place, Selection, SelectionView};

verus! {

/// How the prompt is anchored on the screen.
#[derive(Debug, Clone, Copy, PartialEq, Eq, Structural)]
pub enum Anchor {
    /// The prompt stays where it was first drawn.
    InPlace,
    /// The prompt stays at the bottom of the terminal.
    Bottom,
}

impl Default for Anchor {
    fn default() -> (a: Anchor)
        ensures
            a == Anchor::InPlace,
    {
        Anchor::InPlace
    }
}

/// What is shown around the lines of the prompt.
#[derive(Debug, Clone, Copy, PartialEq, Eq, Structural)]
pub enum Prompt {
    /// Nothing.
    Plain,
    /// The classic header, margin and footer.
    Classic,
    /// The fancy margin and footer, without a header.
    Fancy,
}

impl Prompt {
    /// The room that the decoration takes.
    pub open spec fn room(self) -> Layout {
        match self {
            Prompt::Plain => Layout { header_rows: 0, footer_rows: 0, gutter_width: 0 },
            Prompt::Classic => Layout { header_rows: 1, footer_rows: 1, gutter_width: 8 },
            Prompt::Fancy => Layout { header_rows: 0, footer_rows: 1, gutter_width: 9 },
        }
    }

    /// The room that the decoration takes.
    pub fn layout(self) -> (layout: Layout)
        ensures
            layout == self.room(),
    {
        match self {
            Prompt::Plain => Layout { header_rows: 0, footer_rows: 0, gutter_width: 0 },
            Prompt::Classic => Layout { header_rows: 1, footer_rows: 1, gutter_width: 8 },
            Prompt::Fancy => Layout { header_rows: 0, footer_rows: 1, gutter_width: 9 },
        }
    }
}

/// The lines `lines` as one text, with a line break between each two.
pub open spec fn joined(lines: Seq<Seq<char>>) -> Seq<char>
    decreases lines.len(),
{
    if lines.len() == 0 {
        Seq::empty()
    } else if lines.len() == 1 {
        lines[0]
    } else {
        joined(lines.drop_last()) + seq!['\n'] + lines.last()
    }
}

/// The set-up of a prompt, as mathematics.
pub struct BuilderView {
    pub anchor: Anchor,
    pub buffers: Seq<Seq<char>>,
    pub line: usize,
    pub index: usize,
    pub prompt: Prompt,
}

/// The set-up of a prompt, built up step by step.
pub struct MultilineTermBuilder {
    anchor: Anchor,
    buffers: Vec<String>,
    line: usize,
    index: usize,
    prompt: Prompt,
}

impl View for MultilineTermBuilder {
    type V = BuilderView;

    closed spec fn view(&self) -> BuilderView {
        BuilderView {
            anchor: self.anchor,
            buffers: Seq::new(self.buffers@.len(), |i: int| self.buffers@[i]@),
            line: self.line,
            index: self.index,
            prompt: self.prompt,
        }
    }
}

impl Default for MultilineTermBuilder {
    fn default() -> (b: MultilineTermBuilder)
        ensures
            b@ == (BuilderView {
                anchor: Anchor::InPlace,
                buffers: Seq::empty(),
                line: 0,
                index: 0,
                prompt: Prompt::Plain,
            }),
    {
        let b = MultilineTermBuilder {
            anchor: Anchor::InPlace,
            buffers: Vec::new(),
            line: 0,
            index: 0,
            prompt: Prompt::Plain,
        };
        assert(b@.buffers =~= Seq::empty());
        b
    }
}

impl MultilineTermBuilder {
    /// Set how the prompt is anchored.
    pub fn anchor(&mut self, anchor: Anchor) -> (r: &mut Self)
        ensures
            r@ == (BuilderView { anchor, ..old(self)@ }),
            *final(self) == *final(r),
    {
        self.anchor = anchor;
        self
    }

    /// Set the lines that the prompt starts with.
    pub fn buffers(&mut self, buffers: Vec<String>) -> (r: &mut Self)
        ensures
            r@ == (BuilderView {
                buffers: Seq::new(buffers@.len(), |i: int| buffers@[i]@),
                ..old(self)@
            }),
            *final(self) == *final(r),
    {
        self.buffers = buffers;
        self
    }

    /// Set the line on which the cursor starts.
    pub fn line(&mut self, line: usize) -> (r: &mut Self)
        ensures
            r@ == (BuilderView { line, ..old(self)@ }),
            *final(self) == *final(r),
    {
        self.line = line;
        self
    }

    /// Set the column at which the cursor starts.
    pub fn index(&mut self, index: usize) -> (r: &mut Self)
        ensures
            r@ == (BuilderView { index, ..old(self)@ }),
            *final(self) == *final(r),
    {
        self.index = index;
        self
    }

    /// Set what is shown around the lines.
    pub fn prompt(&mut self, prompt: Prompt) -> (r: &mut Self)
        ensures
            r@ == (BuilderView { prompt, ..old(self)@ }),
            *final(self) == *final(r),
    {
        self.prompt = prompt;
        self
    }
}

impl MultilineTermBuilder {
    /// How the prompt is anchored.
    pub fn anchored(&self) -> (anchor: Anchor)
        ensures
            anchor == self@.anchor,
    {
        self.anchor
    }

    /// What is shown around the lines.
    pub fn decoration(&self) -> (prompt: Prompt)
        ensures
            prompt == self@.prompt,
    {
        self.prompt
    }

    /// The editor that the prompt starts with: its text is the lines, joined
    /// by line breaks, and its cursor stands at the line and the column that
    /// were set, or on the last line where there is no such line.
    pub fn build(&self) -> (editor: Editor)
        ensures
            editor@ == (EditorView {
                text: joined(self@.buffers),
                focus: Place { ln: 0, col: 0 },
                anchor: None,
            }).placed(
                SelectionView {
                    focus: Place { ln: self@.line as nat, col: self@.index as nat },
                    anchor: None,
                },
            ),
            editor@.wf(),
    {
        let mut text = String::new();
        let mut i: usize = 0;
        proof {
            reveal_strlit("\n");
            assert("\n"@ =~= seq!['\n']);
            assert(self@.buffers.take(0) =~= Seq::<Seq<char>>::empty());
        }
        while i < self.buffers.len()
            invariant
                i <= self.buffers@.len(),
                self@.buffers.len() == self.buffers@.len(),
                forall|k: int| 0 <= k < self.buffers@.len() ==> self@.buffers[k] == self.buffers@[k]@,
                text@ == joined(self@.buffers.take(i as int)),
                "\n"@ == seq!['\n'],
            decreases self.buffers@.len() - i,
        {
            if i > 0 {
                text.append("\n");
            }
            text.append(self.buffers[i].as_str());
            proof {
                let now = self@.buffers.take(i + 1);
                assert(now.drop_last() =~= self@.buffers.take(i as int));
                assert(now.last() == self.buffers@[i as int]@);
                if i == 0 {
                    assert(text@ =~= now[0]);
                } else {
                    assert(text@ =~= joined(now.drop_last()) + seq!['\n'] + now.last());
                }
            }
            i += 1;
        }
        assert(self@.buffers.take(i as int) =~= self@.buffers);
        let mut editor = Editor::new();
        editor.set_contents(text.as_str());
        proof {
            editor.lemma_view();
        }
        editor.set_selection(
            Selection { focus: Cursor { ln: self.line, col: self.index }, anchor: None },
        );
        editor
    }
}

} // verus!
