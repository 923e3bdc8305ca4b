//! One renderable entry of the list: its text, its selection state, the
//! pointer glyphs, the spacing between pointer and text, and the optional
//! underline decoration. A line renders to exactly
//! `{pointer}{space spaces}{text}`, with the text wrapped in the underline
//! escape pair when decorated.
use crate::ansi::spaces_of;
use vstd::prelude::*;

verus! {

/// The escape sequence that turns underlining on.
pub open spec fn underline_on() -> Seq<char> {
    seq!['\u{1b}', '[', '4', 'm']
}

/// The escape sequence that turns all styling off.
pub open spec fn underline_off() -> Seq<char> {
    seq!['\u{1b}', '[', '0', 'm']
}

/// One list entry's visual state.
pub struct Line {
    pub text: String,
    pub is_selected: bool,
    pub pointer: char,
    pub not_selected_pointer: char,
    pub space: usize,
    pub underline: bool,
}

impl Line {
    /// The exact text of this line's rendered row: the pointer column, the
    /// spacing, then the (possibly decorated) text.
    pub open spec fn rendered(self) -> Seq<char> {
        seq![if self.is_selected {
                self.pointer
            } else {
                self.not_selected_pointer
            }] + spaces_of(self.space as nat) + if self.underline {
            underline_on() + self.text@ + underline_off()
        } else {
            self.text@
        }
    }

    /// Character width of the row as the erase pass accounts for it: the
    /// text's characters, the spacing, and one pointer column.
    pub open spec fn width(self) -> nat {
        (self.text@.len() + self.space + 1) as nat
    }

    /// This line with every field that `default` resets set back to its
    /// creation-time value.
    pub open spec fn defaulted(self) -> Line {
        Line { is_selected: false, space: 1, underline: false, ..self }
    }

    /// Creates a new Line with the given text and selected-pointer glyph.
    pub fn new(text: String, pointer: char) -> (l: Line)
        ensures
            l == (Line {
                text,
                is_selected: false,
                pointer,
                not_selected_pointer: ' ',
                space: 1,
                underline: false,
            }),
    {
        Line { text, is_selected: false, pointer, space: 1, underline: false, not_selected_pointer: ' ' }
    }

    /// Marks this line as the selected one. Idempotent.
    pub fn select(&mut self)
        ensures
            *final(self) == (Line { is_selected: true, ..*old(self) }),
    {
        self.is_selected = true;
    }

    /// Sets the glyph shown when the line is not selected.
    pub fn not_selected_pointer(&mut self, pointer: char)
        ensures
            *final(self) == (Line { not_selected_pointer: pointer, ..*old(self) }),
    {
        self.not_selected_pointer = pointer;
    }

    /// Turns the underline decoration on.
    pub fn underline(&mut self)
        ensures
            *final(self) == (Line { underline: true, ..*old(self) }),
    {
        self.underline = true;
    }

    /// Sets the space between pointer and text. Default is 1.
    pub fn space_from_pointer(&mut self, space: usize)
        ensures
            *final(self) == (Line { space, ..*old(self) }),
    {
        self.space = space;
    }

    /// Sets every change made after creation back to its default: the line is
    /// unselected, one space wide between pointer and text, undecorated.
    pub fn default(&mut self)
        ensures
            *final(self) == old(self).defaulted(),
    {
        self.is_selected = false;
        self.space = 1;
        self.underline = false;
    }

    /// Wraps the given text in the underline escape pair.
    fn underline_text(&self, text: &str) -> (r: String)
        ensures
            r@ == underline_on() + text@ + underline_off(),
    {
        let mut r = String::from_str("\u{1b}[4m");
        proof {
            reveal_strlit("\u{1b}[4m");
            assert(r@ =~= underline_on());
        }
        r.append(text);
        r.append("\u{1b}[0m");
        proof {
            reveal_strlit("\u{1b}[0m");
            assert(r@ =~= underline_on() + text@ + underline_off());
        }
        r
    }

    /// Produces this line's rendered row.
    pub fn render(&self) -> (s: String)
        ensures
            s@ == self.rendered(),
    {
        let mut s = String::new();
        if self.is_selected {
            s.push(self.pointer);
        } else {
            s.push(self.not_selected_pointer);
        }
        let sp = crate::ansi::spaces_string(self.space);
        s.append(sp.as_str());
        if self.underline {
            let decorated = self.underline_text(self.text.as_str());
            s.append(decorated.as_str());
        } else {
            s.append(self.text.as_str());
        }
        proof {
            assert(s@ =~= self.rendered());
        }
        s
    }

    /// Character width of the rendered row.
    pub fn len(&self) -> (n: usize)
        requires
            self.text@.len() + self.space + 1 <= usize::MAX,
        ensures
            n == self.width(),
    {
        self.text.as_str().unicode_len() + self.space + 1
    }
}

/// Law: resetting a line to defaults is idempotent — doing it twice in a row
/// produces the same line as doing it once.
pub proof fn lemma_default_idempotent(l: Line)
    ensures
        l.defaulted().defaulted() == l.defaulted(),
{
}

} // verus!
