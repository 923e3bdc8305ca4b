//! The selection controller: it owns the item texts, the Line renderers
//! built from them, the highlighted index and the key configuration, and it
//! computes every byte of the redraw protocol.
//!
//! The controller performs no input or output itself. Rendered rows are
//! appended to the `out` buffer (the configured sink); the cursor-control
//! text that precedes a reprint is returned to the caller, which sends it to
//! the terminal. The caller feeds key events in one at a time through
//! `handle_event` until it reports confirmation.
use crate::ansi::cursor_up_text;
use crate::ansi::spaces_of;
use crate::ansi::spaces_string;
use crate::keys::KeyCode;
use crate::keys::KeyEvent;
use crate::keys::KeyModifiers;
use crate::line::Line;
use crate::SelectDialogKey;
use vstd::prelude::*;

verus! {

/// Why a configuration call or a session start was refused.
#[derive(Debug, PartialEq, Eq, Structural, Clone, Copy)]
pub enum SelectError {
    /// The confirm key was offered as a navigation key; accepting it would
    /// make confirmation unreachable.
    ConfirmKeyAsNavigation,
    /// The item list is empty: there is no index to select.
    EmptyItemList,
}

/// What one key event did to the session.
#[derive(Debug, PartialEq, Eq, Structural, Clone, Copy)]
pub enum EventOutcome {
    /// The confirm key ended the session; the item at the current index is
    /// the result.
    Confirmed,
    /// The highlight moved one step in the reported direction and the list
    /// was redrawn.
    Moved(SelectDialogKey),
    /// The event changed nothing: an unrecognized key, a modified key, or a
    /// navigation key at the list edge.
    Ignored,
}

/// The glyph a line shows when unselected: the configured one, or a space.
pub open spec fn nsp_of(p: Option<char>) -> char {
    match p {
        Some(c) => c,
        None => ' ',
    }
}

/// A built or redrawn line fits the erase pass: its width arithmetic cannot
/// overflow, and its spacing is one of the two values the controller uses.
pub open spec fn line_fits(l: Line) -> bool {
    l.text@.len() + 3 <= usize::MAX && l.space <= 2
}

/// `post` is `pre` restyled for a frame in which it is selected iff `sel`:
/// reset to defaults, then selection, decoration and spacing applied.
pub open spec fn styled_as(post: Line, pre: Line, sel: bool, ul: bool, fwd: bool) -> bool {
    post == (Line {
        is_selected: sel,
        underline: sel && ul,
        space: if sel && fwd {
            2usize
        } else {
            1usize
        },
        ..pre
    })
}

/// The text of one whole printed frame: every line's rendered row, each
/// ended by a newline.
pub open spec fn frame_of(lines: Seq<Line>) -> Seq<char>
    decreases lines.len(),
{
    if lines.len() == 0 {
        Seq::empty()
    } else {
        frame_of(lines.drop_last()) + lines.last().rendered() + seq!['\n']
    }
}

/// The blank rows that overwrite a previously printed frame: for each line a
/// run of spaces as wide as that line's row, ended by a newline.
pub open spec fn blanks_of(lines: Seq<Line>) -> Seq<char>
    decreases lines.len(),
{
    if lines.len() == 0 {
        Seq::empty()
    } else {
        blanks_of(lines.drop_last()) + spaces_of(lines.last().width()) + seq!['\n']
    }
}

/// The full erase pass for a printed frame, `rows` being the printed lines
/// plus whatever rows stand above the list: cursor up to the anchor, blank
/// every line's row, cursor back up to the anchor.
pub open spec fn erase_text_of(lines: Seq<Line>, rows: nat) -> Seq<char> {
    cursor_up_text(rows) + blanks_of(lines) + cursor_up_text(rows)
}

/// The greatest line width among `lines`, starting from `acc`.
pub open spec fn longest_of(lines: Seq<Line>, acc: nat) -> nat
    decreases lines.len(),
{
    if lines.len() == 0 {
        acc
    } else if lines.last().width() > longest_of(lines.drop_last(), acc) {
        lines.last().width()
    } else {
        longest_of(lines.drop_last(), acc)
    }
}

/// Law: in every well-formed state whose lines are built, the current index
/// lies in `[0, item_count)`.
pub proof fn lemma_index_in_range(s: Select)
    requires
        s.wf(),
        s.lines@.len() > 0,
    ensures
        0 <= s.selected_item < s.item_count,
{
}

/// Law: a redraw to an in-range index leaves exactly one line marked
/// selected, and it is the line at the new current index.
pub proof fn lemma_redrawn_selection(pre: Select, post: Select, new_sel: int)
    requires
        0 <= new_sel < pre.lines@.len(),
        redrawn(pre, post, new_sel),
    ensures
        post.selection_ok(),
{
}

/// True when the key code is the fixed confirm key, which cannot be
/// registered for navigation.
fn key_is_confirm(key: KeyCode) -> (b: bool)
    ensures
        b == (key == KeyCode::Enter),
{
    key == KeyCode::Enter
}

/// The event confirms the selection: the fixed confirm key with no
/// modifiers held.
pub open spec fn is_confirm(e: KeyEvent) -> bool {
    e.code == KeyCode::Enter && e.modifiers.is_none()
}

/// The event matches one of the given key codes, with no modifiers held.
pub open spec fn matches_keys(e: KeyEvent, keys: Seq<KeyCode>) -> bool {
    e.modifiers.is_none() && keys.contains(e.code)
}

/// Interactive single-selection list: tracks the highlighted index, maps key
/// events to navigation and confirmation, and produces the redraw text.
pub struct Select {
    /// The display texts of the items, in order. Never mutated or reordered.
    pub items: Vec<String>,
    /// One Line per item, built when the session starts.
    pub lines: Vec<Line>,
    /// Index of the currently highlighted item.
    pub selected_item: usize,
    /// Glyph shown before the selected line.
    pub pointer: char,
    /// Glyph shown before unselected lines, when configured.
    pub not_selected_pointer: Option<char>,
    /// Built-in up key, appended to `up_keys` at session start.
    pub default_up: KeyCode,
    /// Built-in down key, appended to `down_keys` at session start.
    pub default_down: KeyCode,
    /// Recognized up keys.
    pub up_keys: Vec<KeyCode>,
    /// Recognized down keys.
    pub down_keys: Vec<KeyCode>,
    /// Widen the selected line's spacing to shift it forward.
    pub move_selected_item_forward: bool,
    /// Underline the selected line's text.
    pub underline_selected_item: bool,
    /// Greatest rendered width seen when the lines were built.
    pub longest_item_len: usize,
    /// Number of lines built.
    pub item_count: usize,
    /// Rows printed above the list (the prompt line the caller emits before
    /// it); the erase pass climbs past them. Default 1.
    pub rows_above: usize,
    /// The output sink: every rendered frame is appended here.
    pub out: String,
}

/// Everything but the lines, the index and the output sink is the same in
/// `pre` and `post`.
pub open spec fn same_config(pre: Select, post: Select) -> bool {
    &&& post.items == pre.items
    &&& post.pointer == pre.pointer
    &&& post.not_selected_pointer == pre.not_selected_pointer
    &&& post.default_up == pre.default_up
    &&& post.default_down == pre.default_down
    &&& post.up_keys == pre.up_keys
    &&& post.down_keys == pre.down_keys
    &&& post.move_selected_item_forward == pre.move_selected_item_forward
    &&& post.underline_selected_item == pre.underline_selected_item
    &&& post.longest_item_len == pre.longest_item_len
    &&& post.item_count == pre.item_count
    &&& post.rows_above == pre.rows_above
}

/// One completed redraw: the index is now `new_sel`, every line was reset
/// and restyled for the new index, and exactly the new frame's text was
/// appended to the output sink.
pub open spec fn redrawn(pre: Select, post: Select, new_sel: int) -> bool {
    &&& same_config(pre, post)
    &&& post.selected_item == new_sel
    &&& post.lines@.len() == pre.lines@.len()
    &&& (forall|i: int|
        0 <= i < pre.lines@.len() ==> styled_as(
            #[trigger] post.lines@[i],
            pre.lines@[i],
            i == new_sel,
            pre.underline_selected_item,
            pre.move_selected_item_forward,
        ))
    &&& post.out@ == pre.out@ + frame_of(post.lines@)
}

/// A freshly built line for the given item text, before any styling.
pub open spec fn built_as(l: Line, text: Seq<char>, pointer: char, nsp: char) -> bool {
    &&& l.text@ == text
    &&& l.is_selected == false
    &&& l.pointer == pointer
    &&& l.not_selected_pointer == nsp
    &&& l.space == 1
    &&& l.underline == false
}

/// A line of a printed frame: derived from the given item text and the
/// controller's configuration, selected iff `sel`.
pub open spec fn frame_line_ok(l: Line, text: Seq<char>, sel: bool, s: Select) -> bool {
    &&& l.text@ == text
    &&& l.pointer == s.pointer
    &&& l.not_selected_pointer == nsp_of(s.not_selected_pointer)
    &&& l.is_selected == sel
    &&& l.underline == (sel && s.underline_selected_item)
    &&& l.space == (if sel && s.move_selected_item_forward {
        2int
    } else {
        1int
    })
}

impl Select {
    /// The item texts are small enough that width arithmetic cannot
    /// overflow, and the list is short enough to count.
    pub open spec fn items_ok(self) -> bool {
        &&& self.items@.len() < usize::MAX
        &&& forall|i: int|
            0 <= i < self.items@.len() ==> (#[trigger] self.items@[i])@.len() + 3 <= usize::MAX
    }

    /// Well-formedness: the index is in range whenever lines exist (and zero
    /// before any are built), the line array mirrors the item list once
    /// built, and every line's width arithmetic is safe.
    pub open spec fn wf(self) -> bool {
        &&& self.item_count == self.lines@.len()
        &&& self.lines@.len() <= self.items@.len()
        &&& (self.lines@.len() == 0 ==> self.selected_item == 0)
        &&& (self.lines@.len() > 0 ==> self.selected_item < self.lines@.len()
            && self.lines@.len() == self.items@.len())
        &&& (forall|i: int| 0 <= i < self.lines@.len() ==> line_fits(#[trigger] self.lines@[i]))
        &&& self.items@.len() + self.rows_above <= usize::MAX
        &&& self.items_ok()
    }

    /// The visual invariant: exactly one line is marked selected, and it is
    /// the line at the current index.
    pub open spec fn selection_ok(self) -> bool {
        forall|i: int|
            0 <= i < self.lines@.len() ==> ((#[trigger] self.lines@[i]).is_selected <==> i
                == self.selected_item)
    }

    /// Creates a new selection dialog over the given item texts. Rendered
    /// frames are appended to `out`.
    pub fn new(items: Vec<String>, out: String) -> (s: Select)
        requires
            items@.len() < usize::MAX,
            forall|i: int| 0 <= i < items@.len() ==> (#[trigger] items@[i])@.len() + 3 <= usize::MAX,
        ensures
            s.wf(),
            s.items == items,
            s.out == out,
            s.lines@ == Seq::<Line>::empty(),
            s.selected_item == 0,
            s.pointer == '>',
            s.not_selected_pointer is None,
            s.default_up == KeyCode::Up,
            s.default_down == KeyCode::Down,
            s.up_keys@ == Seq::<KeyCode>::empty(),
            s.down_keys@ == Seq::<KeyCode>::empty(),
            !s.move_selected_item_forward,
            !s.underline_selected_item,
            s.longest_item_len == 0,
            s.item_count == 0,
            s.rows_above == 1,
    {
        Select {
            items,
            pointer: '>',
            selected_item: 0,
            default_up: KeyCode::Up,
            default_down: KeyCode::Down,
            not_selected_pointer: None,
            move_selected_item_forward: false,
            underline_selected_item: false,
            up_keys: Vec::new(),
            down_keys: Vec::new(),
            lines: Vec::new(),
            longest_item_len: 0,
            item_count: 0,
            rows_above: 1,
            out,
        }
    }

    /// Builds one Line per item and stores them; `item_count` and
    /// `longest_item_len` are initialized.
    pub fn build_lines(&mut self)
        requires
            old(self).wf(),
            old(self).lines@.len() == 0,
        ensures
            final(self).wf(),
            final(self).lines@.len() == old(self).items@.len(),
            final(self).item_count == old(self).items@.len(),
            forall|i: int|
                0 <= i < old(self).items@.len() ==> built_as(
                    #[trigger] final(self).lines@[i],
                    old(self).items@[i]@,
                    old(self).pointer,
                    nsp_of(old(self).not_selected_pointer),
                ),
            final(self).longest_item_len == longest_of(
                final(self).lines@,
                old(self).longest_item_len as nat,
            ),
            final(self).selected_item == old(self).selected_item,
            final(self).out == old(self).out,
            final(self).items == old(self).items,
            final(self).pointer == old(self).pointer,
            final(self).not_selected_pointer == old(self).not_selected_pointer,
            final(self).default_up == old(self).default_up,
            final(self).default_down == old(self).default_down,
            final(self).up_keys == old(self).up_keys,
            final(self).down_keys == old(self).down_keys,
            final(self).move_selected_item_forward == old(self).move_selected_item_forward,
            final(self).underline_selected_item == old(self).underline_selected_item,
            final(self).rows_above == old(self).rows_above,
    {
        let mut lines: Vec<Line> = Vec::new();
        let mut item_count: usize = 0;
        let n = self.items.len();
        let mut i: usize = 0;
        while i < n
            invariant
                n == self.items@.len(),
                i <= n,
                item_count == i,
                lines@.len() == i,
                *self == (Select { longest_item_len: self.longest_item_len, ..*old(self) }),
                self.items_ok(),
                forall|j: int|
                    0 <= j < i ==> built_as(
                        #[trigger] lines@[j],
                        self.items@[j]@,
                        self.pointer,
                        nsp_of(self.not_selected_pointer),
                    ),
                forall|j: int| 0 <= j < i ==> line_fits(#[trigger] lines@[j]),
                self.longest_item_len == longest_of(lines@, old(self).longest_item_len as nat),
            decreases n - i,
        {
            let text = self.items[i].clone();
            let mut line = Line::new(text, self.pointer);
            match self.not_selected_pointer {
                Some(p) => line.not_selected_pointer(p),
                None => (),
            }
            let ghost lines0 = lines@;
            let w = line.len();
            if w > self.longest_item_len {
                self.longest_item_len = w;
            }
            lines.push(line);
            item_count = item_count + 1;
            i = i + 1;
            proof {
                assert(lines@.drop_last() =~= lines0);
                assert(lines@.last() == line);
            }
        }
        self.lines = lines;
        self.item_count = item_count;
    }

    /// Resets every line to defaults, restyles the line at the current index
    /// (selection flag, decoration, spacing), and appends every rendered row
    /// to the output sink, one per row.
    pub fn print_lines(&mut self)
        requires
            old(self).wf(),
            old(self).lines@.len() > 0,
        ensures
            final(self).wf(),
            redrawn(*old(self), *final(self), old(self).selected_item as int),
            final(self).selection_ok(),
    {
        let n = self.lines.len();
        let mut i: usize = 0;
        while i < n
            invariant
                old(self).wf(),
                n == self.lines@.len(),
                n == old(self).lines@.len(),
                i <= n,
                *self == (Select { lines: self.lines, ..*old(self) }),
                forall|j: int|
                    0 <= j < i ==> #[trigger] self.lines@[j] == old(self).lines@[j].defaulted(),
                forall|j: int| i <= j < n ==> #[trigger] self.lines@[j] == old(self).lines@[j],
            decreases n - i,
        {
            self.lines[i].default();
            i = i + 1;
        }
        let sel = self.selected_item;
        self.lines[sel].select();
        if self.underline_selected_item {
            self.lines[sel].underline();
        }
        if self.move_selected_item_forward {
            self.lines[sel].space_from_pointer(2);
        }
        proof {
            assert forall|j: int| 0 <= j < n implies styled_as(
                #[trigger] self.lines@[j],
                old(self).lines@[j],
                j == old(self).selected_item as int,
                old(self).underline_selected_item,
                old(self).move_selected_item_forward,
            ) by {
            }
        }
        let ghost styled = self.lines@;
        let ghost out0 = self.out@;
        let mut i: usize = 0;
        proof {
            assert(self.lines@.take(0) =~= Seq::<Line>::empty());
            assert(self.out@ =~= out0 + frame_of(self.lines@.take(0)));
        }
        while i < n
            invariant
                n == self.lines@.len(),
                i <= n,
                self.lines@ == styled,
                *self == (Select { lines: self.lines, out: self.out, ..*old(self) }),
                self.out@ == out0 + frame_of(self.lines@.take(i as int)),
            decreases n - i,
        {
            let r = self.lines[i].render();
            self.out.append(r.as_str());
            self.out.push('\n');
            i = i + 1;
            proof {
                assert(self.lines@.take(i as int).drop_last() =~= self.lines@.take(i as int - 1));
                assert(self.lines@.take(i as int).last() == self.lines@[i as int - 1]);
                assert(self.out@ =~= out0 + frame_of(self.lines@.take(i as int)));
            }
        }
        proof {
            assert(self.lines@.take(n as int) =~= self.lines@);
        }
    }

    /// Computes the erase pass for the currently printed frame: cursor up
    /// past the printed rows and the rows above the list, one blank row per
    /// line (at least as wide as that line's row), cursor up again to the
    /// anchor.
    pub fn erase_printed_items(&self) -> (t: String)
        requires
            self.wf(),
        ensures
            t@ == erase_text_of(self.lines@, (self.item_count + self.rows_above) as nat),
    {
        let rows: usize = self.item_count + self.rows_above;
        let mut t = self.move_n_lines_up(rows);
        let n = self.lines.len();
        let mut i: usize = 0;
        proof {
            assert(self.lines@.take(0) =~= Seq::<Line>::empty());
            assert(t@ =~= cursor_up_text(rows as nat) + blanks_of(self.lines@.take(0)));
        }
        while i < n
            invariant
                self.wf(),
                n == self.lines@.len(),
                i <= n,
                t@ == cursor_up_text(rows as nat) + blanks_of(self.lines@.take(i as int)),
            decreases n - i,
        {
            let w = self.lines[i].len();
            let sp = spaces_string(w);
            t.append(sp.as_str());
            t.push('\n');
            i = i + 1;
            proof {
                assert(self.lines@.take(i as int).drop_last() =~= self.lines@.take(i as int - 1));
                assert(self.lines@.take(i as int).last() == self.lines@[i as int - 1]);
                assert(t@ =~= cursor_up_text(rows as nat) + blanks_of(
                    self.lines@.take(i as int),
                ));
            }
        }
        let up = self.move_n_lines_up(rows);
        t.append(up.as_str());
        proof {
            assert(self.lines@.take(n as int) =~= self.lines@);
            assert(t@ =~= erase_text_of(self.lines@, (self.item_count + self.rows_above) as nat));
        }
        t
    }

    /// The control text that moves the cursor up by `n` rows.
    pub fn move_n_lines_up(&self, n: usize) -> (t: String)
        ensures
            t@ == cursor_up_text(n as nat),
    {
        crate::ansi::cursor_up(n)
    }

    /// Moves the highlight one step up and redraws. At the top boundary this
    /// is a no-op: no index change, no output, no erase text.
    pub fn move_up(&mut self) -> (t: String)
        requires
            old(self).wf(),
            old(self).lines@.len() > 0,
        ensures
            final(self).wf(),
            old(self).selected_item == 0 ==> (*final(self) == *old(self) && t@ == Seq::<char>::empty()),
            old(self).selected_item > 0 ==> (redrawn(*old(self), *final(self), old(self).selected_item - 1)
                && t@ == erase_text_of(old(self).lines@, (old(self).item_count + old(self).rows_above) as nat)
                && final(self).selection_ok()),
    {
        if self.selected_item == 0 {
            return String::new();
        }
        self.selected_item = self.selected_item - 1;
        let t = self.erase_printed_items();
        self.print_lines();
        t
    }

    /// Moves the highlight one step down and redraws. At the bottom boundary
    /// this is a no-op: no index change, no output, no erase text.
    pub fn move_down(&mut self) -> (t: String)
        requires
            old(self).wf(),
            old(self).lines@.len() > 0,
        ensures
            final(self).wf(),
            old(self).selected_item == old(self).items@.len() - 1 ==> (*final(self) == *old(self)
                && t@ == Seq::<char>::empty()),
            old(self).selected_item < old(self).items@.len() - 1 ==> (redrawn(*old(self), *final(self), old(self).selected_item + 1)
                && t@ == erase_text_of(old(self).lines@, (old(self).item_count + old(self).rows_above) as nat)
                && final(self).selection_ok()),
    {
        if self.selected_item == self.items.len() - 1 {
            return String::new();
        }
        self.selected_item = self.selected_item + 1;
        let t = self.erase_printed_items();
        self.print_lines();
        t
    }

    /// Builds the lines, prints the first frame into the output sink, and
    /// appends the built-in navigation keys to the recognized sets; the
    /// session is then running. An empty item list is refused: it has no
    /// index to select.
    pub fn begin(&mut self) -> (r: Result<(), SelectError>)
        requires
            old(self).wf(),
            old(self).lines@.len() == 0,
        ensures
            final(self).wf(),
            old(self).items@.len() == 0 ==> (r == Err::<(), SelectError>(SelectError::EmptyItemList)
                && *final(self) == *old(self)),
            old(self).items@.len() > 0 ==> (r == Ok::<(), SelectError>(())
                && final(self).selected_item == 0
                && final(self).lines@.len() == old(self).items@.len()
                && final(self).item_count == old(self).items@.len()
                && (forall|i: int|
                    0 <= i < old(self).items@.len() ==> frame_line_ok(
                        #[trigger] final(self).lines@[i],
                        old(self).items@[i]@,
                        i == 0,
                        *old(self),
                    ))
                && final(self).out@ == old(self).out@ + frame_of(final(self).lines@)
                && final(self).up_keys@ == old(self).up_keys@.push(old(self).default_up)
                && final(self).down_keys@ == old(self).down_keys@.push(old(self).default_down)
                && final(self).items == old(self).items
                && final(self).pointer == old(self).pointer
                && final(self).not_selected_pointer == old(self).not_selected_pointer
                && final(self).default_up == old(self).default_up
                && final(self).default_down == old(self).default_down
                && final(self).move_selected_item_forward == old(self).move_selected_item_forward
                && final(self).underline_selected_item == old(self).underline_selected_item
                && final(self).rows_above == old(self).rows_above
                && final(self).selection_ok()),
    {
        if self.items.len() == 0 {
            return Err(SelectError::EmptyItemList);
        }
        self.build_lines();
        self.print_lines();
        let up = self.default_up;
        self.up_keys.push(up);
        let down = self.default_down;
        self.down_keys.push(down);
        Ok(())
    }

    /// Consumes one key event. A plain press of the confirm key terminates
    /// the session; a recognized navigation key moves the highlight one step
    /// and redraws, unless the index already sits at that edge; everything
    /// else is ignored. The returned text is what the caller must send to
    /// the terminal before the rows appended to the output sink.
    pub fn handle_event(&mut self, event: KeyEvent) -> (r: (EventOutcome, String))
        requires
            old(self).wf(),
            old(self).lines@.len() > 0,
        ensures
            final(self).wf(),
            old(self).selection_ok() ==> final(self).selection_ok(),
            is_confirm(event) ==> (r.0 == EventOutcome::Confirmed && *final(self) == *old(self)
                && r.1@ == Seq::<char>::empty()),
            (!is_confirm(event) && matches_keys(event, old(self).up_keys@)) ==> (
                if old(self).selected_item == 0 {
                    r.0 == EventOutcome::Ignored && *final(self) == *old(self)
                        && r.1@ == Seq::<char>::empty()
                } else {
                    r.0 == EventOutcome::Moved(SelectDialogKey::UpKey)
                        && redrawn(*old(self), *final(self), old(self).selected_item - 1)
                        && r.1@ == erase_text_of(old(self).lines@, (old(self).item_count + old(self).rows_above) as nat)
                        && final(self).selection_ok()
                }),
            (!is_confirm(event) && !matches_keys(event, old(self).up_keys@) && matches_keys(
                event,
                old(self).down_keys@,
            )) ==> (
                if old(self).selected_item == old(self).items@.len() - 1 {
                    r.0 == EventOutcome::Ignored && *final(self) == *old(self)
                        && r.1@ == Seq::<char>::empty()
                } else {
                    r.0 == EventOutcome::Moved(SelectDialogKey::DownKey)
                        && redrawn(*old(self), *final(self), old(self).selected_item + 1)
                        && r.1@ == erase_text_of(old(self).lines@, (old(self).item_count + old(self).rows_above) as nat)
                        && final(self).selection_ok()
                }),
            (!is_confirm(event) && !matches_keys(event, old(self).up_keys@) && !matches_keys(
                event,
                old(self).down_keys@,
            )) ==> (r.0 == EventOutcome::Ignored && *final(self) == *old(self)
                && r.1@ == Seq::<char>::empty()),
    {
        let confirm = KeyEvent { code: KeyCode::Enter, modifiers: KeyModifiers::none() };
        if event == confirm {
            return (EventOutcome::Confirmed, String::new());
        }
        if self.event_contains_key(event, &self.up_keys) {
            if self.selected_item > 0 {
                let t = self.move_up();
                (EventOutcome::Moved(SelectDialogKey::UpKey), t)
            } else {
                (EventOutcome::Ignored, String::new())
            }
        } else if self.event_contains_key(event, &self.down_keys) {
            if self.selected_item < self.items.len() - 1 {
                let t = self.move_down();
                (EventOutcome::Moved(SelectDialogKey::DownKey), t)
            } else {
                (EventOutcome::Ignored, String::new())
            }
        } else {
            (EventOutcome::Ignored, String::new())
        }
    }

    /// Sets the pointer glyph shown before the selected line.
    pub fn pointer(&mut self, pointer: char)
        ensures
            *final(self) == (Select { pointer, ..*old(self) }),
    {
        self.pointer = pointer;
    }

    /// Replaces the built-in up key. The confirm key is refused: accepting
    /// it would make confirmation unreachable.
    pub fn set_up_key(&mut self, key: KeyCode) -> (r: Result<(), SelectError>)
        ensures
            key == KeyCode::Enter ==> (r == Err::<(), SelectError>(
                SelectError::ConfirmKeyAsNavigation,
            ) && *final(self) == *old(self)),
            key != KeyCode::Enter ==> (r == Ok::<(), SelectError>(()) && *final(self) == (Select {
                default_up: key,
                ..*old(self)
            })),
    {
        if key_is_confirm(key) {
            return Err(SelectError::ConfirmKeyAsNavigation);
        }
        self.default_up = key;
        Ok(())
    }

    /// Replaces the built-in down key. The confirm key is refused.
    pub fn set_down_key(&mut self, key: KeyCode) -> (r: Result<(), SelectError>)
        ensures
            key == KeyCode::Enter ==> (r == Err::<(), SelectError>(
                SelectError::ConfirmKeyAsNavigation,
            ) && *final(self) == *old(self)),
            key != KeyCode::Enter ==> (r == Ok::<(), SelectError>(()) && *final(self) == (Select {
                default_down: key,
                ..*old(self)
            })),
    {
        if key_is_confirm(key) {
            return Err(SelectError::ConfirmKeyAsNavigation);
        }
        self.default_down = key;
        Ok(())
    }

    /// Sets the glyph shown before unselected lines.
    pub fn not_selected_pointer(&mut self, pointer: char)
        ensures
            *final(self) == (Select { not_selected_pointer: Some(pointer), ..*old(self) }),
    {
        self.not_selected_pointer = Some(pointer);
    }

    /// Widens the selected line's spacing so it is visually shifted forward.
    pub fn move_selected_item_forward(&mut self)
        ensures
            *final(self) == (Select { move_selected_item_forward: true, ..*old(self) }),
    {
        self.move_selected_item_forward = true;
    }

    /// Sets how many rows stand above the printed list (the prompt line the
    /// caller emits before it); the erase pass climbs past them. Default 1.
    pub fn rows_above(&mut self, rows: usize)
        requires
            old(self).items@.len() + rows <= usize::MAX,
        ensures
            *final(self) == (Select { rows_above: rows, ..*old(self) }),
    {
        self.rows_above = rows;
    }

    /// Color rendering is a recognized but unspecified extension point: the
    /// call changes nothing and the widget renders without color.
    pub fn color_selected_item(&mut self)
        ensures
            *final(self) == *old(self),
    {
    }

    /// Underlines the selected line's text.
    pub fn underline_selected_item(&mut self)
        ensures
            *final(self) == (Select { underline_selected_item: true, ..*old(self) }),
    {
        self.underline_selected_item = true;
    }

    /// Adds a further up key beside the built-in one. The confirm key is
    /// refused: accepting it would make confirmation unreachable.
    pub fn add_up_key(&mut self, key: KeyCode) -> (r: Result<(), SelectError>)
        ensures
            key == KeyCode::Enter ==> (r == Err::<(), SelectError>(
                SelectError::ConfirmKeyAsNavigation,
            ) && *final(self) == *old(self)),
            key != KeyCode::Enter ==> (r == Ok::<(), SelectError>(())
                && final(self).up_keys@ == old(self).up_keys@.push(key)
                && *final(self) == (Select { up_keys: final(self).up_keys, ..*old(self) })),
    {
        if key_is_confirm(key) {
            return Err(SelectError::ConfirmKeyAsNavigation);
        }
        self.up_keys.push(key);
        Ok(())
    }

    /// Adds a further down key beside the built-in one. The confirm key is
    /// refused.
    pub fn add_down_key(&mut self, key: KeyCode) -> (r: Result<(), SelectError>)
        ensures
            key == KeyCode::Enter ==> (r == Err::<(), SelectError>(
                SelectError::ConfirmKeyAsNavigation,
            ) && *final(self) == *old(self)),
            key != KeyCode::Enter ==> (r == Ok::<(), SelectError>(())
                && final(self).down_keys@ == old(self).down_keys@.push(key)
                && *final(self) == (Select { down_keys: final(self).down_keys, ..*old(self) })),
    {
        if key_is_confirm(key) {
            return Err(SelectError::ConfirmKeyAsNavigation);
        }
        self.down_keys.push(key);
        Ok(())
    }

    /// True when the event is a plain press of one of the given keys.
    fn event_contains_key(&self, event: KeyEvent, keys: &Vec<KeyCode>) -> (b: bool)
        ensures
            b == matches_keys(event, keys@),
    {
        let mut i: usize = 0;
        while i < keys.len()
            invariant
                i <= keys@.len(),
                forall|j: int|
                    0 <= j < i ==> !(event.modifiers.is_none() && event.code == #[trigger] keys@[j]),
            decreases keys@.len() - i,
        {
            let probe = KeyEvent { code: keys[i], modifiers: KeyModifiers::none() };
            if event == probe {
                return true;
            }
            i = i + 1;
        }
        false
    }
}

} // verus!
