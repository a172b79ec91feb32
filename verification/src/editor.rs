//! The raw-mode line editor's state machine.
//!
//! The editor consumes one input byte at a time. Each byte yields a new
//! editor state and an action for the driver to perform on the terminal
//! (echo, repaint, cursor movement, continuation marker), or it completes
//! the logical line, or it cancels it. The driver around the library reads
//! the bytes and paints the screen; every decision is made here.

use crate::text::chars_to_string;
use crate::tokenizer::{is_quote_char, lemma_tokens_plain_line, split_whitespace, tokens_of};
use vstd::prelude::*;

verus! {

/// The editor's parse mode.
///
/// `EscapeSeen` means an ESC byte arrived and a `[` would begin an arrow
/// sequence; `EscapeBracket` means `ESC [` arrived and a direction letter is
/// awaited; `BackslashPending` means the previous byte was a backslash whose
/// following byte is taken literally.
#[derive(Clone, Copy, PartialEq, Eq, Structural, Debug)]
pub enum EditMode {
    Normal,
    EscapeSeen,
    EscapeBracket,
    BackslashPending,
}

/// What the driver must show on the terminal for one consumed byte.
#[derive(Clone, Copy, PartialEq, Eq, Structural, Debug)]
pub enum EditAction {
    /// Nothing: the byte was consumed silently.
    Ignore,
    /// Echo the character; the buffer did not change.
    Echo(char),
    /// The character was inserted at the end of the buffer: echo it.
    Insert(char),
    /// The character was inserted before the end: echo it, then repaint
    /// the line from the buffer.
    InsertRepaint(char),
    /// The character before the cursor was removed: repaint the line.
    DeleteRepaint,
    /// Move the cursor one column left.
    MoveLeft,
    /// Move the cursor one column right.
    MoveRight,
    /// The logical line continues: show the continuation marker.
    Continue,
}

/// The outcome of feeding one byte to the editor.
pub enum StepResult {
    /// The line is still being edited; the driver performs the action.
    Pending(EditAction),
    /// The logical line is complete; the buffer has been reset.
    Done(String),
    /// The line was cancelled by the interrupt byte; the buffer is empty.
    Cancelled,
}

/// The outcome as seen in contracts.
pub enum StepView {
    Pending(EditAction),
    Done(Seq<char>),
    Cancelled,
}

impl View for StepResult {
    type V = StepView;

    open spec fn view(&self) -> StepView {
        match self {
            StepResult::Pending(a) => StepView::Pending(*a),
            StepResult::Done(s) => StepView::Done(s@),
            StepResult::Cancelled => StepView::Cancelled,
        }
    }
}

/// The editor's state as spoken of in contracts: the line being edited,
/// the cursor position, the parse mode, and the open quote, if any.
pub struct EditorView {
    pub buf: Seq<char>,
    pub pos: int,
    pub mode: EditMode,
    pub quote: Option<char>,
}

/// The cursor never leaves the buffer: `0 <= pos <= buf.len()`.
pub open spec fn editor_wf(v: EditorView) -> bool {
    0 <= v.pos <= v.buf.len()
}

/// An empty buffer in `Normal` mode with no open quote.
pub open spec fn editor_init() -> EditorView {
    EditorView { buf: Seq::empty(), pos: 0, mode: EditMode::Normal, quote: None }
}

/// Inserting one character at the cursor; the mode returns to `Normal`.
pub open spec fn insert_at(v: EditorView, c: char) -> EditorView {
    EditorView { buf: v.buf.insert(v.pos, c), pos: v.pos + 1, mode: EditMode::Normal, ..v }
}

/// The interrupt byte (Ctrl-C).
pub open spec fn is_interrupt(b: u8) -> bool {
    b == 3u8
}

/// The state after one byte arriving in `Normal` mode.
pub open spec fn normal_state(v: EditorView, b: u8) -> EditorView {
    let c = b as char;
    if is_interrupt(b) {
        editor_init()
    } else if b == 0x1bu8 {  // ESC
        EditorView { mode: EditMode::EscapeSeen, ..v }
    } else if b == 0x7fu8 {  // backspace
        if v.pos > 0 {
            EditorView { buf: v.buf.remove(v.pos - 1), pos: v.pos - 1, ..v }
        } else {
            v
        }
    } else if c == '\\' {
        EditorView { mode: EditMode::BackslashPending, ..v }
    } else if c == '\n' {
        if v.quote is Some {
            v
        } else {
            editor_init()
        }
    } else if is_quote_char(c) {
        let w = insert_at(v, c);
        match v.quote {
            None => EditorView { quote: Some(c), ..w },
            Some(q) => if q == c {
                EditorView { quote: None, ..w }
            } else {
                w
            },
        }
    } else {
        insert_at(v, c)
    }
}

/// The outcome of one byte arriving in `Normal` mode.
pub open spec fn normal_outcome(v: EditorView, b: u8) -> StepView {
    let c = b as char;
    if is_interrupt(b) {
        StepView::Cancelled
    } else if b == 0x1bu8 {
        StepView::Pending(EditAction::Ignore)
    } else if b == 0x7fu8 {
        if v.pos > 0 {
            StepView::Pending(EditAction::DeleteRepaint)
        } else {
            StepView::Pending(EditAction::Ignore)
        }
    } else if c == '\\' {
        StepView::Pending(EditAction::Echo('\\'))
    } else if c == '\n' {
        if v.quote is Some {
            StepView::Pending(EditAction::Continue)
        } else {
            StepView::Done(v.buf)
        }
    } else {
        if v.pos < v.buf.len() {
            StepView::Pending(EditAction::InsertRepaint(c))
        } else {
            StepView::Pending(EditAction::Insert(c))
        }
    }
}

/// The state after one byte, in any mode.
pub open spec fn next_state(v: EditorView, b: u8) -> EditorView {
    let c = b as char;
    match v.mode {
        EditMode::Normal => normal_state(v, b),
        EditMode::BackslashPending => if c == '\n' {
            EditorView { mode: EditMode::Normal, ..v }
        } else {
            insert_at(v, c)
        },
        EditMode::EscapeSeen => if c == '[' {
            EditorView { mode: EditMode::EscapeBracket, ..v }
        } else {
            normal_state(EditorView { mode: EditMode::Normal, ..v }, b)
        },
        EditMode::EscapeBracket => if c == 'D' {
            EditorView {
                mode: EditMode::Normal,
                pos: if v.pos > 0 {
                    v.pos - 1
                } else {
                    v.pos
                },
                ..v
            }
        } else if c == 'C' {
            EditorView {
                mode: EditMode::Normal,
                pos: if v.pos < v.buf.len() {
                    v.pos + 1
                } else {
                    v.pos
                },
                ..v
            }
        } else {
            normal_state(EditorView { mode: EditMode::Normal, ..v }, b)
        },
    }
}

/// The outcome of one byte, in any mode.
pub open spec fn step_outcome(v: EditorView, b: u8) -> StepView {
    let c = b as char;
    match v.mode {
        EditMode::Normal => normal_outcome(v, b),
        EditMode::BackslashPending => if c == '\n' {
            StepView::Pending(EditAction::Continue)
        } else {
            if v.pos < v.buf.len() {
                StepView::Pending(EditAction::InsertRepaint(c))
            } else {
                StepView::Pending(EditAction::Insert(c))
            }
        },
        EditMode::EscapeSeen => if c == '[' {
            StepView::Pending(EditAction::Ignore)
        } else {
            normal_outcome(EditorView { mode: EditMode::Normal, ..v }, b)
        },
        EditMode::EscapeBracket => if c == 'D' {
            if v.pos > 0 {
                StepView::Pending(EditAction::MoveLeft)
            } else {
                StepView::Pending(EditAction::Ignore)
            }
        } else if c == 'C' {
            if v.pos < v.buf.len() {
                StepView::Pending(EditAction::MoveRight)
            } else {
                StepView::Pending(EditAction::Ignore)
            }
        } else {
            normal_outcome(EditorView { mode: EditMode::Normal, ..v }, b)
        },
    }
}

/// The editor state after a whole sequence of input bytes.
pub open spec fn run_bytes(v: EditorView, bs: Seq<u8>) -> EditorView
    decreases bs.len(),
{
    if bs.len() == 0 {
        v
    } else {
        run_bytes(next_state(v, bs[0]), bs.drop_first())
    }
}

/// One byte keeps the cursor within the buffer.
pub proof fn lemma_step_wf(v: EditorView, b: u8)
    requires
        editor_wf(v),
    ensures
        editor_wf(next_state(v, b)),
{
}

/// After any sequence of insertions, deletions and cursor movements —
/// any input bytes at all — the cursor stays within the buffer:
/// `0 <= pos <= buf.len()`.
pub proof fn lemma_cursor_invariant(v: EditorView, bs: Seq<u8>)
    requires
        editor_wf(v),
    ensures
        editor_wf(run_bytes(v, bs)),
    decreases bs.len(),
{
    if bs.len() > 0 {
        lemma_step_wf(v, bs[0]);
        lemma_cursor_invariant(next_state(v, bs[0]), bs.drop_first());
    }
}

/// A left arrow with the cursor at the start, and a right arrow with the
/// cursor at the end, change neither the buffer nor the cursor.
pub proof fn lemma_arrow_noop(v: EditorView)
    requires
        editor_wf(v),
        v.mode == EditMode::EscapeBracket,
    ensures
        v.pos == 0 ==> next_state(v, 0x44u8).buf == v.buf && next_state(v, 0x44u8).pos == v.pos,
        v.pos == v.buf.len() ==> next_state(v, 0x43u8).buf == v.buf && next_state(v, 0x43u8).pos
            == v.pos,
{
}

/// The interrupt byte cancels the line being edited: the outcome is
/// `Cancelled` and the editor is freshly reset with an empty buffer, ready
/// for the next line. The one exception is a pending backslash escape, in
/// which case the byte is itself escaped and inserted literally.
pub proof fn lemma_interrupt_cancels(v: EditorView, b: u8)
    requires
        editor_wf(v),
        is_interrupt(b),
        v.mode != EditMode::BackslashPending,
    ensures
        step_outcome(v, b) == StepView::Cancelled,
        next_state(v, b) == editor_init(),
        next_state(v, b).buf.len() == 0,
{
}

/// A byte the editor inserts exactly as typed: it plays no editing role
/// and opens no quote and no escape.
pub open spec fn plain_byte(b: u8) -> bool {
    let c = b as char;
    &&& !is_interrupt(b)
    &&& b != 0x1bu8
    &&& b != 0x7fu8
    &&& c != '\\'
    &&& c != '\n'
    &&& !is_quote_char(c)
}

/// Input bytes as the characters they insert.
pub open spec fn chars_of(bs: Seq<u8>) -> Seq<char> {
    bs.map_values(|b: u8| b as char)
}

proof fn lemma_run_plain_bytes(v: EditorView, bs: Seq<u8>)
    requires
        editor_wf(v),
        v.mode == EditMode::Normal,
        v.quote is None,
        v.pos == v.buf.len(),
        forall|i: int| 0 <= i < bs.len() ==> plain_byte(#[trigger] bs[i]),
    ensures
        ({
            let w = run_bytes(v, bs);
            &&& w.buf == v.buf + chars_of(bs)
            &&& w.pos == w.buf.len()
            &&& w.mode == EditMode::Normal
            &&& w.quote is None
        }),
    decreases bs.len(),
{
    if bs.len() == 0 {
        assert(v.buf + chars_of(bs) =~= v.buf);
    } else {
        let b = bs[0];
        assert(plain_byte(b));
        assert(v.buf.insert(v.pos, b as char) =~= v.buf.push(b as char));
        assert forall|i: int| 0 <= i < bs.drop_first().len() implies plain_byte(
            #[trigger] bs.drop_first()[i],
        ) by {
            assert(bs.drop_first()[i] == bs[i + 1]);
        }
        lemma_run_plain_bytes(next_state(v, b), bs.drop_first());
        assert(chars_of(bs).drop_first() =~= chars_of(bs.drop_first()));
        assert(v.buf.push(b as char) + chars_of(bs.drop_first()) =~= v.buf + chars_of(bs));
    }
}

/// Typing only plain bytes — no quotes, no backslashes, no editing bytes —
/// and ending with newline completes the logical line exactly as typed,
/// resets the editor, and tokenizing that output is the same as splitting
/// the typed text on whitespace.
pub proof fn lemma_plain_typing_tokenizes_as_split(bs: Seq<u8>)
    requires
        forall|i: int| 0 <= i < bs.len() ==> plain_byte(#[trigger] bs[i]),
    ensures
        ({
            let v = run_bytes(editor_init(), bs);
            &&& step_outcome(v, 0x0au8) == StepView::Done(chars_of(bs))
            &&& next_state(v, 0x0au8) == editor_init()
            &&& tokens_of(chars_of(bs)) == split_whitespace(chars_of(bs))
        }),
{
    lemma_run_plain_bytes(editor_init(), bs);
    assert(Seq::<char>::empty() + chars_of(bs) =~= chars_of(bs));
    assert forall|i: int| 0 <= i < chars_of(bs).len() implies crate::tokenizer::plain_char(
        #[trigger] chars_of(bs)[i],
    ) by {
        assert(plain_byte(bs[i]));
    }
    lemma_tokens_plain_line(chars_of(bs));
}

/// The line editor: an editable buffer, a cursor, and the parse state.
pub struct LineEditor {
    buf: Vec<char>,
    pos: usize,
    mode: EditMode,
    quote: Option<char>,
}

impl View for LineEditor {
    type V = EditorView;

    closed spec fn view(&self) -> EditorView {
        EditorView { buf: self.buf@, pos: self.pos as int, mode: self.mode, quote: self.quote }
    }
}

impl LineEditor {
    /// The cursor stays within the buffer.
    pub open spec fn wf(&self) -> bool {
        editor_wf(self@)
    }

    /// A fresh editor: empty buffer, cursor at zero, `Normal` mode.
    pub fn new() -> (r: Self)
        ensures
            r@ == editor_init(),
            r.wf(),
    {
        LineEditor { buf: Vec::new(), pos: 0, mode: EditMode::Normal, quote: None }
    }

    /// The line being edited.
    pub fn contents(&self) -> (r: String)
        ensures
            r@ == self@.buf,
    {
        chars_to_string(&self.buf)
    }

    /// The cursor position.
    pub fn cursor(&self) -> (r: usize)
        ensures
            r as int == self@.pos,
    {
        self.pos
    }

    fn insert_char(&mut self, c: char)
        requires
            old(self).wf(),
        ensures
            final(self)@ == insert_at(old(self)@, c),
            final(self).wf(),
    {
        self.buf.insert(self.pos, c);
        let _n: usize = self.buf.len();
        self.pos = self.pos + 1;
        self.mode = EditMode::Normal;
    }

    fn reset(&mut self)
        ensures
            final(self)@ == editor_init(),
    {
        self.buf = Vec::new();
        self.pos = 0;
        self.mode = EditMode::Normal;
        self.quote = None;
        proof {
            assert(self@.buf =~= editor_init().buf);
        }
    }

    fn normal_step(&mut self, b: u8) -> (r: StepResult)
        requires
            old(self).wf(),
            old(self)@.mode == EditMode::Normal,
        ensures
            final(self).wf(),
            final(self)@ == normal_state(old(self)@, b),
            r@ == normal_outcome(old(self)@, b),
    {
        let c = b as char;
        if b == 3u8 {
            self.reset();
            StepResult::Cancelled
        } else if b == 0x1bu8 {
            self.mode = EditMode::EscapeSeen;
            StepResult::Pending(EditAction::Ignore)
        } else if b == 0x7fu8 {
            if self.pos > 0 {
                self.buf.remove(self.pos - 1);
                self.pos = self.pos - 1;
                StepResult::Pending(EditAction::DeleteRepaint)
            } else {
                StepResult::Pending(EditAction::Ignore)
            }
        } else if c == '\\' {
            self.mode = EditMode::BackslashPending;
            StepResult::Pending(EditAction::Echo('\\'))
        } else if c == '\n' {
            if self.quote.is_some() {
                StepResult::Pending(EditAction::Continue)
            } else {
                let line = chars_to_string(&self.buf);
                self.reset();
                StepResult::Done(line)
            }
        } else if c == '"' || c == '\'' || c == '`' {
            let mid = self.pos < self.buf.len();
            self.insert_char(c);
            match self.quote {
                None => {
                    self.quote = Some(c);
                },
                Some(q) => {
                    if q == c {
                        self.quote = None;
                    }
                },
            }
            if mid {
                StepResult::Pending(EditAction::InsertRepaint(c))
            } else {
                StepResult::Pending(EditAction::Insert(c))
            }
        } else {
            let mid = self.pos < self.buf.len();
            self.insert_char(c);
            if mid {
                StepResult::Pending(EditAction::InsertRepaint(c))
            } else {
                StepResult::Pending(EditAction::Insert(c))
            }
        }
    }

    /// Feeds one input byte to the editor.
    ///
    /// The new state is `next_state` of the old one, and the result is
    /// `step_outcome` of the old one: an action for the driver, the
    /// completed line, or a cancellation. Completion and cancellation
    /// leave the editor freshly reset.
    pub fn step(&mut self, b: u8) -> (r: StepResult)
        requires
            old(self).wf(),
        ensures
            final(self).wf(),
            final(self)@ == next_state(old(self)@, b),
            r@ == step_outcome(old(self)@, b),
    {
        let c = b as char;
        match self.mode {
            EditMode::Normal => self.normal_step(b),
            EditMode::BackslashPending => {
                if c == '\n' {
                    self.mode = EditMode::Normal;
                    StepResult::Pending(EditAction::Continue)
                } else {
                    let mid = self.pos < self.buf.len();
                    self.insert_char(c);
                    if mid {
                        StepResult::Pending(EditAction::InsertRepaint(c))
                    } else {
                        StepResult::Pending(EditAction::Insert(c))
                    }
                }
            },
            EditMode::EscapeSeen => {
                if c == '[' {
                    self.mode = EditMode::EscapeBracket;
                    StepResult::Pending(EditAction::Ignore)
                } else {
                    self.mode = EditMode::Normal;
                    self.normal_step(b)
                }
            },
            EditMode::EscapeBracket => {
                if c == 'D' {
                    self.mode = EditMode::Normal;
                    if self.pos > 0 {
                        self.pos = self.pos - 1;
                        StepResult::Pending(EditAction::MoveLeft)
                    } else {
                        StepResult::Pending(EditAction::Ignore)
                    }
                } else if c == 'C' {
                    self.mode = EditMode::Normal;
                    if self.pos < self.buf.len() {
                        self.pos = self.pos + 1;
                        StepResult::Pending(EditAction::MoveRight)
                    } else {
                        StepResult::Pending(EditAction::Ignore)
                    }
                } else {
                    self.mode = EditMode::Normal;
                    self.normal_step(b)
                }
            },
        }
    }
}

} // verus!
