//! Computing the terminal output: the prompt and the escape sequences
//! emitted while a line is edited.
//!
//! The driver prints these strings verbatim; which one to print for a
//! given input byte is decided by the editor's step action.

use crate::editor::EditAction;
use crate::text::push_char;
use vstd::prelude::*;
use vstd::string::StringExecFns;

verus! {

/// The character of one decimal digit.
pub open spec fn dec_digit(d: nat) -> char {
    if d == 0 {
        '0'
    } else if d == 1 {
        '1'
    } else if d == 2 {
        '2'
    } else if d == 3 {
        '3'
    } else if d == 4 {
        '4'
    } else if d == 5 {
        '5'
    } else if d == 6 {
        '6'
    } else if d == 7 {
        '7'
    } else if d == 8 {
        '8'
    } else {
        '9'
    }
}

/// The decimal digits of a number, most significant first.
pub open spec fn dec_rep(n: nat) -> Seq<char>
    decreases n,
{
    if n < 10 {
        seq![dec_digit(n)]
    } else {
        dec_rep(n / 10).push(dec_digit(n % 10))
    }
}

fn digit_char(d: usize) -> (c: char)
    requires
        d < 10,
    ensures
        c == dec_digit(d as nat),
{
    if d == 0 {
        '0'
    } else if d == 1 {
        '1'
    } else if d == 2 {
        '2'
    } else if d == 3 {
        '3'
    } else if d == 4 {
        '4'
    } else if d == 5 {
        '5'
    } else if d == 6 {
        '6'
    } else if d == 7 {
        '7'
    } else if d == 8 {
        '8'
    } else {
        '9'
    }
}

/// Writes a number in decimal.
pub fn decimal_string(n: usize) -> (s: String)
    ensures
        s@ == dec_rep(n as nat),
    decreases n,
{
    if n < 10 {
        let mut s = String::new();
        push_char(&mut s, digit_char(n));
        proof {
            assert(s@ =~= seq![dec_digit(n as nat)]);
        }
        s
    } else {
        let mut s = decimal_string(n / 10);
        push_char(&mut s, digit_char(n % 10));
        s
    }
}

/// The sequence that moves the cursor some columns left: `ESC [ n D`.
pub open spec fn cursor_left_seq(n: nat) -> Seq<char> {
    seq!['\x1b', '['] + dec_rep(n) + seq!['D']
}

/// The sequence that moves the cursor some columns right: `ESC [ n C`.
pub open spec fn cursor_right_seq(n: nat) -> Seq<char> {
    seq!['\x1b', '['] + dec_rep(n) + seq!['C']
}

/// Writes the cursor-left sequence.
pub fn cursor_left_cmd(n: usize) -> (r: String)
    ensures
        r@ == cursor_left_seq(n as nat),
{
    let mut s = String::new();
    push_char(&mut s, '\x1b');
    push_char(&mut s, '[');
    let d = decimal_string(n);
    s.append(d.as_str());
    push_char(&mut s, 'D');
    proof {
        assert(s@ =~= cursor_left_seq(n as nat));
    }
    s
}

/// Writes the cursor-right sequence.
pub fn cursor_right_cmd(n: usize) -> (r: String)
    ensures
        r@ == cursor_right_seq(n as nat),
{
    let mut s = String::new();
    push_char(&mut s, '\x1b');
    push_char(&mut s, '[');
    let d = decimal_string(n);
    s.append(d.as_str());
    push_char(&mut s, 'C');
    proof {
        assert(s@ =~= cursor_right_seq(n as nat));
    }
    s
}

/// The repaint after a mid-line edit: move left to the start of the text,
/// clear the rest of the screen line, redraw the buffer, then move the
/// cursor left again to its column — the last step only when the column
/// lies within the text.
pub open spec fn repaint_seq(line: Seq<char>, pos: int) -> Seq<char> {
    let head = cursor_left_seq(pos as nat) + seq!['\x1b', '[', 'K'] + line;
    if pos <= line.len() {
        head + cursor_left_seq((line.len() - pos) as nat)
    } else {
        head
    }
}

/// Writes the repaint sequence for a buffer and a cursor column.
pub fn repaint_cmd(line: &str, pos: usize) -> (r: String)
    ensures
        r@ == repaint_seq(line@, pos as int),
{
    let mut s = cursor_left_cmd(pos);
    push_char(&mut s, '\x1b');
    push_char(&mut s, '[');
    push_char(&mut s, 'K');
    s.append(line);
    let n = line.unicode_len();
    if pos <= n {
        let tail = cursor_left_cmd(n - pos);
        s.append(tail.as_str());
    }
    proof {
        assert(s@ =~= repaint_seq(line@, pos as int));
    }
    s
}

/// The prompt shown before each line: the working directory in angle
/// brackets, then an arrow.
pub open spec fn prompt_seq(cwd: Seq<char>) -> Seq<char> {
    "<"@ + cwd + "> => "@
}

/// Writes the prompt for a working directory.
pub fn prompt_for(cwd: &str) -> (r: String)
    ensures
        r@ == prompt_seq(cwd@),
{
    let mut s = String::from_str("<");
    s.append(cwd);
    s.append("> => ");
    proof {
        assert(s@ =~= prompt_seq(cwd@));
    }
    s
}

/// The text printed for one editing action, given the buffer and the
/// cursor as they stand after the step. A deletion repaints from the
/// column the cursor had before it moved back, as the editor painted the
/// line before deciding the new column.
pub open spec fn render_seq(a: EditAction, line: Seq<char>, pos: int) -> Seq<char> {
    match a {
        EditAction::Ignore => Seq::empty(),
        EditAction::Echo(c) => seq![c],
        EditAction::Insert(c) => seq![c],
        EditAction::InsertRepaint(c) => seq![c] + repaint_seq(line, pos),
        EditAction::DeleteRepaint => repaint_seq(line, pos + 1),
        EditAction::MoveLeft => cursor_left_seq(1),
        EditAction::MoveRight => cursor_right_seq(1),
        EditAction::Continue => "\n> "@,
    }
}

/// Writes the text the driver prints for one editing action.
pub fn render_action(a: &EditAction, line: &str, pos: usize) -> (r: String)
    requires
        pos < usize::MAX,
    ensures
        r@ == render_seq(*a, line@, pos as int),
{
    match a {
        EditAction::Ignore => String::new(),
        EditAction::Echo(c) => {
            let mut s = String::new();
            push_char(&mut s, *c);
            proof {
                assert(s@ =~= seq![*c]);
            }
            s
        },
        EditAction::Insert(c) => {
            let mut s = String::new();
            push_char(&mut s, *c);
            proof {
                assert(s@ =~= seq![*c]);
            }
            s
        },
        EditAction::InsertRepaint(c) => {
            let mut s = String::new();
            push_char(&mut s, *c);
            let rp = repaint_cmd(line, pos);
            s.append(rp.as_str());
            proof {
                assert(s@ =~= seq![*c] + repaint_seq(line@, pos as int));
            }
            s
        },
        EditAction::DeleteRepaint => repaint_cmd(line, pos + 1),
        EditAction::MoveLeft => cursor_left_cmd(1),
        EditAction::MoveRight => cursor_right_cmd(1),
        EditAction::Continue => String::from_str("\n> "),
    }
}

} // verus!
