//! The raw-mode line editor. It owns a one-line text buffer and a cursor
//! record, and after every mutation re-queries the terminal — the source of
//! truth for cursor position — through the [`CursorPos`] oracle. The cursor
//! column always stays within `[1, buffer length + 1]`.

use vstd::prelude::*;
use crate::esc::{
    clear_line_escape, goto_escape, left_escape, right_escape,
};
use crate::input::{Input, InputError, KeyEvent, TermError};
use crate::strutil::{blank_chars, chars_to_string, is_blank, is_printable_ascii, is_space_char, str_to_chars};

verus! {

/// The terminal oracle: raw control-sequence output and the authoritative
/// 1-based cursor position. The launcher's caller supplies the real
/// terminal; tests supply a scripted fake.
pub trait CursorPos {
    /// Writes a control sequence or text to the terminal.
    fn write_term(&mut self, s: &str) -> (r: Result<(), TermError>);

    /// Queries the terminal's reported cursor position as `(column, row)`.
    fn cursor_position(&mut self) -> (r: Result<(u16, u16), TermError>);
}

/// A 1-based terminal position.
#[derive(PartialEq, Eq, Structural, Clone, Copy, Debug)]
pub struct Position {
    pub x: u16,
    pub y: u16,
}

/// The line editor's state: the text buffer and the cursor record that is
/// kept consistent with the terminal after every operation.
#[derive(Debug)]
pub struct TermWriter {
    pub input: Vec<char>,
    pub cursor_pos: Position,
}

impl TermWriter {
    /// The editor's invariant: the cursor column stays within
    /// `[1, buffer length + 1]` and both coordinates are 1-based.
    pub open spec fn wf(self) -> bool {
        &&& 1 <= self.cursor_pos.x
        &&& self.cursor_pos.x <= self.input@.len() + 1
        &&& 1 <= self.cursor_pos.y
    }

    /// Opens an editing session over `input`, with the cursor at the first
    /// column of the editing row.
    pub fn new(input: String) -> (r: TermWriter)
        ensures
            r.input@ == input@,
            r.cursor_pos.x == 1,
            r.cursor_pos.y == 3,
            r.wf(),
    {
        TermWriter { input: str_to_chars(input.as_str()), cursor_pos: Position { x: 1, y: 3 } }
    }

    /// Consumes the session. A blank buffer — empty or whitespace-only —
    /// fails with the empty-input error and with no other; any other buffer
    /// is returned verbatim as text.
    pub fn enter(self) -> (r: Result<Input, InputError>)
        ensures
            is_blank(self.input@) ==> r == Err::<Input, InputError>(InputError::EmptyString),
            !is_blank(self.input@) ==> (r matches Ok(i) && i matches Input::Text(t) && t@
                == self.input@),
    {
        if blank_chars(&self.input) {
            Err(InputError::EmptyString)
        } else {
            Ok(Input::Text(chars_to_string(&self.input)))
        }
    }

    /// Emits a cursor-left sequence unconditionally, then adopts the column
    /// the terminal reports; the buffer is untouched. Fails only when the
    /// terminal write or query fails, leaving the editor as it was.
    pub fn left<C: CursorPos>(&mut self, stdout: &mut C) -> (r: Result<(), InputError>)
        requires
            old(self).wf(),
        ensures
            final(self).wf(),
            final(self).input@ == old(self).input@,
            final(self).cursor_pos.y == old(self).cursor_pos.y,
            r is Err ==> *final(self) == *old(self),
            r matches Err(e) ==> e matches InputError::Io(_),
    {
        let e = left_escape();
        match stdout.write_term(e.as_str()) {
            Err(err) => {
                return Err(InputError::Io(err.message));
            },
            Ok(()) => {},
        }
        match stdout.cursor_position() {
            Err(err) => Err(InputError::Io(err.message)),
            Ok((col, _row)) => {
                self.cursor_pos.x = clamp_col(col, self.input.len());
                Ok(())
            },
        }
    }

    /// Emits a cursor-right sequence and adopts the reported column, but
    /// only while the cursor is not already past the end of the text.
    pub fn right<C: CursorPos>(&mut self, stdout: &mut C) -> (r: Result<(), InputError>)
        requires
            old(self).wf(),
        ensures
            final(self).wf(),
            final(self).input@ == old(self).input@,
            final(self).cursor_pos.y == old(self).cursor_pos.y,
            old(self).cursor_pos.x > old(self).input@.len() ==> (r is Ok && *final(self) == *old(
                self,
            )),
            r is Err ==> *final(self) == *old(self),
            r matches Err(e) ==> e matches InputError::Io(_),
    {
        if (self.cursor_pos.x as usize) <= self.input.len() {
            let e = right_escape();
            match stdout.write_term(e.as_str()) {
                Err(err) => {
                    return Err(InputError::Io(err.message));
                },
                Ok(()) => {},
            }
            match stdout.cursor_position() {
                Err(err) => Err(InputError::Io(err.message)),
                Ok((col, _row)) => {
                    self.cursor_pos.x = clamp_col(col, self.input.len());
                    Ok(())
                },
            }
        } else {
            Ok(())
        }
    }

    /// A no-op at column one; otherwise removes the character left of the
    /// cursor, re-queries the row, redraws the whole line from column one,
    /// and repositions the cursor one column left of where it was.
    pub fn backspace<C: CursorPos>(&mut self, stdout: &mut C) -> (r: Result<(), InputError>)
        requires
            old(self).wf(),
        ensures
            final(self).wf(),
            old(self).cursor_pos.x == 1 ==> (r is Ok && *final(self) == *old(self)),
            (old(self).cursor_pos.x > 1 && r is Ok) ==> {
                &&& final(self).input@ == old(self).input@.remove(old(self).cursor_pos.x - 2)
                &&& final(self).cursor_pos.x == old(self).cursor_pos.x - 1
            },
            r is Err ==> (old(self).cursor_pos.x > 1 && final(self).input@
                == old(self).input@.remove(old(self).cursor_pos.x - 2) && final(self).cursor_pos.x
                == old(self).cursor_pos.x - 1),
            r matches Err(e) ==> e matches InputError::Io(_),
    {
        if self.cursor_pos.x > 1 {
            self.cursor_pos.x = self.cursor_pos.x - 1;
            let idx: usize = (self.cursor_pos.x - 1) as usize;
            self.input.remove(idx);
            match stdout.cursor_position() {
                Err(err) => {
                    return Err(InputError::Io(err.message));
                },
                Ok((_col, row)) => {
                    self.cursor_pos.y = clamp_row(row);
                },
            }
            let g1 = goto_escape(1, self.cursor_pos.y);
            match stdout.write_term(g1.as_str()) {
                Err(err) => {
                    return Err(InputError::Io(err.message));
                },
                Ok(()) => {},
            }
            let cl = clear_line_escape();
            match stdout.write_term(cl.as_str()) {
                Err(err) => {
                    return Err(InputError::Io(err.message));
                },
                Ok(()) => {},
            }
            let text = chars_to_string(&self.input);
            match stdout.write_term(text.as_str()) {
                Err(err) => {
                    return Err(InputError::Io(err.message));
                },
                Ok(()) => {},
            }
            let g2 = goto_escape(self.cursor_pos.x, self.cursor_pos.y);
            match stdout.write_term(g2.as_str()) {
                Err(err) => {
                    return Err(InputError::Io(err.message));
                },
                Ok(()) => {},
            }
        }
        Ok(())
    }

    /// Inserts `c` at the cursor. A character outside the single-byte range
    /// is rejected with the not-single-byte error and the editor is left
    /// unchanged; otherwise the character enters the buffer left of the
    /// cursor, the line is redrawn, and the terminal-reported column is
    /// adopted.
    pub fn char<C: CursorPos>(&mut self, c: char, stdout: &mut C) -> (r: Result<(), InputError>)
        requires
            old(self).wf(),
        ensures
            final(self).wf(),
            c as u32 >= 0x80 ==> (r == Err::<(), InputError>(InputError::NotSingleByte(c))
                && *final(self) == *old(self)),
            r is Ok ==> ((c as u32) < 0x80 && final(self).input@ == old(self).input@.insert(
                old(self).cursor_pos.x - 1,
                c,
            )),
            r is Err ==> (final(self).input@ == old(self).input@ || final(self).input@
                == old(self).input@.insert(old(self).cursor_pos.x - 1, c)),
            r matches Err(e) ==> (e == InputError::NotSingleByte(c) || e matches InputError::Io(
                _,
            )),
    {
        if c as u32 >= 128 {
            return Err(InputError::NotSingleByte(c));
        }
        let idx: usize = (self.cursor_pos.x - 1) as usize;
        self.input.insert(idx, c);
        match stdout.cursor_position() {
            Err(err) => {
                return Err(InputError::Io(err.message));
            },
            Ok((_col, row)) => {
                self.cursor_pos.y = clamp_row(row);
            },
        }
        let g1 = goto_escape(1, self.cursor_pos.y);
        match stdout.write_term(g1.as_str()) {
            Err(err) => {
                return Err(InputError::Io(err.message));
            },
            Ok(()) => {},
        }
        let cl = clear_line_escape();
        match stdout.write_term(cl.as_str()) {
            Err(err) => {
                return Err(InputError::Io(err.message));
            },
            Ok(()) => {},
        }
        let text = chars_to_string(&self.input);
        match stdout.write_term(text.as_str()) {
            Err(err) => {
                return Err(InputError::Io(err.message));
            },
            Ok(()) => {},
        }
        let right_of_insert: u16 = if self.cursor_pos.x < 65535 {
            self.cursor_pos.x + 1
        } else {
            self.cursor_pos.x
        };
        let g2 = goto_escape(right_of_insert, self.cursor_pos.y);
        match stdout.write_term(g2.as_str()) {
            Err(err) => {
                return Err(InputError::Io(err.message));
            },
            Ok(()) => {},
        }
        match stdout.cursor_position() {
            Err(err) => Err(InputError::Io(err.message)),
            Ok((col, _row)) => {
                self.cursor_pos.x = clamp_col(col, self.input.len());
                Ok(())
            },
        }
    }
}

/// Keeps an adopted column within the editor's invariant: at least one, at
/// most one past the end of the buffer. A column the terminal reports
/// in-range is adopted verbatim.
fn clamp_col(col: u16, len: usize) -> (r: u16)
    ensures
        1 <= r,
        r <= len + 1,
        (1 <= col && col <= len + 1) ==> r == col,
{
    let cap: u16 = if len >= 65535 {
        65535
    } else {
        (len as u16) + 1
    };
    if col < 1 {
        1
    } else if col > cap {
        cap
    } else {
        col
    }
}

/// Keeps an adopted row 1-based.
fn clamp_row(row: u16) -> (r: u16)
    ensures
        1 <= r,
        1 <= row ==> r == row,
{
    if row < 1 {
        1
    } else {
        row
    }
}

/// What one key event did to an editing session: the session continues, or
/// it finished with the editor's result.
pub enum EditStep {
    Editing(TermWriter),
    Done(Result<Input, InputError>),
}

/// Applies one key event to an editing session: a typed character inserts,
/// backspace erases, the arrows move, enter finalizes, escape cancels, and
/// any other key is ignored. A validation failure or a terminal error ends
/// the session with that error.
pub fn edit_step<C: CursorPos>(tw: TermWriter, key: KeyEvent, stdout: &mut C) -> (r: EditStep)
    requires
        tw.wf(),
    ensures
        (r matches EditStep::Editing(t) ==> t.wf()),
        key == KeyEvent::Esc ==> r == EditStep::Done(Ok(Input::Exit)),
        (key == KeyEvent::Char('\n') && is_blank(tw.input@)) ==> r == EditStep::Done(
            Err(InputError::EmptyString),
        ),
        (key == KeyEvent::Char('\n') && !is_blank(tw.input@)) ==> (r matches EditStep::Done(res)
            && res matches Ok(i) && i matches Input::Text(t) && t@ == tw.input@),
        key matches KeyEvent::Char(c) ==> ((c != '\n' && c as u32 >= 0x80) ==> r
            == EditStep::Done(Err(InputError::NotSingleByte(c)))),
        key matches KeyEvent::Char(c) ==> ((c != '\n' && (c as u32) < 0x80) ==> (r
            matches EditStep::Editing(t) ==> t.input@ == tw.input@.insert(
            tw.cursor_pos.x - 1,
            c,
        ))),
        key matches KeyEvent::Char(c) ==> ((c != '\n') ==> (r matches EditStep::Done(res) ==> (res
            matches Err(e) && (e == InputError::NotSingleByte(c) || e matches InputError::Io(
            _,
        ))))),
        (key == KeyEvent::Backspace && tw.cursor_pos.x == 1) ==> r == EditStep::Editing(tw),
        key == KeyEvent::Backspace ==> (r matches EditStep::Editing(t) ==> ((tw.cursor_pos.x > 1
            ==> t.input@ == tw.input@.remove(tw.cursor_pos.x - 2) && t.cursor_pos.x
            == tw.cursor_pos.x - 1) && (tw.cursor_pos.x == 1 ==> t == tw))),
        (key == KeyEvent::Left || key == KeyEvent::Right) ==> (r matches EditStep::Editing(t) ==> t.input@
            == tw.input@),
        (key == KeyEvent::Left || key == KeyEvent::Right || key == KeyEvent::Backspace) ==> (r
            matches EditStep::Done(res) ==> (res matches Err(e) && e matches InputError::Io(_))),
        key == KeyEvent::Unknown ==> r == EditStep::Editing(tw),
{
    let mut tw = tw;
    match key {
        KeyEvent::Esc => EditStep::Done(Ok(Input::Exit)),
        KeyEvent::Char(c) => {
            if c == '\n' {
                EditStep::Done(tw.enter())
            } else {
                match tw.char(c, stdout) {
                    Ok(()) => EditStep::Editing(tw),
                    Err(e) => EditStep::Done(Err(e)),
                }
            }
        },
        KeyEvent::Backspace => {
            match tw.backspace(stdout) {
                Ok(()) => EditStep::Editing(tw),
                Err(e) => EditStep::Done(Err(e)),
            }
        },
        KeyEvent::Left => {
            match tw.left(stdout) {
                Ok(()) => EditStep::Editing(tw),
                Err(e) => EditStep::Done(Err(e)),
            }
        },
        KeyEvent::Right => {
            match tw.right(stdout) {
                Ok(()) => EditStep::Editing(tw),
                Err(e) => EditStep::Done(Err(e)),
            }
        },
        KeyEvent::Unknown => EditStep::Editing(tw),
    }
}

/// Law: inserting at the end of the buffer appends exactly the inserted
/// character, so a string typed left to right with the cursor at the end is
/// the buffer, character for character.
pub proof fn lemma_insert_at_end_appends(buf: Seq<char>, c: char)
    ensures
        buf.insert(buf.len() as int, c) == buf.push(c),
{
    assert(buf.insert(buf.len() as int, c) =~= buf.push(c));
}

/// The buffer an empty session holds after its characters were typed one by
/// one with the cursor always at the end.
pub open spec fn typed_at_end(s: Seq<char>) -> Seq<char>
    decreases s.len(),
{
    if s.len() == 0 {
        Seq::empty()
    } else {
        typed_at_end(s.drop_last()).push(s.last())
    }
}

/// Law: typing any string with the cursor always at the end leaves the
/// buffer equal to the typed sequence exactly, so finalizing a non-blank
/// one returns it verbatim as text.
pub proof fn lemma_typed_at_end_identity(s: Seq<char>)
    ensures
        typed_at_end(s) == s,
    decreases s.len(),
{
    if s.len() == 0 {
        assert(typed_at_end(s) =~= s);
    } else {
        lemma_typed_at_end_identity(s.drop_last());
        assert(typed_at_end(s) =~= s);
    }
}

/// Law: a non-empty buffer of printable ASCII characters of which at least
/// one is not a space is not blank, so finalizing it returns the typed text
/// exactly rather than the empty-input error.
pub proof fn lemma_printable_text_accepted(s: Seq<char>)
    requires
        s.len() > 0,
        forall|i: int| 0 <= i < s.len() ==> is_printable_ascii(#[trigger] s[i]),
        exists|i: int| 0 <= i < s.len() && s[i] != ' ',
    ensures
        !is_blank(s),
{
    let i = choose|i: int| 0 <= i < s.len() && s[i] != ' ';
    assert(is_printable_ascii(s[i]));
    assert(!is_space_char(s[i]));
}

} // verus!
