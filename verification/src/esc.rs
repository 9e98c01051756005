//! The ANSI control sequences the launcher emits: cursor movement, cursor
//! visibility, clearing, and absolute positioning. Each builder states the
//! exact character sequence it returns.

use vstd::prelude::*;

verus! {

/// Moves the cursor one column left.
pub open spec fn esc_left() -> Seq<char> {
    seq!['\u{1b}', '[', '1', 'D']
}

/// Moves the cursor one column right.
pub open spec fn esc_right() -> Seq<char> {
    seq!['\u{1b}', '[', '1', 'C']
}

/// Makes the cursor visible.
pub open spec fn esc_show() -> Seq<char> {
    seq!['\u{1b}', '[', '?', '2', '5', 'h']
}

/// Hides the cursor.
pub open spec fn esc_hide() -> Seq<char> {
    seq!['\u{1b}', '[', '?', '2', '5', 'l']
}

/// Clears the line the cursor is on.
pub open spec fn esc_clear_line() -> Seq<char> {
    seq!['\u{1b}', '[', '2', 'K']
}

/// Clears the whole screen.
pub open spec fn esc_clear_all() -> Seq<char> {
    seq!['\u{1b}', '[', '2', 'J']
}

/// The decimal digit character for `d`.
pub open spec fn dec_digit(d: nat) -> char {
    if d == 0 {
        '0'
    } else if d == 1 {
        '1'
    } else if d == 2 {
        '2'
    } else if d == 3 {
        '3'
    } else if d == 4 {
        '4'
    } else if d == 5 {
        '5'
    } else if d == 6 {
        '6'
    } else if d == 7 {
        '7'
    } else if d == 8 {
        '8'
    } else {
        '9'
    }
}

/// The decimal rendering of `n`: most significant digit first, no leading
/// zeroes except for zero itself.
pub open spec fn dec_seq(n: nat) -> Seq<char>
    decreases n,
{
    if n < 10 {
        seq![dec_digit(n)]
    } else {
        dec_seq(n / 10).push(dec_digit(n % 10))
    }
}

/// Moves the cursor to 1-based column `x`, row `y`.
pub open spec fn esc_goto(x: nat, y: nat) -> Seq<char> {
    seq!['\u{1b}', '['] + dec_seq(y) + seq![';'] + dec_seq(x) + seq!['H']
}

/// The digit character for `d`.
fn digit_char(d: u16) -> (r: char)
    requires
        d < 10,
    ensures
        r == dec_digit(d as nat),
{
    if d == 0 {
        '0'
    } else if d == 1 {
        '1'
    } else if d == 2 {
        '2'
    } else if d == 3 {
        '3'
    } else if d == 4 {
        '4'
    } else if d == 5 {
        '5'
    } else if d == 6 {
        '6'
    } else if d == 7 {
        '7'
    } else if d == 8 {
        '8'
    } else {
        '9'
    }
}

/// Appends the decimal rendering of `n` to `out`.
fn push_decimal(out: &mut String, n: u16)
    ensures
        final(out)@ == old(out)@ + dec_seq(n as nat),
    decreases n,
{
    if n >= 10 {
        push_decimal(out, n / 10);
        out.push(digit_char(n % 10));
        proof {
            assert(out@ =~= old(out)@ + dec_seq((n / 10) as nat).push(dec_digit((n % 10) as nat)));
        }
    } else {
        out.push(digit_char(n));
        proof {
            assert(out@ =~= old(out)@ + seq![dec_digit(n as nat)]);
        }
    }
}

/// Builds the cursor-left sequence.
pub fn left_escape() -> (r: String)
    ensures
        r@ == esc_left(),
{
    let mut r = String::new();
    r.push('\u{1b}');
    r.push('[');
    r.push('1');
    r.push('D');
    proof {
        assert(r@ =~= esc_left());
    }
    r
}

/// Builds the cursor-right sequence.
pub fn right_escape() -> (r: String)
    ensures
        r@ == esc_right(),
{
    let mut r = String::new();
    r.push('\u{1b}');
    r.push('[');
    r.push('1');
    r.push('C');
    proof {
        assert(r@ =~= esc_right());
    }
    r
}

/// Builds the show-cursor sequence.
pub fn show_cursor_escape() -> (r: String)
    ensures
        r@ == esc_show(),
{
    let mut r = String::new();
    r.push('\u{1b}');
    r.push('[');
    r.push('?');
    r.push('2');
    r.push('5');
    r.push('h');
    proof {
        assert(r@ =~= esc_show());
    }
    r
}

/// Builds the hide-cursor sequence.
pub fn hide_cursor_escape() -> (r: String)
    ensures
        r@ == esc_hide(),
{
    let mut r = String::new();
    r.push('\u{1b}');
    r.push('[');
    r.push('?');
    r.push('2');
    r.push('5');
    r.push('l');
    proof {
        assert(r@ =~= esc_hide());
    }
    r
}

/// Builds the clear-line sequence.
pub fn clear_line_escape() -> (r: String)
    ensures
        r@ == esc_clear_line(),
{
    let mut r = String::new();
    r.push('\u{1b}');
    r.push('[');
    r.push('2');
    r.push('K');
    proof {
        assert(r@ =~= esc_clear_line());
    }
    r
}

/// Builds the clear-screen sequence.
pub fn clear_all_escape() -> (r: String)
    ensures
        r@ == esc_clear_all(),
{
    let mut r = String::new();
    r.push('\u{1b}');
    r.push('[');
    r.push('2');
    r.push('J');
    proof {
        assert(r@ =~= esc_clear_all());
    }
    r
}

/// Builds the go-to-position sequence for 1-based column `x`, row `y`.
pub fn goto_escape(x: u16, y: u16) -> (r: String)
    ensures
        r@ == esc_goto(x as nat, y as nat),
{
    let mut r = String::new();
    r.push('\u{1b}');
    r.push('[');
    push_decimal(&mut r, y);
    r.push(';');
    push_decimal(&mut r, x);
    r.push('H');
    proof {
        assert(r@ =~= esc_goto(x as nat, y as nat));
    }
    r
}

} // verus!
