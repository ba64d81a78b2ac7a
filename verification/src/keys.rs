//! Key codes as the terminal library reports them, and what each one means here.

use vstd::prelude::*;

verus! {

/// Tab.
pub const KEY_TAB: i32 = 0x9;

/// Enter (line feed).
pub const KEY_ENTER: i32 = 0xa;

/// Escape.
pub const KEY_ESC: i32 = 0x1b;

/// Page up.
pub const KEY_PUP: i32 = 0x153;

/// Page down.
pub const KEY_PDN: i32 = 0x152;

/// A key press, by meaning.
#[derive(Clone, Copy, Debug, PartialEq, Eq, Structural)]
pub enum Key {
    /// Function key `n`, from 1 to 12.
    Function(u8),
    Home,
    End,
    Up,
    Down,
    PageUp,
    PageDown,
    Left,
    Right,
    Tab,
    Enter,
    Escape,
    Backspace,
    /// A character from blank (0x20) to delete (0x7f).
    Char(u8),
    /// Any other code.
    Other,
}

/// The meaning of a key code.
pub open spec fn key_of(code: int) -> Key {
    if code == 0xa {
        Key::Enter
    } else if code == 0x1b {
        Key::Escape
    } else if code == 0x9 {
        Key::Tab
    } else if 0x20 <= code <= 0x7f {
        Key::Char(code as u8)
    } else if code == 0x102 {
        Key::Down
    } else if code == 0x103 {
        Key::Up
    } else if code == 0x104 {
        Key::Left
    } else if code == 0x105 {
        Key::Right
    } else if code == 0x106 {
        Key::Home
    } else if code == 0x107 {
        Key::Backspace
    } else if 0x109 <= code <= 0x114 {
        Key::Function((code - 0x108) as u8)
    } else if code == 0x152 {
        Key::PageDown
    } else if code == 0x153 {
        Key::PageUp
    } else if code == 0x168 {
        Key::End
    } else {
        Key::Other
    }
}

/// `ncurses::KEY_F` gives the code of function key `n`: `KEY_F0`, which is
/// 0x108, plus `n`. It panics from `n` = 16 on.
pub assume_specification[ ncurses::KEY_F ](n: u8) -> (code: i32)
    requires
        n < 16,
    ensures
        code == 0x108 + n,
;

/// `ncurses::KEY_DOWN`, the down-arrow key: 0x102.
#[verifier::external_body]
fn code_down() -> (code: i32)
    ensures
        code == 0x102,
{
    ncurses::KEY_DOWN
}

/// `ncurses::KEY_UP`, the up-arrow key: 0x103.
#[verifier::external_body]
fn code_up() -> (code: i32)
    ensures
        code == 0x103,
{
    ncurses::KEY_UP
}

/// `ncurses::KEY_LEFT`, the left-arrow key: 0x104.
#[verifier::external_body]
fn code_left() -> (code: i32)
    ensures
        code == 0x104,
{
    ncurses::KEY_LEFT
}

/// `ncurses::KEY_RIGHT`, the right-arrow key: 0x105.
#[verifier::external_body]
fn code_right() -> (code: i32)
    ensures
        code == 0x105,
{
    ncurses::KEY_RIGHT
}

/// `ncurses::KEY_HOME`, the home key: 0x106.
#[verifier::external_body]
fn code_home() -> (code: i32)
    ensures
        code == 0x106,
{
    ncurses::KEY_HOME
}

/// `ncurses::KEY_BACKSPACE`, the backspace key: 0x107.
#[verifier::external_body]
fn code_backspace() -> (code: i32)
    ensures
        code == 0x107,
{
    ncurses::KEY_BACKSPACE
}

/// `ncurses::KEY_END`, the end key: 0x168.
#[verifier::external_body]
fn code_end() -> (code: i32)
    ensures
        code == 0x168,
{
    ncurses::KEY_END
}

/// The function key with this code, if it is one of F1 to F12.
fn function_key(code: i32) -> (n: Option<u8>)
    ensures
        n == if 0x109 <= code <= 0x114 {
            Some((code - 0x108) as u8)
        } else {
            None
        },
{
    let mut n: u8 = 1;
    while n <= 12
        invariant
            1 <= n <= 13,
            !(0x109 <= code < 0x108 + n),
        decreases 13 - n,
    {
        if code == ncurses::KEY_F(n) {
            return Some(n);
        }
        n = n + 1;
    }
    None
}

/// Tells what a key code, as the terminal library reports it, means.
pub fn decode(code: i32) -> (key: Key)
    ensures
        key == key_of(code as int),
{
    if code == KEY_ENTER {
        Key::Enter
    } else if code == KEY_ESC {
        Key::Escape
    } else if code == KEY_TAB {
        Key::Tab
    } else if 0x20 <= code && code <= 0x7f {
        Key::Char(code as u8)
    } else if code == code_down() {
        Key::Down
    } else if code == code_up() {
        Key::Up
    } else if code == code_left() {
        Key::Left
    } else if code == code_right() {
        Key::Right
    } else if code == code_home() {
        Key::Home
    } else if code == code_backspace() {
        Key::Backspace
    } else if code == KEY_PDN {
        Key::PageDown
    } else if code == KEY_PUP {
        Key::PageUp
    } else if code == code_end() {
        Key::End
    } else {
        match function_key(code) {
            Some(n) => Key::Function(n),
            None => Key::Other,
        }
    }
}

} // verus!
