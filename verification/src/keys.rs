use vstd::prelude::*;

verus! {

/// Key code of the letter `c`: starts a crop.
pub const KEY_C: i32 = 0x63;

/// Key code of the letter `m`: starts a merge.
pub const KEY_M: i32 = 0x6d;

/// Key code of the letter `o`: opens a file.
pub const KEY_O: i32 = 0x6f;

/// Key code of the letter `q`: quits, or cancels a prompt.
pub const KEY_Q: i32 = 0x71;

/// Key code of the letter `s`: saves to a file.
pub const KEY_S: i32 = 0x73;

/// Key code of Tab: asks for a completion.
pub const KEY_TAB: i32 = 0x09;

/// Key code of Enter: accepts.
pub const KEY_ENTER: i32 = 0x0a;

/// Key code of Backspace: deletes the last character.
pub const KEY_BACKSPACE: i32 = 0x7f;

/// Key code of Escape: cancels.
pub const KEY_ESC: i32 = 0x1b;

/// Key code of the down arrow.
pub const KEY_DOWN: i32 = 0x102;

/// Key code of the up arrow.
pub const KEY_UP: i32 = 0x103;

/// Key code of the left arrow.
pub const KEY_LEFT: i32 = 0x104;

/// Key code of the right arrow.
pub const KEY_RIGHT: i32 = 0x105;

/// Whether `key` cancels a prompt: Escape or `q`.
pub open spec fn cancels(key: i32) -> bool {
    key == KEY_ESC || key == KEY_Q
}

/// Whether `key` cancels a prompt.
pub fn is_cancel(key: i32) -> (b: bool)
    ensures
        b == cancels(key),
{
    key == KEY_ESC || key == KEY_Q
}

} // verus!
