use std::collections::HashMap;
use vstd::prelude::*;

use crate::hints::HINT_LETTERS;

verus! {

broadcast use vstd::std_specs::hash::group_hash_axioms;

/// X keysym of the Escape key.
pub const KEY_ESCAPE: u32 = 0xff1b;

/// X keysym of the space bar.
pub const KEY_SPACE: u32 = 0x20;

/// What a key pressed in the picker asks for.
#[derive(Clone, Copy, Debug, PartialEq, Eq, Structural)]
pub enum KeyCommand {
    /// Close the picker and leave everything as it was.
    Dismiss,
    /// Close the picker and go back to the window that was active before.
    Previous,
    /// Close the picker and switch to this desktop (counted from 0).
    Desktop(u32),
    /// Close the picker and go to this window.
    Window(u32),
    /// Not a key of the picker: let the toolkit handle it.
    Pass,
}

/// The command that key `keyval` gives while `hints` maps letter offsets
/// (0 for 'a') to window handles. Keys '1' to '`' pick a desktop; letters from
/// 'a' pick the window that carries them.
pub open spec fn key_command(keyval: u32, hints: Map<u8, u32>) -> KeyCommand {
    if keyval == KEY_ESCAPE {
        KeyCommand::Dismiss
    } else if keyval == KEY_SPACE {
        KeyCommand::Previous
    } else if keyval > 255 {
        KeyCommand::Pass
    } else if 48 < keyval < 97 {
        KeyCommand::Desktop((keyval - 49) as u32)
    } else if keyval >= 97 && hints.contains_key((keyval - 97) as u8) {
        KeyCommand::Window(hints[(keyval - 97) as u8])
    } else {
        KeyCommand::Pass
    }
}

/// Decodes a key pressed in the picker.
pub fn decode_key(keyval: u32, hints: &HashMap<u8, u32>) -> (r: KeyCommand)
    ensures
        r == key_command(keyval, hints@),
{
    if keyval == KEY_ESCAPE {
        KeyCommand::Dismiss
    } else if keyval == KEY_SPACE {
        KeyCommand::Previous
    } else if keyval > 255 {
        KeyCommand::Pass
    } else if 48 < keyval && keyval < 97 {
        KeyCommand::Desktop(keyval - 49)
    } else if keyval >= 97 {
        let offset = (keyval - 97) as u8;
        match hints.get(&offset) {
            Some(w) => KeyCommand::Window(*w),
            None => KeyCommand::Pass,
        }
    } else {
        KeyCommand::Pass
    }
}

/// The letter shown for the window listed at position `pos`, if it has one.
pub open spec fn letter_at(pos: nat) -> Option<char> {
    if pos < HINT_LETTERS {
        Some(((pos + 97) as u8) as char)
    } else {
        None
    }
}

/// The letter for the window listed at position `pos`: 'a' for the first, up to
/// 'z'; none past the alphabet.
pub fn hint_letter(pos: usize) -> (r: Option<char>)
    ensures
        r == letter_at(pos as nat),
{
    if pos < HINT_LETTERS {
        Some(((pos + 97) as u8) as char)
    } else {
        None
    }
}

} // verus!
