//! Input: modifier flags, and the mouse buttons held down over each browser.

use std::collections::HashMap;

use vstd::prelude::*;

verus! {

broadcast use vstd::std_specs::hash::group_hash_axioms;

/// `bit` where `on`, else nothing.
pub open spec fn flag_value(on: bool, bit: u32) -> u32 {
    if on {
        bit
    } else {
        0
    }
}

fn flag(on: bool, bit: u32) -> (r: u32)
    ensures
        r == flag_value(on, bit),
{
    if on {
        bit
    } else {
        0
    }
}

/// The engine's event flags for the protocol's modifiers `mods` (shift 1, control 2, alt 4, meta
/// 8): shift is bit 1, control bit 2, alt bit 3, command bit 7.
pub open spec fn keyboard_flags(mods: u32) -> u32 {
    flag_value(mods & 1 != 0, 0x02) | flag_value(mods & 2 != 0, 0x04) | flag_value(
        mods & 4 != 0,
        0x08,
    ) | flag_value(mods & 8 != 0, 0x80)
}

/// The engine's event flags for the held buttons `bits` (left 1, middle 2, right 4): left is bit
/// 4, middle bit 5, right bit 6.
pub open spec fn button_flags(bits: u8) -> u32 {
    flag_value(bits & 1 != 0, 0x10) | flag_value(bits & 2 != 0, 0x20) | flag_value(
        bits & 4 != 0,
        0x40,
    )
}

/// The engine's event flags for the protocol's modifiers `mods`.
pub fn event_flags(mods: u32) -> (r: u32)
    ensures
        r == keyboard_flags(mods),
{
    flag(mods & 1 != 0, 0x02) | flag(mods & 2 != 0, 0x04) | flag(mods & 4 != 0, 0x08) | flag(
        mods & 8 != 0,
        0x80,
    )
}

/// The bit of a mouse button: 0 is left, 1 middle, anything else right.
pub open spec fn button_bit(button: u8) -> u8 {
    if button == 0 {
        1
    } else if button == 1 {
        2
    } else {
        4
    }
}

/// The buttons held over browser `id`.
pub open spec fn held_buttons(pressed: Map<u32, u8>, id: u32) -> u8 {
    if pressed.contains_key(id) {
        pressed[id]
    } else {
        0
    }
}

/// `pressed` after a button of browser `id` goes down or up.
pub open spec fn button_set(pressed: Map<u32, u8>, id: u32, button: u8, down: bool) -> Map<u32, u8> {
    let bits = held_buttons(pressed, id);
    pressed.insert(
        id,
        if down {
            bits | button_bit(button)
        } else {
            bits & !button_bit(button)
        },
    )
}

/// A button of browser `id` goes down or up.
pub fn pressed_set(pressed: &mut HashMap<u32, u8>, id: u32, button: u8, down: bool)
    ensures
        final(pressed)@ == button_set(old(pressed)@, id, button, down),
{
    let bits: u8 = match pressed.get(&id) {
        Some(bits) => *bits,
        None => 0,
    };
    let bit: u8 = if button == 0 {
        1
    } else if button == 1 {
        2
    } else {
        4
    };
    pressed.insert(id, if down { bits | bit } else { bits & !bit });
}

/// The engine's event flags for the buttons held over browser `id`.
pub fn pressed_flags(pressed: &HashMap<u32, u8>, id: u32) -> (r: u32)
    ensures
        r == button_flags(held_buttons(pressed@, id)),
{
    let bits: u8 = match pressed.get(&id) {
        Some(bits) => *bits,
        None => 0,
    };
    flag(bits & 1 != 0, 0x10) | flag(bits & 2 != 0, 0x20) | flag(bits & 4 != 0, 0x40)
}

}
