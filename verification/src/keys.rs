use crate::joypad::{Key, key_bit, is_directional};
use vstd::prelude::*;

verus! {

/// The joypad state as kept by the first version of the emulator.
pub struct KeyState {
    pub column: u8,
    pub select_buttons: u8,
    pub directional_buttons: u8,
}

pub fn initialize_keys() -> (state: KeyState)
    ensures
        state == (KeyState { column: 0x0, select_buttons: 0xF, directional_buttons: 0xF }),
{
    KeyState { column: 0x0, select_buttons: 0xF, directional_buttons: 0xF }
}

pub fn write_joyp_byte(key_state: &mut KeyState, value: u8)
    ensures
        *final(key_state) == (KeyState { column: value & 0x30, ..*old(key_state) }),
{
    key_state.column = value & 0x30;
}

/// JOYP as this version reads it: only an exact column selection shows a button group.
pub fn read_joyp_byte(key_state: &KeyState) -> (value: u8)
    ensures
        value == (if key_state.column == 0x20 {
            0x20 | key_state.directional_buttons
        } else if key_state.column == 0x10 {
            0x10 | key_state.select_buttons
        } else {
            0x3F
        }),
{
    if key_state.column == 0x20 {
        0x20 | key_state.directional_buttons
    } else if key_state.column == 0x10 {
        0x10 | key_state.select_buttons
    } else {
        0x3F
    }
}

/// Clears the key's bit and raises bit 4 of the interrupt flags.
pub fn handle_key_press(key_state: &mut KeyState, interrupt_flags: &mut u8, key: &Key)
    ensures
        *final(interrupt_flags) == *old(interrupt_flags) | 0x10,
        final(key_state).column == old(key_state).column,
        is_directional(*key) ==> final(key_state).directional_buttons == old(
            key_state,
        ).directional_buttons & !((1u8 << key_bit(*key)) as u8) && final(key_state).select_buttons
            == old(key_state).select_buttons,
        !is_directional(*key) ==> final(key_state).select_buttons == old(key_state).select_buttons
            & !((1u8 << key_bit(*key)) as u8) && final(key_state).directional_buttons == old(
            key_state,
        ).directional_buttons,
{
    let mut joypad = crate::joypad::Joypad {
        column: key_state.column,
        select_buttons: key_state.select_buttons,
        directional_buttons: key_state.directional_buttons,
        interrupt: false,
    };
    joypad.handle_key_press(key);
    key_state.select_buttons = joypad.select_buttons;
    key_state.directional_buttons = joypad.directional_buttons;
    *interrupt_flags = *interrupt_flags | 0x10;
}

/// Sets the key's bit again.
pub fn handle_key_release(key_state: &mut KeyState, key: &Key)
    ensures
        final(key_state).column == old(key_state).column,
        is_directional(*key) ==> final(key_state).directional_buttons == old(
            key_state,
        ).directional_buttons | ((1u8 << key_bit(*key)) as u8) && final(key_state).select_buttons
            == old(key_state).select_buttons,
        !is_directional(*key) ==> final(key_state).select_buttons == old(key_state).select_buttons
            | ((1u8 << key_bit(*key)) as u8) && final(key_state).directional_buttons == old(
            key_state,
        ).directional_buttons,
{
    let mut joypad = crate::joypad::Joypad {
        column: key_state.column,
        select_buttons: key_state.select_buttons,
        directional_buttons: key_state.directional_buttons,
        interrupt: false,
    };
    joypad.handle_key_release(key);
    key_state.select_buttons = joypad.select_buttons;
    key_state.directional_buttons = joypad.directional_buttons;
}

} // verus!
