use vstd::prelude::*;

verus! {

/// A button of the Game Boy.
#[derive(PartialEq, Eq, Structural, Clone, Copy, Debug)]
pub enum Key {
    Down,
    Up,
    Left,
    Right,
    Start,
    Select,
    B,
    A,
}

/// The JOYP register: the selected button column and the state of both button groups,
/// where a cleared bit means that the button is held down.
pub struct Joypad {
    pub column: u8,
    pub select_buttons: u8,
    pub directional_buttons: u8,
    pub interrupt: bool,
}

pub const DOWN_BIT: u8 = 3;
pub const UP_BIT: u8 = 2;
pub const LEFT_BIT: u8 = 1;
pub const RIGHT_BIT: u8 = 0;

pub const START_BIT: u8 = 3;
pub const SELECT_BIT: u8 = 2;
pub const B_BIT: u8 = 1;
pub const A_BIT: u8 = 0;

/// Whether the key belongs to the directional group.
pub open spec fn is_directional(key: Key) -> bool {
    matches!(key, Key::Down | Key::Up | Key::Left | Key::Right)
}

/// The bit that stands for the key within its group.
pub open spec fn key_bit(key: Key) -> u8 {
    match key {
        Key::Down => DOWN_BIT,
        Key::Up => UP_BIT,
        Key::Left => LEFT_BIT,
        Key::Right => RIGHT_BIT,
        Key::Start => START_BIT,
        Key::Select => SELECT_BIT,
        Key::B => B_BIT,
        Key::A => A_BIT,
    }
}

/// The value that reading JOYP gives for a column and the two button groups.
pub open spec fn joyp_value(column: u8, select_buttons: u8, directional_buttons: u8) -> u8 {
    if column & 0x20 == 0 {
        0xD0 | (select_buttons & 0x0F)
    } else if column & 0x10 == 0 {
        0xE0 | (directional_buttons & 0x0F)
    } else {
        0xFF
    }
}

/// The joypad after the key goes down: its bit cleared in its group, the interrupt requested.
pub open spec fn pressed_state(j: Joypad, key: Key) -> Joypad {
    if is_directional(key) {
        Joypad { directional_buttons: j.directional_buttons & !((1u8 << key_bit(key)) as u8), interrupt: true, ..j }
    } else {
        Joypad { select_buttons: j.select_buttons & !((1u8 << key_bit(key)) as u8), interrupt: true, ..j }
    }
}

/// The joypad after the key comes up: its bit set again in its group.
pub open spec fn released_state(j: Joypad, key: Key) -> Joypad {
    if is_directional(key) {
        Joypad { directional_buttons: j.directional_buttons | ((1u8 << key_bit(key)) as u8), ..j }
    } else {
        Joypad { select_buttons: j.select_buttons | ((1u8 << key_bit(key)) as u8), ..j }
    }
}

/// The button group that holds the key.
pub open spec fn key_group(j: Joypad, key: Key) -> u8 {
    if is_directional(key) { j.directional_buttons } else { j.select_buttons }
}

/// The column value that a program writes to JOYP to read the key's group.
pub open spec fn group_column(key: Key) -> u8 {
    if is_directional(key) { 0x20 } else { 0x10 }
}

/// What a program reads from JOYP after selecting the key's group.
pub open spec fn group_reading(j: Joypad, key: Key) -> u8 {
    joyp_value(group_column(key), j.select_buttons, j.directional_buttons)
}

proof fn lemma_group_columns()
    ensures
        0x20u8 & 0x20 != 0,
        0x20u8 & 0x10 == 0,
        0x10u8 & 0x20 == 0,
{
    assert(0x20u8 & 0x20 != 0) by (bit_vector);
    assert(0x20u8 & 0x10 == 0) by (bit_vector);
    assert(0x10u8 & 0x20 == 0) by (bit_vector);
}

proof fn lemma_key_bit_bound(key: Key)
    ensures
        key_bit(key) < 4,
{
}

/// A key that has been pressed reads as held down (its bit cleared) once its group is
/// selected, and the press requests the joypad interrupt.
pub proof fn law_pressed_key_reads_down(j: Joypad, key: Key)
    ensures
        !crate::utils::bit_is_set(group_reading(pressed_state(j, key), key), key_bit(key)),
        pressed_state(j, key).interrupt,
{
    lemma_key_bit_bound(key);
    let b = key_bit(key);
    let d = j.directional_buttons;
    let sb = j.select_buttons;
    lemma_group_columns();
    assert(((0xE0u8 | ((d & !((1u8 << b) as u8)) & 0x0F)) >> b) & 1 != 1) by (bit_vector)
        requires b < 4;
    assert(((0xD0u8 | ((sb & !((1u8 << b) as u8)) & 0x0F)) >> b) & 1 != 1) by (bit_vector)
        requires b < 4;
}

/// A key that has been released reads as up (its bit set) once its group is selected.
pub proof fn law_released_key_reads_up(j: Joypad, key: Key)
    ensures
        crate::utils::bit_is_set(group_reading(released_state(j, key), key), key_bit(key)),
{
    lemma_key_bit_bound(key);
    let b = key_bit(key);
    let d = j.directional_buttons;
    let sb = j.select_buttons;
    lemma_group_columns();
    assert(((0xE0u8 | ((d | ((1u8 << b) as u8)) & 0x0F)) >> b) & 1 == 1) by (bit_vector)
        requires b < 4;
    assert(((0xD0u8 | ((sb | ((1u8 << b) as u8)) & 0x0F)) >> b) & 1 == 1) by (bit_vector)
        requires b < 4;
}

/// Releasing a key that was up before it was pressed gives back the joypad it started from,
/// but for the interrupt request that the press raised.
pub proof fn law_release_undoes_press(j: Joypad, key: Key)
    requires
        crate::utils::bit_is_set(key_group(j, key), key_bit(key)),
    ensures
        released_state(pressed_state(j, key), key) == (Joypad { interrupt: true, ..j }),
{
    lemma_key_bit_bound(key);
    let b = key_bit(key);
    let g = key_group(j, key);
    assert((g & !((1u8 << b) as u8)) | ((1u8 << b) as u8) == g) by (bit_vector)
        requires b < 4, (g >> b) & 1 == 1;
}

fn key_bit_exec(key: &Key) -> (bit: u8)
    ensures
        bit == key_bit(*key),
        bit < 4,
{
    match key {
        Key::Down => DOWN_BIT,
        Key::Up => UP_BIT,
        Key::Left => LEFT_BIT,
        Key::Right => RIGHT_BIT,
        Key::Start => START_BIT,
        Key::Select => SELECT_BIT,
        Key::B => B_BIT,
        Key::A => A_BIT,
    }
}

fn is_directional_exec(key: &Key) -> (r: bool)
    ensures
        r == is_directional(*key),
{
    match key {
        Key::Down | Key::Up | Key::Left | Key::Right => true,
        _ => false,
    }
}

impl Joypad {
    pub fn new() -> (joypad: Self)
        ensures
            joypad == (Joypad {
                column: 0x0,
                select_buttons: 0xF,
                directional_buttons: 0xF,
                interrupt: false,
            }),
    {
        Joypad { column: 0x0, select_buttons: 0xF, directional_buttons: 0xF, interrupt: false }
    }

    /// Only bits 4 and 5 of JOYP can be written: they select the column.
    pub fn write_byte(&mut self, value: u8)
        ensures
            *final(self) == (Joypad { column: value & 0x30, ..*old(self) }),
    {
        self.column = value & 0x30;
    }

    pub fn read_byte(&self) -> (value: u8)
        ensures
            value == joyp_value(self.column, self.select_buttons, self.directional_buttons),
    {
        if self.column & 0x20 == 0 {
            0xD0 | (self.select_buttons & 0x0F)
        } else if self.column & 0x10 == 0 {
            0xE0 | (self.directional_buttons & 0x0F)
        } else {
            0xFF
        }
    }

    /// Clears the key's bit in its group and requests the joypad interrupt.
    pub fn handle_key_press(&mut self, key: &Key)
        ensures
            *final(self) == pressed_state(*old(self), *key),
    {
        let bit = key_bit_exec(key);
        if is_directional_exec(key) {
            self.directional_buttons = crate::utils::reset_bit(self.directional_buttons, bit);
        } else {
            self.select_buttons = crate::utils::reset_bit(self.select_buttons, bit);
        }
        self.interrupt = true;
    }

    /// Sets the key's bit in its group again.
    pub fn handle_key_release(&mut self, key: &Key)
        ensures
            *final(self) == released_state(*old(self), *key),
    {
        let bit = key_bit_exec(key);
        if is_directional_exec(key) {
            self.directional_buttons = crate::utils::set_bit(self.directional_buttons, bit);
        } else {
            self.select_buttons = crate::utils::set_bit(self.select_buttons, bit);
        }
    }

    pub fn column(&self) -> (r: u8)
        ensures
            r == self.column,
    {
        self.column
    }

    pub fn set_column(&mut self, value: u8)
        ensures
            *final(self) == (Joypad { column: value, ..*old(self) }),
    {
        self.column = value;
    }

    pub fn select_buttons(&self) -> (r: u8)
        ensures
            r == self.select_buttons,
    {
        self.select_buttons
    }

    pub fn set_select_buttons(&mut self, value: u8)
        ensures
            *final(self) == (Joypad { select_buttons: value, ..*old(self) }),
    {
        self.select_buttons = value;
    }

    pub fn directional_buttons(&self) -> (r: u8)
        ensures
            r == self.directional_buttons,
    {
        self.directional_buttons
    }

    pub fn set_directional_buttons(&mut self, value: u8)
        ensures
            *final(self) == (Joypad { directional_buttons: value, ..*old(self) }),
    {
        self.directional_buttons = value;
    }

    pub fn interrupt(&self) -> (r: bool)
        ensures
            r == self.interrupt,
    {
        self.interrupt
    }

    pub fn set_interrupt(&mut self, value: bool)
        ensures
            *final(self) == (Joypad { interrupt: value, ..*old(self) }),
    {
        self.interrupt = value;
    }
}

} // verus!
