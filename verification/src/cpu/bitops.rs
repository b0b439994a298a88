use crate::address_bus::clock_frame;
use crate::cpu::alu::{flags_set, read_then_write, stored_with_flags};
use crate::cpu::microops::{known_read, same_processor};
use crate::cpu::{c_flag, hl_value, register_hl, register_value, with_flags, with_register, Cpu, Register, Registers};
use crate::utils::{bit_is_set, is_bit_set, reset_bit, set_bit};
use vstd::prelude::*;

verus! {

/// The eight shift and rotate operations of the CB-prefixed instructions.
#[derive(PartialEq, Eq, Structural, Clone, Copy, Debug)]
pub enum ShiftKind {
    RotateLeft,
    RotateRight,
    RotateLeftThroughCarry,
    RotateRightThroughCarry,
    ShiftLeft,
    ShiftRightArithmetic,
    ShiftRightLogical,
}

/// The result of a shift or rotate and the bit shifted out (the new carry).
pub open spec fn shifted(kind: ShiftKind, byte: u8, carry: bool) -> (u8, bool) {
    let cin: int = if carry { 1 } else { 0 };
    match kind {
        ShiftKind::RotateLeft => (((byte % 128) * 2 + byte / 128) as u8, byte >= 128),
        ShiftKind::RotateRight => (((byte % 2) * 128 + byte / 2) as u8, byte % 2 == 1),
        ShiftKind::RotateLeftThroughCarry => (((byte % 128) * 2 + cin) as u8, byte >= 128),
        ShiftKind::RotateRightThroughCarry => ((cin * 128 + byte / 2) as u8, byte % 2 == 1),
        ShiftKind::ShiftLeft => (((byte % 128) * 2) as u8, byte >= 128),
        ShiftKind::ShiftRightArithmetic => ((byte / 2 + (if byte >= 128 { 128int } else { 0 })) as u8, byte % 2 == 1),
        ShiftKind::ShiftRightLogical => ((byte / 2) as u8, byte % 2 == 1),
    }
}

pub fn shift_byte(kind: ShiftKind, byte: u8, carry: bool) -> (r: (u8, bool))
    ensures
        r == shifted(kind, byte, carry),
{
    let cin: u8 = if carry { 1 } else { 0 };
    match kind {
        ShiftKind::RotateLeft => ((byte % 128) * 2 + byte / 128, byte >= 128),
        ShiftKind::RotateRight => ((byte % 2) * 128 + byte / 2, byte % 2 == 1),
        ShiftKind::RotateLeftThroughCarry => ((byte % 128) * 2 + cin, byte >= 128),
        ShiftKind::RotateRightThroughCarry => (cin * 128 + byte / 2, byte % 2 == 1),
        ShiftKind::ShiftLeft => ((byte % 128) * 2, byte >= 128),
        ShiftKind::ShiftRightArithmetic => (byte / 2 + (if byte >= 128 { 128 } else { 0 }), byte % 2 == 1),
        ShiftKind::ShiftRightLogical => (byte / 2, byte % 2 == 1),
    }
}

/// A byte with its nibbles swapped.
pub open spec fn swapped(byte: u8) -> u8 {
    ((byte % 16) * 16 + byte / 16) as u8
}

fn swap_nibbles(byte: u8) -> (r: u8)
    ensures
        r == swapped(byte),
{
    (byte % 16) * 16 + byte / 16
}

/// The registers after a shift of `register`: the flags are set first, then the result is
/// stored.
pub open spec fn after_register_shift(r: Registers, register: Register, kind: ShiftKind) -> Registers {
    let (value, carry) = shifted(kind, register_value(r, register), c_flag(r.f));
    with_register(flags_set(r, value == 0, false, false, carry), register, value)
}

impl Cpu {
    pub fn shift_register_of_kind(&mut self, register: Register, kind: ShiftKind)
        ensures
            *final(self) == (Cpu { registers: after_register_shift(old(self).registers, register, kind), ..*old(self) }),
    {
        let byte = self.read_from_register(&register);
        let c = self.is_c_flag_set();
        let (value, carry) = shift_byte(kind, byte, c);
        self.set_flags(value == 0, false, false, carry);
        self.store_in_register(register, value);
    }

    pub fn shift_memory_byte_of_kind(&mut self, kind: ShiftKind)
        requires
            old(self).wf(),
        ensures
            final(self).wf(),
            final(self).registers == (Registers { f: final(self).registers.f, ..old(self).registers }),
            same_processor(Cpu { registers: final(self).registers, ..*old(self) }, *final(self)),
            known_read(old(self).address_bus, hl_value(old(self).registers)) matches Some(byte) ==> {
                &&& final(self).registers.f == with_flags(old(self).registers.f,
                    shifted(kind, byte, c_flag(old(self).registers.f)).0 == 0, false, false,
                    shifted(kind, byte, c_flag(old(self).registers.f)).1)
                &&& read_then_write(old(self).address_bus, final(self).address_bus, hl_value(old(self).registers),
                    shifted(kind, byte, c_flag(old(self).registers.f)).0)
            },
    {
        let address = self.read_from_register_pair(&register_hl());
        let ghost start = self.address_bus;
        let byte = self.read_byte_from_memory(address);
        let ghost mid = self.address_bus;
        let c = self.is_c_flag_set();
        let (value, carry) = shift_byte(kind, byte, c);
        self.set_flags(value == 0, false, false, carry);
        self.store_byte_in_memory(address, value);
        proof {
            assert(clock_frame(start, mid));
        }
    }

    pub fn rotate_register_left(&mut self, register: Register)
        ensures
            *final(self) == (Cpu { registers: after_register_shift(old(self).registers, register, ShiftKind::RotateLeft), ..*old(self) }),
    {
        self.shift_register_of_kind(register, ShiftKind::RotateLeft);
    }

    pub fn rotate_register_left_through_carry(&mut self, register: Register)
        ensures
            *final(self) == (Cpu { registers: after_register_shift(old(self).registers, register, ShiftKind::RotateLeftThroughCarry), ..*old(self) }),
    {
        self.shift_register_of_kind(register, ShiftKind::RotateLeftThroughCarry);
    }

    pub fn rotate_register_right(&mut self, register: Register)
        ensures
            *final(self) == (Cpu { registers: after_register_shift(old(self).registers, register, ShiftKind::RotateRight), ..*old(self) }),
    {
        self.shift_register_of_kind(register, ShiftKind::RotateRight);
    }

    pub fn rotate_register_right_through_carry(&mut self, register: Register)
        ensures
            *final(self) == (Cpu { registers: after_register_shift(old(self).registers, register, ShiftKind::RotateRightThroughCarry), ..*old(self) }),
    {
        self.shift_register_of_kind(register, ShiftKind::RotateRightThroughCarry);
    }

    pub fn shift_register_left(&mut self, register: Register)
        ensures
            *final(self) == (Cpu { registers: after_register_shift(old(self).registers, register, ShiftKind::ShiftLeft), ..*old(self) }),
    {
        self.shift_register_of_kind(register, ShiftKind::ShiftLeft);
    }

    pub fn shift_register_right_maintaining_msb(&mut self, register: Register)
        ensures
            *final(self) == (Cpu { registers: after_register_shift(old(self).registers, register, ShiftKind::ShiftRightArithmetic), ..*old(self) }),
    {
        self.shift_register_of_kind(register, ShiftKind::ShiftRightArithmetic);
    }

    pub fn shift_register_right(&mut self, register: Register)
        ensures
            *final(self) == (Cpu { registers: after_register_shift(old(self).registers, register, ShiftKind::ShiftRightLogical), ..*old(self) }),
    {
        self.shift_register_of_kind(register, ShiftKind::ShiftRightLogical);
    }

    pub fn rotate_memory_byte_left(&mut self)
        requires
            old(self).wf(),
        ensures
            final(self).wf(),
            final(self).registers == (Registers { f: final(self).registers.f, ..old(self).registers }),
            known_read(old(self).address_bus, hl_value(old(self).registers)) matches Some(byte) ==> read_then_write(old(self).address_bus,
                final(self).address_bus, hl_value(old(self).registers), shifted(ShiftKind::RotateLeft, byte, c_flag(old(self).registers.f)).0),
    {
        self.shift_memory_byte_of_kind(ShiftKind::RotateLeft);
    }

    pub fn rotate_memory_byte_left_through_carry(&mut self)
        requires
            old(self).wf(),
        ensures
            final(self).wf(),
            final(self).registers == (Registers { f: final(self).registers.f, ..old(self).registers }),
            known_read(old(self).address_bus, hl_value(old(self).registers)) matches Some(byte) ==> read_then_write(old(self).address_bus,
                final(self).address_bus, hl_value(old(self).registers), shifted(ShiftKind::RotateLeftThroughCarry, byte, c_flag(old(self).registers.f)).0),
    {
        self.shift_memory_byte_of_kind(ShiftKind::RotateLeftThroughCarry);
    }

    pub fn rotate_memory_byte_right(&mut self)
        requires
            old(self).wf(),
        ensures
            final(self).wf(),
            final(self).registers == (Registers { f: final(self).registers.f, ..old(self).registers }),
            known_read(old(self).address_bus, hl_value(old(self).registers)) matches Some(byte) ==> read_then_write(old(self).address_bus,
                final(self).address_bus, hl_value(old(self).registers), shifted(ShiftKind::RotateRight, byte, c_flag(old(self).registers.f)).0),
    {
        self.shift_memory_byte_of_kind(ShiftKind::RotateRight);
    }

    pub fn rotate_memory_byte_right_through_carry(&mut self)
        requires
            old(self).wf(),
        ensures
            final(self).wf(),
            final(self).registers == (Registers { f: final(self).registers.f, ..old(self).registers }),
            known_read(old(self).address_bus, hl_value(old(self).registers)) matches Some(byte) ==> read_then_write(old(self).address_bus,
                final(self).address_bus, hl_value(old(self).registers), shifted(ShiftKind::RotateRightThroughCarry, byte, c_flag(old(self).registers.f)).0),
    {
        self.shift_memory_byte_of_kind(ShiftKind::RotateRightThroughCarry);
    }

    pub fn shift_memory_byte_left(&mut self)
        requires
            old(self).wf(),
        ensures
            final(self).wf(),
            final(self).registers == (Registers { f: final(self).registers.f, ..old(self).registers }),
            known_read(old(self).address_bus, hl_value(old(self).registers)) matches Some(byte) ==> read_then_write(old(self).address_bus,
                final(self).address_bus, hl_value(old(self).registers), shifted(ShiftKind::ShiftLeft, byte, c_flag(old(self).registers.f)).0),
    {
        self.shift_memory_byte_of_kind(ShiftKind::ShiftLeft);
    }

    pub fn shift_memory_byte_right_maintaining_msb(&mut self)
        requires
            old(self).wf(),
        ensures
            final(self).wf(),
            final(self).registers == (Registers { f: final(self).registers.f, ..old(self).registers }),
            known_read(old(self).address_bus, hl_value(old(self).registers)) matches Some(byte) ==> read_then_write(old(self).address_bus,
                final(self).address_bus, hl_value(old(self).registers), shifted(ShiftKind::ShiftRightArithmetic, byte, c_flag(old(self).registers.f)).0),
    {
        self.shift_memory_byte_of_kind(ShiftKind::ShiftRightArithmetic);
    }

    pub fn shift_memory_byte_right(&mut self)
        requires
            old(self).wf(),
        ensures
            final(self).wf(),
            final(self).registers == (Registers { f: final(self).registers.f, ..old(self).registers }),
            known_read(old(self).address_bus, hl_value(old(self).registers)) matches Some(byte) ==> read_then_write(old(self).address_bus,
                final(self).address_bus, hl_value(old(self).registers), shifted(ShiftKind::ShiftRightLogical, byte, c_flag(old(self).registers.f)).0),
    {
        self.shift_memory_byte_of_kind(ShiftKind::ShiftRightLogical);
    }

    pub fn swap_nibbles_in_register(&mut self, register: Register)
        ensures
            *final(self) == (Cpu {
                registers: stored_with_flags(old(self).registers, register, swapped(register_value(old(self).registers, register)),
                    swapped(register_value(old(self).registers, register)) == 0, false, false, false),
                ..*old(self)
            }),
    {
        let byte = self.read_from_register(&register);
        let with_swapped_nibbles = swap_nibbles(byte);
        self.store_in_register(register, with_swapped_nibbles);
        self.set_flags(with_swapped_nibbles == 0, false, false, false);
    }

    pub fn swap_nibbles_in_memory_byte(&mut self, address: u16)
        requires
            old(self).wf(),
        ensures
            final(self).wf(),
            final(self).registers == (Registers { f: final(self).registers.f, ..old(self).registers }),
            same_processor(Cpu { registers: final(self).registers, ..*old(self) }, *final(self)),
            known_read(old(self).address_bus, address) matches Some(byte) ==> {
                &&& final(self).registers.f == with_flags(old(self).registers.f, swapped(byte) == 0, false, false, false)
                &&& read_then_write(old(self).address_bus, final(self).address_bus, address, swapped(byte))
            },
    {
        let ghost start = self.address_bus;
        let byte = self.read_byte_from_memory(address);
        let ghost mid = self.address_bus;
        let with_swapped_nibbles = swap_nibbles(byte);
        self.store_byte_in_memory(address, with_swapped_nibbles);
        self.set_flags(with_swapped_nibbles == 0, false, false, false);
        proof {
            assert(clock_frame(start, mid));
        }
    }

    fn test_bit(&mut self, byte: u8, bit_index: u8)
        requires
            bit_index < 8,
        ensures
            *final(self) == (Cpu { registers: flags_set(old(self).registers, !bit_is_set(byte, bit_index), false, true, c_flag(old(self).registers.f)), ..*old(self) }),
    {
        let c = self.is_c_flag_set();
        self.set_flags(!is_bit_set(byte, bit_index), false, true, c);
    }

    /// BIT: Z is set when the bit is clear; N cleared, H set, C left.
    pub fn test_register_bit(&mut self, register: Register, bit_index: u8)
        requires
            bit_index < 8,
        ensures
            *final(self) == (Cpu { registers: flags_set(old(self).registers, !bit_is_set(register_value(old(self).registers, register), bit_index), false, true, c_flag(old(self).registers.f)), ..*old(self) }),
    {
        let byte = self.read_from_register(&register);
        self.test_bit(byte, bit_index);
    }

    pub fn test_memory_bit(&mut self, bit_index: u8)
        requires
            old(self).wf(),
            bit_index < 8,
        ensures
            final(self).wf(),
            final(self).registers == (Registers { f: final(self).registers.f, ..old(self).registers }),
            same_processor(Cpu { registers: final(self).registers, ..*old(self) }, *final(self)),
            clock_frame(old(self).address_bus, final(self).address_bus),
            known_read(old(self).address_bus, hl_value(old(self).registers)) matches Some(byte) ==> final(self).registers.f == with_flags(
                old(self).registers.f, !bit_is_set(byte, bit_index), false, true, c_flag(old(self).registers.f)),
    {
        let address = self.read_from_register_pair(&register_hl());
        let byte = self.read_byte_from_memory(address);
        self.test_bit(byte, bit_index);
    }

    pub fn reset_register_bit(&mut self, register: Register, bit_index: u8)
        requires
            bit_index < 8,
        ensures
            *final(self) == (Cpu { registers: with_register(old(self).registers, register, register_value(old(self).registers, register) & !((1u8 << bit_index) as u8)), ..*old(self) }),
    {
        let byte = self.read_from_register(&register);
        let updated_byte = reset_bit(byte, bit_index);
        self.store_in_register(register, updated_byte);
    }

    pub fn reset_memory_bit(&mut self, bit_index: u8)
        requires
            old(self).wf(),
            bit_index < 8,
        ensures
            final(self).wf(),
            final(self).registers == old(self).registers,
            same_processor(*old(self), *final(self)),
            known_read(old(self).address_bus, hl_value(old(self).registers)) matches Some(byte) ==> read_then_write(old(self).address_bus,
                final(self).address_bus, hl_value(old(self).registers), byte & !((1u8 << bit_index) as u8)),
    {
        let address = self.read_from_register_pair(&register_hl());
        let ghost start = self.address_bus;
        let byte = self.read_byte_from_memory(address);
        let ghost mid = self.address_bus;
        let updated_byte = reset_bit(byte, bit_index);
        self.store_byte_in_memory(address, updated_byte);
        proof {
            assert(clock_frame(start, mid));
        }
    }

    pub fn set_register_bit(&mut self, register: Register, bit_index: u8)
        requires
            bit_index < 8,
        ensures
            *final(self) == (Cpu { registers: with_register(old(self).registers, register, register_value(old(self).registers, register) | ((1u8 << bit_index) as u8)), ..*old(self) }),
    {
        let byte = self.read_from_register(&register);
        let updated_byte = set_bit(byte, bit_index);
        self.store_in_register(register, updated_byte);
    }

    pub fn set_memory_bit(&mut self, bit_index: u8)
        requires
            old(self).wf(),
            bit_index < 8,
        ensures
            final(self).wf(),
            final(self).registers == old(self).registers,
            same_processor(*old(self), *final(self)),
            known_read(old(self).address_bus, hl_value(old(self).registers)) matches Some(byte) ==> read_then_write(old(self).address_bus,
                final(self).address_bus, hl_value(old(self).registers), byte | ((1u8 << bit_index) as u8)),
    {
        let address = self.read_from_register_pair(&register_hl());
        let ghost start = self.address_bus;
        let byte = self.read_byte_from_memory(address);
        let ghost mid = self.address_bus;
        let updated_byte = set_bit(byte, bit_index);
        self.store_byte_in_memory(address, updated_byte);
        proof {
            assert(clock_frame(start, mid));
        }
    }
}

/// Rotating left through the carry and then right through the carry gives back the byte and
/// the carry flag.
pub proof fn law_rotate_through_carry_round_trip(byte: u8, carry: bool)
    ensures
        shifted(ShiftKind::RotateRightThroughCarry, shifted(ShiftKind::RotateLeftThroughCarry, byte, carry).0,
            shifted(ShiftKind::RotateLeftThroughCarry, byte, carry).1) == (byte, carry),
{
}

/// A rotate left followed by a rotate right gives back the byte.
pub proof fn law_rotate_round_trip(byte: u8, carry: bool, second_carry: bool)
    ensures
        shifted(ShiftKind::RotateRight, shifted(ShiftKind::RotateLeft, byte, carry).0, second_carry).0 == byte,
{
}

/// Swapping the nibbles twice gives back the byte.
pub proof fn law_swap_is_involution(byte: u8)
    ensures
        swapped(swapped(byte)) == byte,
{
}

/// The shifts and rotates bit by bit: a left one moves every bit up by one and carries out
/// bit 7, feeding bit 0 from bit 7 (rotate), from the carry (through the carry) or with 0
/// (shift); a right one moves every bit down by one and carries out bit 0, feeding bit 7 from
/// bit 0, from the carry, from bit 7 itself (arithmetic) or with 0 (logical). A swap exchanges
/// the two nibbles.
pub proof fn law_shift_bits(byte: u8, carry: bool)
    ensures
        shifted(ShiftKind::RotateLeft, byte, carry) == ((byte << 1u8) | (byte >> 7u8), byte & 0x80 != 0),
        shifted(ShiftKind::RotateRight, byte, carry) == ((byte >> 1u8) | (byte << 7u8), byte & 0x01 != 0),
        shifted(ShiftKind::RotateLeftThroughCarry, byte, carry) == ((byte << 1u8) | (if carry { 1u8 } else { 0u8 }),
            byte & 0x80 != 0),
        shifted(ShiftKind::RotateRightThroughCarry, byte, carry) == ((byte >> 1u8) | (if carry { 0x80u8 } else { 0u8 }),
            byte & 0x01 != 0),
        shifted(ShiftKind::ShiftLeft, byte, carry) == (byte << 1u8, byte & 0x80 != 0),
        shifted(ShiftKind::ShiftRightArithmetic, byte, carry) == ((byte >> 1u8) | (byte & 0x80), byte & 0x01 != 0),
        shifted(ShiftKind::ShiftRightLogical, byte, carry) == (byte >> 1u8, byte & 0x01 != 0),
        swapped(byte) == (byte << 4u8) | (byte >> 4u8),
{
    assert((((byte % 128) * 2 + byte / 128) as u8 == (byte << 1u8) | (byte >> 7u8)) && (((byte % 2) * 128 + byte
        / 2) as u8 == (byte >> 1u8) | (byte << 7u8)) && (((byte % 128) * 2 + 1) as u8 == (byte << 1u8) | 1u8) && (((
    byte % 128) * 2) as u8 == byte << 1u8) && ((128 + byte / 2) as u8 == (byte >> 1u8) | 0x80u8) && ((byte / 2) as u8
        == byte >> 1u8) && ((byte >= 128) == (byte & 0x80 != 0)) && ((byte % 2 == 1) == (byte & 0x01 != 0)) && ((
    byte / 2 + (if byte >= 128 { 128u8 } else { 0u8 })) as u8 == (byte >> 1u8) | (byte & 0x80)) && (((byte % 16)
        * 16 + byte / 16) as u8 == (byte << 4u8) | (byte >> 4u8)) && (byte << 1u8) | 0u8 == byte << 1u8 && (byte
        >> 1u8) | 0u8 == byte >> 1u8) by (bit_vector);
    if carry {
        assert(shifted(ShiftKind::RotateLeftThroughCarry, byte, carry).0 == ((byte % 128) * 2 + 1) as u8);
        assert(shifted(ShiftKind::RotateRightThroughCarry, byte, carry).0 == (128 + byte / 2) as u8);
    } else {
        assert(shifted(ShiftKind::RotateLeftThroughCarry, byte, carry).0 == ((byte % 128) * 2) as u8);
        assert(shifted(ShiftKind::RotateRightThroughCarry, byte, carry).0 == (byte / 2) as u8);
    }
}

} // verus!
