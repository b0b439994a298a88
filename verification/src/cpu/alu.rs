use crate::address_bus::clock_frame;
use crate::cpu::microops::{cycled_write, known_read, same_processor};
use crate::cpu::{hl_value, c_flag, h_flag, n_flag, pair_value, register_bc, register_de, register_hl, register_value, with_flags, with_pair, with_register, z_flag, Cpu, Register, RegisterPair, Registers};
use vstd::prelude::*;

verus! {

/// A byte operation's result and flags Z, N, H, C.
pub struct AluResult {
    pub value: u8,
    pub z: bool,
    pub n: bool,
    pub h: bool,
    pub c: bool,
}

pub open spec fn alu_add(byte: u8, value: u8, carry: bool) -> (u8, bool, bool) {
    let cin: int = if carry { 1 } else { 0 };
    (((byte + value + cin) % 256) as u8, value % 16 + byte % 16 + cin > 15, value + byte + cin > 255)
}

pub open spec fn alu_sub(byte: u8, value: u8, carry: bool) -> (u8, bool, bool) {
    let cin: int = if carry { 1 } else { 0 };
    (((byte - value - cin) % 256) as u8, byte % 16 < value % 16 + cin, value + cin > byte)
}

/// The registers after an operation stored `value` in `register` and then set the flags.
pub open spec fn stored_with_flags(r: Registers, register: Register, value: u8, z: bool, n: bool, h: bool, c: bool) -> Registers {
    let r1 = with_register(r, register, value);
    Registers { f: with_flags(r1.f, z, n, h, c), ..r1 }
}

/// The registers after an operation stored `value` in `register` and set Z, N and H, leaving C.
pub open spec fn stored_keeping_carry(r: Registers, register: Register, value: u8, z: bool, n: bool, h: bool) -> Registers {
    let r1 = with_register(r, register, value);
    Registers { f: with_flags(r1.f, z, n, h, c_flag(r1.f)), ..r1 }
}

/// The registers after the flags alone changed.
pub open spec fn flags_set(r: Registers, z: bool, n: bool, h: bool, c: bool) -> Registers {
    Registers { f: with_flags(r.f, z, n, h, c), ..r }
}

/// A machine cycle with a read, then a machine cycle with a write.
pub open spec fn read_then_write(a: crate::address_bus::AddressBus, b: crate::address_bus::AddressBus, address: u16, value: u8) -> bool {
    exists|mid: crate::address_bus::AddressBus| clock_frame(a, mid) && #[trigger] cycled_write(mid, b, address, value)
}

/// A read, then a write, as a run of one write.
pub proof fn lemma_read_then_write_wrote(a: crate::address_bus::AddressBus, b: crate::address_bus::AddressBus, address: u16, value: u8)
    requires
        read_then_write(a, b, address, value),
    ensures
        crate::cpu::microops::wrote(a, b, seq![(address, value)]),
{
    let mid = choose|mid: crate::address_bus::AddressBus| clock_frame(a, mid) && #[trigger] cycled_write(mid, b, address, value);
    crate::cpu::microops::lemma_wrote_one(mid, b, address, value);
    crate::cpu::microops::lemma_cycles_then_wrote(a, mid, b, seq![(address, value)]);
}

/// The decimal adjustment of A after a BCD addition or subtraction: (A, C).
pub open spec fn daa(a: u8, n: bool, h: bool, c: bool) -> (u8, bool) {
    if n {
        let v1: int = if c { (a - 0x60) % 256 } else { a as int };
        let v2: int = if h { (v1 - 0x6) % 256 } else { v1 };
        (v2 as u8, c)
    } else {
        let up = c || a > 0x99;
        let v1: int = if up { (a + 0x60) % 256 } else { a as int };
        let v2: int = if h || v1 % 16 > 9 { (v1 + 0x6) % 256 } else { v1 };
        (v2 as u8, c || up)
    }
}

fn daa_exec(a: u8, n_flag: bool, h_flag: bool, c_flag: bool) -> (r: (u8, bool))
    ensures
        r == daa(a, n_flag, h_flag, c_flag),
{
    let mut value = a;
    let mut carry = c_flag;
    if n_flag {
        if c_flag {
            value = value.wrapping_sub(0x60);
        }
        if h_flag {
            value = value.wrapping_sub(0x6);
        }
    } else {
        if c_flag || value > 0x99 {
            value = value.wrapping_add(0x60);
            carry = true;
        }
        if h_flag || (value % 16) > 0x9 {
            value = value.wrapping_add(0x6);
        }
    }
    (value, carry)
}

impl Cpu {
    pub fn add_value_to_register(&mut self, register: Register, value: u8)
        ensures
            *final(self) == (Cpu {
                registers: stored_with_flags(old(self).registers, register, alu_add(register_value(old(self).registers, register), value, false).0,
                    alu_add(register_value(old(self).registers, register), value, false).0 == 0, false,
                    alu_add(register_value(old(self).registers, register), value, false).1,
                    alu_add(register_value(old(self).registers, register), value, false).2),
                ..*old(self)
            }),
    {
        let byte = self.read_from_register(&register);
        let sum = byte.wrapping_add(value);
        self.store_in_register(register, sum);
        self.set_flags(sum == 0, false, (value % 16) + (byte % 16) > 0xF, (value as u16 + byte as u16) > 0xFF);
    }

    /// Adds a word to a register pair: N is cleared, H and C come from bits 11 and 15; Z stays.
    pub fn add_value_to_register_pair(&mut self, register_pair: RegisterPair, value: u16)
        requires
            old(self).wf(),
        ensures
            final(self).wf(),
            final(self).registers == ({
                let word = pair_value(old(self).registers, register_pair);
                let r1 = with_pair(old(self).registers, register_pair, ((word + value) % 65536) as u16);
                Registers { f: with_flags(r1.f, z_flag(r1.f), false, value % 4096 + word % 4096 > 0xFFF, value + word > 0xFFFF), ..r1 }
            }),
            same_processor(Cpu { registers: final(self).registers, ..*old(self) }, *final(self)),
            clock_frame(old(self).address_bus, final(self).address_bus),
    {
        let word = self.read_from_register_pair(&register_pair);
        let sum = word.wrapping_add(value);
        self.store_in_register_pair(register_pair, sum);
        let z = self.is_z_flag_set();
        self.set_flags(z, false, (value % 4096) + (word % 4096) > 0xFFF, (value as u32 + word as u32) > 0xFFFF);
        self.step_one_machine_cycle();
    }

    pub fn add_value_and_carry_to_register(&mut self, register: Register, value: u8)
        ensures
            *final(self) == (Cpu {
                registers: stored_with_flags(old(self).registers, register,
                    alu_add(register_value(old(self).registers, register), value, c_flag(old(self).registers.f)).0,
                    alu_add(register_value(old(self).registers, register), value, c_flag(old(self).registers.f)).0 == 0, false,
                    alu_add(register_value(old(self).registers, register), value, c_flag(old(self).registers.f)).1,
                    alu_add(register_value(old(self).registers, register), value, c_flag(old(self).registers.f)).2),
                ..*old(self)
            }),
    {
        let carry_value: u8 = if self.is_c_flag_set() { 1 } else { 0 };
        let byte = self.read_from_register(&register);
        let sum = byte.wrapping_add(value).wrapping_add(carry_value);
        self.store_in_register(register, sum);
        self.set_flags(sum == 0, false, ((value % 16) + (byte % 16) + carry_value) > 0xF, (value as u16 + byte as u16 + carry_value as u16) > 0xFF);
    }

    pub fn subtract_value_from_register(&mut self, register: Register, value: u8)
        ensures
            *final(self) == (Cpu {
                registers: stored_with_flags(old(self).registers, register, alu_sub(register_value(old(self).registers, register), value, false).0,
                    alu_sub(register_value(old(self).registers, register), value, false).0 == 0, true,
                    alu_sub(register_value(old(self).registers, register), value, false).1,
                    alu_sub(register_value(old(self).registers, register), value, false).2),
                ..*old(self)
            }),
    {
        let byte = self.read_from_register(&register);
        let difference = byte.wrapping_sub(value);
        self.store_in_register(register, difference);
        self.set_flags(difference == 0, true, (byte % 16) < (value % 16), byte < value);
    }

    pub fn subtract_value_and_carry_from_register(&mut self, register: Register, value: u8)
        ensures
            *final(self) == (Cpu {
                registers: stored_with_flags(old(self).registers, register,
                    alu_sub(register_value(old(self).registers, register), value, c_flag(old(self).registers.f)).0,
                    alu_sub(register_value(old(self).registers, register), value, c_flag(old(self).registers.f)).0 == 0, true,
                    alu_sub(register_value(old(self).registers, register), value, c_flag(old(self).registers.f)).1,
                    alu_sub(register_value(old(self).registers, register), value, c_flag(old(self).registers.f)).2),
                ..*old(self)
            }),
    {
        let carry_value: u8 = if self.is_c_flag_set() { 1 } else { 0 };
        let byte = self.read_from_register(&register);
        let difference = byte.wrapping_sub(value).wrapping_sub(carry_value);
        self.store_in_register(register, difference);
        self.set_flags(difference == 0, true, (byte % 16) < ((value % 16) + carry_value), ((value as u16) + (carry_value as u16)) > (byte as u16));
    }

    pub fn logical_and_with_register(&mut self, register: Register, value: u8)
        ensures
            *final(self) == (Cpu {
                registers: stored_with_flags(old(self).registers, register, register_value(old(self).registers, register) & value,
                    register_value(old(self).registers, register) & value == 0, false, true, false),
                ..*old(self)
            }),
    {
        let byte = self.read_from_register(&register);
        let result = byte & value;
        self.store_in_register(register, result);
        self.set_flags(result == 0, false, true, false);
    }

    pub fn logical_or_with_register(&mut self, register: Register, value: u8)
        ensures
            *final(self) == (Cpu {
                registers: stored_with_flags(old(self).registers, register, register_value(old(self).registers, register) | value,
                    register_value(old(self).registers, register) | value == 0, false, false, false),
                ..*old(self)
            }),
    {
        let byte = self.read_from_register(&register);
        let result = byte | value;
        self.store_in_register(register, result);
        self.set_flags(result == 0, false, false, false);
    }

    pub fn logical_xor_with_register(&mut self, register: Register, value: u8)
        ensures
            *final(self) == (Cpu {
                registers: stored_with_flags(old(self).registers, register, register_value(old(self).registers, register) ^ value,
                    register_value(old(self).registers, register) ^ value == 0, false, false, false),
                ..*old(self)
            }),
    {
        let byte = self.read_from_register(&register);
        let result = byte ^ value;
        self.store_in_register(register, result);
        self.set_flags(result == 0, false, false, false);
    }

    /// Sets the flags as a subtraction would, without storing the difference.
    pub fn compare_value_with_register(&mut self, register: Register, value: u8)
        ensures
            *final(self) == (Cpu {
                registers: flags_set(old(self).registers,
                    alu_sub(register_value(old(self).registers, register), value, false).0 == 0, true,
                    alu_sub(register_value(old(self).registers, register), value, false).1,
                    alu_sub(register_value(old(self).registers, register), value, false).2),
                ..*old(self)
            }),
    {
        let byte = self.read_from_register(&register);
        let difference = byte.wrapping_sub(value);
        self.set_flags(difference == 0, true, (byte % 16) < (value % 16), byte < value);
    }

    pub fn increment_register(&mut self, register: Register)
        ensures
            *final(self) == (Cpu {
                registers: stored_keeping_carry(old(self).registers, register, ((register_value(old(self).registers, register) + 1) % 256) as u8,
                    (register_value(old(self).registers, register) + 1) % 256 == 0, false,
                    register_value(old(self).registers, register) % 16 == 15),
                ..*old(self)
            }),
    {
        let byte = self.read_from_register(&register);
        let sum = byte.wrapping_add(1);
        self.store_in_register(register, sum);
        let c = self.is_c_flag_set();
        self.set_flags(sum == 0, false, (1 + (byte % 16)) > 0xF, c);
    }

    pub fn decrement_register(&mut self, register: Register)
        ensures
            *final(self) == (Cpu {
                registers: stored_keeping_carry(old(self).registers, register, ((register_value(old(self).registers, register) - 1) % 256) as u8,
                    (register_value(old(self).registers, register) - 1) % 256 == 0, true,
                    register_value(old(self).registers, register) % 16 == 0),
                ..*old(self)
            }),
    {
        let byte = self.read_from_register(&register);
        let difference = byte.wrapping_sub(1);
        self.store_in_register(register, difference);
        let c = self.is_c_flag_set();
        self.set_flags(difference == 0, true, (byte % 16) < 1, c);
    }

    /// Increments the byte at HL; flags as for a register, with C left.
    pub fn increment_memory_byte(&mut self)
        requires
            old(self).wf(),
        ensures
            final(self).wf(),
            final(self).registers == (Registers { f: final(self).registers.f, ..old(self).registers }),
            same_processor(Cpu { registers: final(self).registers, ..*old(self) }, *final(self)),
            known_read(old(self).address_bus, hl_value(old(self).registers)) matches Some(byte) ==> {
                &&& final(self).registers.f == with_flags(old(self).registers.f, (byte + 1) % 256 == 0, false, byte % 16 == 15, c_flag(old(self).registers.f))
                &&& read_then_write(old(self).address_bus, final(self).address_bus, hl_value(old(self).registers), ((byte + 1) % 256) as u8)
            },
    {
        let address = self.read_from_register_pair(&register_hl());
        let ghost start = self.address_bus;
        let byte = self.read_byte_from_memory(address);
        let ghost mid = self.address_bus;
        let sum = byte.wrapping_add(1);
        self.store_byte_in_memory(address, sum);
        let c = self.is_c_flag_set();
        self.set_flags(sum == 0, false, (1 + (byte % 16)) > 0xF, c);
        proof {
            assert(clock_frame(start, mid));
        }
    }

    /// Decrements the byte at HL; flags as for a register, with C left.
    pub fn decrement_memory_byte(&mut self)
        requires
            old(self).wf(),
        ensures
            final(self).wf(),
            final(self).registers == (Registers { f: final(self).registers.f, ..old(self).registers }),
            same_processor(Cpu { registers: final(self).registers, ..*old(self) }, *final(self)),
            known_read(old(self).address_bus, hl_value(old(self).registers)) matches Some(byte) ==> {
                &&& final(self).registers.f == with_flags(old(self).registers.f, (byte - 1) % 256 == 0, true, byte % 16 == 0, c_flag(old(self).registers.f))
                &&& read_then_write(old(self).address_bus, final(self).address_bus, hl_value(old(self).registers), ((byte - 1) % 256) as u8)
            },
    {
        let address = self.read_from_register_pair(&register_hl());
        let ghost start = self.address_bus;
        let byte = self.read_byte_from_memory(address);
        let ghost mid = self.address_bus;
        let difference = byte.wrapping_sub(1);
        self.store_byte_in_memory(address, difference);
        let c = self.is_c_flag_set();
        self.set_flags(difference == 0, true, (byte % 16) < 1, c);
        proof {
            assert(clock_frame(start, mid));
        }
    }

    pub fn increment_register_pair(&mut self, register_pair: RegisterPair)
        requires
            old(self).wf(),
        ensures
            final(self).wf(),
            final(self).registers == with_pair(old(self).registers, register_pair, ((pair_value(old(self).registers, register_pair) + 1) % 65536) as u16),
            same_processor(Cpu { registers: final(self).registers, ..*old(self) }, *final(self)),
            clock_frame(old(self).address_bus, final(self).address_bus),
    {
        let word = self.read_from_register_pair(&register_pair);
        let sum = word.wrapping_add(1);
        self.store_in_register_pair(register_pair, sum);
        self.step_one_machine_cycle();
    }

    pub fn decrement_register_pair(&mut self, register_pair: RegisterPair)
        requires
            old(self).wf(),
        ensures
            final(self).wf(),
            final(self).registers == with_pair(old(self).registers, register_pair, ((pair_value(old(self).registers, register_pair) - 1) % 65536) as u16),
            same_processor(Cpu { registers: final(self).registers, ..*old(self) }, *final(self)),
            clock_frame(old(self).address_bus, final(self).address_bus),
    {
        let word = self.read_from_register_pair(&register_pair);
        let sum = word.wrapping_sub(1);
        self.store_in_register_pair(register_pair, sum);
        self.step_one_machine_cycle();
    }

    /// DAA: corrects A after a BCD addition or subtraction; Z follows the result, H is
    /// cleared, N stays, and C is set when the correction carries.
    pub fn bcd_adjust(&mut self)
        ensures
            *final(self) == (Cpu {
                registers: Registers {
                    a: daa(old(self).registers.a, n_flag(old(self).registers.f), h_flag(old(self).registers.f), c_flag(old(self).registers.f)).0,
                    f: with_flags(old(self).registers.f,
                        daa(old(self).registers.a, n_flag(old(self).registers.f), h_flag(old(self).registers.f), c_flag(old(self).registers.f)).0 == 0,
                        n_flag(old(self).registers.f), false,
                        daa(old(self).registers.a, n_flag(old(self).registers.f), h_flag(old(self).registers.f), c_flag(old(self).registers.f)).1),
                    ..old(self).registers
                },
                ..*old(self)
            }),
    {
        let c_flag = self.is_c_flag_set();
        let n_flag = self.is_n_flag_set();
        let h_flag = self.is_h_flag_set();
        let (value, carry) = daa_exec(self.registers.a, n_flag, h_flag, c_flag);
        self.store_in_register(Register::A, value);
        self.set_flags(value == 0, n_flag, false, carry);
    }
}

/// Subtracting a byte that was just added gives back the original byte, and the carry out of
/// the addition is the borrow of the subtraction.
pub proof fn law_sub_undoes_add(byte: u8, value: u8)
    ensures
        alu_sub(alu_add(byte, value, false).0, value, false).0 == byte,
        alu_sub(alu_add(byte, value, false).0, value, false).2 == alu_add(byte, value, false).2,
{
}

/// The flags of an addition: H is bit 4 of `byte ^ value ^ result`, the carry out of the low
/// nibble, and C is set exactly when the sum does not fit in a byte; the result is the sum
/// less 256 when it does not.
pub proof fn law_add_flags(byte: u8, value: u8, carry: bool)
    ensures
        alu_add(byte, value, carry).1 <==> (byte ^ value ^ alu_add(byte, value, carry).0) & 0x10 != 0,
        alu_add(byte, value, carry).2 <==> byte + value + (if carry { 1int } else { 0 }) > 255,
        alu_add(byte, value, carry).0 == byte + value + (if carry { 1int } else { 0 }) - (if alu_add(
            byte,
            value,
            carry,
        ).2 {
            256int
        } else {
            0
        }),
{
    let r: u8 = alu_add(byte, value, carry).0;
    let ci: u8 = if carry { 1 } else { 0 };
    assert(r == ((byte + value + ci) % 256) as u8);
    assert((byte % 16 + value % 16 + ci > 15 <==> (byte ^ value ^ r) & 0x10 != 0)) by (bit_vector)
        requires
            ci <= 1,
            r == ((byte + value + ci) % 256) as u8,
    ;
}

/// The flags of a subtraction: H is bit 4 of `byte ^ value ^ result`, the borrow into the
/// low nibble, and C is set exactly when what is taken away exceeds `byte`; the result is the
/// difference plus 256 when it does.
pub proof fn law_sub_flags(byte: u8, value: u8, carry: bool)
    ensures
        alu_sub(byte, value, carry).1 <==> (byte ^ value ^ alu_sub(byte, value, carry).0) & 0x10 != 0,
        alu_sub(byte, value, carry).2 <==> value + (if carry { 1int } else { 0 }) > byte,
        alu_sub(byte, value, carry).0 == byte - value - (if carry { 1int } else { 0 }) + (if alu_sub(
            byte,
            value,
            carry,
        ).2 {
            256int
        } else {
            0
        }),
{
    let r: u8 = alu_sub(byte, value, carry).0;
    let ci: u8 = if carry { 1 } else { 0 };
    assert(r == ((byte + 256 - value - ci) % 256) as u8);
    assert((byte % 16 < value % 16 + ci <==> (byte ^ value ^ r) & 0x10 != 0)) by (bit_vector)
        requires
            ci <= 1,
            r == ((byte + 256 - value - ci) % 256) as u8,
    ;
}

/// A byte read as two decimal digits, one per nibble.
pub open spec fn is_bcd(byte: u8) -> bool {
    byte % 16 <= 9 && byte / 16 <= 9
}

/// The number that a packed decimal byte stands for.
pub open spec fn bcd_number(byte: u8) -> int {
    (byte / 16) * 10 + byte % 16
}

/// The packed decimal byte of a number below one hundred.
pub open spec fn bcd_byte(number: int) -> u8 {
    ((number / 10) * 16 + number % 10) as u8
}

proof fn lemma_daa_after_add(a: u8, b: u8)
    requires
        a % 16 <= 9,
        a / 16 <= 9,
        b % 16 <= 9,
        b / 16 <= 9,
    ensures
        ({
            let s: u8 = ((a + b) % 256) as u8;
            let up: bool = a + b > 255 || s > 0x99;
            let v1: u8 = if up { ((s + 0x60) % 256) as u8 } else { s };
            let v2: u8 = if b % 16 + a % 16 > 15 || v1 % 16 > 9 { ((v1 + 0x6) % 256) as u8 } else { v1 };
            &&& v2 == ((((a / 16) * 10 + a % 16 + (b / 16) * 10 + b % 16) % 100) / 10) * 16
                + (((a / 16) * 10 + a % 16 + (b / 16) * 10 + b % 16) % 100) % 10
            &&& up == ((a / 16) * 10 + a % 16 + (b / 16) * 10 + b % 16 >= 100)
        }),
{
    assert({
        let s: u8 = ((a + b) % 256) as u8;
        let up: bool = a + b > 255 || s > 0x99;
        let v1: u8 = if up { ((s + 0x60) % 256) as u8 } else { s };
        let v2: u8 = if b % 16 + a % 16 > 15 || v1 % 16 > 9 { ((v1 + 0x6) % 256) as u8 } else { v1 };
        &&& v2 == ((((a / 16) * 10 + a % 16 + (b / 16) * 10 + b % 16) % 100) / 10) * 16
            + (((a / 16) * 10 + a % 16 + (b / 16) * 10 + b % 16) % 100) % 10
        &&& up == ((a / 16) * 10 + a % 16 + (b / 16) * 10 + b % 16 >= 100)
    }) by (bit_vector)
        requires
            a % 16 <= 9,
            a / 16 <= 9,
            b % 16 <= 9,
            b / 16 <= 9,
    ;
}

/// DAA after the addition of two packed decimal bytes gives the packed decimal sum, with the
/// carry flag set exactly when the sum reaches one hundred.
pub proof fn law_daa_after_bcd_addition(a: u8, b: u8)
    requires
        is_bcd(a),
        is_bcd(b),
    ensures
        daa(alu_add(a, b, false).0, false, alu_add(a, b, false).1, alu_add(a, b, false).2)
            == (bcd_byte((bcd_number(a) + bcd_number(b)) % 100), bcd_number(a) + bcd_number(b) >= 100),
{
    lemma_daa_after_add(a, b);
}

proof fn lemma_daa_after_sub(a: u8, b: u8)
    requires
        a % 16 <= 9,
        a / 16 <= 9,
        b % 16 <= 9,
        b / 16 <= 9,
    ensures
        ({
            let s: u8 = ((a - b) % 256) as u8;
            let v1: u8 = if b > a { ((s - 0x60) % 256) as u8 } else { s };
            let v2: u8 = if a % 16 < b % 16 { ((v1 - 0x6) % 256) as u8 } else { v1 };
            v2 == ((((a / 16) * 10 + a % 16 + 100 - (b / 16) * 10 - b % 16) % 100) / 10) * 16
                + (((a / 16) * 10 + a % 16 + 100 - (b / 16) * 10 - b % 16) % 100) % 10
        }),
{
    assert({
        let s: u8 = ((a - b) % 256) as u8;
        let v1: u8 = if b > a { ((s - 0x60) % 256) as u8 } else { s };
        let v2: u8 = if a % 16 < b % 16 { ((v1 - 0x6) % 256) as u8 } else { v1 };
        v2 == ((((a / 16) * 10 + a % 16 + 100 - (b / 16) * 10 - b % 16) % 100) / 10) * 16
            + (((a / 16) * 10 + a % 16 + 100 - (b / 16) * 10 - b % 16) % 100) % 10
    }) by (bit_vector)
        requires
            a % 16 <= 9,
            a / 16 <= 9,
            b % 16 <= 9,
            b / 16 <= 9,
    ;
}

/// DAA after the subtraction of two packed decimal bytes gives the packed decimal difference
/// modulo one hundred, with the carry flag set exactly when the subtraction borrowed.
pub proof fn law_daa_after_bcd_subtraction(a: u8, b: u8)
    requires
        is_bcd(a),
        is_bcd(b),
    ensures
        daa(alu_sub(a, b, false).0, true, alu_sub(a, b, false).1, alu_sub(a, b, false).2)
            == (bcd_byte((bcd_number(a) + 100 - bcd_number(b)) % 100), bcd_number(a) < bcd_number(b)),
{
    lemma_daa_after_sub(a, b);
    assert(bcd_number(a) < bcd_number(b) <==> a < b);
}

} // verus!
