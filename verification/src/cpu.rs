use crate::address_bus::AddressBus;
use crate::utils::bit_is_set;
use vstd::prelude::*;

verus! {

/// The processor's registers, with the opcode fetched for the next step.
#[derive(Clone, Copy, Debug)]
pub struct Registers {
    pub a: u8,
    pub b: u8,
    pub c: u8,
    pub d: u8,
    pub e: u8,
    pub h: u8,
    pub l: u8,
    pub f: u8,
    pub opcode: u8,
    pub program_counter: u16,
    pub stack_pointer: u16,
}

/// The interrupt master enable and the delays with which EI and DI take effect.
#[derive(Clone, Copy, Debug)]
pub struct Interrupts {
    pub enable_delay: u8,
    pub disable_delay: u8,
    pub enabled: bool,
}

#[derive(PartialEq, Eq, Structural, Clone, Copy, Debug)]
pub enum BusActivityType {
    Read,
    Write,
}

/// One bus access of an instruction, recorded in processor test mode.
#[derive(PartialEq, Eq, Structural, Clone, Copy, Debug)]
pub struct BusActivityEntry {
    pub address: u16,
    pub value: u8,
    pub activity_type: BusActivityType,
}

/// The processor and the bus it drives. `illegal_opcode` holds the opcode that stopped it,
/// if one did: the processor then executes nothing more.
pub struct Cpu {
    pub registers: Registers,
    pub halted: bool,
    pub halt_bug: bool,
    pub interrupts: Interrupts,
    pub instruction_clock_cycles: u8,
    pub opcode_bus_activity: Vec<Option<BusActivityEntry>>,
    pub address_bus: AddressBus,
    pub illegal_opcode: Option<u8>,
}

#[derive(PartialEq, Eq, Structural, Clone, Copy, Debug)]
pub enum Register {
    A,
    B,
    C,
    D,
    E,
    F,
    H,
    L,
}

#[derive(PartialEq, Eq, Structural, Clone, Copy, Debug)]
pub struct RegisterPair {
    pub first: Register,
    pub second: Register,
}

pub fn register_af() -> (pair: RegisterPair)
    ensures
        pair == (RegisterPair { first: Register::A, second: Register::F }),
{
    RegisterPair { first: Register::A, second: Register::F }
}

pub fn register_hl() -> (pair: RegisterPair)
    ensures
        pair == (RegisterPair { first: Register::H, second: Register::L }),
{
    RegisterPair { first: Register::H, second: Register::L }
}

pub fn register_bc() -> (pair: RegisterPair)
    ensures
        pair == (RegisterPair { first: Register::B, second: Register::C }),
{
    RegisterPair { first: Register::B, second: Register::C }
}

pub fn register_de() -> (pair: RegisterPair)
    ensures
        pair == (RegisterPair { first: Register::D, second: Register::E }),
{
    RegisterPair { first: Register::D, second: Register::E }
}

/// What stopped the processor: an opcode that the instruction set leaves undefined.
#[derive(PartialEq, Eq, Structural, Clone, Copy, Debug)]
pub struct IllegalOpcode {
    pub opcode: u8,
}

/// Reports an undefined opcode; the processor stops on it.
pub fn handle_illegal_opcode(opcode: u8) -> (e: IllegalOpcode)
    ensures
        e.opcode == opcode,
{
    IllegalOpcode { opcode }
}

pub open spec fn register_value(r: Registers, register: Register) -> u8 {
    match register {
        Register::A => r.a,
        Register::B => r.b,
        Register::C => r.c,
        Register::D => r.d,
        Register::E => r.e,
        Register::F => r.f,
        Register::H => r.h,
        Register::L => r.l,
    }
}

pub open spec fn with_register(r: Registers, register: Register, value: u8) -> Registers {
    match register {
        Register::A => Registers { a: value, ..r },
        Register::B => Registers { b: value, ..r },
        Register::C => Registers { c: value, ..r },
        Register::D => Registers { d: value, ..r },
        Register::E => Registers { e: value, ..r },
        Register::F => Registers { f: value, ..r },
        Register::H => Registers { h: value, ..r },
        Register::L => Registers { l: value, ..r },
    }
}

/// A register pair as a word: the first register is the high byte.
pub open spec fn pair_value(r: Registers, pair: RegisterPair) -> u16 {
    (register_value(r, pair.first) as int * 256 + register_value(r, pair.second) as int) as u16
}

/// The registers with the program counter moved.
pub open spec fn with_program_counter(r: Registers, program_counter: u16) -> Registers {
    Registers { program_counter, ..r }
}

/// The registers with the stack pointer moved.
pub open spec fn with_stack_pointer(r: Registers, stack_pointer: u16) -> Registers {
    Registers { stack_pointer, ..r }
}

/// HL as a word.
pub open spec fn hl_value(r: Registers) -> u16 {
    (r.h as int * 256 + r.l as int) as u16
}

pub open spec fn with_pair(r: Registers, pair: RegisterPair, value: u16) -> Registers {
    with_register(with_register(r, pair.first, (value / 256) as u8), pair.second, (value % 256) as u8)
}

/// The flag register with the four flags replaced: Z, N, H and C are bits 7 to 4; the low
/// bits stay.
pub open spec fn with_flags(f: u8, z: bool, n: bool, h: bool, c: bool) -> u8 {
    (f & 0x0F) | (if z { 0x80u8 } else { 0 }) | (if n { 0x40u8 } else { 0 }) | (if h { 0x20u8 } else { 0 })
        | (if c { 0x10u8 } else { 0 })
}

pub open spec fn z_flag(f: u8) -> bool {
    bit_is_set(f, 7)
}

pub open spec fn n_flag(f: u8) -> bool {
    bit_is_set(f, 6)
}

pub open spec fn h_flag(f: u8) -> bool {
    bit_is_set(f, 5)
}

pub open spec fn c_flag(f: u8) -> bool {
    bit_is_set(f, 4)
}

/// The flags read back what was written into the flag register: Z, N, H and C from bits 7, 6,
/// 5 and 4, the low nibble kept.
pub proof fn law_flags_read_back(f: u8, z: bool, n: bool, h: bool, c: bool)
    ensures
        z_flag(with_flags(f, z, n, h, c)) == z,
        n_flag(with_flags(f, z, n, h, c)) == n,
        h_flag(with_flags(f, z, n, h, c)) == h,
        c_flag(with_flags(f, z, n, h, c)) == c,
        with_flags(f, z, n, h, c) & 0x0F == f & 0x0F,
{
    let zb: u8 = if z { 0x80u8 } else { 0 };
    let nb: u8 = if n { 0x40u8 } else { 0 };
    let hb: u8 = if h { 0x20u8 } else { 0 };
    let cb: u8 = if c { 0x10u8 } else { 0 };
    let w: u8 = with_flags(f, z, n, h, c);
    assert(((w >> 7u8) & 1 == 1 <==> zb == 0x80) && ((w >> 6u8) & 1 == 1 <==> nb == 0x40) && ((w >> 5u8) & 1 == 1
        <==> hb == 0x20) && ((w >> 4u8) & 1 == 1 <==> cb == 0x10) && w & 0x0F == f & 0x0F) by (bit_vector)
        requires
            zb == 0x80 || zb == 0,
            nb == 0x40 || nb == 0,
            hb == 0x20 || hb == 0,
            cb == 0x10 || cb == 0,
            w == (f & 0x0F) | zb | nb | hb | cb,
    ;
}

impl Cpu {
    pub open spec fn wf(&self) -> bool {
        self.address_bus.wf()
    }

    pub fn new(address_bus: AddressBus) -> (cpu: Self)
        requires
            address_bus.wf(),
        ensures
            cpu.wf(),
            cpu.address_bus == address_bus,
            cpu.registers == (Registers { a: 0, b: 0, c: 0, d: 0, e: 0, h: 0, l: 0, f: 0, opcode: 0, program_counter: 0, stack_pointer: 0 }),
            !cpu.halted && !cpu.halt_bug,
            cpu.interrupts.enable_delay == 0 && cpu.interrupts.disable_delay == 0 && !cpu.interrupts.enabled,
            cpu.instruction_clock_cycles == 0,
            cpu.opcode_bus_activity@.len() == 0,
            cpu.illegal_opcode is None,
    {
        Cpu {
            registers: Registers { a: 0, b: 0, c: 0, d: 0, e: 0, h: 0, l: 0, f: 0, opcode: 0, program_counter: 0, stack_pointer: 0 },
            halted: false,
            halt_bug: false,
            interrupts: Interrupts { enable_delay: 0, disable_delay: 0, enabled: false },
            instruction_clock_cycles: 0,
            opcode_bus_activity: Vec::new(),
            address_bus,
            illegal_opcode: None,
        }
    }

    pub fn at_end_of_boot_rom(&self) -> (r: bool)
        ensures
            r == (self.registers.program_counter == 0x100),
    {
        self.registers.program_counter == 0x100
    }
}

/// A register pair reads back the word stored in it.
pub proof fn law_pair_read_after_write(r: Registers, pair: RegisterPair, value: u16)
    requires
        pair.first != pair.second,
    ensures
        pair_value(with_pair(r, pair, value), pair) == value,
{
}

} // verus!

pub mod alu;
pub mod bitops;
pub mod hdma;
pub mod interrupts;
pub mod jumps;
pub mod loads;
pub mod microops;
pub mod opcodes;
pub mod timers;
