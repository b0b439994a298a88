use crate::address_bus::{clock_frame, AddressBus};
use crate::address_bus::hdma::VRAMTransferMode;
use crate::cpu::alu::{alu_add, alu_sub, daa, flags_set, lemma_read_then_write_wrote, stored_keeping_carry, stored_with_flags};
use crate::cpu::bitops::{after_register_shift, shifted, swapped, ShiftKind};
use crate::cpu::interrupts::fired_bits;
use crate::cpu::jumps::relative_target;
use crate::cpu::microops::{cycled_write, known_read, known_word, lemma_cycles_then_wrote, same_processor, stack_writes, wrote};
use crate::cpu::{c_flag, h_flag, hl_value, n_flag, pair_value, register_value, with_flags, with_pair, with_register, z_flag};
use crate::cpu::{handle_illegal_opcode, register_af, register_bc, register_de, register_hl, Cpu, Interrupts, Register, RegisterPair, Registers};
use crate::utils::bit_is_set;
use vstd::prelude::*;

verus! {

/// The register that a three-bit operand field names; 6 names (HL) and is never asked for.
pub open spec fn operand_register(index: u8) -> Register {
    if index == 0 {
        Register::B
    } else if index == 1 {
        Register::C
    } else if index == 2 {
        Register::D
    } else if index == 3 {
        Register::E
    } else if index == 4 {
        Register::H
    } else if index == 5 {
        Register::L
    } else {
        Register::A
    }
}

/// The registers after one of the eight operations of the 0x80-0xBF block on A with an
/// operand byte: ADD, ADC, SUB, SBC, AND, XOR, OR and CP.
pub open spec fn alu_result(r: Registers, operation: u8, value: u8) -> Registers {
    let a = r.a;
    let carry = c_flag(r.f);
    if operation == 0 {
        stored_with_flags(r, Register::A, alu_add(a, value, false).0, alu_add(a, value, false).0 == 0, false,
            alu_add(a, value, false).1, alu_add(a, value, false).2)
    } else if operation == 1 {
        stored_with_flags(r, Register::A, alu_add(a, value, carry).0, alu_add(a, value, carry).0 == 0, false,
            alu_add(a, value, carry).1, alu_add(a, value, carry).2)
    } else if operation == 2 {
        stored_with_flags(r, Register::A, alu_sub(a, value, false).0, alu_sub(a, value, false).0 == 0, true,
            alu_sub(a, value, false).1, alu_sub(a, value, false).2)
    } else if operation == 3 {
        stored_with_flags(r, Register::A, alu_sub(a, value, carry).0, alu_sub(a, value, carry).0 == 0, true,
            alu_sub(a, value, carry).1, alu_sub(a, value, carry).2)
    } else if operation == 4 {
        stored_with_flags(r, Register::A, a & value, a & value == 0, false, true, false)
    } else if operation == 5 {
        stored_with_flags(r, Register::A, a ^ value, a ^ value == 0, false, false, false)
    } else if operation == 6 {
        stored_with_flags(r, Register::A, a | value, a | value == 0, false, false, false)
    } else {
        flags_set(r, alu_sub(a, value, false).0 == 0, true, alu_sub(a, value, false).1, alu_sub(a, value, false).2)
    }
}

/// The shift or rotate that groups 0-5 and 7 of the CB-prefixed instructions perform.
pub open spec fn cb_shift_kind(group: u8) -> ShiftKind {
    if group == 0 {
        ShiftKind::RotateLeft
    } else if group == 1 {
        ShiftKind::RotateRight
    } else if group == 2 {
        ShiftKind::RotateLeftThroughCarry
    } else if group == 3 {
        ShiftKind::RotateRightThroughCarry
    } else if group == 4 {
        ShiftKind::ShiftLeft
    } else if group == 5 {
        ShiftKind::ShiftRightArithmetic
    } else {
        ShiftKind::ShiftRightLogical
    }
}

/// The registers after a CB-prefixed instruction whose operand is a register (low three bits
/// other than 6): the shifts and rotates, SWAP, then BIT, RES and SET by the bit in bits 3-5.
pub open spec fn cb_register_result(r: Registers, cb: u8) -> Registers {
    let register = operand_register(cb % 8);
    let group = cb / 8;
    let value = register_value(r, register);
    if group == 6 {
        stored_with_flags(r, register, swapped(value), swapped(value) == 0, false, false, false)
    } else if group < 8 {
        after_register_shift(r, register, cb_shift_kind(group))
    } else if group < 16 {
        flags_set(r, !bit_is_set(value, group % 8), false, true, c_flag(r.f))
    } else if group < 24 {
        with_register(r, register, value & !((1u8 << (group % 8)) as u8))
    } else {
        with_register(r, register, value | ((1u8 << (group % 8)) as u8))
    }
}

/// The byte that a CB-prefixed instruction on (HL) writes back, given the byte it reads and
/// the carry flag: none for BIT.
pub open spec fn cb_memory_write(cb: u8, byte: u8, carry: bool) -> Option<u8> {
    let group = cb / 8;
    if group == 6 {
        Some(swapped(byte))
    } else if group < 8 {
        Some(shifted(cb_shift_kind(group), byte, carry).0)
    } else if group < 16 {
        None
    } else if group < 24 {
        Some(byte & !((1u8 << (group % 8)) as u8))
    } else {
        Some(byte | ((1u8 << (group % 8)) as u8))
    }
}

/// The flag register after a CB-prefixed instruction on (HL), given the byte it reads.
pub open spec fn cb_memory_flags(cb: u8, byte: u8, f: u8) -> u8 {
    let group = cb / 8;
    if group == 6 {
        with_flags(f, swapped(byte) == 0, false, false, false)
    } else if group < 8 {
        let (value, carry) = shifted(cb_shift_kind(group), byte, c_flag(f));
        with_flags(f, value == 0, false, false, carry)
    } else if group < 16 {
        with_flags(f, !bit_is_set(byte, group % 8), false, true, c_flag(f))
    } else {
        f
    }
}

/// The word that PUSH rr or RST n puts on the stack: the pair, or the address after RST.
pub open spec fn pushed_word(r: Registers, opcode: u8) -> u16 {
    if opcode % 8 == 7 {
        r.program_counter
    } else if opcode == 0xF5 {
        pair_value(r, RegisterPair { first: Register::A, second: Register::F })
    } else {
        pair_value(r, opcode_pair(opcode))
    }
}

/// The memory writes of the instruction that `opcode` names, in order, for a processor `c` at
/// the start of its execution (registers `r` with the program counter on the byte after the
/// opcode, and bus `bus`),
/// where the bytes the instruction reads to find them are known: none for the instructions
/// that write no memory, and None for STOP and the undefined opcodes.
pub open spec fn instruction_writes(r: Registers, bus: AddressBus, opcode: u8) -> Option<Seq<(u16, u8)>> {
    let pc = r.program_counter;
    let hl = hl_value(r);
    if is_illegal_opcode(opcode) || opcode == 0x10 {
        None
    } else if opcode == 0xCB {
        match known_read(bus, pc) {
            Some(cb) => if cb % 8 != 6 {
                Some(Seq::empty())
            } else {
                match known_read(bus, hl) {
                    Some(byte) => match cb_memory_write(cb, byte, c_flag(r.f)) {
                        Some(v) => Some(seq![(hl, v)]),
                        None => Some(Seq::empty()),
                    },
                    None => None,
                }
            },
            None => None,
        }
    } else if 0x70 <= opcode <= 0x77 && opcode != 0x76 {
        Some(seq![(hl, register_value(r, operand_register(opcode % 8)))])
    } else if is_indirect_store(opcode) {
        Some(seq![(indirect_address(r, opcode), r.a)])
    } else if opcode == 0x36 {
        match known_read(bus, pc) {
            Some(n) => Some(seq![(hl, n)]),
            None => None,
        }
    } else if opcode == 0x34 || opcode == 0x35 {
        match known_read(bus, hl) {
            Some(byte) => Some(seq![(hl, if opcode == 0x34 { ((byte + 1) % 256) as u8 } else { ((byte - 1) % 256) as u8 })]),
            None => None,
        }
    } else if opcode == 0x08 {
        match known_word(bus, pc) {
            Some(w) => Some(seq![(w, (r.stack_pointer % 256) as u8), (w.wrapping_add(1), (r.stack_pointer / 256) as u8)]),
            None => None,
        }
    } else if opcode == 0xE0 {
        match known_read(bus, pc) {
            Some(n) => Some(seq![((0xFF00 + n) as u16, r.a)]),
            None => None,
        }
    } else if opcode == 0xE2 {
        Some(seq![((0xFF00 + r.c) as u16, r.a)])
    } else if opcode == 0xEA {
        match known_word(bus, pc) {
            Some(w) => Some(seq![(w, r.a)]),
            None => None,
        }
    } else if push_result(r, opcode) is Some {
        Some(stack_writes(r.stack_pointer, pushed_word(r, opcode)))
    } else if opcode == 0xCD || ((opcode == 0xC4 || opcode == 0xCC || opcode == 0xD4 || opcode == 0xDC) && jump_condition(r.f, opcode)) {
        Some(stack_writes(r.stack_pointer, pc.wrapping_add(2)))
    } else {
        Some(Seq::empty())
    }
}

/// What an instruction does to memory: exactly its writes, in order, where they are known
/// (an instruction that writes nothing only lets the machine cycles go by). `r` and `a` are
/// the registers and bus as the instruction starts, `b` the bus after it.
pub open spec fn memory_effect(r: Registers, a: AddressBus, b: AddressBus, opcode: u8) -> bool {
    match instruction_writes(r, a, opcode) {
        Some(w) => if w.len() == 0 { clock_frame(a, b) } else { wrote(a, b, w) },
        None => true,
    }
}

/// The memory effect of an instruction, as the execution functions state it; opaque so that it
/// is only unfolded where an instruction is carried out.
#[verifier::opaque]
pub open spec fn memory_executed(r: Registers, a: AddressBus, b: AddressBus, opcode: u8) -> bool {
    memory_effect(r, a, b, opcode)
}

proof fn lemma_memory_done(r: Registers, a: AddressBus, b: AddressBus, opcode: u8)
    requires
        memory_effect(r, a, b, opcode),
    ensures
        memory_executed(r, a, b, opcode),
{
    reveal(memory_executed);
}

/// What the memory effect of an instruction states.
pub proof fn lemma_memory_executed(r: Registers, a: AddressBus, b: AddressBus, opcode: u8)
    requires
        memory_executed(r, a, b, opcode),
    ensures
        memory_effect(r, a, b, opcode),
{
    reveal(memory_executed);
}

/// The opcodes whose registers `memory_op_executed` states: LD (nn),SP, STOP, INC (HL),
/// DEC (HL), LD (HL),n, RETI, LDH (n),A, LD (C),A, LD (nn),A, LDH A,(n), LD A,(C), LD A,(nn).
pub open spec fn is_memory_op(opcode: u8) -> bool {
    opcode == 0x08 || opcode == 0x10 || opcode == 0x34 || opcode == 0x35 || opcode == 0x36 || opcode == 0xD9
        || opcode == 0xE0 || opcode == 0xE2 || opcode == 0xEA || opcode == 0xF0 || opcode == 0xF2 || opcode == 0xFA
}

/// The registers after an instruction that reads or writes memory at an address other than
/// through BC, DE, HL or the stack, or changes (HL) in place, where the bytes it reads are
/// known.
pub open spec fn memory_op_registers(r: Registers, a: AddressBus, opcode: u8) -> Option<Registers> {
    let pc = r.program_counter;
    let hl = hl_value(r);
    if opcode == 0xE0 || opcode == 0x36 {
        Some(Registers { program_counter: pc.wrapping_add(1), ..r })
    } else if opcode == 0xE2 {
        Some(r)
    } else if opcode == 0xEA || opcode == 0x08 {
        Some(Registers { program_counter: pc.wrapping_add(2), ..r })
    } else if opcode == 0x34 {
        match known_read(a, hl) {
            Some(byte) => Some(Registers { f: with_flags(r.f, (byte + 1) % 256 == 0, false, byte % 16 == 15, c_flag(r.f)), ..r }),
            None => None,
        }
    } else if opcode == 0x35 {
        match known_read(a, hl) {
            Some(byte) => Some(Registers { f: with_flags(r.f, (byte - 1) % 256 == 0, true, byte % 16 == 0, c_flag(r.f)), ..r }),
            None => None,
        }
    } else if opcode == 0xF0 {
        match known_read(a, pc) {
            Some(n) => match known_read(a, (0xFF00 + n) as u16) {
                Some(v) => Some(Registers { a: v, program_counter: pc.wrapping_add(1), ..r }),
                None => None,
            },
            None => None,
        }
    } else if opcode == 0xF2 {
        match known_read(a, (0xFF00 + r.c) as u16) {
            Some(v) => Some(Registers { a: v, ..r }),
            None => None,
        }
    } else if opcode == 0xFA {
        match known_word(a, pc) {
            Some(w) => match known_read(a, w) {
                Some(v) => Some(Registers { a: v, program_counter: pc.wrapping_add(2), ..r }),
                None => None,
            },
            None => None,
        }
    } else {
        None
    }
}

/// The bus after STOP: when the speed switch is armed in CGB mode, double speed toggles in
/// every device that depends on it and the switch disarms; otherwise nothing changes.
pub open spec fn speed_switched(a: AddressBus) -> AddressBus {
    if a.cgb_mode && a.speed_switch.armed {
        let double = !a.speed_switch.cgb_double_speed;
        AddressBus {
            speed_switch: crate::address_bus::speed_switch::SpeedSwitch { armed: false, cgb_double_speed: double, ..a.speed_switch },
            apu: crate::apu::Apu { cgb_double_speed: double, ..a.apu },
            gpu: crate::gpu::Gpu { cgb_double_speed: double, ..a.gpu },
            serial: crate::serial::Serial { cgb_double_speed: double, ..a.serial },
            hdma: crate::address_bus::hdma::HDMAState { cgb_double_speed: double, ..a.hdma },
            ..a
        }
    } else {
        a
    }
}

/// The registers that LDH A,(n), LD A,(C), LD A,(nn), INC (HL) and DEC (HL) leave whatever the
/// byte they read: all but A (or, for INC and DEC, but F) as before, the program counter past
/// the operands.
pub open spec fn memory_op_frame(r: Registers, b: Registers, opcode: u8) -> bool {
    if opcode == 0xF0 {
        b == Registers { a: b.a, program_counter: r.program_counter.wrapping_add(1), ..r }
    } else if opcode == 0xF2 {
        b == Registers { a: b.a, ..r }
    } else if opcode == 0xFA {
        b == Registers { a: b.a, program_counter: r.program_counter.wrapping_add(2), ..r }
    } else if opcode == 0x34 || opcode == 0x35 {
        b == Registers { f: b.f, ..r }
    } else {
        true
    }
}

/// The registers after LD r,(HL) and the operations on A with (HL), whatever the byte read:
/// all but the destination register (A and F for the operations on A) as before.
pub open spec fn hl_read_frame(r: Registers, b: Registers, opcode: u8) -> bool {
    if 0x40 <= opcode <= 0x7F && opcode % 8 == 6 && opcode != 0x76 {
        b == with_register(r, operand_register((opcode / 8) % 8), register_value(b, operand_register((opcode / 8) % 8)))
    } else if 0x80 <= opcode <= 0xBF && opcode % 8 == 6 {
        b == Registers { a: b.a, f: b.f, ..r }
    } else {
        true
    }
}

/// What the instructions of `is_memory_op` do to the registers, STOP to the bus, and RETI to
/// the interrupt master enable; `r` and `a` are the registers and bus as the instruction
/// starts, `b` the processor after it.
#[verifier::opaque]
pub open spec fn memory_op_executed(r: Registers, a: AddressBus, b: Cpu, opcode: u8) -> bool {
    &&& memory_op_registers(r, a, opcode) matches Some(r2) ==> b.registers == r2
    &&& memory_op_frame(r, b.registers, opcode)
    &&& opcode == 0x10 ==> b.registers == r && b.address_bus == speed_switched(a)
    &&& opcode == 0xD9 ==> b.interrupts.enabled
}

proof fn lemma_memory_op_done(r: Registers, a: AddressBus, b: Cpu, opcode: u8)
    requires
        memory_op_registers(r, a, opcode) matches Some(r2) ==> b.registers == r2,
        memory_op_frame(r, b.registers, opcode),
        opcode == 0x10 ==> b.registers == r && b.address_bus == speed_switched(a),
        opcode == 0xD9 ==> b.interrupts.enabled,
    ensures
        memory_op_executed(r, a, b, opcode),
{
    reveal(memory_op_executed);
}

/// What `memory_op_executed` states.
pub proof fn lemma_memory_op_executed(r: Registers, a: AddressBus, b: Cpu, opcode: u8)
    requires
        memory_op_executed(r, a, b, opcode),
    ensures
        memory_op_registers(r, a, opcode) matches Some(r2) ==> b.registers == r2,
        memory_op_frame(r, b.registers, opcode),
        opcode == 0x10 ==> b.registers == r && b.address_bus == speed_switched(a),
        opcode == 0xD9 ==> b.interrupts.enabled,
{
    reveal(memory_op_executed);
}

/// Whether a VRAM DMA step has nothing to do: no transfer runs in CGB mode, or an HBlank
/// transfer waits for its HBlank.
pub open spec fn vram_dma_idle(b: AddressBus) -> bool {
    !(b.cgb_mode && b.hdma.in_progress) || (b.hdma.transfer_mode == VRAMTransferMode::HBlank && !b.hdma.hblank_started)
}

/// One step, through the processor `mid` that the instruction leaves: the instruction's memory
/// writes (and registers, where they are known); then, where an interrupt is enabled and
/// requested, the master enable cleared, the request cleared, the program counter pushed and
/// the jump to the service routine; then the machine cycle that fetches the next opcode.
pub open spec fn step_through(a: Cpu, mid: Cpu, b: Cpu) -> bool {
    let serviced = mid.interrupts.enabled && fired_bits(mid.address_bus) != 0;
    let source = crate::cpu::interrupts::highest_interrupt(fired_bits(mid.address_bus))->0;
    &&& memory_executed(instruction_start(a).registers, a.address_bus, mid.address_bus, a.registers.opcode)
    &&& instruction_registers(a) matches Some(r) ==> mid.registers == r
    &&& serviced ==> {
        &&& wrote(crate::cpu::interrupts::request_cleared(mid.address_bus, source), b.address_bus,
            stack_writes(mid.registers.stack_pointer, mid.registers.program_counter))
        &&& b.registers == Registers {
            program_counter: (crate::cpu::interrupts::interrupt_isr(source) as u16).wrapping_add(1),
            stack_pointer: mid.registers.stack_pointer.wrapping_sub(2),
            opcode: b.registers.opcode,
            ..mid.registers
        }
        &&& !b.interrupts.enabled
    }
    &&& !serviced ==> {
        &&& clock_frame(mid.address_bus, b.address_bus)
        &&& b.registers == Registers { program_counter: mid.registers.program_counter.wrapping_add(1), opcode: b.registers.opcode, ..mid.registers }
        &&& b.interrupts == mid.interrupts
    }
}

/// The interrupt master enable after the delays of EI and DI have ticked once: EI takes
/// effect when its delay runs out, and DI when its delay runs out and no EI is pending.
pub open spec fn delayed_interrupts(i: Interrupts) -> Interrupts {
    if i.enable_delay > 0 {
        Interrupts { enable_delay: (i.enable_delay - 1) as u8, enabled: if i.enable_delay == 1 { true } else { i.enabled }, ..i }
    } else if i.disable_delay > 0 {
        Interrupts { disable_delay: (i.disable_delay - 1) as u8, enabled: if i.disable_delay == 1 { false } else { i.enabled }, ..i }
    } else {
        i
    }
}

/// The processor as an instruction starts: the clock count cleared, the halt bug applied (the
/// program counter steps back once) and the EI/DI delays ticked.
pub open spec fn instruction_start(c: Cpu) -> Cpu {
    let halt_bug_applies = !c.halted && c.halt_bug;
    Cpu {
        registers: if halt_bug_applies {
            Registers { program_counter: c.registers.program_counter.wrapping_sub(1), ..c.registers }
        } else {
            c.registers
        },
        halt_bug: if halt_bug_applies { false } else { c.halt_bug },
        interrupts: delayed_interrupts(c.interrupts),
        instruction_clock_cycles: 0,
        ..c
    }
}

/// One step of an instruction that reads and writes registers alone, when no interrupt is
/// serviced after it: the registers change as the instruction says, then the next opcode is
/// fetched from the address after it.
pub open spec fn register_only_step(a: Cpu, b: Cpu) -> bool {
    let s = instruction_start(a);
    match register_only_result(s.registers, a.registers.opcode) {
        Some(r) => !(s.interrupts.enabled && fired_bits(a.address_bus) != 0) ==> {
            &&& b.registers == Registers { program_counter: r.program_counter.wrapping_add(1), opcode: b.registers.opcode, ..r }
            &&& (known_read(a.address_bus, r.program_counter) matches Some(v) ==> b.registers.opcode == v)
            &&& b.interrupts == s.interrupts
            &&& b.halted == a.halted
            &&& b.halt_bug == s.halt_bug
        },
        None => true,
    }
}

/// The registers after an instruction that reads one immediate byte and otherwise registers
/// alone, for the opcodes that are such an instruction: LD r,n, the operations on A with n,
/// and JR with its conditions. `byte` is the byte after the opcode.
pub open spec fn immediate_result(r: Registers, opcode: u8, byte: u8) -> Option<Registers> {
    let next = Registers { program_counter: r.program_counter.wrapping_add(1), ..r };
    let jumped = Registers { program_counter: relative_target(r.program_counter.wrapping_add(1), byte), ..r };
    if opcode < 0x40 && opcode % 8 == 6 && opcode != 0x36 {
        Some(with_register(next, operand_register(opcode / 8), byte))
    } else if opcode >= 0xC0 && opcode % 8 == 6 {
        Some(alu_result(next, (opcode / 8) % 8, byte))
    } else if opcode == 0x18 {
        Some(jumped)
    } else if opcode == 0x20 {
        Some(if !z_flag(r.f) { jumped } else { next })
    } else if opcode == 0x28 {
        Some(if z_flag(r.f) { jumped } else { next })
    } else if opcode == 0x30 {
        Some(if !c_flag(r.f) { jumped } else { next })
    } else if opcode == 0x38 {
        Some(if c_flag(r.f) { jumped } else { next })
    } else if opcode == 0xE8 {
        Some(Registers { stack_pointer: relative_target(r.stack_pointer, byte), ..stack_offset_flags(next, byte) })
    } else if opcode == 0xF8 {
        Some(with_pair(stack_offset_flags(next, byte), RegisterPair { first: Register::H, second: Register::L },
            relative_target(r.stack_pointer, byte)))
    } else {
        None
    }
}

/// What an instruction with one immediate byte does, where that byte is known: the registers
/// change as the instruction says, and the bus only goes through the machine cycles.
pub open spec fn immediate_executed(a: Cpu, b: Cpu, opcode: u8) -> bool {
    match known_read(a.address_bus, a.registers.program_counter) {
        Some(byte) => match immediate_result(a.registers, opcode, byte) {
            Some(r) => {
                &&& b.registers == r
                &&& same_processor(Cpu { registers: b.registers, ..a }, b)
                &&& clock_frame(a.address_bus, b.address_bus)
            },
            None => true,
        },
        None => true,
    }
}

/// HL plus a word, with the flags that ADD HL sets: Z kept, N cleared, H and C from bits 11
/// and 15.
pub open spec fn added_to_hl(r: Registers, value: u16) -> Registers {
    let hl = RegisterPair { first: Register::H, second: Register::L };
    let word = pair_value(r, hl);
    let r1 = with_pair(r, hl, ((word + value) % 65536) as u16);
    Registers { f: with_flags(r1.f, z_flag(r1.f), false, value % 4096 + word % 4096 > 0xFFF, value + word > 0xFFFF), ..r1 }
}

/// The registers after a 16-bit instruction on registers alone that takes one extra machine
/// cycle, for the opcodes that are such an instruction: INC rr, DEC rr, ADD HL,rr and LD SP,HL.
pub open spec fn word_register_result(r: Registers, opcode: u8) -> Option<Registers> {
    let pair = if opcode / 16 == 0 {
        RegisterPair { first: Register::B, second: Register::C }
    } else if opcode / 16 == 1 {
        RegisterPair { first: Register::D, second: Register::E }
    } else {
        RegisterPair { first: Register::H, second: Register::L }
    };
    if opcode < 0x30 && opcode % 16 == 3 {
        Some(with_pair(r, pair, ((pair_value(r, pair) + 1) % 65536) as u16))
    } else if opcode < 0x30 && opcode % 16 == 0xB {
        Some(with_pair(r, pair, ((pair_value(r, pair) - 1) % 65536) as u16))
    } else if opcode < 0x30 && opcode % 16 == 9 {
        Some(added_to_hl(r, pair_value(r, pair)))
    } else if opcode == 0x33 {
        Some(Registers { stack_pointer: r.stack_pointer.wrapping_add(1), ..r })
    } else if opcode == 0x3B {
        Some(Registers { stack_pointer: r.stack_pointer.wrapping_sub(1), ..r })
    } else if opcode == 0x39 {
        Some(added_to_hl(r, r.stack_pointer))
    } else if opcode == 0xF9 {
        Some(Registers { stack_pointer: pair_value(r, RegisterPair { first: Register::H, second: Register::L }), ..r })
    } else {
        None
    }
}

/// What a 16-bit instruction on registers alone does: the registers change as it says, and the
/// bus goes through the machine cycle.
pub open spec fn word_register_executed(a: Cpu, b: Cpu, opcode: u8) -> bool {
    match word_register_result(a.registers, opcode) {
        Some(r) => {
            &&& b.registers == r
            &&& same_processor(Cpu { registers: b.registers, ..a }, b)
            &&& clock_frame(a.address_bus, b.address_bus)
        },
        None => true,
    }
}

/// The registers after LD r,(HL) or an operation on A with (HL), for the opcodes that are
/// one; `byte` is the byte at HL.
pub open spec fn hl_read_result(r: Registers, opcode: u8, byte: u8) -> Option<Registers> {
    if 0x40 <= opcode <= 0x7F && opcode != 0x76 && opcode % 8 == 6 {
        Some(with_register(r, operand_register((opcode / 8) % 8), byte))
    } else if 0x80 <= opcode <= 0xBF && opcode % 8 == 6 {
        Some(alu_result(r, (opcode / 8) % 8, byte))
    } else {
        None
    }
}

/// What LD r,(HL) and the operations on A with (HL) do, where the byte at HL is known.
pub open spec fn hl_read_executed(a: Cpu, b: Cpu, opcode: u8) -> bool {
    match known_read(a.address_bus, hl_value(a.registers)) {
        Some(byte) => match hl_read_result(a.registers, opcode, byte) {
            Some(r) => {
                &&& b.registers == r
                &&& same_processor(Cpu { registers: b.registers, ..a }, b)
                &&& clock_frame(a.address_bus, b.address_bus)
            },
            None => true,
        },
        None => true,
    }
}

/// What LD (HL),r does: the registers stay, and after a machine cycle the register's byte is
/// written to HL.
pub open spec fn hl_store_executed(a: Cpu, b: Cpu, opcode: u8) -> bool {
    (0x70 <= opcode <= 0x77 && opcode != 0x76) ==> {
        &&& b.registers == a.registers
        &&& same_processor(a, b)
        &&& cycled_write(a.address_bus, b.address_bus, hl_value(a.registers), register_value(a.registers, operand_register(opcode % 8)))
    }
}

/// The register pair that bits 4-5 of an opcode name among BC, DE and HL.
pub open spec fn opcode_pair(opcode: u8) -> RegisterPair {
    if (opcode / 16) % 4 == 0 {
        RegisterPair { first: Register::B, second: Register::C }
    } else if (opcode / 16) % 4 == 1 {
        RegisterPair { first: Register::D, second: Register::E }
    } else {
        RegisterPair { first: Register::H, second: Register::L }
    }
}

/// The condition that bits 3-4 of a conditional jump, call or return name: NZ, Z, NC or C.
pub open spec fn jump_condition(f: u8, opcode: u8) -> bool {
    let code = (opcode / 8) % 4;
    if code == 0 { !z_flag(f) } else if code == 1 { z_flag(f) } else if code == 2 { !c_flag(f) } else { c_flag(f) }
}

/// The registers after an instruction that reads a word after its opcode, for the opcodes
/// that are one: LD rr,nn, LD SP,nn, JP nn, CALL nn and their conditional forms. `word` is
/// the word after the opcode.
pub open spec fn word_immediate_result(r: Registers, opcode: u8, word: u16) -> Option<Registers> {
    let next = Registers { program_counter: r.program_counter.wrapping_add(2), ..r };
    let jumped = Registers { program_counter: word, ..r };
    let called = Registers { program_counter: word, stack_pointer: r.stack_pointer.wrapping_sub(2), ..r };
    if opcode == 0x01 || opcode == 0x11 || opcode == 0x21 {
        Some(with_pair(next, opcode_pair(opcode), word))
    } else if opcode == 0x31 {
        Some(Registers { stack_pointer: word, ..next })
    } else if opcode == 0xC3 {
        Some(jumped)
    } else if opcode == 0xC2 || opcode == 0xCA || opcode == 0xD2 || opcode == 0xDA {
        Some(if jump_condition(r.f, opcode) { jumped } else { next })
    } else if opcode == 0xCD {
        Some(called)
    } else if opcode == 0xC4 || opcode == 0xCC || opcode == 0xD4 || opcode == 0xDC {
        Some(if jump_condition(r.f, opcode) { called } else { next })
    } else {
        None
    }
}

/// What an instruction with a word after its opcode does, where that word is known.
pub open spec fn word_immediate_executed(a: Cpu, b: Cpu, opcode: u8) -> bool {
    match known_word(a.address_bus, a.registers.program_counter) {
        Some(word) => match word_immediate_result(a.registers, opcode, word) {
            Some(r) => b.registers == r && same_processor(Cpu { registers: b.registers, ..a }, b),
            None => true,
        },
        None => true,
    }
}

/// The registers after an instruction that pops a word from the stack, for the opcodes that
/// are one: RET, RETI, the conditional returns and POP. `word` is the word at SP.
pub open spec fn pop_result(r: Registers, opcode: u8, word: u16) -> Option<Registers> {
    let returned = Registers { program_counter: word, stack_pointer: r.stack_pointer.wrapping_add(2), ..r };
    let popped = Registers { stack_pointer: r.stack_pointer.wrapping_add(2), ..r };
    if opcode == 0xC9 || opcode == 0xD9 {
        Some(returned)
    } else if opcode == 0xC0 || opcode == 0xC8 || opcode == 0xD0 || opcode == 0xD8 {
        Some(if jump_condition(r.f, opcode) { returned } else { r })
    } else if opcode == 0xC1 || opcode == 0xD1 || opcode == 0xE1 {
        Some(with_pair(popped, opcode_pair(opcode), word))
    } else if opcode == 0xF1 {
        Some(with_pair(popped, RegisterPair { first: Register::A, second: Register::F }, word & 0xFFF0))
    } else {
        None
    }
}

/// What an instruction that pops a word does, where the word at SP is known.
pub open spec fn pop_executed(a: Cpu, b: Cpu, opcode: u8) -> bool {
    match known_word(a.address_bus, a.registers.stack_pointer) {
        Some(word) => match pop_result(a.registers, opcode, word) {
            Some(r) => b.registers == r && (opcode != 0xD9 ==> same_processor(Cpu { registers: b.registers, ..a }, b)),
            None => true,
        },
        None => true,
    }
}

/// The registers after PUSH rr or RST n, for the opcodes that are one: SP moves down by two
/// and RST jumps to the address that bits 3-5 name.
pub open spec fn push_result(r: Registers, opcode: u8) -> Option<Registers> {
    if opcode >= 0xC0 && opcode % 16 == 5 {
        Some(Registers { stack_pointer: r.stack_pointer.wrapping_sub(2), ..r })
    } else if opcode >= 0xC0 && opcode % 8 == 7 {
        Some(Registers { program_counter: (opcode - 0xC7) as u16, stack_pointer: r.stack_pointer.wrapping_sub(2), ..r })
    } else {
        None
    }
}

/// What PUSH rr and RST n do to the registers.
pub open spec fn push_executed(a: Cpu, b: Cpu, opcode: u8) -> bool {
    match push_result(a.registers, opcode) {
        Some(r) => b.registers == r && same_processor(Cpu { registers: b.registers, ..a }, b),
        None => true,
    }
}

/// The registers that an instruction leaves, for the instructions whose effect on the
/// registers the bytes they read determine, where those bytes are known: all but HALT, STOP,
/// EI, DI, RETI, the loads between A and memory other than (HL), the 16-bit loads through
/// memory and the CB-prefixed instructions on (HL).
pub open spec fn instruction_registers(a: Cpu) -> Option<Registers> {
    let s = instruction_start(a);
    let r = s.registers;
    let opcode = a.registers.opcode;
    let bus = s.address_bus;
    if register_only_result(r, opcode) is Some {
        register_only_result(r, opcode)
    } else if word_register_result(r, opcode) is Some {
        word_register_result(r, opcode)
    } else if opcode == 0xCB {
        match known_read(bus, r.program_counter) {
            Some(cb) => if cb % 8 != 6 {
                Some(cb_register_result(Registers { program_counter: r.program_counter.wrapping_add(1), ..r }, cb))
            } else {
                None
            },
            None => None,
        }
    } else if push_result(r, opcode) is Some {
        push_result(r, opcode)
    } else if 0x70 <= opcode <= 0x77 && opcode != 0x76 {
        Some(r)
    } else if immediate_result(r, opcode, 0) is Some {
        match known_read(bus, r.program_counter) {
            Some(byte) => immediate_result(r, opcode, byte),
            None => None,
        }
    } else if word_immediate_result(r, opcode, 0) is Some {
        match known_word(bus, r.program_counter) {
            Some(word) => word_immediate_result(r, opcode, word),
            None => None,
        }
    } else if pop_result(r, opcode, 0) is Some && opcode != 0xD9 {
        match known_word(bus, r.stack_pointer) {
            Some(word) => pop_result(r, opcode, word),
            None => None,
        }
    } else {
        match known_read(bus, hl_value(r)) {
            Some(byte) => hl_read_result(r, opcode, byte),
            None => None,
        }
    }
}

/// One step with the interrupt master enable off, of an instruction whose registers are
/// known: the registers change as the instruction says, and the next opcode is fetched from
/// the address after it.
pub open spec fn instruction_step(a: Cpu, b: Cpu) -> bool {
    let s = instruction_start(a);
    match instruction_registers(a) {
        Some(r) => !s.interrupts.enabled ==> {
            &&& b.registers == Registers { program_counter: r.program_counter.wrapping_add(1), opcode: b.registers.opcode, ..r }
            &&& b.interrupts == s.interrupts
            &&& b.halted == a.halted
        },
        None => true,
    }
}

/// The processor after HALT, EI or DI, for the opcodes that are one. HALT with an interrupt
/// pending ends the halt at once (and, with the master enable off, arms the halt bug);
/// otherwise it halts and steps the program counter back onto itself. EI and DI take effect
/// after a delay.
pub open spec fn control_result(c: Cpu, opcode: u8) -> Option<Cpu> {
    if opcode == 0x76 {
        if fired_bits(c.address_bus) != 0 {
            Some(Cpu { halted: false, halt_bug: if !c.interrupts.enabled { true } else { c.halt_bug }, ..c })
        } else {
            Some(Cpu {
                halted: true,
                registers: Registers { program_counter: c.registers.program_counter.wrapping_sub(1), ..c.registers },
                ..c
            })
        }
    } else if opcode == 0xF3 {
        Some(Cpu { interrupts: Interrupts { disable_delay: 2, ..c.interrupts }, ..c })
    } else if opcode == 0xFB {
        Some(Cpu { interrupts: Interrupts { enable_delay: 2, ..c.interrupts }, ..c })
    } else {
        None
    }
}

/// The registers after the flags of SP plus a signed offset are set, as ADD SP,e and LD
/// HL,SP+e set them: Z and N cleared, H and C from the low nibble and the low byte.
pub open spec fn stack_offset_flags(r: Registers, offset: u8) -> Registers {
    let sp = r.stack_pointer;
    let sum = relative_target(sp, offset);
    Registers { f: with_flags(r.f, false, false, (sum % 16) < (sp % 16), (sum % 256) < (sp % 256)), ..r }
}

/// The address that LD A,(rr) and LD (rr),A use: BC, DE, or HL (with HL moving on after).
pub open spec fn indirect_address(r: Registers, opcode: u8) -> u16 {
    if opcode / 16 == 0 {
        pair_value(r, RegisterPair { first: Register::B, second: Register::C })
    } else if opcode / 16 == 1 {
        pair_value(r, RegisterPair { first: Register::D, second: Register::E })
    } else {
        hl_value(r)
    }
}

/// The registers after the HL increment or decrement of LD (HL+), LD (HL-) and their loads.
pub open spec fn indirect_moved(r: Registers, opcode: u8) -> Registers {
    let hl = RegisterPair { first: Register::H, second: Register::L };
    if opcode / 16 == 2 {
        with_pair(r, hl, hl_value(r).wrapping_add(1))
    } else if opcode / 16 == 3 {
        with_pair(r, hl, hl_value(r).wrapping_sub(1))
    } else {
        r
    }
}

/// Whether an opcode is LD A,(BC), LD A,(DE), LD A,(HL+) or LD A,(HL-).
pub open spec fn is_indirect_load(opcode: u8) -> bool {
    opcode == 0x0A || opcode == 0x1A || opcode == 0x2A || opcode == 0x3A
}

/// Whether an opcode is LD (BC),A, LD (DE),A, LD (HL+),A or LD (HL-),A.
pub open spec fn is_indirect_store(opcode: u8) -> bool {
    opcode == 0x02 || opcode == 0x12 || opcode == 0x22 || opcode == 0x32
}

/// What the loads of A through BC, DE and HL do, where the byte at the address is known.
pub open spec fn indirect_load_executed(a: Cpu, b: Cpu, opcode: u8) -> bool {
    is_indirect_load(opcode) ==> match known_read(a.address_bus, indirect_address(a.registers, opcode)) {
        Some(byte) => {
            &&& b.registers == indirect_moved(with_register(a.registers, Register::A, byte), opcode)
            &&& same_processor(Cpu { registers: b.registers, ..a }, b)
            &&& clock_frame(a.address_bus, b.address_bus)
        },
        None => true,
    }
}

/// What the stores of A through BC, DE and HL do: after a machine cycle A is written to the
/// address, and HL moves on where the opcode says.
pub open spec fn indirect_store_executed(a: Cpu, b: Cpu, opcode: u8) -> bool {
    is_indirect_store(opcode) ==> {
        &&& b.registers == indirect_moved(a.registers, opcode)
        &&& same_processor(Cpu { registers: b.registers, ..a }, b)
        &&& cycled_write(a.address_bus, b.address_bus, indirect_address(a.registers, opcode), a.registers.a)
    }
}

/// What a CB-prefixed instruction on a register operand does, where the prefixed opcode that
/// the processor fetches is known: the registers change as the opcode says, the program
/// counter moves past it, and the fetch takes one machine cycle.
pub open spec fn cb_register_executed(a: Cpu, b: Cpu) -> bool {
    match known_read(a.address_bus, a.registers.program_counter) {
        Some(cb) => cb % 8 != 6 ==> {
            &&& b.registers == cb_register_result(
                Registers { program_counter: a.registers.program_counter.wrapping_add(1), ..a.registers }, cb)
            &&& same_processor(Cpu { registers: b.registers, ..a }, b)
            &&& clock_frame(a.address_bus, b.address_bus)
        },
        None => true,
    }
}

/// The registers after RLCA, RRCA, RLA or RRA: the rotate of A, with Z cleared.
pub open spec fn accumulator_rotate_result(r: Registers, kind: ShiftKind) -> Registers {
    let s = after_register_shift(r, Register::A, kind);
    Registers { f: with_flags(s.f, false, n_flag(s.f), h_flag(s.f), c_flag(s.f)), ..s }
}

/// The registers after an instruction that reads and writes registers alone, for the opcodes
/// that are such an instruction: NOP, LD r,r', the operations on A with a register, INC r,
/// DEC r, the rotates of A, DAA, CPL, SCF and CCF.
pub open spec fn register_only_result(r: Registers, opcode: u8) -> Option<Registers> {
    if 0x40 <= opcode <= 0x7F && opcode != 0x76 && opcode % 8 != 6 && (opcode / 8) % 8 != 6 {
        Some(with_register(r, operand_register((opcode / 8) % 8), register_value(r, operand_register(opcode % 8))))
    } else if 0x80 <= opcode <= 0xBF && opcode % 8 != 6 {
        Some(alu_result(r, (opcode / 8) % 8, register_value(r, operand_register(opcode % 8))))
    } else if opcode == 0x00 {
        Some(r)
    } else if opcode < 0x40 && opcode % 8 == 4 && opcode != 0x34 {
        let register = operand_register(opcode / 8);
        let value = register_value(r, register);
        Some(stored_keeping_carry(r, register, ((value + 1) % 256) as u8, (value + 1) % 256 == 0, false, value % 16 == 15))
    } else if opcode < 0x40 && opcode % 8 == 5 && opcode != 0x35 {
        let register = operand_register(opcode / 8);
        let value = register_value(r, register);
        Some(stored_keeping_carry(r, register, ((value - 1) % 256) as u8, (value - 1) % 256 == 0, true, value % 16 == 0))
    } else if opcode == 0x07 {
        Some(accumulator_rotate_result(r, ShiftKind::RotateLeft))
    } else if opcode == 0x0F {
        Some(accumulator_rotate_result(r, ShiftKind::RotateRight))
    } else if opcode == 0x17 {
        Some(accumulator_rotate_result(r, ShiftKind::RotateLeftThroughCarry))
    } else if opcode == 0x1F {
        Some(accumulator_rotate_result(r, ShiftKind::RotateRightThroughCarry))
    } else if opcode == 0x27 {
        let adjusted = daa(r.a, n_flag(r.f), h_flag(r.f), c_flag(r.f));
        Some(Registers { a: adjusted.0, f: with_flags(r.f, adjusted.0 == 0, n_flag(r.f), false, adjusted.1), ..r })
    } else if opcode == 0x2F {
        Some(Registers { a: r.a ^ 0xFF, f: with_flags(r.f, z_flag(r.f), true, true, c_flag(r.f)), ..r })
    } else if opcode == 0x37 {
        Some(Registers { f: with_flags(r.f, z_flag(r.f), false, false, true), ..r })
    } else if opcode == 0x3F {
        Some(Registers { f: with_flags(r.f, z_flag(r.f), false, false, !c_flag(r.f)), ..r })
    } else if opcode == 0xE9 {
        Some(Registers { program_counter: hl_value(r), ..r })
    } else {
        None
    }
}

fn decode_register(index: u8) -> (register: Register)
    ensures
        register == operand_register(index),
{
    if index == 0 {
        Register::B
    } else if index == 1 {
        Register::C
    } else if index == 2 {
        Register::D
    } else if index == 3 {
        Register::E
    } else if index == 4 {
        Register::H
    } else if index == 5 {
        Register::L
    } else {
        Register::A
    }
}

/// Whether an opcode is one that the instruction set leaves undefined.
pub open spec fn is_illegal_opcode(opcode: u8) -> bool {
    opcode == 0xD3 || opcode == 0xDB || opcode == 0xDD || opcode == 0xE3 || opcode == 0xE4 || opcode == 0xEB
        || opcode == 0xEC || opcode == 0xED || opcode == 0xF4 || opcode == 0xFC || opcode == 0xFD
}

impl Cpu {
    /// After HALT with interrupts pending and disabled, the next instruction runs twice: the
    /// program counter steps back once.
    fn emulate_halt_bug(&mut self)
        ensures
            !old(self).halted && old(self).halt_bug ==> *final(self) == (Cpu {
                registers: crate::cpu::Registers { program_counter: old(self).registers.program_counter.wrapping_sub(1), ..old(self).registers },
                halt_bug: false,
                ..*old(self)
            }),
            !(!old(self).halted && old(self).halt_bug) ==> *final(self) == *old(self),
    {
        if !self.halted && self.halt_bug {
            self.registers.program_counter = self.registers.program_counter.wrapping_sub(1);
            self.halt_bug = false;
        }
    }

    /// EI and DI take effect one instruction late.
    fn update_interrupt_flag_after_delay(&mut self)
        ensures
            *final(self) == (Cpu { interrupts: delayed_interrupts(old(self).interrupts), ..*old(self) }),
    {
        if self.interrupts.enable_delay > 0 {
            if self.interrupts.enable_delay == 1 {
                self.interrupts.enabled = true;
            }
            self.interrupts.enable_delay = self.interrupts.enable_delay - 1;
        } else if self.interrupts.disable_delay > 0 {
            if self.interrupts.disable_delay == 1 {
                self.interrupts.enabled = false;
            }
            self.interrupts.disable_delay = self.interrupts.disable_delay - 1;
        }
    }

    fn reset_instruction_clock_cycles(&mut self)
        ensures
            *final(self) == (Cpu { instruction_clock_cycles: 0, ..*old(self) }),
    {
        self.instruction_clock_cycles = 0;
    }

    fn reset_last_opcode_bus_activity(&mut self)
        ensures
            *final(self) == (Cpu { opcode_bus_activity: final(self).opcode_bus_activity, ..*old(self) }),
            old(self).address_bus.processor_test_mode ==> final(self).opcode_bus_activity@.len() == 0,
            !old(self).address_bus.processor_test_mode ==> final(self).opcode_bus_activity == old(self).opcode_bus_activity,
    {
        if self.address_bus.processor_test_mode {
            self.opcode_bus_activity.clear();
        }
    }

    fn prefetch_next_opcode(&mut self)
        requires
            old(self).wf(),
        ensures
            final(self).wf(),
            final(self).registers == (Registers { program_counter: old(self).registers.program_counter.wrapping_add(1), opcode: final(self).registers.opcode, ..old(self).registers }),
            known_read(old(self).address_bus, old(self).registers.program_counter) matches Some(v) ==> final(self).registers.opcode == v,
            same_processor(Cpu { registers: final(self).registers, ..*old(self) }, *final(self)),
            clock_frame(old(self).address_bus, final(self).address_bus),
    {
        let next_opcode = self.read_next_instruction_byte();
        self.registers.opcode = next_opcode;
    }

    /// One instruction: a VRAM DMA step where one runs, the fetched opcode, a pending
    /// interrupt, and the fetch of the next opcode. A processor stopped on an undefined opcode
    /// does nothing.
    #[verifier::spinoff_prover]
    #[verifier::rlimit(60)]
    pub fn step(&mut self)
        requires
            old(self).wf(),
        ensures
            final(self).wf(),
            old(self).illegal_opcode is Some ==> *final(self) == *old(self),
            old(self).illegal_opcode is None && is_illegal_opcode(old(self).registers.opcode) ==> final(self).illegal_opcode == Some(old(self).registers.opcode),
            old(self).illegal_opcode is None && vram_dma_idle(old(self).address_bus) ==> register_only_step(*old(self), *final(self)),
            old(self).illegal_opcode is None && vram_dma_idle(old(self).address_bus) ==> instruction_step(*old(self), *final(self)),
            old(self).illegal_opcode is None && vram_dma_idle(old(self).address_bus) && !is_illegal_opcode(old(self).registers.opcode)
                ==> exists|mid: Cpu| #[trigger] step_through(*old(self), mid, *final(self)),
    {
        if self.illegal_opcode.is_some() {
            return;
        }

        if self.address_bus.hdma.in_progress {
            self.address_bus.hdma_step();
        }
        assert(vram_dma_idle(old(self).address_bus) ==> *self == *old(self));

        let opcode = self.registers.opcode;
        self.execute_opcode();

        if self.illegal_opcode.is_some() {
            return;
        }

        let ghost mid = *self;
        self.interrupt_step();
        let ghost dispatched = self.address_bus;
        self.prefetch_next_opcode();
        proof {
            if mid.interrupts.enabled && fired_bits(mid.address_bus) != 0 {
                crate::cpu::microops::lemma_wrote_then_cycles(
                    crate::cpu::interrupts::request_cleared(mid.address_bus, crate::cpu::interrupts::highest_interrupt(fired_bits(mid.address_bus))->0),
                    dispatched, self.address_bus, stack_writes(mid.registers.stack_pointer, mid.registers.program_counter));
            }
            if vram_dma_idle(old(self).address_bus) {
                assert(step_through(*old(self), mid, *self));
            }
        }
    }

    fn alu_operation(&mut self, operation: u8, value: u8)
        requires
            operation < 8,
        ensures
            *final(self) == (Cpu { registers: alu_result(old(self).registers, operation, value), ..*old(self) }),
    {
        if operation == 0 {
            self.add_value_to_register(Register::A, value);
        } else if operation == 1 {
            self.add_value_and_carry_to_register(Register::A, value);
        } else if operation == 2 {
            self.subtract_value_from_register(Register::A, value);
        } else if operation == 3 {
            self.subtract_value_and_carry_from_register(Register::A, value);
        } else if operation == 4 {
            self.logical_and_with_register(Register::A, value);
        } else if operation == 5 {
            self.logical_xor_with_register(Register::A, value);
        } else if operation == 6 {
            self.logical_or_with_register(Register::A, value);
        } else {
            self.compare_value_with_register(Register::A, value);
        }
    }

    /// LD r, r' and the loads through (HL) of opcodes 0x40-0x7F (but HALT).
    #[verifier::spinoff_prover]
    fn execute_load(&mut self, opcode: u8)
        requires
            old(self).wf(),
            0x40 <= opcode <= 0x7F,
            opcode != 0x76,
        ensures
            final(self).wf(),
            memory_executed(old(self).registers, old(self).address_bus, final(self).address_bus, opcode),
            final(self).illegal_opcode == old(self).illegal_opcode,
            hl_read_frame(old(self).registers, final(self).registers, opcode),
            hl_read_executed(*old(self), *final(self), opcode),
            hl_store_executed(*old(self), *final(self), opcode),
            register_only_result(old(self).registers, opcode) matches Some(r) ==> *final(self) == (Cpu { registers: r, ..*old(self) }),
    {
        let source = opcode % 8;
        let destination = (opcode / 8) % 8;
        if source == 6 {
            let address = self.read_from_register_pair(&register_hl());
            self.load_memory_byte_in_destination_register(address, decode_register(destination));
        } else if destination == 6 {
            let address = self.read_from_register_pair(&register_hl());
            self.load_source_register_in_memory(decode_register(source), address);
        } else {
            self.load_source_register_in_destination_register(decode_register(source), decode_register(destination));
        }
        proof {
            lemma_memory_done(old(self).registers, old(self).address_bus, self.address_bus, opcode);
        }
    }

    /// The arithmetic and logic operations of opcodes 0x80-0xBF on A.
    #[verifier::spinoff_prover]
    fn execute_alu(&mut self, opcode: u8)
        requires
            old(self).wf(),
            0x80 <= opcode <= 0xBF,
        ensures
            final(self).wf(),
            memory_executed(old(self).registers, old(self).address_bus, final(self).address_bus, opcode),
            final(self).illegal_opcode == old(self).illegal_opcode,
            hl_read_frame(old(self).registers, final(self).registers, opcode),
            hl_read_executed(*old(self), *final(self), opcode),
            register_only_result(old(self).registers, opcode) matches Some(r) ==> *final(self) == (Cpu { registers: r, ..*old(self) }),
    {
        let source = opcode % 8;
        let operation = (opcode / 8) % 8;
        if source == 6 {
            let address = self.read_from_register_pair(&register_hl());
            let value = self.read_byte_from_memory(address);
            self.alu_operation(operation, value);
        } else {
            let value = self.read_from_register(&decode_register(source));
            self.alu_operation(operation, value);
        }
        proof {
            lemma_memory_done(old(self).registers, old(self).address_bus, self.address_bus, opcode);
        }
    }

    /// LD SP+e / ADD SP, e: the flags come from the low byte of the addition.
    fn add_signed_to_stack_pointer(&mut self, offset: u8) -> (sum: u16)
        ensures
            sum == relative_target(old(self).registers.stack_pointer, offset),
            final(self).registers == stack_offset_flags(old(self).registers, offset),
            *final(self) == (Cpu { registers: final(self).registers, ..*old(self) }),
    {
        let stack_pointer = self.registers.stack_pointer;
        let sum = crate::cpu::jumps::relative_address(stack_pointer, offset);
        self.set_flags(false, false, (sum % 16) < (stack_pointer % 16), (sum % 256) < (stack_pointer % 256));
        sum
    }

    #[verifier::spinoff_prover]
    #[verifier::rlimit(100)]
    fn execute_opcode(&mut self)
        requires
            old(self).wf(),
        ensures
            final(self).wf(),
            register_only_result(instruction_start(*old(self)).registers, old(self).registers.opcode) matches Some(r) ==> *final(self) == (Cpu {
                registers: r,
                opcode_bus_activity: final(self).opcode_bus_activity,
                ..instruction_start(*old(self))
            }),
            old(self).registers.opcode == 0xCB ==> cb_register_executed(instruction_start(*old(self)), *final(self)),
            immediate_executed(instruction_start(*old(self)), *final(self), old(self).registers.opcode),
            word_register_executed(instruction_start(*old(self)), *final(self), old(self).registers.opcode),
            hl_read_executed(instruction_start(*old(self)), *final(self), old(self).registers.opcode),
            hl_read_frame(instruction_start(*old(self)).registers, final(self).registers, old(self).registers.opcode),
            hl_store_executed(instruction_start(*old(self)), *final(self), old(self).registers.opcode),
            word_immediate_executed(instruction_start(*old(self)), *final(self), old(self).registers.opcode),
            pop_executed(instruction_start(*old(self)), *final(self), old(self).registers.opcode),
            push_executed(instruction_start(*old(self)), *final(self), old(self).registers.opcode),
            memory_executed(instruction_start(*old(self)).registers, old(self).address_bus, final(self).address_bus, old(self).registers.opcode),
            is_memory_op(old(self).registers.opcode) ==> memory_op_executed(instruction_start(*old(self)).registers, old(self).address_bus, *final(self), old(self).registers.opcode),
            indirect_load_executed(instruction_start(*old(self)), *final(self), old(self).registers.opcode),
            indirect_store_executed(instruction_start(*old(self)), *final(self), old(self).registers.opcode),
            control_result(instruction_start(*old(self)), old(self).registers.opcode) matches Some(c)
                ==> *final(self) == (Cpu { opcode_bus_activity: final(self).opcode_bus_activity, ..c }),
            old(self).illegal_opcode is None && is_illegal_opcode(old(self).registers.opcode) ==> final(self).illegal_opcode == Some(old(self).registers.opcode),
            old(self).illegal_opcode is None && !is_illegal_opcode(old(self).registers.opcode) ==> final(self).illegal_opcode is None,
    {
        self.reset_instruction_clock_cycles();
        self.reset_last_opcode_bus_activity();

        let opcode = self.registers.opcode;

        self.emulate_halt_bug();
        self.update_interrupt_flag_after_delay();
        assert(self.registers == instruction_start(*old(self)).registers && self.address_bus == old(self).address_bus);

        if 0x40 <= opcode && opcode <= 0x7F && opcode != 0x76 {
            self.execute_load(opcode);
        } else if 0x80 <= opcode && opcode <= 0xBF {
            self.execute_alu(opcode);
        } else if opcode < 0x40 {
            self.execute_low_opcode(opcode);
        } else if opcode == 0x76 {
            if self.interrupts_fired() {
                self.halted = false;

                if !self.interrupts.enabled {
                    self.halt_bug = true;
                }
            } else {
                self.halted = true;
                self.registers.program_counter = self.registers.program_counter.wrapping_sub(1);
            }
            proof {
                lemma_memory_done(instruction_start(*old(self)).registers, old(self).address_bus, self.address_bus, opcode);
            }
        } else {
            self.execute_high_opcode(opcode);
        }
    }

    #[verifier::spinoff_prover]
    fn execute_low_opcode(&mut self, opcode: u8)
        requires
            old(self).wf(),
            opcode < 0x40,
        ensures
            final(self).wf(),
            is_memory_op(opcode) ==> memory_op_executed(old(self).registers, old(self).address_bus, *final(self), opcode),
            memory_executed(old(self).registers, old(self).address_bus, final(self).address_bus, opcode),
            final(self).illegal_opcode == old(self).illegal_opcode,
            immediate_executed(*old(self), *final(self), opcode),
            word_immediate_executed(*old(self), *final(self), opcode),
            indirect_load_executed(*old(self), *final(self), opcode),
            indirect_store_executed(*old(self), *final(self), opcode),
            word_register_executed(*old(self), *final(self), opcode),
            register_only_result(old(self).registers, opcode) matches Some(r) ==> *final(self) == (Cpu { registers: r, ..*old(self) }),
    {
        if opcode < 0x10 {
            self.execute_opcodes_0x(opcode);
        } else if opcode < 0x20 {
            self.execute_opcodes_1x(opcode);
        } else if opcode < 0x30 {
            self.execute_opcodes_2x(opcode);
        } else {
            self.execute_opcodes_3x(opcode);
        }
    }

    #[verifier::spinoff_prover]
    fn execute_opcodes_0x(&mut self, opcode: u8)
        requires
            old(self).wf(),
            0x00 <= opcode < 0x10,
        ensures
            final(self).wf(),
            is_memory_op(opcode) ==> memory_op_executed(old(self).registers, old(self).address_bus, *final(self), opcode),
            memory_executed(old(self).registers, old(self).address_bus, final(self).address_bus, opcode),
            final(self).illegal_opcode == old(self).illegal_opcode,
            immediate_executed(*old(self), *final(self), opcode),
            word_immediate_executed(*old(self), *final(self), opcode),
            indirect_load_executed(*old(self), *final(self), opcode),
            indirect_store_executed(*old(self), *final(self), opcode),
            word_register_executed(*old(self), *final(self), opcode),
            register_only_result(old(self).registers, opcode) matches Some(r) ==> *final(self) == (Cpu { registers: r, ..*old(self) }),
    {
        if opcode < 0x08 {
            self.execute_opcodes_00_07(opcode);
        } else {
            self.execute_opcodes_08_0f(opcode);
        }
    }

    #[verifier::spinoff_prover]
    fn execute_opcodes_00_07(&mut self, opcode: u8)
        requires
            old(self).wf(),
            0x00 <= opcode < 0x08,
        ensures
            final(self).wf(),
            memory_executed(old(self).registers, old(self).address_bus, final(self).address_bus, opcode),
            final(self).illegal_opcode == old(self).illegal_opcode,
            immediate_executed(*old(self), *final(self), opcode),
            word_immediate_executed(*old(self), *final(self), opcode),
            indirect_load_executed(*old(self), *final(self), opcode),
            indirect_store_executed(*old(self), *final(self), opcode),
            word_register_executed(*old(self), *final(self), opcode),
            register_only_result(old(self).registers, opcode) matches Some(r) ==> *final(self) == (Cpu { registers: r, ..*old(self) }),
    {
        if opcode < 0x04 {
            self.execute_opcodes_00_03(opcode);
        } else {
            self.execute_opcodes_04_07(opcode);
        }
    }

    #[verifier::spinoff_prover]
    #[verifier::rlimit(100)]
    fn execute_opcodes_00_03(&mut self, opcode: u8)
        requires
            old(self).wf(),
            0x00 <= opcode < 0x04,
        ensures
            final(self).wf(),
            memory_executed(old(self).registers, old(self).address_bus, final(self).address_bus, opcode),
            final(self).illegal_opcode == old(self).illegal_opcode,
            immediate_executed(*old(self), *final(self), opcode),
            word_immediate_executed(*old(self), *final(self), opcode),
            indirect_load_executed(*old(self), *final(self), opcode),
            indirect_store_executed(*old(self), *final(self), opcode),
            word_register_executed(*old(self), *final(self), opcode),
            register_only_result(old(self).registers, opcode) matches Some(r) ==> *final(self) == (Cpu { registers: r, ..*old(self) }),
    {
        if opcode == 0x00 {
            proof {
                lemma_memory_done(old(self).registers, old(self).address_bus, self.address_bus, opcode);
            }
        } else if opcode == 0x01 {
            let word = self.read_next_instruction_word();
            self.store_in_register_pair(register_bc(), word);
            proof {
                lemma_memory_done(old(self).registers, old(self).address_bus, self.address_bus, opcode);
            }
        } else if opcode == 0x02 {
            let address = self.read_from_register_pair(&register_bc());
            self.load_source_register_in_memory(Register::A, address);
            proof {
                lemma_memory_done(old(self).registers, old(self).address_bus, self.address_bus, opcode);
            }
        } else if opcode == 0x03 {
            self.increment_register_pair(register_bc());
            proof {
                lemma_memory_done(old(self).registers, old(self).address_bus, self.address_bus, opcode);
            }
        }
    }

    #[verifier::spinoff_prover]
    #[verifier::rlimit(100)]
    fn execute_opcodes_04_07(&mut self, opcode: u8)
        requires
            old(self).wf(),
            0x04 <= opcode < 0x08,
        ensures
            final(self).wf(),
            memory_executed(old(self).registers, old(self).address_bus, final(self).address_bus, opcode),
            final(self).illegal_opcode == old(self).illegal_opcode,
            immediate_executed(*old(self), *final(self), opcode),
            word_immediate_executed(*old(self), *final(self), opcode),
            indirect_load_executed(*old(self), *final(self), opcode),
            indirect_store_executed(*old(self), *final(self), opcode),
            word_register_executed(*old(self), *final(self), opcode),
            register_only_result(old(self).registers, opcode) matches Some(r) ==> *final(self) == (Cpu { registers: r, ..*old(self) }),
    {
        if opcode == 0x04 {
            self.increment_register(Register::B);
            proof {
                lemma_memory_done(old(self).registers, old(self).address_bus, self.address_bus, opcode);
            }
        } else if opcode == 0x05 {
            self.decrement_register(Register::B);
            proof {
                lemma_memory_done(old(self).registers, old(self).address_bus, self.address_bus, opcode);
            }
        } else if opcode == 0x06 {
            self.load_immediate_value(Register::B);
            proof {
                lemma_memory_done(old(self).registers, old(self).address_bus, self.address_bus, opcode);
            }
        } else if opcode == 0x07 {
            self.rotate_register_left(Register::A);
            self.set_flag_z(false);
            proof {
                lemma_memory_done(old(self).registers, old(self).address_bus, self.address_bus, opcode);
            }
        }
    }

    #[verifier::spinoff_prover]
    #[verifier::rlimit(100)]
    fn execute_opcodes_08_0f(&mut self, opcode: u8)
        requires
            old(self).wf(),
            0x08 <= opcode < 0x10,
        ensures
            final(self).wf(),
            is_memory_op(opcode) ==> memory_op_executed(old(self).registers, old(self).address_bus, *final(self), opcode),
            memory_executed(old(self).registers, old(self).address_bus, final(self).address_bus, opcode),
            final(self).illegal_opcode == old(self).illegal_opcode,
            immediate_executed(*old(self), *final(self), opcode),
            word_immediate_executed(*old(self), *final(self), opcode),
            indirect_load_executed(*old(self), *final(self), opcode),
            indirect_store_executed(*old(self), *final(self), opcode),
            word_register_executed(*old(self), *final(self), opcode),
            register_only_result(old(self).registers, opcode) matches Some(r) ==> *final(self) == (Cpu { registers: r, ..*old(self) }),
    {
        if opcode == 0x08 {
            let address = self.read_next_instruction_word();
            let stack_pointer = self.registers.stack_pointer;
            let ghost mid = self.address_bus;
            self.store_word_in_memory(address, stack_pointer);
            proof {
                lemma_cycles_then_wrote(old(self).address_bus, mid, self.address_bus,
                    seq![(address, (stack_pointer % 256) as u8), (address.wrapping_add(1), (stack_pointer / 256) as u8)]);
            }
            proof {
                lemma_memory_done(old(self).registers, old(self).address_bus, self.address_bus, opcode);
            }
            proof {
                lemma_memory_op_done(old(self).registers, old(self).address_bus, *self, opcode);
            }
        } else if opcode == 0x09 {
            let word = self.read_from_register_pair(&register_bc());
            self.add_value_to_register_pair(register_hl(), word);
            proof {
                lemma_memory_done(old(self).registers, old(self).address_bus, self.address_bus, opcode);
            }
        } else if opcode == 0x0A {
            let address = self.read_from_register_pair(&register_bc());
            self.load_memory_byte_in_destination_register(address, Register::A);
            proof {
                lemma_memory_done(old(self).registers, old(self).address_bus, self.address_bus, opcode);
            }
        } else if opcode == 0x0B {
            self.decrement_register_pair(register_bc());
            proof {
                lemma_memory_done(old(self).registers, old(self).address_bus, self.address_bus, opcode);
            }
        } else if opcode == 0x0C {
            self.increment_register(Register::C);
            proof {
                lemma_memory_done(old(self).registers, old(self).address_bus, self.address_bus, opcode);
            }
        } else if opcode == 0x0D {
            self.decrement_register(Register::C);
            proof {
                lemma_memory_done(old(self).registers, old(self).address_bus, self.address_bus, opcode);
            }
        } else if opcode == 0x0E {
            self.load_immediate_value(Register::C);
            proof {
                lemma_memory_done(old(self).registers, old(self).address_bus, self.address_bus, opcode);
            }
        } else if opcode == 0x0F {
            self.rotate_register_right(Register::A);
            self.set_flag_z(false);
            proof {
                lemma_memory_done(old(self).registers, old(self).address_bus, self.address_bus, opcode);
            }
        }
    }

    #[verifier::spinoff_prover]
    fn execute_opcodes_1x(&mut self, opcode: u8)
        requires
            old(self).wf(),
            0x10 <= opcode < 0x20,
        ensures
            final(self).wf(),
            is_memory_op(opcode) ==> memory_op_executed(old(self).registers, old(self).address_bus, *final(self), opcode),
            memory_executed(old(self).registers, old(self).address_bus, final(self).address_bus, opcode),
            final(self).illegal_opcode == old(self).illegal_opcode,
            immediate_executed(*old(self), *final(self), opcode),
            word_immediate_executed(*old(self), *final(self), opcode),
            indirect_load_executed(*old(self), *final(self), opcode),
            indirect_store_executed(*old(self), *final(self), opcode),
            word_register_executed(*old(self), *final(self), opcode),
            register_only_result(old(self).registers, opcode) matches Some(r) ==> *final(self) == (Cpu { registers: r, ..*old(self) }),
    {
        if opcode < 0x18 {
            self.execute_opcodes_10_17(opcode);
        } else {
            self.execute_opcodes_18_1f(opcode);
        }
    }

    #[verifier::spinoff_prover]
    #[verifier::rlimit(60)]
    fn execute_opcodes_10_17(&mut self, opcode: u8)
        requires
            old(self).wf(),
            0x10 <= opcode < 0x18,
        ensures
            final(self).wf(),
            is_memory_op(opcode) ==> memory_op_executed(old(self).registers, old(self).address_bus, *final(self), opcode),
            memory_executed(old(self).registers, old(self).address_bus, final(self).address_bus, opcode),
            final(self).illegal_opcode == old(self).illegal_opcode,
            immediate_executed(*old(self), *final(self), opcode),
            word_immediate_executed(*old(self), *final(self), opcode),
            indirect_load_executed(*old(self), *final(self), opcode),
            indirect_store_executed(*old(self), *final(self), opcode),
            word_register_executed(*old(self), *final(self), opcode),
            register_only_result(old(self).registers, opcode) matches Some(r) ==> *final(self) == (Cpu { registers: r, ..*old(self) }),
    {
        if opcode == 0x10 {
            self.address_bus.toggle_speed_switch();
            proof {
                lemma_memory_done(old(self).registers, old(self).address_bus, self.address_bus, opcode);
            }
            proof {
                lemma_memory_op_done(old(self).registers, old(self).address_bus, *self, opcode);
            }
        } else if opcode == 0x11 {
            let word = self.read_next_instruction_word();
            self.store_in_register_pair(register_de(), word);
            proof {
                lemma_memory_done(old(self).registers, old(self).address_bus, self.address_bus, opcode);
            }
        } else if opcode == 0x12 {
            let address = self.read_from_register_pair(&register_de());
            self.load_source_register_in_memory(Register::A, address);
            proof {
                lemma_memory_done(old(self).registers, old(self).address_bus, self.address_bus, opcode);
            }
        } else if opcode == 0x13 {
            self.increment_register_pair(register_de());
            proof {
                lemma_memory_done(old(self).registers, old(self).address_bus, self.address_bus, opcode);
            }
        } else if opcode == 0x14 {
            self.increment_register(Register::D);
            proof {
                lemma_memory_done(old(self).registers, old(self).address_bus, self.address_bus, opcode);
            }
        } else if opcode == 0x15 {
            self.decrement_register(Register::D);
            proof {
                lemma_memory_done(old(self).registers, old(self).address_bus, self.address_bus, opcode);
            }
        } else if opcode == 0x16 {
            self.load_immediate_value(Register::D);
            proof {
                lemma_memory_done(old(self).registers, old(self).address_bus, self.address_bus, opcode);
            }
        } else if opcode == 0x17 {
            self.rotate_register_left_through_carry(Register::A);
            self.set_flag_z(false);
            proof {
                lemma_memory_done(old(self).registers, old(self).address_bus, self.address_bus, opcode);
            }
        }
    }

    #[verifier::spinoff_prover]
    #[verifier::rlimit(60)]
    fn execute_opcodes_18_1f(&mut self, opcode: u8)
        requires
            old(self).wf(),
            0x18 <= opcode < 0x20,
        ensures
            final(self).wf(),
            memory_executed(old(self).registers, old(self).address_bus, final(self).address_bus, opcode),
            final(self).illegal_opcode == old(self).illegal_opcode,
            immediate_executed(*old(self), *final(self), opcode),
            word_immediate_executed(*old(self), *final(self), opcode),
            indirect_load_executed(*old(self), *final(self), opcode),
            indirect_store_executed(*old(self), *final(self), opcode),
            word_register_executed(*old(self), *final(self), opcode),
            register_only_result(old(self).registers, opcode) matches Some(r) ==> *final(self) == (Cpu { registers: r, ..*old(self) }),
    {
        if opcode == 0x18 {
            self.conditional_relative_jump(true);
            proof {
                lemma_memory_done(old(self).registers, old(self).address_bus, self.address_bus, opcode);
            }
        } else if opcode == 0x19 {
            let word = self.read_from_register_pair(&register_de());
            self.add_value_to_register_pair(register_hl(), word);
            proof {
                lemma_memory_done(old(self).registers, old(self).address_bus, self.address_bus, opcode);
            }
        } else if opcode == 0x1A {
            let address = self.read_from_register_pair(&register_de());
            self.load_memory_byte_in_destination_register(address, Register::A);
            proof {
                lemma_memory_done(old(self).registers, old(self).address_bus, self.address_bus, opcode);
            }
        } else if opcode == 0x1B {
            self.decrement_register_pair(register_de());
            proof {
                lemma_memory_done(old(self).registers, old(self).address_bus, self.address_bus, opcode);
            }
        } else if opcode == 0x1C {
            self.increment_register(Register::E);
            proof {
                lemma_memory_done(old(self).registers, old(self).address_bus, self.address_bus, opcode);
            }
        } else if opcode == 0x1D {
            self.decrement_register(Register::E);
            proof {
                lemma_memory_done(old(self).registers, old(self).address_bus, self.address_bus, opcode);
            }
        } else if opcode == 0x1E {
            self.load_immediate_value(Register::E);
            proof {
                lemma_memory_done(old(self).registers, old(self).address_bus, self.address_bus, opcode);
            }
        } else if opcode == 0x1F {
            self.rotate_register_right_through_carry(Register::A);
            self.set_flag_z(false);
            proof {
                lemma_memory_done(old(self).registers, old(self).address_bus, self.address_bus, opcode);
            }
        }
    }

    #[verifier::spinoff_prover]
    fn execute_opcodes_2x(&mut self, opcode: u8)
        requires
            old(self).wf(),
            0x20 <= opcode < 0x30,
        ensures
            final(self).wf(),
            memory_executed(old(self).registers, old(self).address_bus, final(self).address_bus, opcode),
            final(self).illegal_opcode == old(self).illegal_opcode,
            immediate_executed(*old(self), *final(self), opcode),
            word_immediate_executed(*old(self), *final(self), opcode),
            indirect_load_executed(*old(self), *final(self), opcode),
            indirect_store_executed(*old(self), *final(self), opcode),
            word_register_executed(*old(self), *final(self), opcode),
            register_only_result(old(self).registers, opcode) matches Some(r) ==> *final(self) == (Cpu { registers: r, ..*old(self) }),
    {
        if opcode < 0x28 {
            self.execute_opcodes_20_27(opcode);
        } else {
            self.execute_opcodes_28_2f(opcode);
        }
    }

    #[verifier::spinoff_prover]
    #[verifier::rlimit(60)]
    fn execute_opcodes_20_27(&mut self, opcode: u8)
        requires
            old(self).wf(),
            0x20 <= opcode < 0x28,
        ensures
            final(self).wf(),
            memory_executed(old(self).registers, old(self).address_bus, final(self).address_bus, opcode),
            final(self).illegal_opcode == old(self).illegal_opcode,
            immediate_executed(*old(self), *final(self), opcode),
            word_immediate_executed(*old(self), *final(self), opcode),
            indirect_load_executed(*old(self), *final(self), opcode),
            indirect_store_executed(*old(self), *final(self), opcode),
            word_register_executed(*old(self), *final(self), opcode),
            register_only_result(old(self).registers, opcode) matches Some(r) ==> *final(self) == (Cpu { registers: r, ..*old(self) }),
    {
        if opcode == 0x20 {
            let condition = !self.is_z_flag_set();
            self.conditional_relative_jump(condition);
            proof {
                lemma_memory_done(old(self).registers, old(self).address_bus, self.address_bus, opcode);
            }
        } else if opcode == 0x21 {
            let word = self.read_next_instruction_word();
            self.store_in_register_pair(register_hl(), word);
            proof {
                lemma_memory_done(old(self).registers, old(self).address_bus, self.address_bus, opcode);
            }
        } else if opcode == 0x22 {
            let address = self.read_from_register_pair(&register_hl());
            self.load_source_register_in_memory(Register::A, address);
            self.store_in_register_pair(register_hl(), address.wrapping_add(1));
            proof {
                lemma_memory_done(old(self).registers, old(self).address_bus, self.address_bus, opcode);
            }
        } else if opcode == 0x23 {
            self.increment_register_pair(register_hl());
            proof {
                lemma_memory_done(old(self).registers, old(self).address_bus, self.address_bus, opcode);
            }
        } else if opcode == 0x24 {
            self.increment_register(Register::H);
            proof {
                lemma_memory_done(old(self).registers, old(self).address_bus, self.address_bus, opcode);
            }
        } else if opcode == 0x25 {
            self.decrement_register(Register::H);
            proof {
                lemma_memory_done(old(self).registers, old(self).address_bus, self.address_bus, opcode);
            }
        } else if opcode == 0x26 {
            self.load_immediate_value(Register::H);
            proof {
                lemma_memory_done(old(self).registers, old(self).address_bus, self.address_bus, opcode);
            }
        } else if opcode == 0x27 {
            self.bcd_adjust();
            proof {
                lemma_memory_done(old(self).registers, old(self).address_bus, self.address_bus, opcode);
            }
        }
    }

    #[verifier::spinoff_prover]
    #[verifier::rlimit(60)]
    fn execute_opcodes_28_2f(&mut self, opcode: u8)
        requires
            old(self).wf(),
            0x28 <= opcode < 0x30,
        ensures
            final(self).wf(),
            memory_executed(old(self).registers, old(self).address_bus, final(self).address_bus, opcode),
            final(self).illegal_opcode == old(self).illegal_opcode,
            immediate_executed(*old(self), *final(self), opcode),
            word_immediate_executed(*old(self), *final(self), opcode),
            indirect_load_executed(*old(self), *final(self), opcode),
            indirect_store_executed(*old(self), *final(self), opcode),
            word_register_executed(*old(self), *final(self), opcode),
            register_only_result(old(self).registers, opcode) matches Some(r) ==> *final(self) == (Cpu { registers: r, ..*old(self) }),
    {
        if opcode == 0x28 {
            let condition = self.is_z_flag_set();
            self.conditional_relative_jump(condition);
            proof {
                lemma_memory_done(old(self).registers, old(self).address_bus, self.address_bus, opcode);
            }
        } else if opcode == 0x29 {
            let word = self.read_from_register_pair(&register_hl());
            self.add_value_to_register_pair(register_hl(), word);
            proof {
                lemma_memory_done(old(self).registers, old(self).address_bus, self.address_bus, opcode);
            }
        } else if opcode == 0x2A {
            let address = self.read_from_register_pair(&register_hl());
            self.load_memory_byte_in_destination_register(address, Register::A);
            self.store_in_register_pair(register_hl(), address.wrapping_add(1));
            proof {
                lemma_memory_done(old(self).registers, old(self).address_bus, self.address_bus, opcode);
            }
        } else if opcode == 0x2B {
            self.decrement_register_pair(register_hl());
            proof {
                lemma_memory_done(old(self).registers, old(self).address_bus, self.address_bus, opcode);
            }
        } else if opcode == 0x2C {
            self.increment_register(Register::L);
            proof {
                lemma_memory_done(old(self).registers, old(self).address_bus, self.address_bus, opcode);
            }
        } else if opcode == 0x2D {
            self.decrement_register(Register::L);
            proof {
                lemma_memory_done(old(self).registers, old(self).address_bus, self.address_bus, opcode);
            }
        } else if opcode == 0x2E {
            self.load_immediate_value(Register::L);
            proof {
                lemma_memory_done(old(self).registers, old(self).address_bus, self.address_bus, opcode);
            }
        } else if opcode == 0x2F {
            self.registers.a = self.registers.a ^ 0xFF;
            let z = self.is_z_flag_set();
            let c = self.is_c_flag_set();
            self.set_flags(z, true, true, c);
            proof {
                lemma_memory_done(old(self).registers, old(self).address_bus, self.address_bus, opcode);
            }
        }
    }

    #[verifier::spinoff_prover]
    fn execute_opcodes_3x(&mut self, opcode: u8)
        requires
            old(self).wf(),
            0x30 <= opcode < 0x40,
        ensures
            final(self).wf(),
            is_memory_op(opcode) ==> memory_op_executed(old(self).registers, old(self).address_bus, *final(self), opcode),
            memory_executed(old(self).registers, old(self).address_bus, final(self).address_bus, opcode),
            final(self).illegal_opcode == old(self).illegal_opcode,
            immediate_executed(*old(self), *final(self), opcode),
            word_immediate_executed(*old(self), *final(self), opcode),
            indirect_load_executed(*old(self), *final(self), opcode),
            indirect_store_executed(*old(self), *final(self), opcode),
            word_register_executed(*old(self), *final(self), opcode),
            register_only_result(old(self).registers, opcode) matches Some(r) ==> *final(self) == (Cpu { registers: r, ..*old(self) }),
    {
        if opcode < 0x38 {
            self.execute_opcodes_30_37(opcode);
        } else {
            self.execute_opcodes_38_3f(opcode);
        }
    }

    #[verifier::spinoff_prover]
    #[verifier::rlimit(60)]
    fn execute_opcodes_30_37(&mut self, opcode: u8)
        requires
            old(self).wf(),
            0x30 <= opcode < 0x38,
        ensures
            final(self).wf(),
            is_memory_op(opcode) ==> memory_op_executed(old(self).registers, old(self).address_bus, *final(self), opcode),
            memory_executed(old(self).registers, old(self).address_bus, final(self).address_bus, opcode),
            final(self).illegal_opcode == old(self).illegal_opcode,
            immediate_executed(*old(self), *final(self), opcode),
            word_immediate_executed(*old(self), *final(self), opcode),
            indirect_load_executed(*old(self), *final(self), opcode),
            indirect_store_executed(*old(self), *final(self), opcode),
            word_register_executed(*old(self), *final(self), opcode),
            register_only_result(old(self).registers, opcode) matches Some(r) ==> *final(self) == (Cpu { registers: r, ..*old(self) }),
    {
        if opcode == 0x30 {
            let condition = !self.is_c_flag_set();
            self.conditional_relative_jump(condition);
            proof {
                lemma_memory_done(old(self).registers, old(self).address_bus, self.address_bus, opcode);
            }
        } else if opcode == 0x31 {
            let word = self.read_next_instruction_word();
            self.registers.stack_pointer = word;
            proof {
                lemma_memory_done(old(self).registers, old(self).address_bus, self.address_bus, opcode);
            }
        } else if opcode == 0x32 {
            let address = self.read_from_register_pair(&register_hl());
            self.load_source_register_in_memory(Register::A, address);
            self.store_in_register_pair(register_hl(), address.wrapping_sub(1));
            proof {
                lemma_memory_done(old(self).registers, old(self).address_bus, self.address_bus, opcode);
            }
        } else if opcode == 0x33 {
            self.registers.stack_pointer = self.registers.stack_pointer.wrapping_add(1);
            self.step_one_machine_cycle();
            proof {
                lemma_memory_done(old(self).registers, old(self).address_bus, self.address_bus, opcode);
            }
        } else if opcode == 0x34 {
            self.increment_memory_byte();
            proof {
                let hl = hl_value(old(self).registers);
                if let Some(byte) = known_read(old(self).address_bus, hl) {
                    lemma_read_then_write_wrote(old(self).address_bus, self.address_bus, hl, ((byte + 1) % 256) as u8);
                }
            }
            proof {
                lemma_memory_done(old(self).registers, old(self).address_bus, self.address_bus, opcode);
            }
            proof {
                lemma_memory_op_done(old(self).registers, old(self).address_bus, *self, opcode);
            }
        } else if opcode == 0x35 {
            self.decrement_memory_byte();
            proof {
                let hl = hl_value(old(self).registers);
                if let Some(byte) = known_read(old(self).address_bus, hl) {
                    lemma_read_then_write_wrote(old(self).address_bus, self.address_bus, hl, ((byte - 1) % 256) as u8);
                }
            }
            proof {
                lemma_memory_done(old(self).registers, old(self).address_bus, self.address_bus, opcode);
            }
            proof {
                lemma_memory_op_done(old(self).registers, old(self).address_bus, *self, opcode);
            }
        } else if opcode == 0x36 {
            self.load_immediate_value_in_memory(register_hl());
            assert(pair_value(old(self).registers, RegisterPair { first: Register::H, second: Register::L }) == hl_value(old(self).registers));
            proof {
                lemma_memory_done(old(self).registers, old(self).address_bus, self.address_bus, opcode);
            }
            proof {
                lemma_memory_op_done(old(self).registers, old(self).address_bus, *self, opcode);
            }
        } else if opcode == 0x37 {
            let z = self.is_z_flag_set();
            self.set_flags(z, false, false, true);
            proof {
                lemma_memory_done(old(self).registers, old(self).address_bus, self.address_bus, opcode);
            }
        }
    }

    #[verifier::spinoff_prover]
    #[verifier::rlimit(60)]
    fn execute_opcodes_38_3f(&mut self, opcode: u8)
        requires
            old(self).wf(),
            0x38 <= opcode < 0x40,
        ensures
            final(self).wf(),
            memory_executed(old(self).registers, old(self).address_bus, final(self).address_bus, opcode),
            final(self).illegal_opcode == old(self).illegal_opcode,
            immediate_executed(*old(self), *final(self), opcode),
            word_immediate_executed(*old(self), *final(self), opcode),
            indirect_load_executed(*old(self), *final(self), opcode),
            indirect_store_executed(*old(self), *final(self), opcode),
            word_register_executed(*old(self), *final(self), opcode),
            register_only_result(old(self).registers, opcode) matches Some(r) ==> *final(self) == (Cpu { registers: r, ..*old(self) }),
    {
        if opcode == 0x38 {
            let condition = self.is_c_flag_set();
            self.conditional_relative_jump(condition);
            proof {
                lemma_memory_done(old(self).registers, old(self).address_bus, self.address_bus, opcode);
            }
        } else if opcode == 0x39 {
            let stack_pointer = self.registers.stack_pointer;
            self.add_value_to_register_pair(register_hl(), stack_pointer);
            proof {
                lemma_memory_done(old(self).registers, old(self).address_bus, self.address_bus, opcode);
            }
        } else if opcode == 0x3A {
            let address = self.read_from_register_pair(&register_hl());
            self.load_memory_byte_in_destination_register(address, Register::A);
            self.store_in_register_pair(register_hl(), address.wrapping_sub(1));
            proof {
                lemma_memory_done(old(self).registers, old(self).address_bus, self.address_bus, opcode);
            }
        } else if opcode == 0x3B {
            self.registers.stack_pointer = self.registers.stack_pointer.wrapping_sub(1);
            self.step_one_machine_cycle();
            proof {
                lemma_memory_done(old(self).registers, old(self).address_bus, self.address_bus, opcode);
            }
        } else if opcode == 0x3C {
            self.increment_register(Register::A);
            proof {
                lemma_memory_done(old(self).registers, old(self).address_bus, self.address_bus, opcode);
            }
        } else if opcode == 0x3D {
            self.decrement_register(Register::A);
            proof {
                lemma_memory_done(old(self).registers, old(self).address_bus, self.address_bus, opcode);
            }
        } else if opcode == 0x3E {
            self.load_immediate_value(Register::A);
            proof {
                lemma_memory_done(old(self).registers, old(self).address_bus, self.address_bus, opcode);
            }
        } else {
            let z = self.is_z_flag_set();
            let c_flag_set = self.is_c_flag_set();
            self.set_flags(z, false, false, !c_flag_set);
            proof {
                lemma_memory_done(old(self).registers, old(self).address_bus, self.address_bus, opcode);
            }
        }
    }

    #[verifier::spinoff_prover]
    fn execute_high_opcode(&mut self, opcode: u8)
        requires
            old(self).wf(),
            opcode >= 0xC0,
        ensures
            final(self).wf(),
            is_memory_op(opcode) ==> memory_op_executed(old(self).registers, old(self).address_bus, *final(self), opcode),
            memory_executed(old(self).registers, old(self).address_bus, final(self).address_bus, opcode),
            old(self).illegal_opcode is None && is_illegal_opcode(opcode) ==> final(self).illegal_opcode == Some(opcode),
            !is_illegal_opcode(opcode) ==> final(self).illegal_opcode == old(self).illegal_opcode,
            immediate_executed(*old(self), *final(self), opcode),
            word_immediate_executed(*old(self), *final(self), opcode),
            pop_executed(*old(self), *final(self), opcode),
            push_executed(*old(self), *final(self), opcode),
            register_only_result(old(self).registers, opcode) matches Some(r) ==> *final(self) == (Cpu { registers: r, ..*old(self) }),
            (opcode == 0xF3 || opcode == 0xFB) ==> *final(self) == control_result(*old(self), opcode)->0,
            word_register_executed(*old(self), *final(self), opcode),
            opcode == 0xCB ==> cb_register_executed(*old(self), *final(self)),
    {
        if is_illegal_opcode_exec(opcode) {
            let error = handle_illegal_opcode(opcode);
            self.illegal_opcode = Some(error.opcode);
            proof {
                lemma_memory_done(old(self).registers, old(self).address_bus, self.address_bus, opcode);
            }
        } else if opcode < 0xD0 {
            self.execute_opcodes_cx(opcode);
        } else if opcode < 0xE0 {
            self.execute_opcodes_dx(opcode);
        } else if opcode < 0xF0 {
            self.execute_opcodes_ex(opcode);
        } else {
            self.execute_opcodes_fx(opcode);
        }
    }

    #[verifier::spinoff_prover]
    fn execute_opcodes_cx(&mut self, opcode: u8)
        requires
            old(self).wf(),
            0xC0 <= opcode < 0xD0,
            !is_illegal_opcode(opcode),
        ensures
            final(self).wf(),
            memory_executed(old(self).registers, old(self).address_bus, final(self).address_bus, opcode),
            final(self).illegal_opcode == old(self).illegal_opcode,
            immediate_executed(*old(self), *final(self), opcode),
            word_immediate_executed(*old(self), *final(self), opcode),
            pop_executed(*old(self), *final(self), opcode),
            push_executed(*old(self), *final(self), opcode),
            word_register_executed(*old(self), *final(self), opcode),
            opcode == 0xCB ==> cb_register_executed(*old(self), *final(self)),
    {
        if opcode < 0xC8 {
            self.execute_opcodes_c0_c7(opcode);
        } else {
            self.execute_opcodes_c8_cf(opcode);
        }
    }

    #[verifier::spinoff_prover]
    #[verifier::rlimit(60)]
    fn execute_opcodes_c0_c7(&mut self, opcode: u8)
        requires
            old(self).wf(),
            0xC0 <= opcode < 0xC8,
            !is_illegal_opcode(opcode),
        ensures
            final(self).wf(),
            memory_executed(old(self).registers, old(self).address_bus, final(self).address_bus, opcode),
            final(self).illegal_opcode == old(self).illegal_opcode,
            immediate_executed(*old(self), *final(self), opcode),
            word_immediate_executed(*old(self), *final(self), opcode),
            pop_executed(*old(self), *final(self), opcode),
            push_executed(*old(self), *final(self), opcode),
            word_register_executed(*old(self), *final(self), opcode),
            opcode == 0xCB ==> cb_register_executed(*old(self), *final(self)),
    {
        if opcode == 0xC0 {
            let condition = !self.is_z_flag_set();
            self.conditional_stack_return(condition);
            proof {
                lemma_memory_done(old(self).registers, old(self).address_bus, self.address_bus, opcode);
            }
        } else if opcode == 0xC1 {
            self.pop_word_into_register_pair_from_stack(register_bc());
            proof {
                lemma_memory_done(old(self).registers, old(self).address_bus, self.address_bus, opcode);
            }
        } else if opcode == 0xC2 {
            let condition = !self.is_z_flag_set();
            self.conditional_jump_using_immediate_word(condition);
            proof {
                lemma_memory_done(old(self).registers, old(self).address_bus, self.address_bus, opcode);
            }
        } else if opcode == 0xC3 {
            self.registers.program_counter = self.read_next_instruction_word();
            self.step_one_machine_cycle();
            proof {
                lemma_memory_done(old(self).registers, old(self).address_bus, self.address_bus, opcode);
            }
        } else if opcode == 0xC4 {
            let condition = !self.is_z_flag_set();
            self.conditional_call_using_immediate_word(condition);
            proof {
                lemma_memory_done(old(self).registers, old(self).address_bus, self.address_bus, opcode);
            }
        } else if opcode == 0xC5 {
            self.push_register_pair_to_stack(register_bc());
            proof {
                lemma_memory_done(old(self).registers, old(self).address_bus, self.address_bus, opcode);
            }
        } else if opcode == 0xC6 {
            let value = self.read_next_instruction_byte();
            self.add_value_to_register(Register::A, value);
            proof {
                lemma_memory_done(old(self).registers, old(self).address_bus, self.address_bus, opcode);
            }
        } else if opcode == 0xC7 {
            self.restart(0x0);
            proof {
                lemma_memory_done(old(self).registers, old(self).address_bus, self.address_bus, opcode);
            }
        }
    }

    #[verifier::spinoff_prover]
    #[verifier::rlimit(60)]
    fn execute_opcodes_c8_cf(&mut self, opcode: u8)
        requires
            old(self).wf(),
            0xC8 <= opcode < 0xD0,
            !is_illegal_opcode(opcode),
        ensures
            final(self).wf(),
            memory_executed(old(self).registers, old(self).address_bus, final(self).address_bus, opcode),
            final(self).illegal_opcode == old(self).illegal_opcode,
            immediate_executed(*old(self), *final(self), opcode),
            word_immediate_executed(*old(self), *final(self), opcode),
            pop_executed(*old(self), *final(self), opcode),
            push_executed(*old(self), *final(self), opcode),
            word_register_executed(*old(self), *final(self), opcode),
            opcode == 0xCB ==> cb_register_executed(*old(self), *final(self)),
    {
        if opcode == 0xC8 {
            let condition = self.is_z_flag_set();
            self.conditional_stack_return(condition);
            proof {
                lemma_memory_done(old(self).registers, old(self).address_bus, self.address_bus, opcode);
            }
        } else if opcode == 0xC9 {
            self.stack_return();
            proof {
                lemma_memory_done(old(self).registers, old(self).address_bus, self.address_bus, opcode);
            }
        } else if opcode == 0xCA {
            let condition = self.is_z_flag_set();
            self.conditional_jump_using_immediate_word(condition);
            proof {
                lemma_memory_done(old(self).registers, old(self).address_bus, self.address_bus, opcode);
            }
        } else if opcode == 0xCB {
            let _ = self.execute_cb_opcode();
            proof {
                lemma_memory_done(old(self).registers, old(self).address_bus, self.address_bus, opcode);
            }
        } else if opcode == 0xCC {
            let condition = self.is_z_flag_set();
            self.conditional_call_using_immediate_word(condition);
            proof {
                lemma_memory_done(old(self).registers, old(self).address_bus, self.address_bus, opcode);
            }
        } else if opcode == 0xCD {
            self.call();
            proof {
                lemma_memory_done(old(self).registers, old(self).address_bus, self.address_bus, opcode);
            }
        } else if opcode == 0xCE {
            let value = self.read_next_instruction_byte();
            self.add_value_and_carry_to_register(Register::A, value);
            proof {
                lemma_memory_done(old(self).registers, old(self).address_bus, self.address_bus, opcode);
            }
        } else if opcode == 0xCF {
            self.restart(0x8);
            proof {
                lemma_memory_done(old(self).registers, old(self).address_bus, self.address_bus, opcode);
            }
        }
    }

    #[verifier::spinoff_prover]
    fn execute_opcodes_dx(&mut self, opcode: u8)
        requires
            old(self).wf(),
            0xD0 <= opcode < 0xE0,
            !is_illegal_opcode(opcode),
        ensures
            final(self).wf(),
            is_memory_op(opcode) ==> memory_op_executed(old(self).registers, old(self).address_bus, *final(self), opcode),
            memory_executed(old(self).registers, old(self).address_bus, final(self).address_bus, opcode),
            final(self).illegal_opcode == old(self).illegal_opcode,
            immediate_executed(*old(self), *final(self), opcode),
            word_immediate_executed(*old(self), *final(self), opcode),
            pop_executed(*old(self), *final(self), opcode),
            push_executed(*old(self), *final(self), opcode),
            word_register_executed(*old(self), *final(self), opcode),
    {
        if opcode < 0xD8 {
            self.execute_opcodes_d0_d7(opcode);
        } else {
            self.execute_opcodes_d8_df(opcode);
        }
    }

    #[verifier::spinoff_prover]
    #[verifier::rlimit(60)]
    fn execute_opcodes_d0_d7(&mut self, opcode: u8)
        requires
            old(self).wf(),
            0xD0 <= opcode < 0xD8,
            !is_illegal_opcode(opcode),
        ensures
            final(self).wf(),
            memory_executed(old(self).registers, old(self).address_bus, final(self).address_bus, opcode),
            final(self).illegal_opcode == old(self).illegal_opcode,
            immediate_executed(*old(self), *final(self), opcode),
            word_immediate_executed(*old(self), *final(self), opcode),
            pop_executed(*old(self), *final(self), opcode),
            push_executed(*old(self), *final(self), opcode),
            word_register_executed(*old(self), *final(self), opcode),
    {
        if opcode == 0xD0 {
            let condition = !self.is_c_flag_set();
            self.conditional_stack_return(condition);
            proof {
                lemma_memory_done(old(self).registers, old(self).address_bus, self.address_bus, opcode);
            }
        } else if opcode == 0xD1 {
            self.pop_word_into_register_pair_from_stack(register_de());
            proof {
                lemma_memory_done(old(self).registers, old(self).address_bus, self.address_bus, opcode);
            }
        } else if opcode == 0xD2 {
            let condition = !self.is_c_flag_set();
            self.conditional_jump_using_immediate_word(condition);
            proof {
                lemma_memory_done(old(self).registers, old(self).address_bus, self.address_bus, opcode);
            }
        } else if opcode == 0xD4 {
            let condition = !self.is_c_flag_set();
            self.conditional_call_using_immediate_word(condition);
            proof {
                lemma_memory_done(old(self).registers, old(self).address_bus, self.address_bus, opcode);
            }
        } else if opcode == 0xD5 {
            self.push_register_pair_to_stack(register_de());
            proof {
                lemma_memory_done(old(self).registers, old(self).address_bus, self.address_bus, opcode);
            }
        } else if opcode == 0xD6 {
            let value = self.read_next_instruction_byte();
            self.subtract_value_from_register(Register::A, value);
            proof {
                lemma_memory_done(old(self).registers, old(self).address_bus, self.address_bus, opcode);
            }
        } else if opcode == 0xD7 {
            self.restart(0x10);
            proof {
                lemma_memory_done(old(self).registers, old(self).address_bus, self.address_bus, opcode);
            }
        }
    }

    #[verifier::spinoff_prover]
    #[verifier::rlimit(60)]
    fn execute_opcodes_d8_df(&mut self, opcode: u8)
        requires
            old(self).wf(),
            0xD8 <= opcode < 0xE0,
            !is_illegal_opcode(opcode),
        ensures
            final(self).wf(),
            is_memory_op(opcode) ==> memory_op_executed(old(self).registers, old(self).address_bus, *final(self), opcode),
            memory_executed(old(self).registers, old(self).address_bus, final(self).address_bus, opcode),
            final(self).illegal_opcode == old(self).illegal_opcode,
            immediate_executed(*old(self), *final(self), opcode),
            word_immediate_executed(*old(self), *final(self), opcode),
            pop_executed(*old(self), *final(self), opcode),
            push_executed(*old(self), *final(self), opcode),
            word_register_executed(*old(self), *final(self), opcode),
    {
        if opcode == 0xD8 {
            let condition = self.is_c_flag_set();
            self.conditional_stack_return(condition);
            proof {
                lemma_memory_done(old(self).registers, old(self).address_bus, self.address_bus, opcode);
            }
        } else if opcode == 0xD9 {
            self.stack_return();
            self.interrupts.enabled = true;
            proof {
                lemma_memory_done(old(self).registers, old(self).address_bus, self.address_bus, opcode);
            }
            proof {
                lemma_memory_op_done(old(self).registers, old(self).address_bus, *self, opcode);
            }
        } else if opcode == 0xDA {
            let condition = self.is_c_flag_set();
            self.conditional_jump_using_immediate_word(condition);
            proof {
                lemma_memory_done(old(self).registers, old(self).address_bus, self.address_bus, opcode);
            }
        } else if opcode == 0xDC {
            let condition = self.is_c_flag_set();
            self.conditional_call_using_immediate_word(condition);
            proof {
                lemma_memory_done(old(self).registers, old(self).address_bus, self.address_bus, opcode);
            }
        } else if opcode == 0xDE {
            let value = self.read_next_instruction_byte();
            self.subtract_value_and_carry_from_register(Register::A, value);
            proof {
                lemma_memory_done(old(self).registers, old(self).address_bus, self.address_bus, opcode);
            }
        } else if opcode == 0xDF {
            self.restart(0x18);
            proof {
                lemma_memory_done(old(self).registers, old(self).address_bus, self.address_bus, opcode);
            }
        }
    }

    #[verifier::spinoff_prover]
    fn execute_opcodes_ex(&mut self, opcode: u8)
        requires
            old(self).wf(),
            0xE0 <= opcode < 0xF0,
            !is_illegal_opcode(opcode),
        ensures
            final(self).wf(),
            is_memory_op(opcode) ==> memory_op_executed(old(self).registers, old(self).address_bus, *final(self), opcode),
            memory_executed(old(self).registers, old(self).address_bus, final(self).address_bus, opcode),
            final(self).illegal_opcode == old(self).illegal_opcode,
            immediate_executed(*old(self), *final(self), opcode),
            word_immediate_executed(*old(self), *final(self), opcode),
            pop_executed(*old(self), *final(self), opcode),
            push_executed(*old(self), *final(self), opcode),
            register_only_result(old(self).registers, opcode) matches Some(r) ==> *final(self) == (Cpu { registers: r, ..*old(self) }),
            word_register_executed(*old(self), *final(self), opcode),
    {
        if opcode < 0xE8 {
            self.execute_opcodes_e0_e7(opcode);
        } else {
            self.execute_opcodes_e8_ef(opcode);
        }
    }

    #[verifier::spinoff_prover]
    #[verifier::rlimit(60)]
    fn execute_opcodes_e0_e7(&mut self, opcode: u8)
        requires
            old(self).wf(),
            0xE0 <= opcode < 0xE8,
            !is_illegal_opcode(opcode),
        ensures
            final(self).wf(),
            is_memory_op(opcode) ==> memory_op_executed(old(self).registers, old(self).address_bus, *final(self), opcode),
            memory_executed(old(self).registers, old(self).address_bus, final(self).address_bus, opcode),
            final(self).illegal_opcode == old(self).illegal_opcode,
            immediate_executed(*old(self), *final(self), opcode),
            word_immediate_executed(*old(self), *final(self), opcode),
            pop_executed(*old(self), *final(self), opcode),
            push_executed(*old(self), *final(self), opcode),
            register_only_result(old(self).registers, opcode) matches Some(r) ==> *final(self) == (Cpu { registers: r, ..*old(self) }),
            word_register_executed(*old(self), *final(self), opcode),
    {
        if opcode == 0xE0 {
            let address = 0xFF00 + self.read_next_instruction_byte() as u16;
            let ghost mid = self.address_bus;
            self.load_source_register_in_memory(Register::A, address);
            proof {
                lemma_cycles_then_wrote(old(self).address_bus, mid, self.address_bus, seq![(address, self.registers.a)]);
            }
            proof {
                lemma_memory_done(old(self).registers, old(self).address_bus, self.address_bus, opcode);
            }
            proof {
                lemma_memory_op_done(old(self).registers, old(self).address_bus, *self, opcode);
            }
        } else if opcode == 0xE1 {
            self.pop_word_into_register_pair_from_stack(register_hl());
            proof {
                lemma_memory_done(old(self).registers, old(self).address_bus, self.address_bus, opcode);
            }
        } else if opcode == 0xE2 {
            let address = 0xFF00 + self.read_from_register(&Register::C) as u16;
            self.load_source_register_in_memory(Register::A, address);
            proof {
                lemma_memory_done(old(self).registers, old(self).address_bus, self.address_bus, opcode);
            }
            proof {
                lemma_memory_op_done(old(self).registers, old(self).address_bus, *self, opcode);
            }
        } else if opcode == 0xE5 {
            self.push_register_pair_to_stack(register_hl());
            proof {
                lemma_memory_done(old(self).registers, old(self).address_bus, self.address_bus, opcode);
            }
        } else if opcode == 0xE6 {
            let value = self.read_next_instruction_byte();
            self.logical_and_with_register(Register::A, value);
            proof {
                lemma_memory_done(old(self).registers, old(self).address_bus, self.address_bus, opcode);
            }
        } else if opcode == 0xE7 {
            self.restart(0x20);
            proof {
                lemma_memory_done(old(self).registers, old(self).address_bus, self.address_bus, opcode);
            }
        }
    }

    #[verifier::spinoff_prover]
    #[verifier::rlimit(60)]
    fn execute_opcodes_e8_ef(&mut self, opcode: u8)
        requires
            old(self).wf(),
            0xE8 <= opcode < 0xF0,
            !is_illegal_opcode(opcode),
        ensures
            final(self).wf(),
            is_memory_op(opcode) ==> memory_op_executed(old(self).registers, old(self).address_bus, *final(self), opcode),
            memory_executed(old(self).registers, old(self).address_bus, final(self).address_bus, opcode),
            final(self).illegal_opcode == old(self).illegal_opcode,
            immediate_executed(*old(self), *final(self), opcode),
            word_immediate_executed(*old(self), *final(self), opcode),
            pop_executed(*old(self), *final(self), opcode),
            push_executed(*old(self), *final(self), opcode),
            register_only_result(old(self).registers, opcode) matches Some(r) ==> *final(self) == (Cpu { registers: r, ..*old(self) }),
            word_register_executed(*old(self), *final(self), opcode),
    {
        if opcode == 0xE8 {
            let offset = self.read_next_instruction_byte();
            let sum = self.add_signed_to_stack_pointer(offset);
            self.registers.stack_pointer = sum;
            self.step_one_machine_cycle();
            self.step_one_machine_cycle();
            proof {
                lemma_memory_done(old(self).registers, old(self).address_bus, self.address_bus, opcode);
            }
        } else if opcode == 0xE9 {
            let address = self.read_from_register_pair(&register_hl());
            self.registers.program_counter = address;
            proof {
                lemma_memory_done(old(self).registers, old(self).address_bus, self.address_bus, opcode);
            }
        } else if opcode == 0xEA {
            let address = self.read_next_instruction_word();
            let ghost mid = self.address_bus;
            self.load_source_register_in_memory(Register::A, address);
            proof {
                lemma_cycles_then_wrote(old(self).address_bus, mid, self.address_bus, seq![(address, self.registers.a)]);
            }
            proof {
                lemma_memory_done(old(self).registers, old(self).address_bus, self.address_bus, opcode);
            }
            proof {
                lemma_memory_op_done(old(self).registers, old(self).address_bus, *self, opcode);
            }
        } else if opcode == 0xEE {
            let value = self.read_next_instruction_byte();
            self.logical_xor_with_register(Register::A, value);
            proof {
                lemma_memory_done(old(self).registers, old(self).address_bus, self.address_bus, opcode);
            }
        } else if opcode == 0xEF {
            self.restart(0x28);
            proof {
                lemma_memory_done(old(self).registers, old(self).address_bus, self.address_bus, opcode);
            }
        }
    }

    #[verifier::spinoff_prover]
    fn execute_opcodes_fx(&mut self, opcode: u8)
        requires
            old(self).wf(),
            0xF0 <= opcode,
            !is_illegal_opcode(opcode),
        ensures
            final(self).wf(),
            is_memory_op(opcode) ==> memory_op_executed(old(self).registers, old(self).address_bus, *final(self), opcode),
            memory_executed(old(self).registers, old(self).address_bus, final(self).address_bus, opcode),
            final(self).illegal_opcode == old(self).illegal_opcode,
            immediate_executed(*old(self), *final(self), opcode),
            word_immediate_executed(*old(self), *final(self), opcode),
            pop_executed(*old(self), *final(self), opcode),
            push_executed(*old(self), *final(self), opcode),
            (opcode == 0xF3 || opcode == 0xFB) ==> *final(self) == control_result(*old(self), opcode)->0,
            word_register_executed(*old(self), *final(self), opcode),
    {
        if opcode < 0xF8 {
            self.execute_opcodes_f0_f7(opcode);
        } else {
            self.execute_opcodes_f8_ff(opcode);
        }
    }

    #[verifier::spinoff_prover]
    #[verifier::rlimit(60)]
    fn execute_opcodes_f0_f7(&mut self, opcode: u8)
        requires
            old(self).wf(),
            0xF0 <= opcode < 0xF8,
            !is_illegal_opcode(opcode),
        ensures
            final(self).wf(),
            is_memory_op(opcode) ==> memory_op_executed(old(self).registers, old(self).address_bus, *final(self), opcode),
            memory_executed(old(self).registers, old(self).address_bus, final(self).address_bus, opcode),
            final(self).illegal_opcode == old(self).illegal_opcode,
            immediate_executed(*old(self), *final(self), opcode),
            word_immediate_executed(*old(self), *final(self), opcode),
            pop_executed(*old(self), *final(self), opcode),
            push_executed(*old(self), *final(self), opcode),
            (opcode == 0xF3 || opcode == 0xFB) ==> *final(self) == control_result(*old(self), opcode)->0,
            word_register_executed(*old(self), *final(self), opcode),
    {
        if opcode == 0xF0 {
            let address = 0xFF00 + self.read_next_instruction_byte() as u16;
            proof {
                if known_read(old(self).address_bus, address) is Some {
                    crate::cpu::microops::lemma_known_read_kept(old(self).address_bus, self.address_bus, address);
                }
            }
            self.load_memory_byte_in_destination_register(address, Register::A);
            proof {
                lemma_memory_done(old(self).registers, old(self).address_bus, self.address_bus, opcode);
            }
            proof {
                lemma_memory_op_done(old(self).registers, old(self).address_bus, *self, opcode);
            }
        } else if opcode == 0xF1 {
            let word = self.pop_word_from_stack();
            self.store_in_register_pair(register_af(), word & 0xFFF0);
            proof {
                lemma_memory_done(old(self).registers, old(self).address_bus, self.address_bus, opcode);
            }
        } else if opcode == 0xF2 {
            let address = 0xFF00 + self.read_from_register(&Register::C) as u16;
            self.load_memory_byte_in_destination_register(address, Register::A);
            proof {
                lemma_memory_done(old(self).registers, old(self).address_bus, self.address_bus, opcode);
            }
            proof {
                lemma_memory_op_done(old(self).registers, old(self).address_bus, *self, opcode);
            }
        } else if opcode == 0xF3 {
            self.interrupts.disable_delay = 2;
            proof {
                lemma_memory_done(old(self).registers, old(self).address_bus, self.address_bus, opcode);
            }
        } else if opcode == 0xF5 {
            self.push_register_pair_to_stack(register_af());
            proof {
                lemma_memory_done(old(self).registers, old(self).address_bus, self.address_bus, opcode);
            }
        } else if opcode == 0xF6 {
            let value = self.read_next_instruction_byte();
            self.logical_or_with_register(Register::A, value);
            proof {
                lemma_memory_done(old(self).registers, old(self).address_bus, self.address_bus, opcode);
            }
        } else if opcode == 0xF7 {
            self.restart(0x30);
            proof {
                lemma_memory_done(old(self).registers, old(self).address_bus, self.address_bus, opcode);
            }
        }
    }

    #[verifier::spinoff_prover]
    fn execute_opcodes_f8_ff(&mut self, opcode: u8)
        requires
            old(self).wf(),
            0xF8 <= opcode,
            !is_illegal_opcode(opcode),
        ensures
            final(self).wf(),
            is_memory_op(opcode) ==> memory_op_executed(old(self).registers, old(self).address_bus, *final(self), opcode),
            memory_executed(old(self).registers, old(self).address_bus, final(self).address_bus, opcode),
            final(self).illegal_opcode == old(self).illegal_opcode,
            immediate_executed(*old(self), *final(self), opcode),
            word_immediate_executed(*old(self), *final(self), opcode),
            pop_executed(*old(self), *final(self), opcode),
            push_executed(*old(self), *final(self), opcode),
            (opcode == 0xF3 || opcode == 0xFB) ==> *final(self) == control_result(*old(self), opcode)->0,
            word_register_executed(*old(self), *final(self), opcode),
    {
        if opcode < 0xFB {
            self.execute_opcodes_f8_fa(opcode);
        } else {
            self.execute_opcodes_fb_ff(opcode);
        }
    }

    #[verifier::spinoff_prover]
    #[verifier::rlimit(100)]
    fn execute_opcodes_f8_fa(&mut self, opcode: u8)
        requires
            old(self).wf(),
            0xF8 <= opcode < 0xFB,
            !is_illegal_opcode(opcode),
        ensures
            final(self).wf(),
            is_memory_op(opcode) ==> memory_op_executed(old(self).registers, old(self).address_bus, *final(self), opcode),
            memory_executed(old(self).registers, old(self).address_bus, final(self).address_bus, opcode),
            final(self).illegal_opcode == old(self).illegal_opcode,
            immediate_executed(*old(self), *final(self), opcode),
            word_immediate_executed(*old(self), *final(self), opcode),
            pop_executed(*old(self), *final(self), opcode),
            push_executed(*old(self), *final(self), opcode),
            (opcode == 0xF3 || opcode == 0xFB) ==> *final(self) == control_result(*old(self), opcode)->0,
            word_register_executed(*old(self), *final(self), opcode),
    {
        if opcode == 0xF8 {
            let offset = self.read_next_instruction_byte();
            let sum = self.add_signed_to_stack_pointer(offset);
            self.store_in_register_pair(register_hl(), sum);
            self.step_one_machine_cycle();
            proof {
                lemma_memory_done(old(self).registers, old(self).address_bus, self.address_bus, opcode);
            }
        } else if opcode == 0xF9 {
            let word = self.read_from_register_pair(&register_hl());
            self.registers.stack_pointer = word;
            self.step_one_machine_cycle();
            proof {
                lemma_memory_done(old(self).registers, old(self).address_bus, self.address_bus, opcode);
            }
        } else {
            let address = self.read_next_instruction_word();
            proof {
                if known_read(old(self).address_bus, address) is Some {
                    crate::cpu::microops::lemma_known_read_kept(old(self).address_bus, self.address_bus, address);
                }
            }
            self.load_memory_byte_in_destination_register(address, Register::A);
            proof {
                lemma_memory_op_done(old(self).registers, old(self).address_bus, *self, opcode);
            }
            proof {
                lemma_memory_done(old(self).registers, old(self).address_bus, self.address_bus, opcode);
            }
        }
    }

    #[verifier::spinoff_prover]
    #[verifier::rlimit(100)]
    fn execute_opcodes_fb_ff(&mut self, opcode: u8)
        requires
            old(self).wf(),
            0xFB <= opcode,
            !is_illegal_opcode(opcode),
        ensures
            final(self).wf(),
            memory_executed(old(self).registers, old(self).address_bus, final(self).address_bus, opcode),
            final(self).illegal_opcode == old(self).illegal_opcode,
            immediate_executed(*old(self), *final(self), opcode),
            word_immediate_executed(*old(self), *final(self), opcode),
            pop_executed(*old(self), *final(self), opcode),
            push_executed(*old(self), *final(self), opcode),
            (opcode == 0xF3 || opcode == 0xFB) ==> *final(self) == control_result(*old(self), opcode)->0,
            word_register_executed(*old(self), *final(self), opcode),
    {
        if opcode == 0xFB {
            self.interrupts.enable_delay = 2;
            proof {
                lemma_memory_done(old(self).registers, old(self).address_bus, self.address_bus, opcode);
            }
        } else if opcode == 0xFE {
            let value = self.read_next_instruction_byte();
            self.compare_value_with_register(Register::A, value);
            proof {
                lemma_memory_done(old(self).registers, old(self).address_bus, self.address_bus, opcode);
            }
        } else {
            self.restart(0x38);
            proof {
                lemma_memory_done(old(self).registers, old(self).address_bus, self.address_bus, opcode);
            }
        }
    }

    /// The CB-prefixed instructions: shifts and rotates, then BIT, RES and SET, each on the
    /// register or (HL) that the low three bits name.
    #[verifier::spinoff_prover]
    #[verifier::rlimit(100)]
    fn execute_cb_opcode(&mut self) -> (cb: u8)
        requires
            old(self).wf(),
        ensures
            final(self).wf(),
            final(self).illegal_opcode == old(self).illegal_opcode,
            known_read(old(self).address_bus, old(self).registers.program_counter) matches Some(v) ==> cb == v,
            cb % 8 != 6 ==> final(self).registers == cb_register_result(
                Registers { program_counter: old(self).registers.program_counter.wrapping_add(1), ..old(self).registers }, cb),
            cb % 8 != 6 ==> same_processor(Cpu { registers: final(self).registers, ..*old(self) }, *final(self)),
            cb % 8 != 6 ==> clock_frame(old(self).address_bus, final(self).address_bus),
            cb % 8 == 6 ==> final(self).registers == (Registers {
                f: final(self).registers.f,
                program_counter: old(self).registers.program_counter.wrapping_add(1),
                ..old(self).registers
            }),
            cb % 8 == 6 ==> same_processor(Cpu { registers: final(self).registers, ..*old(self) }, *final(self)),
            cb % 8 == 6 ==> (known_read(old(self).address_bus, hl_value(old(self).registers)) matches Some(byte) ==> {
                &&& final(self).registers.f == cb_memory_flags(cb, byte, old(self).registers.f)
                &&& match cb_memory_write(cb, byte, c_flag(old(self).registers.f)) {
                    Some(v) => wrote(old(self).address_bus, final(self).address_bus, seq![(hl_value(old(self).registers), v)]),
                    None => clock_frame(old(self).address_bus, final(self).address_bus),
                }
            }),
    {
        let opcode = self.read_next_instruction_byte();
        let ghost mid = self.address_bus;
        proof {
            let hl = hl_value(old(self).registers);
            if known_read(old(self).address_bus, hl) is Some {
                crate::cpu::microops::lemma_known_read_kept(old(self).address_bus, mid, hl);
            }
        }
        let target = opcode % 8;
        let group = opcode / 8;
        if group < 8 {
            if group == 6 {
                if target == 6 {
                    let address = self.read_from_register_pair(&register_hl());
                    self.swap_nibbles_in_memory_byte(address);
                } else {
                    self.swap_nibbles_in_register(decode_register(target));
                }
            } else {
                let kind = if group == 0 {
                    ShiftKind::RotateLeft
                } else if group == 1 {
                    ShiftKind::RotateRight
                } else if group == 2 {
                    ShiftKind::RotateLeftThroughCarry
                } else if group == 3 {
                    ShiftKind::RotateRightThroughCarry
                } else if group == 4 {
                    ShiftKind::ShiftLeft
                } else if group == 5 {
                    ShiftKind::ShiftRightArithmetic
                } else {
                    ShiftKind::ShiftRightLogical
                };
                if target == 6 {
                    self.shift_memory_byte_of_kind(kind);
                } else {
                    self.shift_register_of_kind(decode_register(target), kind);
                }
            }
        } else {
            let bit_index = group % 8;
            if group < 16 {
                if target == 6 {
                    self.test_memory_bit(bit_index);
                } else {
                    self.test_register_bit(decode_register(target), bit_index);
                }
            } else if group < 24 {
                if target == 6 {
                    self.reset_memory_bit(bit_index);
                } else {
                    self.reset_register_bit(decode_register(target), bit_index);
                }
            } else {
                if target == 6 {
                    self.set_memory_bit(bit_index);
                } else {
                    self.set_register_bit(decode_register(target), bit_index);
                }
            }
        }
        proof {
            let hl = hl_value(old(self).registers);
            if target == 6 {
                if let Some(byte) = known_read(old(self).address_bus, hl) {
                    if let Some(v) = cb_memory_write(opcode, byte, c_flag(old(self).registers.f)) {
                        lemma_read_then_write_wrote(mid, self.address_bus, hl, v);
                        lemma_cycles_then_wrote(old(self).address_bus, mid, self.address_bus, seq![(hl, v)]);
                    }
                }
            }
        }
        opcode
    }
}

fn is_illegal_opcode_exec(opcode: u8) -> (r: bool)
    ensures
        r == is_illegal_opcode(opcode),
{
    opcode == 0xD3 || opcode == 0xDB || opcode == 0xDD || opcode == 0xE3 || opcode == 0xE4 || opcode == 0xEB
        || opcode == 0xEC || opcode == 0xED || opcode == 0xF4 || opcode == 0xFC || opcode == 0xFD
}

} // verus!
