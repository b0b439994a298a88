use crate::address_bus::clock_frame;
use crate::cpu::microops::{cycled_write, known_read, known_word, lemma_clock_frame_trans, lemma_cycles_then_wrote, lemma_wrote_concat, lemma_wrote_one, same_processor, stack_writes, wrote};
use crate::cpu::{with_stack_pointer, with_program_counter, pair_value, register_value, with_pair, with_register, Cpu, Register, RegisterPair, Registers};
use vstd::prelude::*;

verus! {

impl Cpu {
    /// LD r, n: the byte after the opcode.
    pub fn load_immediate_value(&mut self, register: Register)
        requires
            old(self).wf(),
        ensures
            final(self).wf(),
            same_processor(Cpu { registers: final(self).registers, ..*old(self) }, *final(self)),
            clock_frame(old(self).address_bus, final(self).address_bus),
            exists|byte: u8| final(self).registers == #[trigger] with_register(
                with_program_counter(old(self).registers, old(self).registers.program_counter.wrapping_add(1)), register, byte)
                && (known_read(old(self).address_bus, old(self).registers.program_counter) matches Some(v) ==> byte == v),
    {
        let immediate_byte = self.read_next_instruction_byte();
        self.store_in_register(register, immediate_byte);
        assert(self.registers == with_register(with_program_counter(old(self).registers, old(self).registers.program_counter.wrapping_add(1)), register, immediate_byte));
    }

    /// LD r, r'.
    pub fn load_source_register_in_destination_register(&mut self, source: Register, destination: Register)
        ensures
            *final(self) == (Cpu { registers: with_register(old(self).registers, destination, register_value(old(self).registers, source)), ..*old(self) }),
    {
        let source_value = self.read_from_register(&source);
        self.store_in_register(destination, source_value);
    }

    /// LD r, (address).
    pub fn load_memory_byte_in_destination_register(&mut self, address: u16, destination: Register)
        requires
            old(self).wf(),
        ensures
            final(self).wf(),
            same_processor(Cpu { registers: final(self).registers, ..*old(self) }, *final(self)),
            clock_frame(old(self).address_bus, final(self).address_bus),
            exists|byte: u8| final(self).registers == with_register(old(self).registers, destination, byte)
                && (known_read(old(self).address_bus, address) matches Some(v) ==> byte == v),
    {
        let byte = self.read_byte_from_memory(address);
        self.store_in_register(destination, byte);
    }

    /// LD (address), r.
    pub fn load_source_register_in_memory(&mut self, source: Register, address: u16)
        requires
            old(self).wf(),
        ensures
            final(self).wf(),
            final(self).registers == old(self).registers,
            same_processor(*old(self), *final(self)),
            cycled_write(old(self).address_bus, final(self).address_bus, address, register_value(old(self).registers, source)),
            wrote(old(self).address_bus, final(self).address_bus, seq![(address, register_value(old(self).registers, source))]),
    {
        let byte = self.read_from_register(&source);
        self.store_byte_in_memory(address, byte);
    }

    /// LD (rr), n.
    pub fn load_immediate_value_in_memory(&mut self, register_pair: RegisterPair)
        requires
            old(self).wf(),
        ensures
            final(self).wf(),
            final(self).registers == (Registers { program_counter: old(self).registers.program_counter.wrapping_add(1), ..old(self).registers }),
            same_processor(Cpu { registers: final(self).registers, ..*old(self) }, *final(self)),
            known_read(old(self).address_bus, old(self).registers.program_counter) matches Some(v)
                ==> wrote(old(self).address_bus, final(self).address_bus, seq![(pair_value(old(self).registers, register_pair), v)]),
    {
        let address = self.read_from_register_pair(&register_pair);
        let ghost start = self.address_bus;
        let immediate_byte = self.read_next_instruction_byte();
        let ghost mid = self.address_bus;
        self.store_byte_in_memory(address, immediate_byte);
        proof {
            lemma_cycles_then_wrote(start, mid, self.address_bus, seq![(address, immediate_byte)]);
        }
    }

    /// Pushes a word: an internal cycle, then the high byte below SP and the low byte below it.
    pub fn push_word_to_stack(&mut self, word: u16)
        requires
            old(self).wf(),
        ensures
            final(self).wf(),
            final(self).registers == (Registers { stack_pointer: old(self).registers.stack_pointer.wrapping_sub(2), ..old(self).registers }),
            same_processor(Cpu { registers: final(self).registers, ..*old(self) }, *final(self)),
            wrote(old(self).address_bus, final(self).address_bus, stack_writes(old(self).registers.stack_pointer, word)),
    {
        self.step_one_machine_cycle();
        let ghost b1 = self.address_bus;
        let sp_initial = self.registers.stack_pointer;
        let sp_high = sp_initial.wrapping_sub(1);
        self.store_byte_in_memory(sp_high, (word / 256) as u8);
        let ghost b2 = self.address_bus;
        let sp_low = sp_high.wrapping_sub(1);
        self.store_byte_in_memory(sp_low, (word % 256) as u8);
        self.registers.stack_pointer = sp_low;
        proof {
            lemma_cycles_then_wrote(old(self).address_bus, b1, b2, seq![(sp_high, (word / 256) as u8)]);
            lemma_wrote_concat(old(self).address_bus, b2, self.address_bus, seq![(sp_high, (word / 256) as u8)], seq![(sp_low, (word % 256) as u8)]);
            assert(seq![(sp_high, (word / 256) as u8)] + seq![(sp_low, (word % 256) as u8)] =~= stack_writes(old(self).registers.stack_pointer, word));
        }
    }

    pub fn push_register_pair_to_stack(&mut self, register_pair: RegisterPair)
        requires
            old(self).wf(),
        ensures
            final(self).wf(),
            final(self).registers == (Registers { stack_pointer: old(self).registers.stack_pointer.wrapping_sub(2), ..old(self).registers }),
            same_processor(Cpu { registers: final(self).registers, ..*old(self) }, *final(self)),
            wrote(old(self).address_bus, final(self).address_bus, stack_writes(old(self).registers.stack_pointer, pair_value(old(self).registers, register_pair))),
    {
        let word = self.read_from_register_pair(&register_pair);
        self.push_word_to_stack(word);
    }

    /// Pops a word: the low byte at SP, the high byte above it.
    pub fn pop_word_from_stack(&mut self) -> (word: u16)
        requires
            old(self).wf(),
        ensures
            final(self).wf(),
            final(self).registers == (Registers { stack_pointer: old(self).registers.stack_pointer.wrapping_add(2), ..old(self).registers }),
            same_processor(Cpu { registers: final(self).registers, ..*old(self) }, *final(self)),
            clock_frame(old(self).address_bus, final(self).address_bus),
            known_read(old(self).address_bus, old(self).registers.stack_pointer) is Some
                && known_read(old(self).address_bus, old(self).registers.stack_pointer.wrapping_add(1)) is Some
                ==> word == known_read(old(self).address_bus, old(self).registers.stack_pointer.wrapping_add(1))->0 as int * 256
                    + known_read(old(self).address_bus, old(self).registers.stack_pointer)->0 as int,
    {
        let sp_low = self.registers.stack_pointer;
        let word = self.read_word_from_memory(sp_low);
        self.registers.stack_pointer = sp_low.wrapping_add(1).wrapping_add(1);
        word
    }

    pub fn pop_word_into_register_pair_from_stack(&mut self, register_pair: RegisterPair)
        requires
            old(self).wf(),
        ensures
            final(self).wf(),
            same_processor(Cpu { registers: final(self).registers, ..*old(self) }, *final(self)),
            clock_frame(old(self).address_bus, final(self).address_bus),
            exists|word: u16| final(self).registers == #[trigger] with_pair(
                with_stack_pointer(old(self).registers, old(self).registers.stack_pointer.wrapping_add(2)), register_pair, word),
            known_word(old(self).address_bus, old(self).registers.stack_pointer) matches Some(w) ==> final(self).registers == with_pair(
                with_stack_pointer(old(self).registers, old(self).registers.stack_pointer.wrapping_add(2)), register_pair, w),
    {
        let word = self.pop_word_from_stack();
        self.store_in_register_pair(register_pair, word);
        assert(self.registers == with_pair(with_stack_pointer(old(self).registers, old(self).registers.stack_pointer.wrapping_add(2)), register_pair, word));
    }
}

} // verus!
