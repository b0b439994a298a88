use crate::address_bus::clock_frame;
use crate::cpu::microops::{known_read, known_word, lemma_cycles_then_wrote, lemma_known_read_kept, lemma_wrote_nothing, same_processor, stack_writes, wrote};
use crate::cpu::{Cpu, Registers};
use vstd::prelude::*;

verus! {

/// The target of a relative jump: the program counter moved by the signed offset byte.
pub open spec fn relative_target(program_counter: u16, offset: u8) -> u16 {
    ((program_counter + (if offset < 128 { offset as int } else { offset - 256 })) % 65536) as u16
}

pub fn relative_address(program_counter: u16, offset: u8) -> (target: u16)
    ensures
        target == relative_target(program_counter, offset),
{
    if offset < 128 {
        program_counter.wrapping_add(offset as u16)
    } else {
        program_counter.wrapping_sub(256 - offset as u16)
    }
}

impl Cpu {
    fn conditional_jump(&mut self, new_address: u16, condition: bool)
        requires
            old(self).wf(),
        ensures
            final(self).wf(),
            final(self).registers == (if condition { Registers { program_counter: new_address, ..old(self).registers } } else { old(self).registers }),
            same_processor(Cpu { registers: final(self).registers, ..*old(self) }, *final(self)),
            clock_frame(old(self).address_bus, final(self).address_bus),
    {
        if condition {
            self.registers.program_counter = new_address;
            self.step_one_machine_cycle();
        }
    }

    /// JR cc, e: the offset byte is always read; the jump (and its extra cycle) only when the
    /// condition holds.
    pub fn conditional_relative_jump(&mut self, condition: bool)
        requires
            old(self).wf(),
        ensures
            final(self).wf(),
            same_processor(Cpu { registers: final(self).registers, ..*old(self) }, *final(self)),
            clock_frame(old(self).address_bus, final(self).address_bus),
            !condition ==> final(self).registers == (Registers { program_counter: old(self).registers.program_counter.wrapping_add(1), ..old(self).registers }),
            condition ==> exists|offset: u8| final(self).registers == (Registers {
                program_counter: #[trigger] relative_target(old(self).registers.program_counter.wrapping_add(1), offset),
                ..old(self).registers
            }) && (known_read(old(self).address_bus, old(self).registers.program_counter) matches Some(v) ==> offset == v),
    {
        let offset_byte = self.read_next_instruction_byte();
        let program_counter = self.registers.program_counter;
        let result_address = relative_address(program_counter, offset_byte);
        self.conditional_jump(result_address, condition);
    }

    pub fn conditional_jump_using_immediate_word(&mut self, condition: bool)
        requires
            old(self).wf(),
        ensures
            final(self).wf(),
            same_processor(Cpu { registers: final(self).registers, ..*old(self) }, *final(self)),
            !condition ==> final(self).registers == (Registers { program_counter: old(self).registers.program_counter.wrapping_add(2), ..old(self).registers }),
            condition ==> final(self).registers == (Registers { program_counter: final(self).registers.program_counter, ..old(self).registers }),
            condition ==> (known_word(old(self).address_bus, old(self).registers.program_counter) matches Some(w) ==> final(self).registers.program_counter == w),
            clock_frame(old(self).address_bus, final(self).address_bus),
    {
        let address = self.read_next_instruction_word();
        let ghost mid = self.address_bus;
        self.conditional_jump(address, condition);
        proof {
            crate::cpu::microops::lemma_clock_frame_trans(old(self).address_bus, mid, self.address_bus);
        }
    }

    /// CALL nn: pushes the address after the instruction and jumps.
    pub fn call(&mut self)
        requires
            old(self).wf(),
        ensures
            final(self).wf(),
            same_processor(Cpu { registers: final(self).registers, ..*old(self) }, *final(self)),
            final(self).registers == (Registers {
                program_counter: final(self).registers.program_counter,
                stack_pointer: old(self).registers.stack_pointer.wrapping_sub(2),
                ..old(self).registers
            }),
            known_word(old(self).address_bus, old(self).registers.program_counter) matches Some(w) ==> final(self).registers.program_counter == w,
            wrote(old(self).address_bus, final(self).address_bus,
                stack_writes(old(self).registers.stack_pointer, old(self).registers.program_counter.wrapping_add(2))),
    {
        let word = self.read_next_instruction_word();
        let ghost mid = self.address_bus;
        let program_counter = self.registers.program_counter;
        self.push_word_to_stack(program_counter);
        self.registers.program_counter = word;
        proof {
            lemma_cycles_then_wrote(old(self).address_bus, mid, self.address_bus, stack_writes(old(self).registers.stack_pointer, program_counter));
        }
    }

    pub fn conditional_call_using_immediate_word(&mut self, condition: bool)
        requires
            old(self).wf(),
        ensures
            final(self).wf(),
            same_processor(Cpu { registers: final(self).registers, ..*old(self) }, *final(self)),
            !condition ==> final(self).registers == (Registers { program_counter: old(self).registers.program_counter.wrapping_add(2), ..old(self).registers }),
            condition ==> final(self).registers == (Registers {
                program_counter: final(self).registers.program_counter,
                stack_pointer: old(self).registers.stack_pointer.wrapping_sub(2),
                ..old(self).registers
            }),
            condition ==> (known_word(old(self).address_bus, old(self).registers.program_counter) matches Some(w) ==> final(self).registers.program_counter == w),
            wrote(old(self).address_bus, final(self).address_bus, if condition {
                stack_writes(old(self).registers.stack_pointer, old(self).registers.program_counter.wrapping_add(2))
            } else {
                Seq::empty()
            }),
    {
        let word = self.read_next_instruction_word();
        let ghost mid = self.address_bus;
        if condition {
            let program_counter = self.registers.program_counter;
            self.push_word_to_stack(program_counter);
            self.registers.program_counter = word;
            proof {
                lemma_cycles_then_wrote(old(self).address_bus, mid, self.address_bus, stack_writes(old(self).registers.stack_pointer, program_counter));
            }
        } else {
            proof {
                lemma_wrote_nothing(old(self).address_bus, self.address_bus);
            }
        }
    }

    /// RET: pops the program counter, with an extra internal cycle.
    pub fn stack_return(&mut self)
        requires
            old(self).wf(),
        ensures
            final(self).wf(),
            same_processor(Cpu { registers: final(self).registers, ..*old(self) }, *final(self)),
            clock_frame(old(self).address_bus, final(self).address_bus),
            final(self).registers == (Registers {
                program_counter: final(self).registers.program_counter,
                stack_pointer: old(self).registers.stack_pointer.wrapping_add(2),
                ..old(self).registers
            }),
            known_word(old(self).address_bus, old(self).registers.stack_pointer) matches Some(w) ==> final(self).registers.program_counter == w,
    {
        let word = self.pop_word_from_stack();
        self.registers.program_counter = word;
        self.step_one_machine_cycle();
    }

    pub fn conditional_stack_return(&mut self, condition: bool)
        requires
            old(self).wf(),
        ensures
            final(self).wf(),
            same_processor(Cpu { registers: final(self).registers, ..*old(self) }, *final(self)),
            !condition ==> final(self).registers == old(self).registers,
            condition ==> final(self).registers == (Registers {
                program_counter: final(self).registers.program_counter,
                stack_pointer: old(self).registers.stack_pointer.wrapping_add(2),
                ..old(self).registers
            }),
            condition ==> (known_word(old(self).address_bus, old(self).registers.stack_pointer) matches Some(w) ==> final(self).registers.program_counter == w),
            clock_frame(old(self).address_bus, final(self).address_bus),
    {
        self.step_one_machine_cycle();
        let ghost mid = self.address_bus;
        proof {
            let sp = old(self).registers.stack_pointer;
            if known_word(old(self).address_bus, sp) is Some {
                lemma_known_read_kept(old(self).address_bus, self.address_bus, sp);
                lemma_known_read_kept(old(self).address_bus, self.address_bus, sp.wrapping_add(1));
            }
        }
        if condition {
            self.stack_return();
        }
        proof {
            crate::cpu::microops::lemma_clock_frame_trans(old(self).address_bus, mid, self.address_bus);
        }
    }

    /// RST: pushes the program counter and jumps to a fixed address.
    pub fn restart(&mut self, new_address: u16)
        requires
            old(self).wf(),
        ensures
            final(self).wf(),
            same_processor(Cpu { registers: final(self).registers, ..*old(self) }, *final(self)),
            final(self).registers == (Registers {
                program_counter: new_address,
                stack_pointer: old(self).registers.stack_pointer.wrapping_sub(2),
                ..old(self).registers
            }),
            wrote(old(self).address_bus, final(self).address_bus,
                stack_writes(old(self).registers.stack_pointer, old(self).registers.program_counter)),
    {
        let program_counter = self.registers.program_counter;
        self.push_word_to_stack(program_counter);
        self.registers.program_counter = new_address;
    }
}

} // verus!
