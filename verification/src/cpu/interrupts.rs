use vstd::prelude::*;

verus! {

/// The five interrupt sources, highest priority first.
#[derive(PartialEq, Eq, Structural, Clone, Copy, Debug)]
pub enum InterruptType {
    VBlank,
    LCDStatus,
    TimerOverflow,
    SerialLink,
    JoypadPress,
}

/// The interrupt enable register (IE).
#[derive(PartialEq, Eq, Structural, Clone, Copy, Debug)]
pub struct InterruptRegisters {
    pub enabled: u8,
}

pub fn initialize_interrupt_registers() -> (registers: InterruptRegisters)
    ensures
        registers.enabled == 0,
{
    InterruptRegisters { enabled: 0 }
}

/// Address of the service routine of an interrupt.
pub open spec fn interrupt_isr(interrupt_type: InterruptType) -> u8 {
    match interrupt_type {
        InterruptType::VBlank => 0x40,
        InterruptType::LCDStatus => 0x48,
        InterruptType::TimerOverflow => 0x50,
        InterruptType::SerialLink => 0x58,
        InterruptType::JoypadPress => 0x60,
    }
}

pub fn get_interrupt_isr(interrupt_type: &InterruptType) -> (isr: u8)
    ensures
        isr == interrupt_isr(*interrupt_type),
{
    match interrupt_type {
        InterruptType::VBlank => 0x40,
        InterruptType::LCDStatus => 0x48,
        InterruptType::TimerOverflow => 0x50,
        InterruptType::SerialLink => 0x58,
        InterruptType::JoypadPress => 0x60,
    }
}

impl InterruptRegisters {
    pub fn enabled(&self) -> (r: u8)
        ensures
            r == self.enabled,
    {
        self.enabled
    }

    pub fn set_enabled(&mut self, value: u8)
        ensures
            final(self).enabled == value,
    {
        self.enabled = value;
    }
}

} // verus!

verus! {

use crate::address_bus::{clock_frame, interrupt_flags_value, AddressBus};
use crate::cpu::microops::{lemma_cycles_then_wrote, same_processor, stack_writes, wrote};
use crate::cpu::{Cpu, Registers};
use crate::cpu::timers::TimerRegisters;
use crate::gpu::Gpu;
use crate::joypad::Joypad;
use crate::serial::Serial;

/// The requests that are both raised and enabled.
pub open spec fn fired_bits(b: AddressBus) -> u8 {
    b.interrupts.enabled & interrupt_flags_value(b) & 0x1F
}

/// The pending interrupt of highest priority among fired bits: VBlank first, joypad last.
pub open spec fn highest_interrupt(bits: u8) -> Option<InterruptType> {
    if bits & 0x01 != 0 {
        Some(InterruptType::VBlank)
    } else if bits & 0x02 != 0 {
        Some(InterruptType::LCDStatus)
    } else if bits & 0x04 != 0 {
        Some(InterruptType::TimerOverflow)
    } else if bits & 0x08 != 0 {
        Some(InterruptType::SerialLink)
    } else if bits & 0x10 != 0 {
        Some(InterruptType::JoypadPress)
    } else {
        None
    }
}

/// Of several pending interrupts the one serviced is that of the lowest set bit: VBlank
/// (bit 0) before LCD STAT (bit 1) before the timer (bit 2) before serial (bit 3) before the
/// joypad (bit 4), and there is one exactly when one of those five bits is set. Their
/// vectors lie eight bytes apart from 0x40, in the same order.
pub proof fn law_interrupt_priority(bits: u8)
    ensures
        bits & 0x01 != 0 ==> highest_interrupt(bits) == Some(InterruptType::VBlank),
        bits & 0x01 == 0 && bits & 0x02 != 0 ==> highest_interrupt(bits) == Some(InterruptType::LCDStatus),
        bits & 0x03 == 0 && bits & 0x04 != 0 ==> highest_interrupt(bits) == Some(InterruptType::TimerOverflow),
        bits & 0x07 == 0 && bits & 0x08 != 0 ==> highest_interrupt(bits) == Some(InterruptType::SerialLink),
        bits & 0x0F == 0 && bits & 0x10 != 0 ==> highest_interrupt(bits) == Some(InterruptType::JoypadPress),
        highest_interrupt(bits) is None <==> bits & 0x1F == 0,
        highest_interrupt(bits) == highest_interrupt(bits & 0x1F),
        interrupt_isr(InterruptType::VBlank) == 0x40,
        interrupt_isr(InterruptType::LCDStatus) == 0x48,
        interrupt_isr(InterruptType::TimerOverflow) == 0x50,
        interrupt_isr(InterruptType::SerialLink) == 0x58,
        interrupt_isr(InterruptType::JoypadPress) == 0x60,
{
    let m: u8 = bits & 0x1F;
    assert((bits & 0x03 == 0 ==> bits & 0x01 == 0 && bits & 0x02 == 0)
        && (bits & 0x07 == 0 ==> bits & 0x01 == 0 && bits & 0x02 == 0 && bits & 0x04 == 0)
        && (bits & 0x0F == 0 ==> bits & 0x01 == 0 && bits & 0x02 == 0 && bits & 0x04 == 0 && bits & 0x08 == 0)
        && (bits & 0x1F == 0 <==> (bits & 0x01 == 0 && bits & 0x02 == 0 && bits & 0x04 == 0 && bits & 0x08 == 0
            && bits & 0x10 == 0))
        && (m == bits & 0x1F ==> (m & 0x01 == bits & 0x01 && m & 0x02 == bits & 0x02 && m & 0x04 == bits & 0x04
            && m & 0x08 == bits & 0x08 && m & 0x10 == bits & 0x10))) by (bit_vector);
}

/// The bus with the request of one interrupt source cleared.
pub open spec fn request_cleared(b: AddressBus, interrupt_type: InterruptType) -> AddressBus {
    match interrupt_type {
        InterruptType::VBlank => AddressBus { gpu: Gpu { vblank_interrupt: false, ..b.gpu }, ..b },
        InterruptType::LCDStatus => AddressBus { gpu: Gpu { stat_interrupt: false, ..b.gpu }, ..b },
        InterruptType::TimerOverflow => AddressBus { timers: TimerRegisters { interrupt: false, ..b.timers }, ..b },
        InterruptType::SerialLink => AddressBus { serial: Serial { interrupt: false, ..b.serial }, ..b },
        InterruptType::JoypadPress => AddressBus { joypad: Joypad { interrupt: false, ..b.joypad }, ..b },
    }
}

impl Cpu {
    fn get_fired_interrupt_bits(&self) -> (bits: u8)
        ensures
            bits == fired_bits(self.address_bus),
    {
        let interrupts = &self.address_bus.interrupts;
        interrupts.enabled & self.address_bus.interrupt_flags() & 0x1F
    }

    fn get_fired_interrupt(&self) -> (fired: Option<InterruptType>)
        ensures
            fired == highest_interrupt(fired_bits(self.address_bus)),
    {
        let fired_interrupt_bits = self.get_fired_interrupt_bits();
        if (fired_interrupt_bits & 0x01) != 0 {
            Some(InterruptType::VBlank)
        } else if (fired_interrupt_bits & 0x02) != 0 {
            Some(InterruptType::LCDStatus)
        } else if (fired_interrupt_bits & 0x04) != 0 {
            Some(InterruptType::TimerOverflow)
        } else if (fired_interrupt_bits & 0x08) != 0 {
            Some(InterruptType::SerialLink)
        } else if (fired_interrupt_bits & 0x10) != 0 {
            Some(InterruptType::JoypadPress)
        } else {
            None
        }
    }

    fn turn_off_interrupt_flag(&mut self, interrupt_type: &InterruptType)
        requires
            old(self).wf(),
        ensures
            final(self).wf(),
            final(self).registers == old(self).registers,
            same_processor(*old(self), *final(self)),
            final(self).instruction_clock_cycles == old(self).instruction_clock_cycles,
            *final(self) == (Cpu { address_bus: request_cleared(old(self).address_bus, *interrupt_type), ..*old(self) }),
    {
        match interrupt_type {
            InterruptType::VBlank => self.address_bus.gpu.set_vblank_interrupt(false),
            InterruptType::LCDStatus => self.address_bus.gpu.set_stat_interrupt(false),
            InterruptType::TimerOverflow => self.address_bus.timers.set_interrupt(false),
            InterruptType::SerialLink => self.address_bus.serial.set_interrupt(false),
            InterruptType::JoypadPress => self.address_bus.joypad.set_interrupt(false),
        }
    }

    /// Whether an enabled interrupt is requested.
    pub fn interrupts_fired(&self) -> (r: bool)
        ensures
            r == (fired_bits(self.address_bus) != 0),
    {
        let fired_interrupt_bits = self.get_fired_interrupt_bits();
        fired_interrupt_bits != 0
    }

    /// Services the highest-priority pending interrupt when the master enable is on: clears the
    /// master enable and the request, waits two cycles, and calls the service routine.
    pub fn interrupt_step(&mut self) -> (serviced: bool)
        requires
            old(self).wf(),
        ensures
            final(self).wf(),
            serviced == (old(self).interrupts.enabled && fired_bits(old(self).address_bus) != 0),
            !serviced ==> *final(self) == *old(self),
            serviced ==> final(self).registers == (Registers {
                program_counter: interrupt_isr(highest_interrupt(fired_bits(old(self).address_bus))->0) as u16,
                stack_pointer: old(self).registers.stack_pointer.wrapping_sub(2),
                ..old(self).registers
            }) && !final(self).interrupts.enabled && final(self).halted == old(self).halted,
            serviced ==> wrote(request_cleared(old(self).address_bus, highest_interrupt(fired_bits(old(self).address_bus))->0),
                final(self).address_bus, stack_writes(old(self).registers.stack_pointer, old(self).registers.program_counter)),
    {
        if self.interrupts.enabled && self.interrupts_fired() {
            let maybe_fired_interrupt = self.get_fired_interrupt();
            assert(fired_bits(self.address_bus) & 0x1F != 0 ==> highest_interrupt(fired_bits(self.address_bus)) is Some) by {
                let x = fired_bits(self.address_bus);
                assert(x & 0x1F != 0 ==> (x & 0x01 != 0 || x & 0x02 != 0 || x & 0x04 != 0 || x & 0x08 != 0 || x & 0x10 != 0)) by (bit_vector);
            }
            assert(fired_bits(self.address_bus) & 0x1F == fired_bits(self.address_bus)) by {
                let e = self.address_bus.interrupts.enabled;
                let f = interrupt_flags_value(self.address_bus);
                assert(e & f & 0x1F & 0x1F == e & f & 0x1F) by (bit_vector);
            }
            match maybe_fired_interrupt {
                Some(interrupt_type) => {
                    self.interrupts.enabled = false;
                    self.turn_off_interrupt_flag(&interrupt_type);
                    let ghost cleared = self.address_bus;
                    let isr_address = get_interrupt_isr(&interrupt_type);
                    self.step_machine_cycles(2);
                    let ghost waited = self.address_bus;
                    self.restart(isr_address as u16);
                    proof {
                        lemma_cycles_then_wrote(cleared, waited, self.address_bus,
                            stack_writes(old(self).registers.stack_pointer, old(self).registers.program_counter));
                    }
                    true
                },
                None => false,
            }
        } else {
            false
        }
    }
}

} // verus!
