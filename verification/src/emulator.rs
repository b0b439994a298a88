use crate::address_bus::cartridge::{header_of, load_error, CartridgeError, CartridgeHeader};
use crate::address_bus::AddressBus;
use crate::cheats::{gamegenie_outcome, id_position, CHEAT_LIMIT};
use crate::cpu::opcodes::{instruction_step, is_illegal_opcode, register_only_step, step_through, vram_dma_idle};
use crate::cpu::{BusActivityEntry, Cpu, Registers};
use crate::joypad::{pressed_state, released_state, Key};
use vstd::prelude::*;
use vstd::string::StringSliceAdditionalSpecFns;

verus! {

/// The whole machine.
pub struct Emulator {
    pub cpu: Cpu,
}

fn slice_to_bytes(bytes: &[u8]) -> (v: Vec<u8>)
    ensures
        v@ == bytes@,
{
    let mut v: Vec<u8> = Vec::new();
    let mut i: usize = 0;
    while i < bytes.len()
        invariant
            i <= bytes@.len(),
            v@ == bytes@.subrange(0, i as int),
        decreases bytes@.len() - i,
    {
        v.push(bytes[i]);
        i += 1;
    }
    assert(v@ =~= bytes@);
    v
}

impl Emulator {
    pub open spec fn wf(&self) -> bool {
        self.cpu.wf()
    }

    pub fn new(processor_test_mode: bool) -> (emulator: Emulator)
        ensures
            emulator.wf(),
            emulator.cpu.address_bus.processor_test_mode == processor_test_mode,
            emulator.cpu.address_bus.in_bios,
            !emulator.cpu.address_bus.cgb_mode,
    {
        let address_bus = AddressBus::new(processor_test_mode);
        Emulator { cpu: Cpu::new(address_bus) }
    }

    /// Whether the CGB boot ROM is running.
    pub fn in_color_bios(&self) -> (r: bool)
        ensures
            r == (self.cpu.address_bus.in_bios && self.cpu.address_bus.cgb_mode),
    {
        self.cpu.address_bus.in_bios && self.cpu.address_bus.cgb_mode
    }

    pub fn load_rom(&mut self, rom: &[u8]) -> (result: Result<CartridgeHeader, CartridgeError>)
        requires
            old(self).wf(),
        ensures
            final(self).wf(),
            match load_error(rom@) {
                Some(e) => result == Err::<CartridgeHeader, CartridgeError>(e),
                None => result matches Ok(header) && header.view_tuple() == header_of(rom@)
                    && final(self).cpu.address_bus.cartridge_mapper.cartridge().rom@ == rom@,
            },
    {
        let buffer = slice_to_bytes(rom);
        self.cpu.address_bus.load_rom_buffer(buffer)
    }

    pub fn set_cartridge_ram(&mut self, ram: &[u8])
        requires
            old(self).wf(),
        ensures
            final(self).wf(),
            old(self).cpu.address_bus.cartridge_mapper is MBC1
                ==> final(self).cpu.address_bus.cartridge_mapper.cartridge().ram@ == ram@,
    {
        let buffer = slice_to_bytes(ram);
        self.cpu.address_bus.set_cartridge_ram(buffer);
    }

    pub fn cartridge_ram(&self) -> (ram: Vec<u8>)
        ensures
            ram@ == self.cpu.address_bus.cartridge_mapper.cartridge().ram@,
    {
        self.cpu.address_bus.get_cartridge_ram()
    }

    /// Selects CGB or DMG mode in every device.
    pub fn set_cgb_mode(&mut self, is_cgb: bool)
        requires
            old(self).wf(),
        ensures
            final(self).wf(),
            final(self).cpu.address_bus.cgb_mode == is_cgb,
            final(self).cpu == (Cpu { address_bus: final(self).cpu.address_bus, ..old(self).cpu }),
            final(self).cpu.address_bus == (AddressBus {
                cgb_mode: is_cgb,
                apu: crate::apu::Apu { cgb_mode: is_cgb, ..old(self).cpu.address_bus.apu },
                gpu: crate::gpu::Gpu { cgb_mode: is_cgb, ..old(self).cpu.address_bus.gpu },
                serial: crate::serial::Serial { cgb_mode: is_cgb, ..old(self).cpu.address_bus.serial },
                hdma: crate::address_bus::hdma::HDMAState { cgb_mode: is_cgb, ..old(self).cpu.address_bus.hdma },
                speed_switch: crate::address_bus::speed_switch::SpeedSwitch { cgb_mode: is_cgb, ..old(self).cpu.address_bus.speed_switch },
                ..old(self).cpu.address_bus
            }),
    {
        self.cpu.address_bus.set_cgb_mode(is_cgb);
    }

    /// Installs the boot ROM to run at start-up.
    pub fn load_bios(&mut self, bios: Vec<u8>)
        requires
            old(self).wf(),
        ensures
            final(self).wf(),
            final(self).cpu == (Cpu { address_bus: AddressBus { bios, ..old(self).cpu.address_bus }, ..old(self).cpu }),
    {
        self.cpu.address_bus.load_bios(bios);
    }

    pub fn set_sample_rate(&mut self, sample_rate: u32)
        requires
            old(self).wf(),
            sample_rate > 0,
            crate::apu::CPU_RATE / sample_rate <= 252,
        ensures
            final(self).wf(),
            final(self).cpu == (Cpu {
                address_bus: AddressBus {
                    apu: crate::apu::Apu { enqueue_rate: crate::apu::CPU_RATE / sample_rate, ..old(self).cpu.address_bus.apu },
                    ..old(self).cpu.address_bus
                },
                ..old(self).cpu
            }),
    {
        self.cpu.address_bus.apu.set_sample_rate(sample_rate);
    }

    pub fn step(&mut self)
        requires
            old(self).wf(),
        ensures
            final(self).wf(),
            old(self).cpu.illegal_opcode is Some ==> final(self).cpu == old(self).cpu,
            old(self).cpu.illegal_opcode is None && is_illegal_opcode(old(self).cpu.registers.opcode)
                ==> final(self).cpu.illegal_opcode == Some(old(self).cpu.registers.opcode),
            old(self).cpu.illegal_opcode is None && vram_dma_idle(old(self).cpu.address_bus)
                ==> register_only_step(old(self).cpu, final(self).cpu),
            old(self).cpu.illegal_opcode is None && vram_dma_idle(old(self).cpu.address_bus)
                ==> instruction_step(old(self).cpu, final(self).cpu),
            old(self).cpu.illegal_opcode is None && vram_dma_idle(old(self).cpu.address_bus) && !is_illegal_opcode(old(self).cpu.registers.opcode)
                ==> exists|mid: Cpu| #[trigger] step_through(old(self).cpu, mid, final(self).cpu),
    {
        self.cpu.step();
    }

    pub fn handle_key_press(&mut self, key: &Key)
        requires
            old(self).wf(),
        ensures
            final(self).wf(),
            final(self).cpu == (Cpu {
                address_bus: AddressBus { joypad: pressed_state(old(self).cpu.address_bus.joypad, *key), ..old(self).cpu.address_bus },
                ..old(self).cpu
            }),
    {
        self.cpu.address_bus.handle_key_press(key);
    }

    pub fn handle_key_release(&mut self, key: &Key)
        requires
            old(self).wf(),
        ensures
            final(self).wf(),
            final(self).cpu == (Cpu {
                address_bus: AddressBus { joypad: released_state(old(self).cpu.address_bus.joypad, *key), ..old(self).cpu.address_bus },
                ..old(self).cpu
            }),
    {
        self.cpu.address_bus.handle_key_release(key);
    }

    pub fn register_gameshark_cheat(&mut self, cheat_id: &str, cheat: &str) -> (result: Option<String>)
        requires
            old(self).wf(),
        ensures
            final(self).wf(),
            (crate::cheats::gameshark_cheat(cheat.spec_bytes()) is Ok && old(self).cpu.address_bus.cheats.registered@.len() < CHEAT_LIMIT) <==> result is None,
            final(self).cpu == (Cpu { address_bus: AddressBus { cheats: final(self).cpu.address_bus.cheats, ..old(self).cpu.address_bus }, ..old(self).cpu }),
            result is Some ==> final(self).cpu.address_bus.cheats.entries() == old(self).cpu.address_bus.cheats.entries(),
            result is None ==> (crate::cheats::gameshark_cheat(cheat.spec_bytes()) matches Ok(c) && match id_position(old(self).cpu.address_bus.cheats.entries(), cheat_id@) {
                Some(i) => final(self).cpu.address_bus.cheats.entries() == old(self).cpu.address_bus.cheats.entries().update(i, (cheat_id@, c)),
                None => final(self).cpu.address_bus.cheats.entries() == old(self).cpu.address_bus.cheats.entries().push((cheat_id@, c)),
            }),
    {
        self.cpu.address_bus.cheats.register_gameshark_cheat(cheat_id, cheat)
    }

    pub fn register_gamegenie_cheat(&mut self, cheat_id: &str, cheat: &str) -> (result: Option<String>)
        requires
            old(self).wf(),
            gamegenie_outcome(cheat.spec_bytes()) is Some,
        ensures
            final(self).wf(),
            (gamegenie_outcome(cheat.spec_bytes()) matches Some(Ok(_)) && old(self).cpu.address_bus.cheats.registered@.len() < CHEAT_LIMIT) <==> result is None,
            final(self).cpu == (Cpu { address_bus: AddressBus { cheats: final(self).cpu.address_bus.cheats, ..old(self).cpu.address_bus }, ..old(self).cpu }),
            result is Some ==> final(self).cpu.address_bus.cheats.entries() == old(self).cpu.address_bus.cheats.entries(),
            result is None ==> (gamegenie_outcome(cheat.spec_bytes()) matches Some(Ok(c)) && match id_position(old(self).cpu.address_bus.cheats.entries(), cheat_id@) {
                Some(i) => final(self).cpu.address_bus.cheats.entries() == old(self).cpu.address_bus.cheats.entries().update(i, (cheat_id@, c)),
                None => final(self).cpu.address_bus.cheats.entries() == old(self).cpu.address_bus.cheats.entries().push((cheat_id@, c)),
            }),
    {
        self.cpu.address_bus.cheats.register_gamegenie_cheat(cheat_id, cheat)
    }

    pub fn unregister_cheat(&mut self, cheat_id: &str)
        requires
            old(self).wf(),
        ensures
            final(self).wf(),
            final(self).cpu == (Cpu { address_bus: AddressBus { cheats: final(self).cpu.address_bus.cheats, ..old(self).cpu.address_bus }, ..old(self).cpu }),
            match id_position(old(self).cpu.address_bus.cheats.entries(), cheat_id@) {
                Some(i) => final(self).cpu.address_bus.cheats.entries() == old(self).cpu.address_bus.cheats.entries().remove(i),
                None => final(self).cpu.address_bus.cheats.entries() == old(self).cpu.address_bus.cheats.entries(),
            },
    {
        self.cpu.address_bus.cheats.unregister(cheat_id);
    }

    pub fn set_register_state(&mut self, registers: &Registers)
        requires
            old(self).wf(),
        ensures
            final(self).wf(),
            final(self).cpu == (Cpu { registers: *registers, ..old(self).cpu }),
    {
        self.cpu.registers = *registers;
    }

    pub fn register_state(&self) -> (registers: &Registers)
        ensures
            *registers == self.cpu.registers,
    {
        &self.cpu.registers
    }

    pub fn set_processor_test_ram(&mut self, index: u16, value: u8)
        requires
            old(self).wf(),
        ensures
            final(self).wf(),
            final(self).cpu.address_bus.processor_test_ram@ == old(self).cpu.address_bus.processor_test_ram@.update(index as int, value),
            final(self).cpu == (Cpu {
                address_bus: AddressBus { processor_test_ram: final(self).cpu.address_bus.processor_test_ram, ..old(self).cpu.address_bus },
                ..old(self).cpu
            }),
    {
        self.cpu.address_bus.processor_test_ram[index as usize] = value;
    }

    pub fn processor_test_ram_byte(&self, index: u16) -> (value: u8)
        ensures
            value == self.cpu.address_bus.processor_test_ram@[index as int],
    {
        self.cpu.address_bus.processor_test_ram[index as usize]
    }

    pub fn opcode_bus_activity(&self) -> (activity: &Vec<Option<BusActivityEntry>>)
        ensures
            *activity == self.cpu.opcode_bus_activity,
    {
        &self.cpu.opcode_bus_activity
    }
}

} // verus!
