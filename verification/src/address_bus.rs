use crate::address_bus::cartridge::{initialize_cartridge_mapper, load_rom_buffer as load_cartridge, load_error, CartridgeError, CartridgeHeader, CartridgeMapper};
use crate::address_bus::dma::DMAState;
use crate::address_bus::hdma::{hdma5_value, vram_dma_destination, vram_dma_source, HDMAState, VRAMTransferMode};
use crate::address_bus::speed_switch::{key1_value, SpeedSwitch};
use crate::apu::{master_control_value, Apu};
use crate::cheats::{cheated_value, initialize_cheats, CheatState};
use crate::cpu::interrupts::{initialize_interrupt_registers, InterruptRegisters};
use crate::cpu::timers::TimerRegisters;
use crate::gpu::{video_ram_index, Gpu};
use crate::joypad::{joyp_value, Joypad, Key};
use crate::serial::Serial;
use crate::utils::{bit_is_set, is_bit_set};
use vstd::prelude::*;

verus! {

/// The memory map of the machine and every device on it: boot ROM, cartridge, working RAM
/// (eight banks of 4 KB), high RAM, the GPU, APU, timers, joypad, serial port, the DMA
/// engines, the speed switch, interrupt registers and cheats. In processor test mode the whole
/// 64 KB address space is plain RAM instead.
pub struct AddressBus {
    pub in_bios: bool,
    pub bios: Vec<u8>,
    pub working_ram: [u8; 0x10000],
    pub zero_page_ram: [u8; 0x80],
    pub svbk: u8,
    pub cartridge_mapper: CartridgeMapper,
    pub processor_test_ram: [u8; 0x10000],
    pub processor_test_mode: bool,
    pub interrupts: InterruptRegisters,
    pub timers: TimerRegisters,
    pub gpu: Gpu,
    pub joypad: Joypad,
    pub apu: Apu,
    pub dma: DMAState,
    pub hdma: HDMAState,
    pub serial: Serial,
    pub cheats: CheatState,
    pub speed_switch: SpeedSwitch,
    pub cgb_mode: bool,
}

/// IF as read: one bit per pending interrupt request.
pub open spec fn interrupt_flags_value(b: AddressBus) -> u8 {
    ((if b.gpu.vblank_interrupt { 0x1u8 } else { 0 }) | (if b.gpu.stat_interrupt { 0x2u8 } else { 0 })
        | (if b.timers.interrupt { 0x4u8 } else { 0 }) | (if b.serial.interrupt { 0x8u8 } else { 0 })
        | (if b.joypad.interrupt { 0x10u8 } else { 0 })) as u8
}

/// The working RAM bank mapped at 0xD000: SVBK's low bits in CGB mode (zero meaning one), one
/// otherwise.
pub open spec fn working_ram_bank(b: AddressBus) -> u8 {
    if b.cgb_mode {
        if b.svbk & 0b111 == 0 { 1 } else { b.svbk & 0b111 }
    } else {
        1
    }
}

/// Index into working RAM of an address of 0xC000-0xFDFF (echo RAM mirrors 0xC000).
pub open spec fn working_ram_index(b: AddressBus, address: u16) -> int {
    let local = address as int % 0x2000;
    if local <= 0xFFF { local } else { working_ram_bank(b) as int * 0x1000 + address as int % 0x1000 }
}

/// The value of the I/O register at 0xFF00 + `low`, as read.
pub open spec fn io_value(b: AddressBus, low: u8) -> u8 {
    if low == 0x00 { joyp_value(b.joypad.column, b.joypad.select_buttons, b.joypad.directional_buttons) }
    else if low == 0x01 { b.serial.data }
    else if low == 0x02 { b.serial.control | 0x7E }
    else if low == 0x10 { b.apu.channel1.sweep.initial_settings | 0b10000000 }
    else if low == 0x11 { b.apu.channel1.length.initial_settings | 0b00111111 }
    else if low == 0x12 { b.apu.channel1.envelope.initial_settings }
    else if low == 0x14 { b.apu.channel1.period.high | 0b10111111 }
    else if low == 0x16 { b.apu.channel2.length.initial_settings | 0b00111111 }
    else if low == 0x17 { b.apu.channel2.envelope.initial_settings }
    else if low == 0x19 { b.apu.channel2.period.high | 0b10111111 }
    else if low == 0x1A { if b.apu.channel3.dac_enabled { 0b11111111 } else { 0b01111111 } }
    else if low == 0x1C { b.apu.channel3.volume | 0b10011111 }
    else if low == 0x1E { b.apu.channel3.period.high | 0b10111111 }
    else if low == 0x21 { b.apu.channel4.envelope.initial_settings }
    else if low == 0x22 { b.apu.channel4.polynomial }
    else if low == 0x23 { b.apu.channel4.control | 0b10111111 }
    else if low == 0x24 { b.apu.master_volume }
    else if low == 0x25 { b.apu.sound_panning }
    else if low == 0x26 { master_control_value(b.apu.enabled, b.apu.channel1.enabled, b.apu.channel2.enabled, b.apu.channel3.enabled, b.apu.channel4.enabled) }
    else if 0x30 <= low <= 0x3F {
        if b.apu.channel3.enabled {
            if b.apu.channel3.period.reloaded || b.apu.cgb_mode {
                b.apu.channel3.wave_pattern_ram@[(b.apu.channel3.wave_position / 2) as int]
            } else {
                0xFF
            }
        } else {
            b.apu.channel3.wave_pattern_ram@[(low - 0x30) as int]
        }
    }
    else if low == 0x40 { b.gpu.lcdc }
    else if low == 0x41 { b.gpu.stat }
    else if low == 0x42 { b.gpu.scy }
    else if low == 0x43 { b.gpu.scx }
    else if low == 0x44 { b.gpu.ly }
    else if low == 0x45 { b.gpu.lyc }
    else if low == 0x46 { (b.dma.source / 256) as u8 }
    else if low == 0x47 { b.gpu.palettes.bgp }
    else if low == 0x48 { b.gpu.palettes.obp0 }
    else if low == 0x49 { b.gpu.palettes.obp1 }
    else if low == 0x4A { b.gpu.wy }
    else if low == 0x4B { b.gpu.wx }
    else if low == 0x4C { b.gpu.key0 }
    else if low == 0x4D { key1_value(b.speed_switch) }
    else if low == 0x4F { if b.gpu.cgb_mode { b.gpu.cgb_vbk | 0b11111110 } else { 0xFF } }
    else if low == 0x55 { hdma5_value(b.hdma) }
    else if low == 0x68 { b.gpu.palettes.cgb_bcps }
    else if low == 0x69 { b.gpu.palettes.cgb_bcpd@[(b.gpu.palettes.cgb_bcps & 0x3F) as int] }
    else if low == 0x6A { b.gpu.palettes.cgb_ocps }
    else if low == 0x6B { b.gpu.palettes.cgb_ocpd@[(b.gpu.palettes.cgb_ocps & 0x3F) as int] }
    else if low == 0x6C { if b.gpu.cgb_mode { b.gpu.cgb_opri & 0b1 } else { 0xFF } }
    else if low == 0x70 { if b.cgb_mode { b.svbk } else { 0xFF } }
    else if low == 0x0F { interrupt_flags_value(b) }
    else if low == 0x04 { b.timers.divider }
    else if low == 0x05 { b.timers.counter }
    else if low == 0x06 { b.timers.modulo }
    else if low == 0x07 { b.timers.control }
    else { 0xFF }
}

/// The byte that an address holds, before cheats.
pub open spec fn raw_value(b: AddressBus, address: u16) -> u8 {
    if address <= 0x00FE && b.in_bios {
        if (address as int) < b.bios@.len() { b.bios@[address as int] } else { 0xFF }
    } else if 0x0200 <= address <= 0x08FF && b.cgb_mode && b.in_bios {
        if (address as int) < b.bios@.len() { b.bios@[address as int] } else { 0xFF }
    } else if address < 0x8000 {
        b.cartridge_mapper.rom_value(address)
    } else if address < 0xA000 {
        b.gpu.video_ram@[video_ram_index(b.gpu.cgb_mode, b.gpu.cgb_vbk, (address % 0x2000) as u16)]
    } else if address < 0xC000 {
        b.cartridge_mapper.ram_value((address % 0x2000) as u16)
    } else if address < 0xFE00 {
        b.working_ram@[working_ram_index(b, address)]
    } else if address < 0xFEA0 {
        b.gpu.object_attribute_memory@[(address % 0x100) as int]
    } else if address == 0xFFFF {
        b.interrupts.enabled
    } else if address >= 0xFF80 {
        b.zero_page_ram@[(address % 0x80) as int]
    } else {
        io_value(b, (address % 0x100) as u8)
    }
}

/// The bank that a cheat for an address must name: the cartridge RAM bank or the working RAM
/// bank.
pub open spec fn cheat_bank(b: AddressBus, address: u16) -> u8 {
    if 0xA000 <= address < 0xC000 {
        b.cartridge_mapper.ram_bank()
    } else if 0xC000 <= address < 0xE000 {
        working_ram_bank(b)
    } else {
        0
    }
}

/// The byte a read of an address gives, with cheats applied.
pub open spec fn read_value(b: AddressBus, address: u16) -> u8 {
    cheated_value(b.cheats.entries(), address, raw_value(b, address), cheat_bank(b, address))
}

/// Whether an address can be reached: during OAM DMA only OAM is shut off.
pub open spec fn accessible(b: AddressBus, address: u16) -> bool {
    !(b.dma.in_progress && 0xFE00 <= address < 0xFEA0)
}

/// The bus after a read: the last byte of the boot ROM switches the boot ROM off.
pub open spec fn after_read(b: AddressBus, address: u16) -> AddressBus {
    if address == 0x00FE && b.in_bios { AddressBus { in_bios: false, ..b } } else { b }
}

/// The bus after a write to the I/O register at 0xFF00 + `low`: which device the write
/// reaches, and that nothing outside it changes.
/// What a write of BGP, OBP0, OBP1, BCPS, BCPD, OCPS or OCPD does to the palettes: a data
/// write stores the byte where the index register points and moves the index on when
/// auto-increment is set.
pub open spec fn palettes_written(a: crate::gpu::colors::Palettes, b: crate::gpu::colors::Palettes, low: u8, value: u8) -> bool {
    if low == 0x47 {
        b == crate::gpu::colors::Palettes { bgp: value, ..a }
    } else if low == 0x48 {
        b == crate::gpu::colors::Palettes { obp0: value, ..a }
    } else if low == 0x49 {
        b == crate::gpu::colors::Palettes { obp1: value, ..a }
    } else if low == 0x68 {
        b == crate::gpu::colors::Palettes { cgb_bcps: value, ..a }
    } else if low == 0x6A {
        b == crate::gpu::colors::Palettes { cgb_ocps: value, ..a }
    } else if low == 0x69 {
        &&& b.cgb_bcpd@ == a.cgb_bcpd@.update((a.cgb_bcps & 0x3F) as int, value)
        &&& b == crate::gpu::colors::Palettes { cgb_bcpd: b.cgb_bcpd, cgb_bcps: crate::gpu::colors::auto_incremented(a.cgb_bcps), ..a }
    } else if low == 0x6B {
        &&& b.cgb_ocpd@ == a.cgb_ocpd@.update((a.cgb_ocps & 0x3F) as int, value)
        &&& b == crate::gpu::colors::Palettes { cgb_ocpd: b.cgb_ocpd, cgb_ocps: crate::gpu::colors::auto_incremented(a.cgb_ocps), ..a }
    } else {
        b == a
    }
}

/// The HDMA state after a write of HDMA1-HDMA5 (which CGB mode alone takes).
pub open spec fn hdma_written(h: HDMAState, low: u8, value: u8) -> HDMAState {
    if low == 0x55 {
        crate::address_bus::hdma::after_hdma5_write(h, value)
    } else if !h.cgb_mode {
        h
    } else if low == 0x51 {
        HDMAState { hdma1: value, ..h }
    } else if low == 0x52 {
        HDMAState { hdma2: value, ..h }
    } else if low == 0x53 {
        HDMAState { hdma3: value, ..h }
    } else {
        HDMAState { hdma4: value, ..h }
    }
}

/// What a write of an I/O register (by the low byte of its address) does to the bus.
#[verifier::opaque]
pub open spec fn io_written(a: AddressBus, b: AddressBus, low: u8, value: u8) -> bool {
    if low == 0x00 {
        b == (AddressBus { joypad: Joypad { column: value & 0x30, ..a.joypad }, ..a })
    } else if low == 0x01 {
        b == (AddressBus { serial: crate::serial::Serial { data: value, ..a.serial }, ..a })
    } else if low == 0x02 {
        b == (AddressBus { serial: crate::serial::Serial { control: value, clock: 0, bits_transferred: 0, ..a.serial }, ..a })
    } else if (0x10 <= low <= 0x26 && low != 0x15 && low != 0x1F) || (0x30 <= low <= 0x3F) {
        b == (AddressBus { apu: b.apu, ..a }) && crate::apu::apu_io_written(a.apu, b.apu, low, value)
    } else if low == 0x40 {
        b == (AddressBus { gpu: b.gpu, ..a }) && crate::gpu::lcdc_written(a.gpu, b.gpu, value)
    } else if low == 0x41 {
        b == (AddressBus { gpu: Gpu { stat: value, ..a.gpu }, ..a })
    } else if low == 0x42 {
        b == (AddressBus { gpu: Gpu { scy: value, ..a.gpu }, ..a })
    } else if low == 0x43 {
        b == (AddressBus { gpu: Gpu { scx: value, ..a.gpu }, ..a })
    } else if low == 0x44 {
        b == (AddressBus { gpu: Gpu { ly: value, ..a.gpu }, ..a })
    } else if low == 0x45 {
        b == (AddressBus { gpu: Gpu { lyc: value, ..a.gpu }, ..a })
    } else if low == 0x46 {
        b == (AddressBus { dma: crate::address_bus::dma::dma_started(a.dma, value), ..a })
    } else if low == 0x47 || low == 0x48 || low == 0x49 || (0x68 <= low <= 0x6B) {
        b == (AddressBus { gpu: Gpu { palettes: b.gpu.palettes, ..a.gpu }, ..a })
            && palettes_written(a.gpu.palettes, b.gpu.palettes, low, value)
    } else if low == 0x4A {
        b == (AddressBus { gpu: Gpu { wy: value, ..a.gpu }, ..a })
    } else if low == 0x4B {
        b == (AddressBus { gpu: Gpu { wx: value, ..a.gpu }, ..a })
    } else if low == 0x4C {
        b == (AddressBus { gpu: Gpu { key0: value, ..a.gpu }, ..a })
    } else if low == 0x4D {
        b == (AddressBus {
            speed_switch: if a.speed_switch.cgb_mode {
                SpeedSwitch { armed: bit_is_set(value, crate::address_bus::speed_switch::SPEED_SWITCH_ARMED_INDEX), ..a.speed_switch }
            } else {
                a.speed_switch
            },
            ..a
        })
    } else if low == 0x4F {
        b == (AddressBus { gpu: if a.gpu.cgb_mode { Gpu { cgb_vbk: value, ..a.gpu } } else { a.gpu }, ..a })
    } else if 0x51 <= low <= 0x55 {
        b == (AddressBus { hdma: hdma_written(a.hdma, low, value), ..a })
    } else if low == 0x6C {
        b == (AddressBus { gpu: if a.gpu.cgb_mode { Gpu { cgb_opri: value & 0b1, ..a.gpu } } else { a.gpu }, ..a })
    } else if low == 0x70 {
        b == (if a.cgb_mode { AddressBus { svbk: value, ..a } } else { a })
    } else if low == 0x0F {
        b == (AddressBus {
            gpu: Gpu { vblank_interrupt: bit_is_set(value, 0), stat_interrupt: bit_is_set(value, 1), ..a.gpu },
            timers: TimerRegisters { interrupt: bit_is_set(value, 2), ..a.timers },
            serial: crate::serial::Serial { interrupt: bit_is_set(value, 3), ..a.serial },
            joypad: Joypad { interrupt: bit_is_set(value, 4), ..a.joypad },
            ..a
        })
    } else if low == 0x04 {
        b == (AddressBus { timers: TimerRegisters { divider: value, divider_clock: 0, m_cycles_clock: 0, ..a.timers }, ..a })
    } else if low == 0x05 {
        b == (AddressBus { timers: TimerRegisters { counter: value, ..a.timers }, ..a })
    } else if low == 0x06 {
        b == (AddressBus { timers: TimerRegisters { modulo: value, ..a.timers }, ..a })
    } else if low == 0x07 {
        b == (AddressBus { timers: TimerRegisters { control: value, ..a.timers }, ..a })
    } else {
        b == a
    }
}

/// The bus after a write reaches an address: which memory or device it changes, and that
/// nothing else changes.
pub open spec fn written(a: AddressBus, b: AddressBus, address: u16, value: u8) -> bool {
    if address < 0x8000 {
        b == (AddressBus { cartridge_mapper: b.cartridge_mapper, ..a })
            && crate::address_bus::cartridge::rom_written(a.cartridge_mapper, b.cartridge_mapper, address, value)
    } else if address < 0xA000 {
        b == (AddressBus { gpu: Gpu { video_ram: b.gpu.video_ram, ..a.gpu }, ..a })
            && b.gpu.video_ram@ == a.gpu.video_ram@.update(video_ram_index(a.gpu.cgb_mode, a.gpu.cgb_vbk, (address % 0x2000) as u16), value)
    } else if address < 0xC000 {
        b == (AddressBus { cartridge_mapper: b.cartridge_mapper, ..a })
            && crate::address_bus::cartridge::ram_written(a.cartridge_mapper, b.cartridge_mapper, (address % 0x2000) as u16, value)
    } else if address < 0xFE00 {
        b == (AddressBus { working_ram: b.working_ram, ..a })
            && b.working_ram@ == a.working_ram@.update(working_ram_index(a, address), value)
    } else if address < 0xFEA0 {
        b == (AddressBus { gpu: Gpu { object_attribute_memory: b.gpu.object_attribute_memory, ..a.gpu }, ..a })
            && b.gpu.object_attribute_memory@ == a.gpu.object_attribute_memory@.update((address % 0x100) as int, value)
    } else if address == 0xFFFF {
        b == (AddressBus { interrupts: InterruptRegisters { enabled: value }, ..a })
    } else if address >= 0xFF80 {
        b == (AddressBus { zero_page_ram: b.zero_page_ram, ..a })
            && b.zero_page_ram@ == a.zero_page_ram@.update((address % 0x80) as int, value)
    } else {
        io_written(a, b, (address % 0x100) as u8, value)
    }
}

impl AddressBus {
    pub open spec fn wf(&self) -> bool {
        &&& self.gpu.wf()
        &&& self.apu.wf()
        &&& self.timers.wf()
        &&& self.serial.wf()
        &&& self.cartridge_mapper.wf()
        &&& self.cheats.wf()
        &&& self.dma.offset <= 160
        &&& (self.dma.in_progress ==> self.dma.offset < 160)
        &&& self.dma.source <= 0xFF00
    }

    pub fn new(processor_test_mode: bool) -> (bus: AddressBus)
        ensures
            bus.wf(),
            bus.in_bios,
            bus.bios@ == Seq::new(0x100, |i: int| 0u8),
            bus.processor_test_mode == processor_test_mode,
            !bus.cgb_mode,
            bus.svbk == 0,
            bus.cheats.entries().len() == 0,
            !bus.dma.in_progress,
            bus.interrupts.enabled == 0,
    {
        AddressBus {
            in_bios: true,
            bios: vec![0; 0x100],
            working_ram: [0; 0x10000],
            zero_page_ram: [0; 0x80],
            svbk: 0,
            cartridge_mapper: initialize_cartridge_mapper(),
            processor_test_ram: [0; 0x10000],
            processor_test_mode,
            interrupts: initialize_interrupt_registers(),
            timers: TimerRegisters::new(),
            gpu: Gpu::new(),
            joypad: Joypad::new(),
            apu: Apu::new(),
            dma: DMAState::new(),
            hdma: HDMAState::new(),
            serial: Serial::new(),
            cheats: initialize_cheats(),
            speed_switch: SpeedSwitch::new(),
            cgb_mode: false,
        }
    }

    /// Installs a boot ROM image.
    pub fn load_bios(&mut self, bios: Vec<u8>)
        ensures
            *final(self) == (AddressBus { bios, ..*old(self) }),
    {
        self.bios = bios;
    }

    pub fn get_working_ram_bank(&self) -> (bank: u8)
        ensures
            bank == working_ram_bank(*self),
            1 <= bank <= 7,
    {
        if self.cgb_mode {
            let masked_value = self.svbk & 0b111;
            proof {
                crate::utils::lemma_u8_and_bound(self.svbk, 0b111);
            }
            if masked_value == 0 { 1 } else { masked_value }
        } else {
            1
        }
    }

    fn address_accessible(&self, address: u16) -> (r: bool)
        ensures
            r == accessible(*self, address),
    {
        let accessing_oam = address >= 0xFE00 && address < 0xFEA0;
        (self.dma.in_progress && !accessing_oam) || !self.dma.in_progress
    }

    fn calculate_working_ram_index(&self, address: u16) -> (index: usize)
        ensures
            index == working_ram_index(*self, address),
            index < 0x8000,
    {
        let localized_index = address % 0x2000;
        if localized_index <= 0xFFF {
            localized_index as usize
        } else {
            let bank_number = self.get_working_ram_bank();
            let index = (bank_number as u16 * 0x1000) + (address % 0x1000);
            index as usize
        }
    }

    fn read_bios(&self, address: u16) -> (r: u8)
        ensures
            r == (if (address as int) < self.bios@.len() { self.bios@[address as int] } else { 0xFF }),
    {
        if (address as usize) < self.bios.len() {
            self.bios[address as usize]
        } else {
            0xFF
        }
    }

    /// Reads the bus as the processor does: test RAM in processor test mode, 0xFF where OAM DMA
    /// shuts the address off.
    pub fn read_byte(&mut self, address: u16) -> (value: u8)
        requires
            old(self).wf(),
        ensures
            final(self).wf(),
            old(self).processor_test_mode ==> value == old(self).processor_test_ram@[address as int] && *final(self) == *old(self),
            !old(self).processor_test_mode && !accessible(*old(self), address) ==> value == 0xFF && *final(self) == *old(self),
            !old(self).processor_test_mode && accessible(*old(self), address) ==> value == read_value(*old(self), address)
                && *final(self) == after_read(*old(self), address),
    {
        if self.processor_test_mode {
            self.processor_test_ram[address as usize]
        } else {
            if self.address_accessible(address) {
                self.unsafe_read_byte(address)
            } else {
                0xFF
            }
        }
    }

    /// Reads the bus whether or not OAM DMA runs.
    pub fn unsafe_read_byte(&mut self, address: u16) -> (value: u8)
        requires
            old(self).wf(),
        ensures
            final(self).wf(),
            value == read_value(*old(self), address),
            *final(self) == after_read(*old(self), address),
    {
        let byte = if address <= 0x00FE && self.in_bios {
            if address == 0x00FE {
                self.in_bios = false;
            }
            self.read_bios(address)
        } else if address >= 0x0200 && address <= 0x08FF && self.cgb_mode && self.in_bios {
            self.read_bios(address)
        } else {
            self.peek_byte(address)
        };
        let bank = self.get_ram_bank_for_address(address);
        self.cheats.apply(address, byte, bank)
    }

    /// The byte an address outside the boot ROM holds, before cheats.
    fn peek_byte(&self, address: u16) -> (value: u8)
        requires
            self.wf(),
            !(address <= 0x00FE && self.in_bios),
            !(0x0200 <= address <= 0x08FF && self.cgb_mode && self.in_bios),
        ensures
            value == raw_value(*self, address),
    {
        if address < 0x8000 {
            self.cartridge_mapper.read_rom(address)
        } else if address < 0xA000 {
            self.gpu.get_video_ram_byte(address % 0x2000)
        } else if address < 0xC000 {
            self.cartridge_mapper.read_ram(address % 0x2000)
        } else if address < 0xFE00 {
            let index = self.calculate_working_ram_index(address);
            self.working_ram[index]
        } else if address < 0xFEA0 {
            self.gpu.get_object_attribute_memory_byte(address % 0x100)
        } else if address == 0xFFFF {
            self.interrupts.enabled()
        } else if address >= 0xFF80 {
            self.zero_page_ram[(address % 0x80) as usize]
        } else {
            self.read_io((address % 0x100) as u8)
        }
    }

    fn read_io(&self, low: u8) -> (value: u8)
        requires
            self.wf(),
        ensures
            value == io_value(*self, low),
    {
        if low == 0x00 { self.joypad.read_byte() }
        else if low == 0x01 { self.serial.data() }
        else if low == 0x02 { self.serial.control() }
        else if low == 0x10 { self.apu.channel1.sweep.initial_settings | 0b10000000 }
        else if low == 0x11 { self.apu.channel1.length.initial_settings | 0b00111111 }
        else if low == 0x12 { self.apu.channel1.envelope.initial_settings }
        else if low == 0x14 { self.apu.channel1.period.high | 0b10111111 }
        else if low == 0x16 { self.apu.channel2.length.initial_settings | 0b00111111 }
        else if low == 0x17 { self.apu.channel2.envelope.initial_settings }
        else if low == 0x19 { self.apu.channel2.period.high | 0b10111111 }
        else if low == 0x1A { if self.apu.channel3.dac_enabled { 0b11111111 } else { 0b01111111 } }
        else if low == 0x1C { self.apu.channel3.volume | 0b10011111 }
        else if low == 0x1E { self.apu.channel3.period.high | 0b10111111 }
        else if low == 0x21 { self.apu.channel4.envelope.initial_settings }
        else if low == 0x22 { self.apu.channel4.polynomial }
        else if low == 0x23 { self.apu.channel4.control | 0b10111111 }
        else if low == 0x24 { self.apu.master_volume }
        else if low == 0x25 { self.apu.sound_panning }
        else if low == 0x26 { self.apu.audio_master_control() }
        else if 0x30 <= low && low <= 0x3F { self.apu.get_wave_ram_byte(low - 0x30) }
        else if low == 0x40 { self.gpu.lcdc }
        else if low == 0x41 { self.gpu.stat }
        else if low == 0x42 { self.gpu.scy }
        else if low == 0x43 { self.gpu.scx }
        else if low == 0x44 { self.gpu.ly }
        else if low == 0x45 { self.gpu.lyc }
        else if low == 0x46 { self.dma.source() }
        else if low == 0x47 { self.gpu.palettes.bgp }
        else if low == 0x48 { self.gpu.palettes.obp0 }
        else if low == 0x49 { self.gpu.palettes.obp1 }
        else if low == 0x4A { self.gpu.wy }
        else if low == 0x4B { self.gpu.wx }
        else if low == 0x4C { self.gpu.key0 }
        else if low == 0x4D { self.speed_switch.key1() }
        else if low == 0x4F { self.gpu.cgb_vbk() }
        else if low == 0x55 { self.hdma.hdma5() }
        else if low == 0x68 { crate::gpu::colors::get_cgb_bcps(&self.gpu.palettes) }
        else if low == 0x69 { crate::gpu::colors::get_cgb_bcpd(&self.gpu.palettes) }
        else if low == 0x6A { crate::gpu::colors::get_cgb_ocps(&self.gpu.palettes) }
        else if low == 0x6B { crate::gpu::colors::get_cgb_ocpd(&self.gpu.palettes) }
        else if low == 0x6C { self.gpu.cgb_opri() }
        else if low == 0x70 { if self.cgb_mode { self.svbk } else { 0xFF } }
        else if low == 0x0F { self.interrupt_flags() }
        else if low == 0x04 { self.timers.divider() }
        else if low == 0x05 { self.timers.counter() }
        else if low == 0x06 { self.timers.modulo() }
        else if low == 0x07 { self.timers.control() }
        else { 0xFF }
    }

    fn get_ram_bank_for_address(&self, address: u16) -> (bank: u8)
        ensures
            bank == cheat_bank(*self, address),
    {
        if address >= 0xA000 && address < 0xC000 {
            self.cartridge_mapper.get_ram_bank()
        } else if address >= 0xC000 && address < 0xE000 {
            self.get_working_ram_bank()
        } else {
            0
        }
    }

    /// A read of an address with the cheats that apply to it.
    pub fn apply_cheat_if_needed(&self, address: u16, old_data: u8) -> (value: u8)
        ensures
            value == cheated_value(self.cheats.entries(), address, old_data, cheat_bank(*self, address)),
    {
        let bank = self.get_ram_bank_for_address(address);
        self.cheats.apply(address, old_data, bank)
    }

    pub fn interrupt_flags(&self) -> (flags: u8)
        ensures
            flags == interrupt_flags_value(*self),
    {
        let vblank: u8 = if self.gpu.vblank_interrupt { 0x1 } else { 0 };
        let stat: u8 = if self.gpu.stat_interrupt { 0x2 } else { 0 };
        let timer: u8 = if self.timers.interrupt { 0x4 } else { 0 };
        let serial: u8 = if self.serial.interrupt { 0x8 } else { 0 };
        let joypad: u8 = if self.joypad.interrupt { 0x10 } else { 0 };
        let flags = vblank | stat | timer | serial | joypad;
        flags
    }
}

impl AddressBus {
    /// Writes the bus as the processor does: test RAM in processor test mode; a write that
    /// OAM DMA shuts off is dropped.
    pub fn write_byte(&mut self, address: u16, value: u8)
        requires
            old(self).wf(),
        ensures
            final(self).wf(),
            old(self).processor_test_mode ==> *final(self) == (AddressBus { processor_test_ram: final(self).processor_test_ram, ..*old(self) })
                && final(self).processor_test_ram@ == old(self).processor_test_ram@.update(address as int, value),
            !old(self).processor_test_mode && !accessible(*old(self), address) ==> *final(self) == *old(self),
            !old(self).processor_test_mode && accessible(*old(self), address) ==> written(*old(self), *final(self), address, value),
            final(self).cgb_mode == old(self).cgb_mode,
    {
        if self.processor_test_mode {
            self.processor_test_ram[address as usize] = value;
        } else {
            if self.address_accessible(address) {
                self.unsafe_write_byte(address, value);
            }
        }
    }

    /// Writes the bus whether or not OAM DMA runs.
    pub fn unsafe_write_byte(&mut self, address: u16, value: u8)
        requires
            old(self).wf(),
        ensures
            final(self).wf(),
            written(*old(self), *final(self), address, value),
            final(self).cgb_mode == old(self).cgb_mode,
    {
        if address < 0x8000 {
            self.cartridge_mapper.write_rom(address, value);
        } else if address < 0xA000 {
            self.gpu.set_video_ram_byte(address % 0x2000, value);
        } else if address < 0xC000 {
            self.cartridge_mapper.write_ram(address % 0x2000, value);
        } else if address < 0xFE00 {
            let index = self.calculate_working_ram_index(address);
            self.working_ram[index] = value;
        } else if address < 0xFEA0 {
            self.gpu.set_object_attribute_memory_byte(address % 0x100, value);
        } else if address == 0xFFFF {
            self.interrupts.set_enabled(value);
        } else if address >= 0xFF80 {
            self.zero_page_ram[(address % 0x80) as usize] = value;
        } else {
            self.write_io((address % 0x100) as u8, value);
        }
    }

    fn write_io(&mut self, low: u8, value: u8)
        requires
            old(self).wf(),
        ensures
            final(self).wf(),
            io_written(*old(self), *final(self), low, value),
            final(self).cgb_mode == old(self).cgb_mode,
    {
        reveal(io_written);
        if (0x10 <= low && low <= 0x26 && low != 0x15 && low != 0x1F) || (0x30 <= low && low <= 0x3F) {
            self.write_apu_io(low, value);
        } else if 0x40 <= low && low <= 0x4F {
            self.write_gpu_io(low, value);
        } else {
            self.write_other_io(low, value);
        }
    }

    #[verifier::spinoff_prover]
    #[verifier::rlimit(80)]
    fn write_apu_io(&mut self, low: u8, value: u8)
        requires
            old(self).wf(),
            (0x10 <= low <= 0x26 && low != 0x15 && low != 0x1F) || (0x30 <= low <= 0x3F),
        ensures
            final(self).wf(),
            *final(self) == (AddressBus { apu: final(self).apu, ..*old(self) }),
            crate::apu::apu_io_written(old(self).apu, final(self).apu, low, value),
    {
        if low == 0x10 { self.apu.set_ch1_sweep_settings(value); }
        else if low == 0x11 { self.apu.set_ch1_length_settings(value); }
        else if low == 0x12 { self.apu.set_ch1_envelope_settings(value); }
        else if low == 0x13 { self.apu.set_ch1_period_low(value); }
        else if low == 0x14 { self.apu.set_ch1_period_high(value); }
        else if low == 0x16 { self.apu.set_ch2_length_settings(value); }
        else if low == 0x17 { self.apu.set_ch2_envelope_settings(value); }
        else if low == 0x18 { self.apu.set_ch2_period_low(value); }
        else if low == 0x19 { self.apu.set_ch2_period_high(value); }
        else if low == 0x1A { self.apu.set_ch3_dac_enabled(value); }
        else if low == 0x1B { self.apu.set_ch3_length_settings(value); }
        else if low == 0x1C { self.apu.set_ch3_volume(value); }
        else if low == 0x1D { self.apu.set_ch3_period_low(value); }
        else if low == 0x1E { self.apu.set_ch3_period_high(value); }
        else if low == 0x20 { self.apu.set_ch4_length_settings(value); }
        else if low == 0x21 { self.apu.set_ch4_envelope_settings(value); }
        else if low == 0x22 { self.apu.set_ch4_polynomial(value); }
        else if low == 0x23 { self.apu.set_ch4_control(value); }
        else if low == 0x24 { self.apu.set_master_volume(value); }
        else if low == 0x25 { self.apu.set_sound_panning(value); }
        else if low == 0x26 { self.apu.set_audio_master_control(value); }
        else { self.apu.set_wave_ram_byte(low - 0x30, value); }
    }

    #[verifier::spinoff_prover]
    #[verifier::rlimit(60)]
    fn write_gpu_io(&mut self, low: u8, value: u8)
        requires
            old(self).wf(),
            0x40 <= low <= 0x4F,
        ensures
            final(self).wf(),
            io_written(*old(self), *final(self), low, value),
    {
        reveal(io_written);
        if low == 0x40 { self.gpu.set_lcdc(value); }
        else if low == 0x41 { self.gpu.set_stat(value); }
        else if low == 0x42 { self.gpu.set_scy(value); }
        else if low == 0x43 { self.gpu.set_scx(value); }
        else if low == 0x44 { self.gpu.set_ly(value); }
        else if low == 0x45 { self.gpu.set_lyc(value); }
        else if low == 0x46 { self.dma.start_dma(value); }
        else if low == 0x47 { self.gpu.palettes.set_bgp(value); }
        else if low == 0x48 { self.gpu.palettes.set_obp0(value); }
        else if low == 0x49 { self.gpu.palettes.set_obp1(value); }
        else if low == 0x4A { self.gpu.set_wy(value); }
        else if low == 0x4B { self.gpu.set_wx(value); }
        else if low == 0x4C { self.gpu.set_key0(value); }
        else if low == 0x4D { self.speed_switch.set_key1(value); }
        else if low == 0x4F { self.gpu.set_cgb_vbk(value); }
    }

    #[verifier::spinoff_prover]
    fn write_other_io(&mut self, low: u8, value: u8)
        requires
            old(self).wf(),
            !((0x10 <= low <= 0x26 && low != 0x15 && low != 0x1F) || (0x30 <= low <= 0x3F)),
            !(0x40 <= low <= 0x4F),
        ensures
            final(self).wf(),
            io_written(*old(self), *final(self), low, value),
    {
        reveal(io_written);
        if 0x51 <= low && low <= 0x6C {
            self.write_cgb_io(low, value);
        } else if low == 0x00 { self.joypad.write_byte(value); }
        else if low == 0x01 { self.serial.set_data(value); }
        else if low == 0x02 { self.serial.set_control(value); }
        else if low == 0x70 {
            if self.cgb_mode {
                self.svbk = value;
            }
        }
        else if low == 0x0F { self.set_interrupt_flags(value); }
        else if low == 0x04 { self.timers.set_divider(value); }
        else if low == 0x05 { self.timers.set_counter(value); }
        else if low == 0x06 { self.timers.set_modulo(value); }
        else if low == 0x07 { self.timers.set_control(value); }
    }

    #[verifier::spinoff_prover]
    fn write_cgb_io(&mut self, low: u8, value: u8)
        requires
            old(self).wf(),
            0x51 <= low <= 0x6C,
        ensures
            final(self).wf(),
            io_written(*old(self), *final(self), low, value),
    {
        reveal(io_written);
        if low == 0x51 { self.hdma.set_hdma1(value); }
        else if low == 0x52 { self.hdma.set_hdma2(value); }
        else if low == 0x53 { self.hdma.set_hdma3(value); }
        else if low == 0x54 { self.hdma.set_hdma4(value); }
        else if low == 0x55 { self.hdma.set_hdma5(value); }
        else if low == 0x68 { crate::gpu::colors::set_cgb_bcps(&mut self.gpu.palettes, value); }
        else if low == 0x69 { crate::gpu::colors::set_cgb_bcpd(&mut self.gpu.palettes, value); }
        else if low == 0x6A { crate::gpu::colors::set_cgb_ocps(&mut self.gpu.palettes, value); }
        else if low == 0x6B { crate::gpu::colors::set_cgb_ocpd(&mut self.gpu.palettes, value); }
        else if low == 0x6C { self.gpu.set_cgb_opri(value); }
    }

    pub fn set_interrupt_flags(&mut self, flags: u8)
        ensures
            *final(self) == (AddressBus {
                gpu: Gpu { vblank_interrupt: bit_is_set(flags, 0), stat_interrupt: bit_is_set(flags, 1), ..old(self).gpu },
                timers: TimerRegisters { interrupt: bit_is_set(flags, 2), ..old(self).timers },
                serial: crate::serial::Serial { interrupt: bit_is_set(flags, 3), ..old(self).serial },
                joypad: Joypad { interrupt: bit_is_set(flags, 4), ..old(self).joypad },
                ..*old(self)
            }),
    {
        self.gpu.set_vblank_interrupt(is_bit_set(flags, 0));
        self.gpu.set_stat_interrupt(is_bit_set(flags, 1));
        self.timers.set_interrupt(is_bit_set(flags, 2));
        self.serial.set_interrupt(is_bit_set(flags, 3));
        self.joypad.set_interrupt(is_bit_set(flags, 4));
    }
}

/// What a DMA transfer reads from an address: the bus as the processor would see it while OAM
/// DMA runs.
pub open spec fn dma_source_value(b: AddressBus, address: u16) -> u8 {
    if b.processor_test_mode {
        b.processor_test_ram@[address as int]
    } else if !accessible(b, address) {
        0xFF
    } else {
        read_value(b, address)
    }
}

/// What one machine cycle may change: the devices that run on their own clock (timers, DMA,
/// the GPU, the APU, the serial port), the HBlank signal to HDMA, and the boot ROM switch
/// (which can only go off). Memories, the cartridge and every other register stay.
pub open spec fn clock_frame(a: AddressBus, b: AddressBus) -> bool {
    &&& b == (AddressBus {
        timers: b.timers,
        gpu: b.gpu,
        apu: b.apu,
        dma: b.dma,
        hdma: HDMAState { hblank_started: b.hdma.hblank_started, ..a.hdma },
        serial: b.serial,
        in_bios: b.in_bios,
        ..a
    })
    &&& b.gpu.video_ram == a.gpu.video_ram
    &&& b.gpu.cgb_vbk == a.gpu.cgb_vbk
    &&& b.gpu.cgb_mode == a.gpu.cgb_mode
    &&& b.gpu.cgb_double_speed == a.gpu.cgb_double_speed
    &&& b.in_bios ==> a.in_bios
}

impl AddressBus {
    /// Inserts a cartridge; a ROM image that is refused leaves the bus as it was.
    pub fn load_rom_buffer(&mut self, buffer: Vec<u8>) -> (result: Result<CartridgeHeader, CartridgeError>)
        requires
            old(self).wf(),
        ensures
            final(self).wf(),
            match load_error(buffer@) {
                Some(e) => result == Err::<CartridgeHeader, CartridgeError>(e) && *final(self) == *old(self),
                None => result matches Ok(header) && header.view_tuple() == crate::address_bus::cartridge::header_of(buffer@)
                    && *final(self) == (AddressBus { cartridge_mapper: final(self).cartridge_mapper, ..*old(self) })
                    && final(self).cartridge_mapper.cartridge().rom@ == buffer@
                    && final(self).cartridge_mapper.initial_state(),
            },
    {
        match load_cartridge(buffer) {
            Ok(mapper) => {
                let header = mapper.get_cartridge().header.duplicate();
                self.cartridge_mapper = mapper;
                Ok(header)
            },
            Err(e) => Err(e),
        }
    }
}

impl AddressBus {
    pub fn get_cartridge_ram(&self) -> (ram: Vec<u8>)
        ensures
            ram@ == self.cartridge_mapper.cartridge().ram@,
    {
        let cartridge = self.cartridge_mapper.get_cartridge();
        let mut ram: Vec<u8> = Vec::new();
        let mut i: usize = 0;
        while i < cartridge.ram.len()
            invariant
                i <= cartridge.ram@.len(),
                ram@ == cartridge.ram@.subrange(0, i as int),
            decreases cartridge.ram@.len() - i,
        {
            ram.push(cartridge.ram[i]);
            i += 1;
        }
        assert(ram@ =~= cartridge.ram@);
        ram
    }

    /// Replaces the cartridge's external RAM (a cartridge without a controller keeps none).
    pub fn set_cartridge_ram(&mut self, buffer: Vec<u8>)
        requires
            old(self).wf(),
        ensures
            final(self).wf(),
            *final(self) == (AddressBus { cartridge_mapper: final(self).cartridge_mapper, ..*old(self) }),
            old(self).cartridge_mapper is MBC1 ==> final(self).cartridge_mapper.cartridge().ram@ == buffer@,
    {
        self.cartridge_mapper.set_cartridge_ram(buffer);
    }

    pub fn cartridge_mapper(&self) -> (m: &CartridgeMapper)
        ensures
            *m == self.cartridge_mapper,
    {
        &self.cartridge_mapper
    }

    /// One machine cycle of every device that runs on the clock: timers, OAM DMA, the GPU, the
    /// APU and the serial port.
    #[verifier::spinoff_prover]
    pub fn sync(&mut self)
        requires
            old(self).wf(),
        ensures
            final(self).wf(),
            clock_frame(*old(self), *final(self)),
            final(self).timers == old(self).timers.spec_step(),
            crate::gpu::same_registers(final(self).gpu, crate::gpu::stepped(Gpu {
                object_attribute_memory: final(self).gpu.object_attribute_memory,
                ..old(self).gpu
            })),
            old(self).apu.enabled ==> {
                let stepped = crate::apu::channels_stepped(old(self).apu, old(self).timers.spec_step().divider);
                &&& final(self).apu.channel1 == stepped.channel1
                &&& final(self).apu.channel2 == stepped.channel2
                &&& final(self).apu.channel3 == stepped.channel3
                &&& final(self).apu.channel4 == stepped.channel4
                &&& final(self).apu.divider_apu == stepped.divider_apu
            },
            !old(self).dma.in_progress ==> final(self).dma == old(self).dma
                && final(self).gpu.object_attribute_memory == old(self).gpu.object_attribute_memory,
            final(self).serial == crate::serial::serial_stepped(old(self).serial),
            old(self).dma.in_progress && old(self).dma.delay > 0 ==> final(self).dma == (DMAState { delay: (old(self).dma.delay - 1) as u8, ..old(self).dma })
                && final(self).gpu.object_attribute_memory == old(self).gpu.object_attribute_memory,
            old(self).dma.in_progress && old(self).dma.delay == 0 ==> {
                &&& final(self).dma == (DMAState { offset: (old(self).dma.offset + 1) as u8, in_progress: old(self).dma.offset + 1 < 160, ..old(self).dma })
                &&& final(self).gpu.object_attribute_memory@ == old(self).gpu.object_attribute_memory@.update(
                    old(self).dma.offset as int,
                    dma_source_value(AddressBus { timers: old(self).timers.spec_step(), ..*old(self) }, (old(self).dma.source + old(self).dma.offset) as u16),
                )
            },
    {
        let in_color_bios = self.in_bios && self.cgb_mode;

        self.timers.step();
        self.dma_step();
        self.gpu.step(crate::gpu::GpuParams { hdma: &mut self.hdma, in_color_bios });
        let divider = self.timers.divider();
        self.apu.step(in_color_bios, divider);
        self.serial.step();
    }

    pub fn set_cgb_mode(&mut self, value: bool)
        ensures
            *final(self) == (AddressBus {
                cgb_mode: value,
                apu: crate::apu::Apu { cgb_mode: value, ..old(self).apu },
                gpu: Gpu { cgb_mode: value, ..old(self).gpu },
                serial: crate::serial::Serial { cgb_mode: value, ..old(self).serial },
                hdma: HDMAState { cgb_mode: value, ..old(self).hdma },
                speed_switch: SpeedSwitch { cgb_mode: value, ..old(self).speed_switch },
                ..*old(self)
            }),
    {
        self.cgb_mode = value;
        self.apu.set_cgb_mode(value);
        self.gpu.set_cgb_mode(value);
        self.serial.set_cgb_mode(value);
        self.hdma.set_cgb_mode(value);
        self.speed_switch.set_cgb_mode(value);
    }

    pub fn handle_key_press(&mut self, key: &Key)
        ensures
            *final(self) == (AddressBus { joypad: crate::joypad::pressed_state(old(self).joypad, *key), ..*old(self) }),
    {
        self.joypad.handle_key_press(key);
    }

    pub fn handle_key_release(&mut self, key: &Key)
        ensures
            *final(self) == (AddressBus { joypad: crate::joypad::released_state(old(self).joypad, *key), ..*old(self) }),
    {
        self.joypad.handle_key_release(key);
    }

    pub fn in_bios(&self) -> (r: bool)
        ensures
            r == self.in_bios,
    {
        self.in_bios
    }

    pub fn set_in_bios(&mut self, value: bool)
        ensures
            *final(self) == (AddressBus { in_bios: value, ..*old(self) }),
    {
        self.in_bios = value;
    }

    pub fn processor_test_mode(&self) -> (r: bool)
        ensures
            r == self.processor_test_mode,
    {
        self.processor_test_mode
    }

    pub fn set_processor_test_mode(&mut self, value: bool)
        ensures
            *final(self) == (AddressBus { processor_test_mode: value, ..*old(self) }),
    {
        self.processor_test_mode = value;
    }

    pub fn cgb_mode(&self) -> (r: bool)
        ensures
            r == self.cgb_mode,
    {
        self.cgb_mode
    }

    fn dma_transfer_byte(&mut self)
        requires
            old(self).wf(),
            old(self).dma.in_progress,
        ensures
            final(self).wf(),
            *final(self) == (AddressBus {
                gpu: Gpu { object_attribute_memory: final(self).gpu.object_attribute_memory, ..old(self).gpu },
                in_bios: final(self).in_bios,
                ..*old(self)
            }),
            final(self).in_bios ==> old(self).in_bios,
            final(self).gpu.object_attribute_memory@ == old(self).gpu.object_attribute_memory@.update(
                old(self).dma.offset as int,
                dma_source_value(*old(self), (old(self).dma.source + old(self).dma.offset) as u16),
            ),
    {
        let offset = self.dma.offset() as u16;
        let address = self.dma.source_address() + offset;
        let byte_to_transfer = self.read_byte(address);
        self.unsafe_write_byte(0xFE00 + offset, byte_to_transfer);
    }

    /// One machine cycle of OAM DMA: after a start-up delay, one byte per cycle is copied from
    /// the source page into OAM until all 160 are.
    pub fn dma_step(&mut self)
        requires
            old(self).wf(),
        ensures
            final(self).wf(),
            *final(self) == (AddressBus {
                gpu: Gpu { object_attribute_memory: final(self).gpu.object_attribute_memory, ..old(self).gpu },
                dma: final(self).dma,
                in_bios: final(self).in_bios,
                ..*old(self)
            }),
            final(self).in_bios ==> old(self).in_bios,
            !old(self).dma.in_progress ==> *final(self) == *old(self),
            old(self).dma.in_progress && old(self).dma.delay > 0 ==> *final(self) == (AddressBus {
                dma: DMAState { delay: (old(self).dma.delay - 1) as u8, ..old(self).dma },
                ..*old(self)
            }),
            old(self).dma.in_progress && old(self).dma.delay == 0 ==> {
                &&& *final(self) == (AddressBus {
                    gpu: Gpu { object_attribute_memory: final(self).gpu.object_attribute_memory, ..old(self).gpu },
                    dma: DMAState {
                        offset: final(self).dma.offset,
                        in_progress: final(self).dma.in_progress,
                        ..old(self).dma
                    },
                    in_bios: final(self).in_bios,
                    ..*old(self)
                })
                &&& final(self).in_bios ==> old(self).in_bios
                &&& final(self).gpu.object_attribute_memory@ == old(self).gpu.object_attribute_memory@.update(
                    old(self).dma.offset as int,
                    dma_source_value(*old(self), (old(self).dma.source + old(self).dma.offset) as u16),
                )
                &&& final(self).dma.in_progress == (old(self).dma.offset + 1 < 160)
                &&& final(self).dma.offset == old(self).dma.offset + 1
            },
    {
        if self.dma.in_progress() {
            let delay = self.dma.delay();
            if delay > 0 {
                self.dma.set_delay(delay - 1);
            } else {
                self.dma_transfer_byte();

                let next_offset = self.dma.offset() + 1;
                self.dma.set_offset(next_offset);

                if next_offset == crate::address_bus::dma::DMA_TRANSFER_BYTES {
                    self.dma.set_in_progress(false);
                }
            }
        }
    }

    /// The speed switch that STOP performs: when armed in CGB mode, double speed toggles in
    /// every device that depends on it and the switch disarms.
    pub fn toggle_speed_switch(&mut self)
        ensures
            !(old(self).cgb_mode && old(self).speed_switch.armed) ==> *final(self) == *old(self),
            old(self).cgb_mode && old(self).speed_switch.armed ==> *final(self) == (AddressBus {
                speed_switch: SpeedSwitch { armed: false, cgb_double_speed: !old(self).speed_switch.cgb_double_speed, ..old(self).speed_switch },
                apu: crate::apu::Apu { cgb_double_speed: !old(self).speed_switch.cgb_double_speed, ..old(self).apu },
                gpu: Gpu { cgb_double_speed: !old(self).speed_switch.cgb_double_speed, ..old(self).gpu },
                serial: crate::serial::Serial { cgb_double_speed: !old(self).speed_switch.cgb_double_speed, ..old(self).serial },
                hdma: HDMAState { cgb_double_speed: !old(self).speed_switch.cgb_double_speed, ..old(self).hdma },
                ..*old(self)
            }),
    {
        if self.cgb_mode && self.speed_switch.armed() {
            self.speed_switch.set_armed(false);

            let new_cgb_double_speed = !self.speed_switch.cgb_double_speed();
            self.speed_switch.set_cgb_double_speed(new_cgb_double_speed);
            self.apu.set_cgb_double_speed(new_cgb_double_speed);
            self.gpu.set_cgb_double_speed(new_cgb_double_speed);
            self.serial.set_cgb_double_speed(new_cgb_double_speed);
            self.hdma.set_cgb_double_speed(new_cgb_double_speed);
        }
    }
}

/// A source address whose byte a VRAM DMA block reads as it stood when the block began: one
/// that no device changes between machine cycles and that the block's VRAM writes cannot reach.
pub open spec fn hdma_source_known(address: u16) -> bool {
    crate::cpu::microops::stable_address(address) && !(0x8000 <= address < 0xA000)
}

/// What a VRAM DMA block that stays inside VRAM does to VRAM: the sixteen bytes from the
/// destination plus the offset take the source bytes (the value that was there as the block
/// began, where the source is known), and no other byte of VRAM changes.
pub open spec fn hdma_block_copied(a: AddressBus, b: AddressBus, source: u16, destination: u16) -> bool {
    let base = a.hdma.offset as int;
    let start = video_ram_index(a.gpu.cgb_mode, a.gpu.cgb_vbk, (destination + base - 0x8000) as u16);
    &&& b.gpu.video_ram@.len() == a.gpu.video_ram@.len()
    &&& forall|x: int| 0 <= x < a.gpu.video_ram@.len() && !(start <= x < start + 16)
        ==> #[trigger] b.gpu.video_ram@[x] == a.gpu.video_ram@[x]
    &&& forall|i: int| 0 <= i < 16 && hdma_source_known(((source + base + i) % 0x10000) as u16)
        ==> #[trigger] b.gpu.video_ram@[start + i] == read_value(a, ((source + base + i) % 0x10000) as u16)
}

/// The state of a VRAM DMA block after its first `j` bytes: those bytes copied, the rest of VRAM
/// as it was, the settings that decide where bytes land kept, and known sources unchanged.
pub open spec fn copied_so_far(a: AddressBus, b: AddressBus, source: u16, start: int, j: int) -> bool {
    let base = a.hdma.offset as int;
    &&& b.gpu.cgb_mode == a.gpu.cgb_mode
    &&& b.gpu.cgb_vbk == a.gpu.cgb_vbk
    &&& b.processor_test_mode == a.processor_test_mode
    &&& b.gpu.video_ram@.len() == a.gpu.video_ram@.len()
    &&& forall|x: int| 0 <= x < a.gpu.video_ram@.len() && !(start <= x < start + j)
        ==> #[trigger] b.gpu.video_ram@[x] == a.gpu.video_ram@[x]
    &&& forall|i: int| 0 <= i < j && hdma_source_known(((source + base + i) % 0x10000) as u16)
        ==> #[trigger] b.gpu.video_ram@[start + i] == read_value(a, ((source + base + i) % 0x10000) as u16)
    &&& forall|s: u16| hdma_source_known(s) ==> #[trigger] read_value(b, s) == read_value(a, s)
}

/// A change of VRAM, the VRAM DMA state or the boot ROM switch leaves known source bytes
/// reading as they did.
proof fn lemma_known_source_kept(a: AddressBus, b: AddressBus, address: u16)
    requires
        b == (AddressBus { gpu: Gpu { video_ram: b.gpu.video_ram, ..a.gpu }, hdma: b.hdma, in_bios: b.in_bios, ..a }),
        b.in_bios ==> a.in_bios,
        hdma_source_known(address),
    ensures
        read_value(b, address) == read_value(a, address),
{
}

impl AddressBus {
    /// Copies one 16-byte block of a VRAM DMA transfer, two bytes per machine cycle, then counts
    /// the block off; after the last block the transfer is complete.
    #[verifier::rlimit(60)]
    fn hdma_transfer_block(&mut self, source: u16, destination: u16)
        requires
            old(self).wf(),
        ensures
            final(self).wf(),
            final(self).cgb_mode == old(self).cgb_mode,
            0x8000 <= destination && destination as int + old(self).hdma.offset + 16 <= 0xC000 ==> final(self).hdma == (HDMAState {
                hblank_started: final(self).hdma.hblank_started,
                ..hdma_after_block(old(self).hdma)
            }),
            !old(self).processor_test_mode && 0x8000 <= destination && destination as int + old(self).hdma.offset + 16 <= 0xA000
                ==> hdma_block_copied(*old(self), *final(self), source, destination),
    {
        let ghost in_range = 0x8000 <= destination && destination as int + old(self).hdma.offset + 16 <= 0xC000;
        let ghost in_vram = !old(self).processor_test_mode && 0x8000 <= destination && destination as int + old(self).hdma.offset + 16 <= 0xA000;
        let ghost base = old(self).hdma.offset as int;
        let ghost start = video_ram_index(old(self).gpu.cgb_mode, old(self).gpu.cgb_vbk, (destination + base - 0x8000) as u16);
        let mut pair: u8 = 0;
        while pair < 8
            invariant
                self.wf(),
                self.cgb_mode == old(self).cgb_mode,
                pair <= 8,
                in_vram == (!old(self).processor_test_mode && 0x8000 <= destination && destination as int + old(self).hdma.offset + 16 <= 0xA000),
                base == old(self).hdma.offset as int,
                start == video_ram_index(old(self).gpu.cgb_mode, old(self).gpu.cgb_vbk, (destination + base - 0x8000) as u16),
                in_vram ==> copied_so_far(*old(self), *self, source, start, 2 * pair),
                in_range == (0x8000 <= destination && destination as int + old(self).hdma.offset + 16 <= 0xC000),
                in_range ==> self.hdma == (HDMAState {
                    hblank_started: self.hdma.hblank_started,
                    offset: (old(self).hdma.offset + 2 * pair) as u16,
                    ..old(self).hdma
                }),
            decreases 8 - pair,
        {
            let mut k: u8 = 0;
            while k < 2
                invariant
                    self.wf(),
                    self.cgb_mode == old(self).cgb_mode,
                    k <= 2,
                    pair < 8,
                    in_vram == (!old(self).processor_test_mode && 0x8000 <= destination && destination as int + old(self).hdma.offset + 16 <= 0xA000),
                    base == old(self).hdma.offset as int,
                    start == video_ram_index(old(self).gpu.cgb_mode, old(self).gpu.cgb_vbk, (destination + base - 0x8000) as u16),
                    in_vram ==> copied_so_far(*old(self), *self, source, start, 2 * pair + k),
                    in_range == (0x8000 <= destination && destination as int + old(self).hdma.offset + 16 <= 0xC000),
                    in_range ==> self.hdma == (HDMAState {
                        hblank_started: self.hdma.hblank_started,
                        offset: (old(self).hdma.offset + 2 * pair + k) as u16,
                        ..old(self).hdma
                    }),
                decreases 2 - k,
            {
                let offset = self.hdma.offset();
                let ghost s0 = *self;
                let source_byte = self.read_byte(source.wrapping_add(offset));
                let ghost s1 = *self;
                self.write_byte(destination.wrapping_add(offset), source_byte);
                let ghost s2 = *self;
                self.hdma.set_offset(offset.wrapping_add(1));
                proof {
                    if in_vram {
                        let j = 2 * pair + k;
                        assert(offset == base + j);
                        assert forall|s: u16| hdma_source_known(s) implies #[trigger] read_value(*self, s) == read_value(*old(self), s) by {
                            assert(read_value(s0, s) == read_value(*old(self), s));
                            lemma_known_source_kept(s0, s1, s);
                            lemma_known_source_kept(s1, s2, s);
                            lemma_known_source_kept(s2, *self, s);
                        }
                        let src = source.wrapping_add(offset);
                        let dst = destination.wrapping_add(offset);
                        assert(src == ((source + base + j) % 0x10000) as u16);
                        assert(0x8000 <= dst < 0xA000 && dst == destination + base + j);
                        assert(accessible(s1, dst));
                        assert(written(s1, s2, dst, source_byte));
                        assert((dst % 0x2000) as u16 == (destination + base - 0x8000) as u16 + j);
                        assert(video_ram_index(s1.gpu.cgb_mode, s1.gpu.cgb_vbk, (dst % 0x2000) as u16) == start + j);
                        assert(s2.gpu.video_ram@ == s1.gpu.video_ram@.update(start + j, source_byte));
                        assert(s1.gpu.video_ram == s0.gpu.video_ram);
                        assert(hdma_source_known(src) ==> source_byte == read_value(*old(self), src));
                        assert(copied_so_far(*old(self), *self, source, start, j + 1));
                    }
                }
                k += 1;
            }

            // Two bytes take one machine cycle (two fast cycles in double speed mode).
            let cycle_count: u8 = if self.hdma.cgb_double_speed { 2 } else { 1 };
            let mut cycle: u8 = 0;
            while cycle < cycle_count
                invariant
                    self.wf(),
                    self.cgb_mode == old(self).cgb_mode,
                    cycle <= cycle_count,
                    pair < 8,
                    in_vram == (!old(self).processor_test_mode && 0x8000 <= destination && destination as int + old(self).hdma.offset + 16 <= 0xA000),
                    base == old(self).hdma.offset as int,
                    start == video_ram_index(old(self).gpu.cgb_mode, old(self).gpu.cgb_vbk, (destination + base - 0x8000) as u16),
                    in_vram ==> copied_so_far(*old(self), *self, source, start, 2 * pair + 2),
                    in_range == (0x8000 <= destination && destination as int + old(self).hdma.offset + 16 <= 0xC000),
                    in_range ==> self.hdma == (HDMAState {
                        hblank_started: self.hdma.hblank_started,
                        offset: (old(self).hdma.offset + 2 * pair + 2) as u16,
                        ..old(self).hdma
                    }),
                decreases cycle_count - cycle,
            {
                let ghost s0 = *self;
                self.sync();
                proof {
                    if in_vram {
                        assert forall|s: u16| hdma_source_known(s) implies #[trigger] read_value(*self, s) == read_value(*old(self), s) by {
                            crate::cpu::microops::lemma_stable_read(s0, *self, s);
                        }
                    }
                }
                cycle += 1;
            }
            pair += 1;
        }

        let ghost done = *self;
        if self.hdma.transfer_length == 0 {
            self.hdma.set_completed(true);
            self.hdma.set_in_progress(false);
            self.hdma.set_offset(0);
        } else {
            let transfer_length = self.hdma.transfer_length;
            self.hdma.set_transfer_length(transfer_length - 1);
        }
    }

    /// Runs VRAM DMA: in HBlank mode one block per HBlank; in general-purpose mode the whole
    /// transfer at once (at most 128 blocks, the most its length register can ask for).
    pub fn hdma_step(&mut self)
        requires
            old(self).wf(),
        ensures
            final(self).wf(),
            !(old(self).cgb_mode && old(self).hdma.in_progress) ==> *final(self) == *old(self),
            old(self).cgb_mode && old(self).hdma.in_progress && old(self).hdma.transfer_mode == VRAMTransferMode::HBlank
                && !old(self).hdma.hblank_started ==> *final(self) == *old(self),
            old(self).cgb_mode && old(self).hdma.in_progress && old(self).hdma.transfer_mode == VRAMTransferMode::HBlank
                && old(self).hdma.hblank_started
                && vram_dma_destination(old(self).hdma.hdma3, old(self).hdma.hdma4) + old(self).hdma.offset + 16 <= 0xC000 ==> {
                &&& final(self).hdma == (HDMAState { hblank_started: final(self).hdma.hblank_started, ..hdma_after_block(old(self).hdma) })
                &&& hdma_after_block(old(self).hdma).in_progress ==> !final(self).hdma.hblank_started
            },
            old(self).cgb_mode && old(self).hdma.in_progress && old(self).hdma.transfer_mode == VRAMTransferMode::HBlank
                && old(self).hdma.hblank_started && !old(self).processor_test_mode
                && vram_dma_destination(old(self).hdma.hdma3, old(self).hdma.hdma4) + old(self).hdma.offset + 16 <= 0xA000
                ==> hdma_block_copied(*old(self), *final(self), vram_dma_source(old(self).hdma.hdma1, old(self).hdma.hdma2),
                    vram_dma_destination(old(self).hdma.hdma3, old(self).hdma.hdma4)),
            old(self).cgb_mode && old(self).hdma.in_progress && old(self).hdma.transfer_mode == VRAMTransferMode::GeneralPurpose
                && !old(self).hdma.completed && old(self).hdma.transfer_length < 128
                && vram_dma_destination(old(self).hdma.hdma3, old(self).hdma.hdma4) + old(self).hdma.offset
                    + 16 * (old(self).hdma.transfer_length + 1) <= 0xC000 ==> final(self).hdma == (HDMAState {
                    hblank_started: final(self).hdma.hblank_started,
                    completed: true,
                    in_progress: false,
                    offset: 0,
                    transfer_length: 0,
                    ..old(self).hdma
                }),
    {
        if self.cgb_mode && self.hdma.in_progress {
            let source = self.hdma.get_vram_dma_source();
            let destination = self.hdma.get_vram_dma_destination();
            proof {
                crate::utils::lemma_u8_and_bound(self.hdma.hdma3, 0x1F);
                crate::utils::lemma_u8_and_bound(self.hdma.hdma4, 0xF0);
                assert(0x8000 <= destination <= 0x9FF0);
            }

            let is_hblank_mode = self.hdma.transfer_mode == crate::address_bus::hdma::VRAMTransferMode::HBlank;
            if is_hblank_mode && self.hdma.hblank_started {
                self.hdma_transfer_block(source, destination);
                self.hdma.set_hblank_started(false);
            } else if !is_hblank_mode {
                let ghost whole = !old(self).hdma.completed && old(self).hdma.transfer_length < 128
                    && destination as int + old(self).hdma.offset + 16 * (old(self).hdma.transfer_length + 1) <= 0xC000;
                let mut blocks: u8 = 0;
                while !self.hdma.completed && blocks < 128
                    invariant
                        self.wf(),
                        blocks <= 128,
                        destination == vram_dma_destination(old(self).hdma.hdma3, old(self).hdma.hdma4),
                        0x8000 <= destination <= 0x9FF0,
                        whole == (!old(self).hdma.completed && old(self).hdma.transfer_length < 128
                            && destination as int + old(self).hdma.offset + 16 * (old(self).hdma.transfer_length + 1) <= 0xC000),
                        whole && !self.hdma.completed ==> blocks <= old(self).hdma.transfer_length && self.hdma == (HDMAState {
                            hblank_started: self.hdma.hblank_started,
                            offset: (old(self).hdma.offset + 16 * blocks) as u16,
                            transfer_length: (old(self).hdma.transfer_length - blocks) as u8,
                            ..old(self).hdma
                        }),
                        whole && self.hdma.completed ==> self.hdma == (HDMAState {
                            hblank_started: self.hdma.hblank_started,
                            completed: true,
                            in_progress: false,
                            offset: 0,
                            transfer_length: 0,
                            ..old(self).hdma
                        }),
                    decreases 128 - blocks,
                {
                    self.hdma_transfer_block(source, destination);
                    blocks += 1;
                }
            }
        }
    }
}

/// The VRAM DMA registers after one 16-byte block: the last block completes the transfer and
/// clears the offset; any other counts the length down and moves the offset on.
pub open spec fn hdma_after_block(h: HDMAState) -> HDMAState {
    if h.transfer_length == 0 {
        HDMAState { completed: true, in_progress: false, offset: 0, ..h }
    } else {
        HDMAState { offset: (h.offset + 16) as u16, transfer_length: (h.transfer_length - 1) as u8, ..h }
    }
}

/// The plain memory of the address space: video RAM, working RAM with its echo, OAM, high RAM
/// and the interrupt enable register.
pub open spec fn plain_memory(address: u16) -> bool {
    (0x8000 <= address < 0xA000) || (0xC000 <= address < 0xFEA0) || address >= 0xFF80
}

/// A write to plain memory is read back: the address then holds the byte written, and a read
/// gives it unless a registered cheat for the address applies.
pub proof fn law_read_after_write(a: AddressBus, b: AddressBus, address: u16, value: u8)
    requires
        written(a, b, address, value),
        plain_memory(address),
    ensures
        raw_value(b, address) == value,
        read_value(b, address) == cheated_value(a.cheats.entries(), address, value, cheat_bank(a, address)),
{
    if 0xC000 <= address < 0xFE00 {
        assert(working_ram_index(b, address) == working_ram_index(a, address));
        assert(0 <= working_ram_index(a, address) < 0x10000) by {
            assert(working_ram_bank(a) <= 7) by {
                crate::utils::lemma_u8_and_bound(a.svbk, 0b111);
            }
        }
    }
}

} // verus!

pub mod bank_utils;
pub mod cartridge;
pub mod cheats;
pub mod constants;
pub mod dma;
pub mod hdma;
pub mod mbc1;
pub mod mbc_rom_only;
pub mod speed_switch;
