use crate::address_bus::bank_utils::{banked_read, banked_value, banked_write, banked_index};
use crate::address_bus::cartridge::Cartridge;
use crate::address_bus::constants::{CART_TYPE_MBC1_WITH_RAM, CART_TYPE_MBC1_WITH_RAM_PLUS_BATTERY};
use vstd::prelude::*;

verus! {

/// Whether the 0x4000-0x5FFF register selects the upper ROM bank bits or the RAM bank.
#[derive(PartialEq, Eq, Structural, Clone, Copy, Debug)]
pub enum MBCMode {
    ROM,
    RAM,
}

/// The registers of an MBC1 controller.
#[derive(PartialEq, Eq, Structural, Clone, Copy, Debug)]
pub struct MBC1State {
    pub ram_enabled: bool,
    pub rom_bank_number: u8,
    pub ram_bank_number: u8,
    pub mode: MBCMode,
}

/// A cartridge with an MBC1 controller.
pub struct MBC1CartridgeMapper {
    pub cartridge: Cartridge,
    pub state: MBC1State,
}

pub open spec fn mbc1_initial_state() -> MBC1State {
    MBC1State { ram_enabled: false, rom_bank_number: 1, ram_bank_number: 0, mode: MBCMode::ROM }
}

pub fn initialize_mbc1() -> (state: MBC1State)
    ensures
        state == mbc1_initial_state(),
{
    MBC1State { ram_enabled: false, rom_bank_number: 1, ram_bank_number: 0, mode: MBCMode::ROM }
}

pub fn initialize_mbc1_mapper(cartridge: Cartridge) -> (m: MBC1CartridgeMapper)
    ensures
        m.cartridge == cartridge,
        m.state == mbc1_initial_state(),
{
    MBC1CartridgeMapper { cartridge, state: initialize_mbc1() }
}

pub open spec fn supports_ram(type_code: u8) -> bool {
    type_code == CART_TYPE_MBC1_WITH_RAM || type_code == CART_TYPE_MBC1_WITH_RAM_PLUS_BATTERY
}

pub open spec fn supports_battery(type_code: u8) -> bool {
    type_code == CART_TYPE_MBC1_WITH_RAM_PLUS_BATTERY
}

fn ram_supported(cartridge: &Cartridge) -> (r: bool)
    ensures
        r == supports_ram(cartridge.header.type_code),
{
    cartridge.header.type_code == CART_TYPE_MBC1_WITH_RAM || cartridge.header.type_code
        == CART_TYPE_MBC1_WITH_RAM_PLUS_BATTERY
}

fn battery_supported(cartridge: &Cartridge) -> (r: bool)
    ensures
        r == supports_battery(cartridge.header.type_code),
{
    cartridge.header.type_code == CART_TYPE_MBC1_WITH_RAM_PLUS_BATTERY
}

/// The ROM bank register after a write of `value` to 0x2000-0x3FFF: the five low bits, with
/// zero read as one, masked to the banks the ROM has; the two high bits stay.
pub open spec fn low_bank_write(rom_bank_number: u8, value: u8, max_banks: u16) -> u8 {
    let masked_value = value & 0x1F;
    let bank_value = if masked_value == 0 { 1u8 } else { masked_value };
    let max_bank_mask = ((max_banks - 1) as u16 & 0x1F) as u8;
    ((rom_bank_number & 0x60) + ((bank_value & max_bank_mask) & 0x1F)) as u8
}

/// A write to 0x2000-0x3FFF sets the five low bits of the ROM bank register and keeps bits
/// 5-6; a value whose low five bits are zero selects bank one of a ROM with an even number of
/// banks, and with 32 banks or more the low bits are the value's own.
pub proof fn law_low_bank_write(rom_bank_number: u8, value: u8, max_banks: u16)
    ensures
        low_bank_write(rom_bank_number, value, max_banks) & 0x60 == rom_bank_number & 0x60,
        low_bank_write(rom_bank_number, value, max_banks) & 0x80 == 0,
        max_banks >= 2 && max_banks % 2 == 0 && value & 0x1F == 0 ==> low_bank_write(rom_bank_number, value,
            max_banks) & 0x1F == 1,
        max_banks >= 32 && max_banks % 32 == 0 && value & 0x1F != 0 ==> low_bank_write(rom_bank_number, value,
            max_banks) & 0x1F == value & 0x1F,
{
    let masked: u8 = value & 0x1F;
    let bank: u8 = if masked == 0 { 1u8 } else { masked };
    let mask: u8 = ((max_banks - 1) as u16 & 0x1F) as u8;
    let r: u8 = ((rom_bank_number & 0x60) + ((bank & mask) & 0x1F)) as u8;
    assert(r & 0x60 == rom_bank_number & 0x60 && r & 0x80 == 0 && (max_banks >= 2 && max_banks % 2 == 0 && masked
        == 0 ==> r & 0x1F == 1) && (max_banks >= 32 && max_banks % 32 == 0 && masked != 0 ==> r & 0x1F == masked))
        by (bit_vector)
        requires
            masked == value & 0x1F,
            bank == if masked == 0 { 1u8 } else { masked },
            mask == ((max_banks - 1) as u16 & 0x1F) as u8,
            r == ((rom_bank_number & 0x60) + ((bank & mask) & 0x1F)) as u8,
    ;
}

impl MBC1CartridgeMapper {
    pub open spec fn wf(&self) -> bool {
        self.cartridge.wf()
    }

    /// The ROM byte at an address: bank zero below 0x4000, the selected bank above.
    pub open spec fn rom_value(&self, address: u16) -> u8 {
        if address < 0x4000 {
            if (address as int) < self.cartridge.rom@.len() { self.cartridge.rom@[address as int] } else { 0xFF }
        } else {
            banked_value(self.cartridge.rom@, 0x4000, address, self.state.rom_bank_number as u16)
        }
    }

    /// The external RAM byte at an offset: from the selected bank while RAM is enabled, 0xFF
    /// otherwise.
    pub open spec fn ram_value(&self, address: u16) -> u8 {
        if self.state.ram_enabled && self.cartridge.header.max_ram_banks > 0 {
            banked_value(self.cartridge.ram@, 0x2000, address, self.state.ram_bank_number as u16)
        } else {
            0xFF
        }
    }

    /// The controller after a write to its register space.
    pub open spec fn after_rom_write(self, address: u16, value: u8) -> MBC1CartridgeMapper {
        let state = self.state;
        let new_state = if address <= 0x1FFF {
            if supports_ram(self.cartridge.header.type_code) {
                MBC1State { ram_enabled: (value & 0xF) == 0x0A, ..state }
            } else {
                state
            }
        } else if address <= 0x3FFF {
            MBC1State { rom_bank_number: low_bank_write(state.rom_bank_number, value, self.cartridge.header.max_banks), ..state }
        } else if address <= 0x5FFF {
            if state.mode == MBCMode::RAM {
                MBC1State { ram_bank_number: value & 0x3, ..state }
            } else if self.cartridge.header.max_banks >= 64 {
                MBC1State { rom_bank_number: (((value & 0x3) as int * 32) + (state.rom_bank_number & 0x1F)) as u8, ..state }
            } else {
                state
            }
        } else {
            if supports_ram(self.cartridge.header.type_code) {
                MBC1State { mode: if value == 1 { MBCMode::RAM } else { MBCMode::ROM }, ..state }
            } else {
                state
            }
        };
        MBC1CartridgeMapper { state: new_state, ..self }
    }

    /// Relates the controller before and after a write to external RAM: while RAM is enabled
    /// the byte is stored in the selected bank, and battery-backed RAM is marked for saving;
    /// nothing else changes.
    pub open spec fn ram_written(self, after: MBC1CartridgeMapper, address: u16, value: u8) -> bool {
        let enabled = self.state.ram_enabled && self.cartridge.header.max_ram_banks > 0;
        let index = banked_index(0x2000, address, self.state.ram_bank_number as u16);
        &&& after.state == self.state
        &&& after.cartridge.rom == self.cartridge.rom
        &&& after.cartridge.header == self.cartridge.header
        &&& after.cartridge.ram@ == (if enabled && index < self.cartridge.ram@.len() {
            self.cartridge.ram@.update(index, value)
        } else {
            self.cartridge.ram@
        })
        &&& after.cartridge.ram_save_pending == (self.cartridge.ram_save_pending || (enabled
            && supports_battery(self.cartridge.header.type_code)))
    }

    pub fn read_rom(&self, address: u16) -> (value: u8)
        requires
            address < 0x8000,
        ensures
            value == self.rom_value(address),
    {
        if address < 0x4000 {
            if (address as usize) < self.cartridge.rom.len() {
                self.cartridge.rom[address as usize]
            } else {
                0xFF
            }
        } else {
            banked_read(&self.cartridge.rom, 0x4000, address, self.state.rom_bank_number as u16)
        }
    }

    pub fn write_rom(&mut self, address: u16, value: u8)
        requires
            old(self).wf(),
            address < 0x8000,
        ensures
            final(self).wf(),
            *final(self) == old(self).after_rom_write(address, value),
    {
        if address <= 0x1FFF {
            if ram_supported(&self.cartridge) {
                self.state.ram_enabled = (value & 0xF) == 0x0A;
            }
        } else if address <= 0x3FFF {
            let masked_value = value & 0x1F;
            let mut bank_value = if masked_value == 0 { 1 as u8 } else { masked_value };

            let max_bank_mask = ((self.cartridge.header.max_banks - 1) & 0x1F) as u8;
            bank_value &= max_bank_mask;

            proof {
                crate::utils::lemma_u8_and_bound(self.state.rom_bank_number, 0x60);
                crate::utils::lemma_u8_and_bound(bank_value, 0x1F);
            }
            self.state.rom_bank_number = (self.state.rom_bank_number & 0x60) + (bank_value & 0x1F);
        } else if address <= 0x5FFF {
            if self.state.mode == MBCMode::RAM {
                self.state.ram_bank_number = value & 0x3;
            } else if self.cartridge.header.max_banks >= 64 {
                proof {
                    crate::utils::lemma_u8_and_bound(value, 0x3);
                    crate::utils::lemma_u8_and_bound(self.state.rom_bank_number, 0x1F);
                }
                self.state.rom_bank_number = ((value & 0x3) * 32) + (self.state.rom_bank_number & 0x1F);
            }
        } else {
            if ram_supported(&self.cartridge) {
                self.state.mode = if value == 1 { MBCMode::RAM } else { MBCMode::ROM };
            }
        }
    }

    pub fn read_ram(&self, address: u16) -> (value: u8)
        ensures
            value == self.ram_value(address),
    {
        if self.state.ram_enabled && self.cartridge.header.max_ram_banks > 0 {
            banked_read(&self.cartridge.ram, 0x2000, address, self.state.ram_bank_number as u16)
        } else {
            0xFF
        }
    }

    pub fn write_ram(&mut self, address: u16, value: u8)
        requires
            old(self).wf(),
        ensures
            final(self).wf(),
            old(self).ram_written(*final(self), address, value),
    {
        if self.state.ram_enabled && self.cartridge.header.max_ram_banks > 0 {
            banked_write(&mut self.cartridge.ram, 0x2000, address, self.state.ram_bank_number as u16, value);
            if battery_supported(&self.cartridge) {
                self.cartridge.ram_save_pending = true;
            }
        }
    }

    pub fn get_cartridge(&self) -> (c: &Cartridge)
        ensures
            *c == self.cartridge,
    {
        &self.cartridge
    }

    pub fn set_cartridge_ram(&mut self, ram: Vec<u8>)
        requires
            old(self).wf(),
        ensures
            final(self).wf(),
            final(self).state == old(self).state,
            final(self).cartridge == (Cartridge { ram, ..old(self).cartridge }),
    {
        self.cartridge.ram = ram;
    }

    pub fn get_ram_bank(&self) -> (bank: u8)
        ensures
            bank == self.state.ram_bank_number,
    {
        self.state.ram_bank_number
    }
}

/// A byte written to enabled external RAM reads back from the same offset while the bank
/// stays selected.
pub proof fn law_external_ram_read_after_write(m: MBC1CartridgeMapper, after: MBC1CartridgeMapper, address: u16, value: u8)
    requires
        m.ram_written(after, address, value),
        m.state.ram_enabled,
        m.cartridge.header.max_ram_banks > 0,
        banked_index(0x2000, address, m.state.ram_bank_number as u16) < m.cartridge.ram@.len(),
    ensures
        after.ram_value(address) == value,
{
}

/// While external RAM is disabled, writes to it change nothing that a read can see.
pub proof fn law_disabled_ram_ignores_writes(m: MBC1CartridgeMapper, after: MBC1CartridgeMapper, address: u16, value: u8, other: u16)
    requires
        m.ram_written(after, address, value),
        !m.state.ram_enabled,
    ensures
        after.ram_value(other) == m.ram_value(other),
        after.cartridge.ram@ == m.cartridge.ram@,
{
}

} // verus!
