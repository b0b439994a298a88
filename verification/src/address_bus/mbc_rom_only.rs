use crate::address_bus::cartridge::Cartridge;
use vstd::prelude::*;

verus! {

/// A cartridge without a memory bank controller: 32 KB of ROM and no RAM.
pub struct MBCRomOnlyCartridgeMapper {
    pub cartridge: Cartridge,
}

impl MBCRomOnlyCartridgeMapper {
    pub fn new(cartridge: Cartridge) -> (m: Self)
        ensures
            m.cartridge == cartridge,
    {
        MBCRomOnlyCartridgeMapper { cartridge }
    }

    /// The ROM byte at an address, or 0xFF past the end of the ROM.
    pub open spec fn rom_value(&self, address: u16) -> u8 {
        if (address as int) < self.cartridge.rom@.len() { self.cartridge.rom@[address as int] } else { 0xFF }
    }

    pub fn read_rom(&self, address: u16) -> (value: u8)
        ensures
            value == self.rom_value(address),
    {
        if (address as usize) < self.cartridge.rom.len() {
            self.cartridge.rom[address as usize]
        } else {
            0xFF
        }
    }

    pub fn write_rom(&mut self, address: u16, value: u8)
        ensures
            *final(self) == *old(self),
    {
    }

    pub fn read_ram(&self, address: u16) -> (value: u8)
        ensures
            value == 0xFF,
    {
        0xFF
    }

    pub fn write_ram(&mut self, address: u16, value: u8)
        ensures
            *final(self) == *old(self),
    {
    }

    pub fn get_cartridge(&self) -> (c: &Cartridge)
        ensures
            *c == self.cartridge,
    {
        &self.cartridge
    }

    pub fn set_cartridge_ram(&mut self, ram: Vec<u8>)
        ensures
            *final(self) == *old(self),
    {
    }

    pub fn get_ram_bank(&self) -> (bank: u8)
        ensures
            bank == 0,
    {
        0
    }
}

} // verus!
