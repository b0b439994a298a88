use crate::address_bus::cartridge::{initialize_cartridge_mapper, load_error, load_rom_buffer as load_cartridge, header_of, CartridgeError, CartridgeHeader, CartridgeMapper};
use crate::address_bus::mbc1::MBC1State;
use vstd::prelude::*;

verus! {

/// The memories of the machine: boot ROM, working RAM, high RAM and the cartridge.
pub struct Memory {
    pub in_bios: bool,
    pub bios: Vec<u8>,
    pub working_ram: [u8; 0x10000],
    pub zero_page_ram: [u8; 0x80],
    pub svbk: u8,
    pub cartridge_mapper: CartridgeMapper,
    pub processor_test_ram: [u8; 0x10000],
}

/// What a save state keeps of the memories: the RAMs, the bank register, the cartridge RAM and
/// the MBC1 registers where the cartridge has them.
pub struct MemorySnapshot {
    pub in_bios: bool,
    pub working_ram: [u8; 0x10000],
    pub zero_page_ram: [u8; 0x80],
    pub svbk: u8,
    pub cartridge_ram: Vec<u8>,
    pub mbc1_state: Option<MBC1State>,
}

pub fn initialize_memory() -> (memory: Memory)
    ensures
        memory.cartridge_mapper.wf(),
        memory.in_bios,
        memory.bios@ == Seq::new(0x100, |i: int| 0u8),
        memory.svbk == 0,
        forall|i: int| 0 <= i < 0x10000 ==> memory.working_ram@[i] == 0,
        forall|i: int| 0 <= i < 0x80 ==> memory.zero_page_ram@[i] == 0,
{
    Memory {
        in_bios: true,
        bios: vec![0; 0x100],
        working_ram: [0; 0x10000],
        zero_page_ram: [0; 0x80],
        svbk: 0,
        cartridge_mapper: initialize_cartridge_mapper(),
        processor_test_ram: [0; 0x10000],
    }
}

fn copy_bytes(bytes: &Vec<u8>) -> (copy: Vec<u8>)
    ensures
        copy@ == bytes@,
{
    let mut copy: Vec<u8> = Vec::new();
    let mut i: usize = 0;
    while i < bytes.len()
        invariant
            i <= bytes@.len(),
            copy@ == bytes@.subrange(0, i as int),
        decreases bytes@.len() - i,
    {
        copy.push(bytes[i]);
        i += 1;
    }
    assert(copy@ =~= bytes@);
    copy
}

pub fn as_snapshot(memory: &Memory) -> (snapshot: MemorySnapshot)
    ensures
        snapshot.in_bios == memory.in_bios,
        snapshot.working_ram == memory.working_ram,
        snapshot.zero_page_ram == memory.zero_page_ram,
        snapshot.svbk == memory.svbk,
        snapshot.cartridge_ram@ == memory.cartridge_mapper.cartridge().ram@,
        snapshot.mbc1_state == (match memory.cartridge_mapper {
            CartridgeMapper::MBC1(m) => Some(m.state),
            CartridgeMapper::RomOnly(_) => None,
        }),
{
    let mbc1_state = match &memory.cartridge_mapper {
        CartridgeMapper::MBC1(m) => Some(m.state),
        CartridgeMapper::RomOnly(_) => None,
    };
    MemorySnapshot {
        in_bios: memory.in_bios,
        working_ram: memory.working_ram,
        zero_page_ram: memory.zero_page_ram,
        svbk: memory.svbk,
        cartridge_ram: copy_bytes(&memory.cartridge_mapper.get_cartridge().ram),
        mbc1_state,
    }
}

/// Restores memories from a snapshot; the cartridge keeps its ROM.
pub fn apply_snapshot(memory: &mut Memory, snapshot: MemorySnapshot)
    requires
        old(memory).cartridge_mapper.wf(),
    ensures
        final(memory).cartridge_mapper.wf(),
        final(memory).in_bios == snapshot.in_bios,
        final(memory).working_ram == snapshot.working_ram,
        final(memory).zero_page_ram == snapshot.zero_page_ram,
        final(memory).svbk == snapshot.svbk,
{
    memory.in_bios = snapshot.in_bios;
    memory.working_ram = snapshot.working_ram;
    memory.zero_page_ram = snapshot.zero_page_ram;
    memory.svbk = snapshot.svbk;
    if let CartridgeMapper::MBC1(m) = &mut memory.cartridge_mapper {
        if let Some(state) = snapshot.mbc1_state {
            m.state = state;
        }
    }
    memory.cartridge_mapper.set_cartridge_ram(snapshot.cartridge_ram);
}

/// Inserts a cartridge; a refused ROM image leaves the memories as they were.
pub fn load_rom_buffer(memory: &mut Memory, buffer: Vec<u8>) -> (result: Result<CartridgeHeader, CartridgeError>)
    ensures
        match load_error(buffer@) {
            Some(e) => result == Err::<CartridgeHeader, CartridgeError>(e),
            None => result matches Ok(header) && header.view_tuple() == header_of(buffer@)
                && final(memory).cartridge_mapper.cartridge().rom@ == buffer@ && final(memory).cartridge_mapper.wf(),
        },
{
    match load_cartridge(buffer) {
        Ok(mapper) => {
            let header = mapper.get_cartridge().header.duplicate();
            memory.cartridge_mapper = mapper;
            Ok(header)
        },
        Err(e) => Err(e),
    }
}

pub fn get_cartridge_ram(memory: &Memory) -> (ram: Vec<u8>)
    ensures
        ram@ == memory.cartridge_mapper.cartridge().ram@,
{
    copy_bytes(&memory.cartridge_mapper.get_cartridge().ram)
}

pub fn set_cartridge_ram(memory: &mut Memory, buffer: Vec<u8>)
    requires
        old(memory).cartridge_mapper.wf(),
    ensures
        final(memory).cartridge_mapper.wf(),
        old(memory).cartridge_mapper is MBC1 ==> final(memory).cartridge_mapper.cartridge().ram@ == buffer@,
{
    memory.cartridge_mapper.set_cartridge_ram(buffer);
}

} // verus!
