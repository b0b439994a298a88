use vstd::prelude::*;

verus! {

/// Index of `address` within bank `bank` of a memory split into banks of `bank_size` bytes.
pub open spec fn banked_index(bank_size: u32, address: u16, bank: u16) -> int {
    bank as int * bank_size as int + address as int % bank_size as int
}

/// The byte of a banked memory, or 0xFF where the memory is shorter than the bank named.
pub open spec fn banked_value(memory: Seq<u8>, bank_size: u32, address: u16, bank: u16) -> u8 {
    let index = banked_index(bank_size, address, bank);
    if index < memory.len() { memory[index] } else { 0xFF }
}

fn banked_location(bank_size: u32, address: u16, bank: u16) -> (index: u32)
    requires
        0 < bank_size <= 0x4000,
    ensures
        index == banked_index(bank_size, address, bank),
{
    assert(bank as int * bank_size as int <= 0xFFFF * 0x4000) by (nonlinear_arith)
        requires
            bank_size <= 0x4000,
            bank <= 0xFFFF,
    ;
    let base_location = bank as u32 * bank_size;
    base_location + (address as u32 % bank_size)
}

/// Reads a banked memory. A read past the end of the memory gives 0xFF.
pub fn banked_read(memory: &Vec<u8>, bank_size: u32, address: u16, bank: u16) -> (value: u8)
    requires
        0 < bank_size <= 0x4000,
    ensures
        value == banked_value(memory@, bank_size, address, bank),
{
    let calculated_address = banked_location(bank_size, address, bank);
    if (calculated_address as usize) < memory.len() {
        memory[calculated_address as usize]
    } else {
        0xFF
    }
}

/// Writes a banked memory. A write past the end of the memory is dropped.
pub fn banked_write(memory: &mut Vec<u8>, bank_size: u32, address: u16, bank: u16, value: u8)
    requires
        0 < bank_size <= 0x4000,
    ensures
        banked_index(bank_size, address, bank) < old(memory)@.len() ==> final(memory)@ == old(memory)@.update(banked_index(bank_size, address, bank), value),
        banked_index(bank_size, address, bank) >= old(memory)@.len() ==> final(memory)@ == old(memory)@,
{
    let calculated_address = banked_location(bank_size, address, bank);
    if (calculated_address as usize) < memory.len() {
        memory.set(calculated_address as usize, value);
    }
}

} // verus!
