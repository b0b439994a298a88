use crate::address_bus::constants::{CARTRIDGE_TYPE_ADDRESS, CART_TYPE_ROM_ONLY, RAM_SIZE_ADDRESS, ROM_SIZE_ADDRESS, SGB_SUPPORT_ADDRESS, TITLE_START_ADDRESS};
use crate::address_bus::mbc1::{initialize_mbc1_mapper, MBC1CartridgeMapper};
use crate::address_bus::mbc_rom_only::MBCRomOnlyCartridgeMapper;
use vstd::prelude::*;

verus! {

/// What the cartridge header says of the cartridge.
#[derive(Debug)]
pub struct CartridgeHeader {
    /// The title bytes, up to the first zero byte.
    pub title: Vec<u8>,
    pub type_code: u8,
    pub sgb_support: bool,
    pub max_banks: u16,
    pub max_ram_banks: u8,
}

/// A cartridge: its ROM, its external RAM and its header. `ram_save_pending` is raised when
/// battery-backed RAM changes; whoever keeps save files stores the RAM and lowers it.
pub struct Cartridge {
    pub rom: Vec<u8>,
    pub ram: Vec<u8>,
    pub header: CartridgeHeader,
    pub ram_save_pending: bool,
}

/// Why a ROM image was refused.
#[derive(PartialEq, Eq, Structural, Clone, Copy, Debug)]
pub enum CartridgeError {
    /// The image is shorter than its header.
    TooShort,
    /// The ROM size code is not one of those defined.
    InvalidRomSize(u8),
    /// The RAM size code is not one of those defined.
    InvalidRamSize(u8),
    /// The memory bank controller is not one that is emulated.
    UnsupportedCartridgeType(u8),
}

/// Number of 16 KB ROM banks that a ROM size code stands for: two shifted left by the code.
pub open spec fn max_banks_for(rom_size_index: u8) -> int {
    if rom_size_index == 0 {
        2
    } else if rom_size_index == 1 {
        4
    } else if rom_size_index == 2 {
        8
    } else if rom_size_index == 3 {
        16
    } else if rom_size_index == 4 {
        32
    } else if rom_size_index == 5 {
        64
    } else if rom_size_index == 6 {
        128
    } else if rom_size_index == 7 {
        256
    } else {
        512
    }
}

pub fn as_max_banks(rom_size_index: u8) -> (banks: u16)
    requires
        rom_size_index <= 8,
    ensures
        banks == max_banks_for(rom_size_index),
        2 <= banks <= 512,
{
    let mut banks: u16 = 2;
    let mut i: u8 = 0;
    while i < rom_size_index
        invariant
            i <= rom_size_index <= 8,
            banks == max_banks_for(i),
        decreases rom_size_index - i,
    {
        banks = banks * 2;
        i = i + 1;
    }
    banks
}

/// Number of 8 KB RAM banks that a RAM size code stands for (a 2 KB RAM takes one bank).
pub open spec fn max_ram_banks_for(ram_size_index: u8) -> u8 {
    if ram_size_index == 0 {
        0
    } else if ram_size_index == 1 || ram_size_index == 2 {
        1
    } else if ram_size_index == 3 {
        4
    } else if ram_size_index == 4 {
        16
    } else {
        8
    }
}

pub fn as_max_ram_banks(ram_size_index: u8) -> (banks: u8)
    requires
        ram_size_index <= 5,
    ensures
        banks == max_ram_banks_for(ram_size_index),
{
    if ram_size_index == 0 {
        0
    } else if ram_size_index == 1 || ram_size_index == 2 {
        1
    } else if ram_size_index == 3 {
        4
    } else if ram_size_index == 4 {
        16
    } else {
        8
    }
}

/// The title bytes of a header: those from the title's start up to the first zero byte.
pub open spec fn title_bytes(rom: Seq<u8>) -> Seq<u8> {
    let region = rom.subrange(TITLE_START_ADDRESS as int, TITLE_START_ADDRESS as int + 16);
    let end = choose_first_zero(region);
    region.subrange(0, end)
}

/// Position of the first zero of a sequence, or its length.
pub open spec fn choose_first_zero(s: Seq<u8>) -> int
    decreases s.len(),
{
    if s.len() == 0 {
        0
    } else if s[0] == 0 {
        0
    } else {
        1 + choose_first_zero(s.drop_first())
    }
}

proof fn lemma_first_zero(s: Seq<u8>, i: int)
    requires
        0 <= i <= s.len(),
        forall|j: int| 0 <= j < i ==> s[j] != 0,
    ensures
        i < s.len() && s[i] == 0 ==> choose_first_zero(s) == i,
        i == s.len() ==> choose_first_zero(s) == i,
    decreases i,
{
    if i > 0 {
        let t = s.drop_first();
        assert forall|j: int| 0 <= j < i - 1 implies t[j] != 0 by {
            assert(t[j] == s[j + 1]);
        }
        lemma_first_zero(t, i - 1);
    }
}

fn read_title(rom: &Vec<u8>) -> (title: Vec<u8>)
    requires
        rom@.len() >= 0x150,
    ensures
        title@ == title_bytes(rom@),
{
    let mut title: Vec<u8> = Vec::new();
    let mut i: usize = 0;
    let ghost region = rom@.subrange(TITLE_START_ADDRESS as int, TITLE_START_ADDRESS as int + 16);
    while i < 16
        invariant
            i <= 16,
            rom@.len() >= 0x150,
            region == rom@.subrange(TITLE_START_ADDRESS as int, TITLE_START_ADDRESS as int + 16),
            title@ == region.subrange(0, i as int),
            forall|j: int| 0 <= j < i ==> region[j] != 0,
        decreases 16 - i,
    {
        let byte = rom[TITLE_START_ADDRESS + i];
        if byte == 0 {
            proof {
                lemma_first_zero(region, i as int);
            }
            return title;
        }
        title.push(byte);
        i += 1;
    }
    proof {
        lemma_first_zero(region, 16);
    }
    title
}

/// The header of a ROM image whose size codes are valid.
pub open spec fn header_of(rom: Seq<u8>) -> (Seq<u8>, u8, bool, int, u8) {
    (title_bytes(rom), rom[CARTRIDGE_TYPE_ADDRESS as int], rom[SGB_SUPPORT_ADDRESS as int] == 0x03,
        max_banks_for(rom[ROM_SIZE_ADDRESS as int]), max_ram_banks_for(rom[RAM_SIZE_ADDRESS as int]))
}

/// The outcome of loading a ROM image: which error, if any, refuses it.
pub open spec fn load_error(rom: Seq<u8>) -> Option<CartridgeError> {
    if rom.len() < 0x150 {
        Some(CartridgeError::TooShort)
    } else if rom[ROM_SIZE_ADDRESS as int] > 8 {
        Some(CartridgeError::InvalidRomSize(rom[ROM_SIZE_ADDRESS as int]))
    } else if rom[RAM_SIZE_ADDRESS as int] > 5 {
        Some(CartridgeError::InvalidRamSize(rom[RAM_SIZE_ADDRESS as int]))
    } else if !(rom[CARTRIDGE_TYPE_ADDRESS as int] <= 3) {
        Some(CartridgeError::UnsupportedCartridgeType(rom[CARTRIDGE_TYPE_ADDRESS as int]))
    } else {
        None
    }
}

impl CartridgeHeader {
    pub open spec fn view_tuple(&self) -> (Seq<u8>, u8, bool, int, u8) {
        (self.title@, self.type_code, self.sgb_support, self.max_banks as int, self.max_ram_banks)
    }

    pub fn duplicate(&self) -> (h: CartridgeHeader)
        ensures
            h.view_tuple() == self.view_tuple(),
    {
        let mut title: Vec<u8> = Vec::new();
        let mut i: usize = 0;
        while i < self.title.len()
            invariant
                i <= self.title@.len(),
                title@ == self.title@.subrange(0, i as int),
            decreases self.title@.len() - i,
        {
            title.push(self.title[i]);
            i += 1;
        }
        assert(title@ =~= self.title@);
        CartridgeHeader {
            title,
            type_code: self.type_code,
            sgb_support: self.sgb_support,
            max_banks: self.max_banks,
            max_ram_banks: self.max_ram_banks,
        }
    }
}

impl Cartridge {
    pub open spec fn wf(&self) -> bool {
        &&& 2 <= self.header.max_banks <= 512
        &&& self.header.max_ram_banks <= 16
    }

    /// A cartridge with no ROM: every read of it gives 0xFF.
    pub fn empty() -> (c: Cartridge)
        ensures
            c.wf(),
            c.rom@.len() == 0,
            c.ram@.len() == 0,
            c.header.type_code == CART_TYPE_ROM_ONLY,
            c.header.max_ram_banks == 0,
            !c.ram_save_pending,
    {
        Cartridge {
            rom: Vec::new(),
            ram: Vec::new(),
            header: CartridgeHeader { title: Vec::new(), type_code: CART_TYPE_ROM_ONLY, sgb_support: false, max_banks: 2, max_ram_banks: 0 },
            ram_save_pending: false,
        }
    }
}

/// The cartridge and its memory bank controller.
pub enum CartridgeMapper {
    RomOnly(MBCRomOnlyCartridgeMapper),
    MBC1(MBC1CartridgeMapper),
}

/// Parses a ROM image into a cartridge with zeroed external RAM, with the controller that its
/// header names.
pub fn load_rom_buffer(buffer: Vec<u8>) -> (result: Result<CartridgeMapper, CartridgeError>)
    ensures
        match load_error(buffer@) {
            Some(e) => result == Err::<CartridgeMapper, CartridgeError>(e),
            None => result matches Ok(mapper) && mapper.wf() && mapper.cartridge().rom@ == buffer@
                && mapper.cartridge().header.view_tuple() == header_of(buffer@)
                && mapper.cartridge().ram@ == Seq::new(mapper.cartridge().header.max_ram_banks as nat * 0x2000, |i: int| 0u8)
                && !mapper.cartridge().ram_save_pending
                && (buffer@[CARTRIDGE_TYPE_ADDRESS as int] == CART_TYPE_ROM_ONLY <==> mapper is RomOnly)
                && mapper.initial_state(),
        },
{
    if buffer.len() < 0x150 {
        return Err(CartridgeError::TooShort);
    }
    let rom_size_index = buffer[ROM_SIZE_ADDRESS];
    if rom_size_index > 8 {
        return Err(CartridgeError::InvalidRomSize(rom_size_index));
    }
    let ram_size_index = buffer[RAM_SIZE_ADDRESS];
    if ram_size_index > 5 {
        return Err(CartridgeError::InvalidRamSize(ram_size_index));
    }
    let type_code = buffer[CARTRIDGE_TYPE_ADDRESS];
    if type_code > 3 {
        return Err(CartridgeError::UnsupportedCartridgeType(type_code));
    }

    let max_banks = as_max_banks(rom_size_index);
    let max_ram_banks = as_max_ram_banks(ram_size_index);
    let title = read_title(&buffer);
    let header = CartridgeHeader { title, type_code, sgb_support: buffer[SGB_SUPPORT_ADDRESS] == 0x03, max_banks, max_ram_banks };
    let ram_size: usize = max_ram_banks as usize * 0x2000;
    let ram: Vec<u8> = vec![0; ram_size];
    let cartridge = Cartridge { rom: buffer, ram, header, ram_save_pending: false };

    if type_code == CART_TYPE_ROM_ONLY {
        Ok(CartridgeMapper::RomOnly(MBCRomOnlyCartridgeMapper::new(cartridge)))
    } else {
        Ok(CartridgeMapper::MBC1(initialize_mbc1_mapper(cartridge)))
    }
}

/// The mapper before any cartridge is inserted.
pub fn initialize_cartridge_mapper() -> (mapper: CartridgeMapper)
    ensures
        mapper.wf(),
        mapper is RomOnly,
        mapper.cartridge().rom@.len() == 0,
        mapper.cartridge().ram@.len() == 0,
{
    CartridgeMapper::RomOnly(MBCRomOnlyCartridgeMapper::new(Cartridge::empty()))
}

/// Relates a mapper before and after a write to its register space (0x0000-0x7FFF).
pub open spec fn rom_written(a: CartridgeMapper, b: CartridgeMapper, address: u16, value: u8) -> bool {
    match (a, b) {
        (CartridgeMapper::RomOnly(x), CartridgeMapper::RomOnly(y)) => x == y,
        (CartridgeMapper::MBC1(x), CartridgeMapper::MBC1(y)) => y == x.after_rom_write(address, value),
        _ => false,
    }
}

/// Relates a mapper before and after a write to external RAM.
pub open spec fn ram_written(a: CartridgeMapper, b: CartridgeMapper, address: u16, value: u8) -> bool {
    match (a, b) {
        (CartridgeMapper::RomOnly(x), CartridgeMapper::RomOnly(y)) => x == y,
        (CartridgeMapper::MBC1(x), CartridgeMapper::MBC1(y)) => x.ram_written(y, address, value),
        _ => false,
    }
}

impl CartridgeMapper {
    pub open spec fn cartridge(&self) -> Cartridge {
        match self {
            CartridgeMapper::RomOnly(m) => m.cartridge,
            CartridgeMapper::MBC1(m) => m.cartridge,
        }
    }

    pub open spec fn wf(&self) -> bool {
        match self {
            CartridgeMapper::RomOnly(m) => m.cartridge.wf(),
            CartridgeMapper::MBC1(m) => m.wf(),
        }
    }

    /// The controller is as it is when the cartridge is inserted.
    pub open spec fn initial_state(&self) -> bool {
        match self {
            CartridgeMapper::RomOnly(m) => true,
            CartridgeMapper::MBC1(m) => m.state == crate::address_bus::mbc1::mbc1_initial_state(),
        }
    }

    pub open spec fn rom_value(&self, address: u16) -> u8 {
        match self {
            CartridgeMapper::RomOnly(m) => m.rom_value(address),
            CartridgeMapper::MBC1(m) => m.rom_value(address),
        }
    }

    pub open spec fn ram_value(&self, address: u16) -> u8 {
        match self {
            CartridgeMapper::RomOnly(m) => 0xFF,
            CartridgeMapper::MBC1(m) => m.ram_value(address),
        }
    }

    pub open spec fn ram_bank(&self) -> u8 {
        match self {
            CartridgeMapper::RomOnly(m) => 0,
            CartridgeMapper::MBC1(m) => m.state.ram_bank_number,
        }
    }

    pub fn read_rom(&self, address: u16) -> (value: u8)
        requires
            self.wf(),
            address < 0x8000,
        ensures
            value == self.rom_value(address),
    {
        match self {
            CartridgeMapper::RomOnly(m) => m.read_rom(address),
            CartridgeMapper::MBC1(m) => m.read_rom(address),
        }
    }

    pub fn write_rom(&mut self, address: u16, value: u8)
        requires
            old(self).wf(),
            address < 0x8000,
        ensures
            final(self).wf(),
            rom_written(*old(self), *final(self), address, value),
    {
        match self {
            CartridgeMapper::RomOnly(m) => m.write_rom(address, value),
            CartridgeMapper::MBC1(m) => m.write_rom(address, value),
        }
    }

    pub fn read_ram(&self, address: u16) -> (value: u8)
        requires
            self.wf(),
        ensures
            value == self.ram_value(address),
    {
        match self {
            CartridgeMapper::RomOnly(m) => m.read_ram(address),
            CartridgeMapper::MBC1(m) => m.read_ram(address),
        }
    }

    pub fn write_ram(&mut self, address: u16, value: u8)
        requires
            old(self).wf(),
        ensures
            final(self).wf(),
            ram_written(*old(self), *final(self), address, value),
    {
        match self {
            CartridgeMapper::RomOnly(m) => m.write_ram(address, value),
            CartridgeMapper::MBC1(m) => m.write_ram(address, value),
        }
    }

    pub fn get_cartridge(&self) -> (c: &Cartridge)
        ensures
            *c == self.cartridge(),
    {
        match self {
            CartridgeMapper::RomOnly(m) => m.get_cartridge(),
            CartridgeMapper::MBC1(m) => m.get_cartridge(),
        }
    }

    /// Replaces the external RAM; a cartridge without a controller keeps none.
    pub fn set_cartridge_ram(&mut self, ram: Vec<u8>)
        requires
            old(self).wf(),
        ensures
            final(self).wf(),
            match (*old(self), *final(self)) {
                (CartridgeMapper::RomOnly(a), CartridgeMapper::RomOnly(b)) => a == b,
                (CartridgeMapper::MBC1(a), CartridgeMapper::MBC1(b)) => b.state == a.state
                    && b.cartridge == (Cartridge { ram, ..a.cartridge }),
                _ => false,
            },
    {
        match self {
            CartridgeMapper::RomOnly(m) => m.set_cartridge_ram(ram),
            CartridgeMapper::MBC1(m) => m.set_cartridge_ram(ram),
        }
    }

    /// Reports whether battery-backed RAM was written since the last call, and clears the
    /// report: the caller is then expected to save the RAM.
    pub fn take_ram_save_pending(&mut self) -> (pending: bool)
        requires
            old(self).wf(),
        ensures
            final(self).wf(),
            pending == old(self).cartridge().ram_save_pending,
            match (*old(self), *final(self)) {
                (CartridgeMapper::RomOnly(a), CartridgeMapper::RomOnly(b)) => b.cartridge
                    == (Cartridge { ram_save_pending: false, ..a.cartridge }),
                (CartridgeMapper::MBC1(a), CartridgeMapper::MBC1(b)) => b.state == a.state
                    && b.cartridge == (Cartridge { ram_save_pending: false, ..a.cartridge }),
                _ => false,
            },
    {
        match self {
            CartridgeMapper::RomOnly(m) => {
                let pending = m.cartridge.ram_save_pending;
                m.cartridge.ram_save_pending = false;
                pending
            },
            CartridgeMapper::MBC1(m) => {
                let pending = m.cartridge.ram_save_pending;
                m.cartridge.ram_save_pending = false;
                pending
            },
        }
    }

    pub fn get_ram_bank(&self) -> (bank: u8)
        ensures
            bank == self.ram_bank(),
    {
        match self {
            CartridgeMapper::RomOnly(m) => m.get_ram_bank(),
            CartridgeMapper::MBC1(m) => m.get_ram_bank(),
        }
    }
}

} // verus!
