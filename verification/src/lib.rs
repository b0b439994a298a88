pub mod utils;
pub mod cpu;
pub mod joypad;
pub mod keys;
pub mod address_bus;
pub mod apu;
pub mod gpu;
pub mod cheats;
pub mod serial;
pub mod dma;
pub mod mmu;
pub mod emulator;
