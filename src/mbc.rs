use vstd::prelude::*;

use crate::device::IOHandler;
use crate::mmu::{MemoryRead, MemoryWrite};

verus! {

/// What the contracts see of a cartridge: its ROM and external RAM, and the four banking
/// registers (with the RAM bank last selected in range).
pub struct CartridgeState {
    pub rom: Seq<u8>,
    pub ram: Seq<u8>,
    pub ram_enable: u8,
    pub rom_select: u8,
    pub ram_select: u8,
    pub mode: u8,
    pub ram_bank: u8,
}

/// The byte at `index` of a ROM or RAM image, the index taken modulo its size; 0xFF when the
/// image is empty.
pub open spec fn image_byte(image: Seq<u8>, index: int) -> u8 {
    if image.len() == 0 {
        0xFF
    } else {
        image[index % image.len() as int]
    }
}

/// Offset of the switchable ROM bank: R1's low six bits, with 0 read as 1.
pub open spec fn rom_bank_base(rom_select: u8) -> int {
    (if rom_select & 0x3F == 0 {
        1
    } else {
        rom_select & 0x3F
    }) * 0x4000
}

/// Offset in the external RAM of the address 0xA000 + `offset` in the selected bank.
pub open spec fn ram_index(state: CartridgeState, offset: int) -> int {
    offset + state.ram_bank * 0x2000
}

/// An MBC1 cartridge: ROM bank 0, one switchable ROM bank, and banked external RAM.
pub struct Cartridge {
    rom: Vec<u8>,
    ram: Vec<u8>,
    ram_enable: u8,
    rom_select: u8,
    ram_select: u8,
    mode: u8,
    ram_bank: u8,
}

fn image_byte_at(image: &Vec<u8>, index: usize) -> (r: u8)
    ensures
        r == image_byte(image@, index as int),
{
    if image.len() == 0 {
        0xFF
    } else {
        image[index % image.len()]
    }
}

impl Cartridge {
    pub fn new(rom: Vec<u8>, ram: Vec<u8>) -> (r: Cartridge)
        ensures
            r.state() == (CartridgeState {
                rom: rom@,
                ram: ram@,
                ram_enable: 0,
                rom_select: 1,
                ram_select: 0,
                mode: 0,
                ram_bank: 0,
            }),
    {
        Cartridge { rom, ram, ram_enable: 0, rom_select: 1, ram_select: 0, mode: 0, ram_bank: 0 }
    }
}

impl IOHandler for Cartridge {
    type State = CartridgeState;

    closed spec fn state(&self) -> CartridgeState {
        CartridgeState {
            rom: self.rom@,
            ram: self.ram@,
            ram_enable: self.ram_enable,
            rom_select: self.rom_select,
            ram_select: self.ram_select,
            mode: self.mode,
            ram_bank: self.ram_bank,
        }
    }

    open spec fn read_value(state: CartridgeState, address: u16) -> MemoryRead {
        if address <= 0x3FFF {
            MemoryRead::Value(image_byte(state.rom, address as int))
        } else if address <= 0x7FFF {
            MemoryRead::Value(
                image_byte(state.rom, address - 0x4000 + rom_bank_base(state.rom_select)),
            )
        } else if 0xA000 <= address <= 0xBFFF {
            MemoryRead::Value(image_byte(state.ram, ram_index(state, address - 0xA000)))
        } else {
            MemoryRead::PassThrough
        }
    }

    open spec fn after_write(state: CartridgeState, address: u16, value: u8) -> CartridgeState {
        if address <= 0x1FFF {
            CartridgeState { ram_enable: value, ..state }
        } else if address <= 0x3FFF {
            CartridgeState { rom_select: value, ..state }
        } else if address <= 0x5FFF {
            CartridgeState {
                ram_select: value,
                ram_bank: if value <= 3 {
                    value
                } else {
                    state.ram_bank
                },
                ..state
            }
        } else if address <= 0x7FFF {
            CartridgeState { mode: value, ..state }
        } else if 0xA000 <= address <= 0xBFFF && state.ram.len() > 0 {
            CartridgeState {
                ram: state.ram.update(
                    ram_index(state, address - 0xA000) % state.ram.len() as int,
                    value,
                ),
                ..state
            }
        } else {
            state
        }
    }

    open spec fn write_result(state: CartridgeState, address: u16, value: u8) -> MemoryWrite {
        MemoryWrite::PassThrough
    }

    fn read(&self, address: u16) -> (r: MemoryRead) {
        if address <= 0x3FFF {
            MemoryRead::Value(image_byte_at(&self.rom, address as usize))
        } else if address <= 0x7FFF {
            let bank: usize = if self.rom_select & 0x3F == 0 {
                1
            } else {
                (self.rom_select & 0x3F) as usize
            };
            MemoryRead::Value(image_byte_at(&self.rom, (address - 0x4000) as usize + bank * 0x4000))
        } else if 0xA000 <= address && address <= 0xBFFF {
            let index = (address - 0xA000) as usize + self.ram_bank as usize * 0x2000;
            MemoryRead::Value(image_byte_at(&self.ram, index))
        } else {
            MemoryRead::PassThrough
        }
    }

    fn write(&mut self, address: u16, value: u8) -> (r: MemoryWrite) {
        if address <= 0x1FFF {
            self.ram_enable = value;
        } else if address <= 0x3FFF {
            self.rom_select = value;
        } else if address <= 0x5FFF {
            self.ram_select = value;
            if value <= 3 {
                self.ram_bank = value;
            }
        } else if address <= 0x7FFF {
            self.mode = value;
        } else if 0xA000 <= address && address <= 0xBFFF && self.ram.len() > 0 {
            let index = (address - 0xA000) as usize + self.ram_bank as usize * 0x2000;
            let len = self.ram.len();
            self.ram.set(index % len, value);
        }
        MemoryWrite::PassThrough
    }
}

} // verus!
