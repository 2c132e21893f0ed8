use vstd::prelude::*;

use crate::device::IOHandler;
use crate::mmu::{MemoryRead, MemoryWrite};

verus! {

pub const ADDR_JOYP: u16 = 0xFF00;

/// The joypad: the latched direction and action buttons, and which group 0xFF00 shows.
#[derive(Clone, Copy, Debug)]
pub struct Pad {
    pub cross_button: u8,
    pub ab_button: u8,
    pub cross_select: bool,
    pub ab_select: bool,
}

impl Pad {
    pub fn new() -> (r: Pad)
        ensures
            r == (Pad { cross_button: 0, ab_button: 0, cross_select: false, ab_select: false }),
    {
        Pad { cross_button: 0x00, ab_button: 0x00, cross_select: false, ab_select: false }
    }

    /// Latches the keys held now: direction bits (Right 0x01, Left 0x02, Up 0x04, Down
    /// 0x08) and action bits (A 0x01, B 0x02, Select 0x04, Start 0x08).
    pub fn step(&mut self, keys: (u8, u8))
        ensures
            *final(self) == (Pad { cross_button: keys.0, ab_button: keys.1, ..*old(self) }),
    {
        self.cross_button = keys.0;
        self.ab_button = keys.1;
    }
}

impl IOHandler for Pad {
    type State = Pad;

    open spec fn state(&self) -> Pad {
        *self
    }

    /// The selected group, active low, with its select bit; 0xFF when none is selected.
    open spec fn read_value(state: Pad, address: u16) -> MemoryRead {
        if state.cross_select {
            MemoryRead::Value(!(0x10u8 | state.cross_button))
        } else if state.ab_select {
            MemoryRead::Value(!(0x20u8 | state.ab_button))
        } else {
            MemoryRead::Value(0xFF)
        }
    }

    /// Bit 4 clear selects the directions; else bit 5 clear selects the actions; else
    /// neither.
    open spec fn after_write(state: Pad, address: u16, value: u8) -> Pad {
        if address == ADDR_JOYP {
            if value & 0x10 == 0 {
                Pad { cross_select: true, ab_select: false, ..state }
            } else if value & 0x20 == 0 {
                Pad { cross_select: false, ab_select: true, ..state }
            } else {
                Pad { cross_select: false, ab_select: false, ..state }
            }
        } else {
            state
        }
    }

    open spec fn write_result(state: Pad, address: u16, value: u8) -> MemoryWrite {
        if address == ADDR_JOYP {
            MemoryWrite::Value(value)
        } else {
            MemoryWrite::PassThrough
        }
    }

    fn read(&self, address: u16) -> (r: MemoryRead) {
        if self.cross_select {
            MemoryRead::Value(!(0x10u8 | self.cross_button))
        } else if self.ab_select {
            MemoryRead::Value(!(0x20u8 | self.ab_button))
        } else {
            MemoryRead::Value(0xFF)
        }
    }

    fn write(&mut self, address: u16, value: u8) -> (r: MemoryWrite) {
        if address == ADDR_JOYP {
            if value & 0x10 == 0 {
                self.cross_select = true;
                self.ab_select = false;
            } else if value & 0x20 == 0 {
                self.cross_select = false;
                self.ab_select = true;
            } else {
                self.cross_select = false;
                self.ab_select = false;
            }
            MemoryWrite::Value(value)
        } else {
            MemoryWrite::PassThrough
        }
    }
}

} // verus!
