use vstd::prelude::*;

use crate::alu::wrap16;
use crate::device::IOHandler;
use crate::mmu::{BusView, MemoryBus, MemoryRead, MemoryWrite};

verus! {

pub const ADDR_DMA: u16 = 0xFF46;

pub const OAM_START: u16 = 0xFE00;

/// Bytes in one OAM transfer.
pub const OAM_SIZE: u16 = 160;

/// The OAM DMA controller: a write to 0xFF46 latches the source page and schedules a
/// transfer.
#[derive(Clone, Copy, Debug)]
pub struct DMA {
    pub reg: u8,
    pub active: bool,
}

/// The bus after the first `n` bytes of a transfer from `source` into OAM, each read and
/// written through the bus in address order.
pub open spec fn copied<H: IOHandler>(bus: BusView<H>, source: u16, n: nat) -> BusView<H>
    decreases n,
{
    if n == 0 {
        bus
    } else {
        let before = copied(bus, source, (n - 1) as nat);
        before.write(
            (OAM_START + n - 1) as u16,
            before.read(wrap16(source + n - 1)),
        )
    }
}

impl DMA {
    pub fn new() -> (r: DMA)
        ensures
            r == (DMA { reg: 0, active: false }),
    {
        DMA { reg: 0, active: false }
    }

    /// Takes a scheduled transfer, if any: returns its source address and clears the latch.
    pub fn step(&mut self) -> (source: Option<u16>)
        ensures
            source == (if old(self).active {
                Some((old(self).reg * 256) as u16)
            } else {
                None
            }),
            *final(self) == (DMA { active: false, ..*old(self) }),
    {
        if self.active {
            self.active = false;
            Some(self.reg as u16 * 256)
        } else {
            None
        }
    }
}

/// Copies the 160 bytes at `source` into OAM through the bus.
pub fn transfer<H: IOHandler>(bus: &mut MemoryBus<H>, source: u16)
    requires
        old(bus)@.wf(),
    ensures
        final(bus)@ == copied(old(bus)@, source, OAM_SIZE as nat),
        final(bus)@.wf(),
        final(bus)@.handlers.len() == old(bus)@.handlers.len(),
{
    let mut idx: u16 = 0;
    while idx < OAM_SIZE
        invariant
            bus@.wf(),
            idx <= OAM_SIZE,
            bus@ == copied(old(bus)@, source, idx as nat),
            bus@.handlers.len() == old(bus)@.handlers.len(),
        decreases OAM_SIZE - idx,
    {
        let value = bus.read_byte(crate::alu::add16(source, idx));
        bus.write_byte(OAM_START + idx, value);
        idx += 1;
    }
}

impl IOHandler for DMA {
    type State = DMA;

    open spec fn state(&self) -> DMA {
        *self
    }

    open spec fn read_value(state: DMA, address: u16) -> MemoryRead {
        MemoryRead::PassThrough
    }

    /// A write to 0xFF46 latches the page and schedules a transfer.
    open spec fn after_write(state: DMA, address: u16, value: u8) -> DMA {
        if address == ADDR_DMA {
            DMA { reg: value, active: true }
        } else {
            state
        }
    }

    /// The byte under the register is left as it was.
    open spec fn write_result(state: DMA, address: u16, value: u8) -> MemoryWrite {
        MemoryWrite::Block
    }

    fn read(&self, address: u16) -> (r: MemoryRead) {
        MemoryRead::PassThrough
    }

    fn write(&mut self, address: u16, value: u8) -> (r: MemoryWrite) {
        if address == ADDR_DMA {
            self.active = true;
            self.reg = value;
        }
        MemoryWrite::Block
    }
}

} // verus!
