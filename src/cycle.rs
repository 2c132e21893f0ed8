use vstd::prelude::*;

use crate::alu::wrap16;
use crate::device::IOHandler;
use crate::mmu::{MemoryRead, MemoryWrite};

verus! {

pub const ADDR_DIV: u16 = 0xFF04;

pub const ADDR_TIMA: u16 = 0xFF05;

pub const ADDR_TMA: u16 = 0xFF06;

pub const ADDR_TAC: u16 = 0xFF07;

/// The timer: a 16-bit divider whose high byte is DIV, and TIMA, TMA and TAC.
#[derive(Clone, Copy, Debug)]
pub struct Clock {
    pub cycles: u16,
    pub counter: u8,
    pub tma: u8,
    pub tac: u8,
}

/// Clock cycles per TIMA increment for the rate bits of TAC.
pub open spec fn divisor(tac: u8) -> u16 {
    let rate = tac & 0x03;
    if rate == 0 {
        1024
    } else if rate == 1 {
        16
    } else if rate == 2 {
        64
    } else {
        256
    }
}

impl Clock {
    /// The timer after `elapsed` clock cycles, and whether TIMA overflowed (which requests
    /// the timer interrupt): the divider advances by `elapsed`; when TAC enables the timer,
    /// TIMA advances by `elapsed / divisor`, and on passing 0xFF it is reloaded from TMA.
    pub open spec fn spec_step(self, elapsed: u16) -> (Clock, bool) {
        let cycles = wrap16(self.cycles + elapsed);
        if self.tac & 0x04 != 0 {
            let ticks = elapsed / divisor(self.tac);
            if self.counter + ticks > 0xFF {
                (Clock { cycles, counter: self.tma, ..self }, true)
            } else {
                (Clock { cycles, counter: (self.counter + ticks) as u8, ..self }, false)
            }
        } else {
            (Clock { cycles, ..self }, false)
        }
    }

    pub fn new() -> (r: Clock)
        ensures
            r == (Clock { cycles: 0xAD00, counter: 0, tma: 0, tac: 0 }),
    {
        Clock { cycles: 0xAD00, counter: 0, tma: 0, tac: 0 }
    }

    fn divider(&self) -> (r: u16)
        ensures
            r == divisor(self.tac),
    {
        let rate = self.tac & 0x03;
        if rate == 0 {
            1024
        } else if rate == 1 {
            16
        } else if rate == 2 {
            64
        } else {
            256
        }
    }

    /// Advances the timer by `elapsed` clock cycles; returns whether the timer interrupt is
    /// requested.
    pub fn step(&mut self, elapsed: u16) -> (interrupt: bool)
        ensures
            (*final(self), interrupt) == old(self).spec_step(elapsed),
    {
        self.cycles = crate::alu::add16(self.cycles, elapsed);
        if self.tac & 0x04 != 0 {
            let ticks = elapsed / self.divider();
            if self.counter as u16 + ticks > 0xFF {
                self.counter = self.tma;
                true
            } else {
                self.counter = (self.counter as u16 + ticks) as u8;
                false
            }
        } else {
            false
        }
    }
}

impl IOHandler for Clock {
    type State = Clock;

    open spec fn state(&self) -> Clock {
        *self
    }

    open spec fn read_value(state: Clock, address: u16) -> MemoryRead {
        if address == ADDR_DIV {
            MemoryRead::Value((state.cycles / 256) as u8)
        } else if address == ADDR_TIMA {
            MemoryRead::Value(state.counter)
        } else if address == ADDR_TMA {
            MemoryRead::Value(state.tma)
        } else if address == ADDR_TAC {
            MemoryRead::Value(state.tac)
        } else {
            MemoryRead::PassThrough
        }
    }

    /// A write to DIV clears the divider; the other three registers take the value.
    open spec fn after_write(state: Clock, address: u16, value: u8) -> Clock {
        if address == ADDR_DIV {
            Clock { cycles: 0, ..state }
        } else if address == ADDR_TIMA {
            Clock { counter: value, ..state }
        } else if address == ADDR_TMA {
            Clock { tma: value, ..state }
        } else if address == ADDR_TAC {
            Clock { tac: value, ..state }
        } else {
            state
        }
    }

    open spec fn write_result(state: Clock, address: u16, value: u8) -> MemoryWrite {
        MemoryWrite::PassThrough
    }

    fn read(&self, address: u16) -> (r: MemoryRead) {
        if address == ADDR_DIV {
            MemoryRead::Value((self.cycles / 256) as u8)
        } else if address == ADDR_TIMA {
            MemoryRead::Value(self.counter)
        } else if address == ADDR_TMA {
            MemoryRead::Value(self.tma)
        } else if address == ADDR_TAC {
            MemoryRead::Value(self.tac)
        } else {
            MemoryRead::PassThrough
        }
    }

    fn write(&mut self, address: u16, value: u8) -> (r: MemoryWrite) {
        if address == ADDR_DIV {
            self.cycles = 0;
        } else if address == ADDR_TIMA {
            self.counter = value;
        } else if address == ADDR_TMA {
            self.tma = value;
        } else if address == ADDR_TAC {
            self.tac = value;
        }
        MemoryWrite::PassThrough
    }
}

/// With TAC = 0b101 (timer on, one tick per 16 cycles) and TIMA at TMA, feeding exactly
/// (0xFF - TMA + 1) * 16 cycles overflows TIMA once: the timer interrupt is requested and
/// TIMA is back at TMA. Any fewer cycles request no interrupt.
pub proof fn lemma_timer_overflow(c: Clock, fewer: u16)
    requires
        c.tac == 0b101,
        c.counter == c.tma,
        fewer < (0xFF - c.tma + 1) * 16,
    ensures
        c.spec_step(((0xFF - c.tma + 1) * 16) as u16).1,
        c.spec_step(((0xFF - c.tma + 1) * 16) as u16).0.counter == c.tma,
        !c.spec_step(fewer).1,
        c.spec_step(fewer).0.counter == c.tma + fewer / 16,
{
    let tac = c.tac;
    assert(tac & 0x04 != 0 && tac & 0x03 == 1) by (bit_vector)
        requires
            tac == 0b101u8,
    ;
    let full = (0xFF - c.tma + 1) * 16;
    assert(full / 16 == 0xFF - c.tma + 1);
    assert(fewer / 16 < 0xFF - c.tma + 1) by (nonlinear_arith)
        requires
            fewer < (0xFF - c.tma + 1) * 16,
            0 <= fewer,
    ;
}

} // verus!
