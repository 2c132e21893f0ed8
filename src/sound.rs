use vstd::prelude::*;

use crate::device::IOHandler;
use crate::mmu::{MemoryRead, MemoryWrite};

verus! {

pub const SOUND_START: u16 = 0xFF10;

pub const SOUND_END: u16 = 0xFF3F;

/// Bytes of sound registers and wave memory, 0xFF10..=0xFF3F.
pub const SOUND_SIZE: usize = 0x30;

/// The addresses in the sound range that hold a register: the four channels, the master
/// controls and wave memory.
pub open spec fn is_sound_register(address: u16) -> bool {
    SOUND_START <= address <= SOUND_END && address != 0xFF15 && address != 0xFF1F && !(0xFF27
        <= address <= 0xFF2F)
}

/// Registers that only take writes: the frequency low bytes and the length of channels 3 and 4.
pub open spec fn is_write_only(address: u16) -> bool {
    address == 0xFF13 || address == 0xFF18 || address == 0xFF1B || address == 0xFF1D || address
        == 0xFF20
}

/// The bits of a register that read back.
pub open spec fn read_mask(address: u16) -> u8 {
    if address == 0xFF11 || address == 0xFF16 {
        0xC0
    } else if address == 0xFF14 || address == 0xFF19 || address == 0xFF1E {
        0x40
    } else if address == 0xFF23 {
        0x7F
    } else {
        0xFF
    }
}

/// The sound unit as register storage: it keeps what is written and produces no audio.
pub struct Sound {
    regs: Vec<u8>,
}

fn mask_of(address: u16) -> (r: u8)
    ensures
        r == read_mask(address),
{
    if address == 0xFF11 || address == 0xFF16 {
        0xC0
    } else if address == 0xFF14 || address == 0xFF19 || address == 0xFF1E {
        0x40
    } else if address == 0xFF23 {
        0x7F
    } else {
        0xFF
    }
}

impl Sound {
    #[verifier::type_invariant]
    spec fn inv(self) -> bool {
        self.regs@.len() == SOUND_SIZE
    }

    pub fn new() -> (r: Sound)
        ensures
            r.state() == Seq::new(SOUND_SIZE as nat, |i: int| 0u8),
    {
        let r = Sound { regs: vec![0u8; SOUND_SIZE] };
        assert(r.regs@ =~= Seq::new(SOUND_SIZE as nat, |i: int| 0u8));
        r
    }

    /// No audio is produced, so time changes nothing.
    pub fn step(&mut self, elapsed: u16)
        ensures
            final(self).state() == old(self).state(),
    {
    }
}

impl IOHandler for Sound {
    type State = Seq<u8>;

    closed spec fn state(&self) -> Seq<u8> {
        self.regs@
    }

    open spec fn read_value(state: Seq<u8>, address: u16) -> MemoryRead {
        if is_sound_register(address) && !is_write_only(address) {
            MemoryRead::Value(state[address - SOUND_START] & read_mask(address))
        } else {
            MemoryRead::PassThrough
        }
    }

    open spec fn after_write(state: Seq<u8>, address: u16, value: u8) -> Seq<u8> {
        if is_sound_register(address) {
            state.update(address - SOUND_START, value)
        } else {
            state
        }
    }

    open spec fn write_result(state: Seq<u8>, address: u16, value: u8) -> MemoryWrite {
        MemoryWrite::PassThrough
    }

    fn read(&self, address: u16) -> (r: MemoryRead) {
        proof {
            use_type_invariant(self);
        }
        let register = SOUND_START <= address && address <= SOUND_END && address != 0xFF15
            && address != 0xFF1F && !(0xFF27 <= address && address <= 0xFF2F);
        let write_only = address == 0xFF13 || address == 0xFF18 || address == 0xFF1B || address
            == 0xFF1D || address == 0xFF20;
        if register && !write_only {
            MemoryRead::Value(self.regs[(address - SOUND_START) as usize] & mask_of(address))
        } else {
            MemoryRead::PassThrough
        }
    }

    fn write(&mut self, address: u16, value: u8) -> (r: MemoryWrite) {
        proof {
            use_type_invariant(&*self);
        }
        if SOUND_START <= address && address <= SOUND_END && address != 0xFF15 && address
            != 0xFF1F && !(0xFF27 <= address && address <= 0xFF2F) {
            self.regs[(address - SOUND_START) as usize] = value;
        }
        MemoryWrite::PassThrough
    }
}

} // verus!
