use vstd::prelude::*;

use crate::mmu::{MemoryRead, MemoryWrite};

verus! {

/// A memory-mapped device: it answers reads and writes of the addresses that the bus routes to
/// it. Its behaviour is stated over a model of its state, so that the bus can state dispatch
/// exactly for any device.
pub trait IOHandler: Sized {
    /// What the contracts see of the device.
    type State;

    spec fn state(&self) -> Self::State;

    /// What a read of `address` returns.
    spec fn read_value(state: Self::State, address: u16) -> MemoryRead;

    /// The device after a write of `value` to `address`.
    spec fn after_write(state: Self::State, address: u16, value: u8) -> Self::State;

    /// What a write of `value` to `address` returns.
    spec fn write_result(state: Self::State, address: u16, value: u8) -> MemoryWrite;

    fn read(&self, address: u16) -> (r: MemoryRead)
        ensures
            r == Self::read_value(self.state(), address),
    ;

    fn write(&mut self, address: u16, value: u8) -> (r: MemoryWrite)
        ensures
            r == Self::write_result(old(self).state(), address, value),
            final(self).state() == Self::after_write(old(self).state(), address, value),
    ;
}

/// A device together with its declared re-entry mode. The bus owns the devices it routes to
/// and never hands a device the bus, so a device is never re-entered; a mediating device is
/// one that declares it would tolerate that.
pub struct Device<T> {
    pub inner: T,
    pub mediating: bool,
}

/// The handle of a device attached to a bus, used to route address ranges to it.
#[derive(Clone, Copy, Debug, PartialEq, Eq, Structural)]
pub struct DevHandler {
    pub index: usize,
}

impl<T> Device<T> {
    pub fn new(inner: T) -> (r: Self)
        ensures
            r.inner == inner,
            !r.mediating,
    {
        Self::with_mode(inner, false)
    }

    pub fn mediate(inner: T) -> (r: Self)
        ensures
            r.inner == inner,
            r.mediating,
    {
        Self::with_mode(inner, true)
    }

    fn with_mode(inner: T, mediating: bool) -> (r: Self)
        ensures
            r.inner == inner,
            r.mediating == mediating,
    {
        Device { inner, mediating }
    }

    pub fn borrow(&self) -> (r: &T)
        ensures
            *r == self.inner,
    {
        &self.inner
    }

    pub fn borrow_mut(&mut self) -> (r: &mut T)
        ensures
            *r == old(self).inner,
            final(self).inner == *final(r),
            final(self).mediating == old(self).mediating,
    {
        &mut self.inner
    }
}

/// A block of RAM mapped at `base`: it answers the addresses it covers and stores their
/// writes (also mirrored into the backing memory); other addresses pass through.
pub struct RamBlock {
    base: u16,
    bytes: Vec<u8>,
}

impl RamBlock {
    /// `size` zero bytes at `base`.
    pub fn new(base: u16, size: usize) -> (r: RamBlock)
        ensures
            r.state() == (base, Seq::new(size as nat, |i: int| 0u8)),
    {
        let r = RamBlock { base, bytes: vec![0u8; size] };
        assert(r.bytes@ =~= Seq::new(size as nat, |i: int| 0u8));
        r
    }

    pub fn bytes(&self) -> (r: &Vec<u8>)
        ensures
            r@ == self.state().1,
    {
        &self.bytes
    }
}

/// The offset of `address` in a block at `base` of `len` bytes, if it lies inside.
pub open spec fn block_offset(base: u16, len: nat, address: u16) -> Option<int> {
    if base <= address && address - base < len {
        Some(address - base)
    } else {
        None
    }
}

impl IOHandler for RamBlock {
    type State = (u16, Seq<u8>);

    closed spec fn state(&self) -> (u16, Seq<u8>) {
        (self.base, self.bytes@)
    }

    open spec fn read_value(state: (u16, Seq<u8>), address: u16) -> MemoryRead {
        match block_offset(state.0, state.1.len(), address) {
            Some(i) => MemoryRead::Value(state.1[i]),
            None => MemoryRead::PassThrough,
        }
    }

    open spec fn after_write(state: (u16, Seq<u8>), address: u16, value: u8) -> (u16, Seq<u8>) {
        match block_offset(state.0, state.1.len(), address) {
            Some(i) => (state.0, state.1.update(i, value)),
            None => state,
        }
    }

    open spec fn write_result(state: (u16, Seq<u8>), address: u16, value: u8) -> MemoryWrite {
        match block_offset(state.0, state.1.len(), address) {
            Some(i) => MemoryWrite::Value(value),
            None => MemoryWrite::PassThrough,
        }
    }

    fn read(&self, address: u16) -> (r: MemoryRead) {
        if self.base <= address && ((address - self.base) as usize) < self.bytes.len() {
            MemoryRead::Value(self.bytes[(address - self.base) as usize])
        } else {
            MemoryRead::PassThrough
        }
    }

    fn write(&mut self, address: u16, value: u8) -> (r: MemoryWrite) {
        if self.base <= address && ((address - self.base) as usize) < self.bytes.len() {
            self.bytes.set((address - self.base) as usize, value);
            MemoryWrite::Value(value)
        } else {
            MemoryWrite::PassThrough
        }
    }
}

impl<T: IOHandler> IOHandler for Device<T> {
    type State = T::State;

    open spec fn state(&self) -> T::State {
        self.inner.state()
    }

    open spec fn read_value(state: T::State, address: u16) -> MemoryRead {
        T::read_value(state, address)
    }

    open spec fn after_write(state: T::State, address: u16, value: u8) -> T::State {
        T::after_write(state, address, value)
    }

    open spec fn write_result(state: T::State, address: u16, value: u8) -> MemoryWrite {
        T::write_result(state, address, value)
    }

    fn read(&self, address: u16) -> (r: MemoryRead) {
        self.inner.read(address)
    }

    fn write(&mut self, address: u16, value: u8) -> (r: MemoryWrite) {
        self.inner.write(address, value)
    }
}

} // verus!
