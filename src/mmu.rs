use vstd::prelude::*;

use crate::device::{DevHandler, IOHandler};

verus! {

/// What a device answers to a read.
#[derive(Clone, Copy, Debug, PartialEq, Eq, Structural)]
pub enum MemoryRead {
    Value(u8),
    PassThrough,
}

/// What a device answers to a write: store this byte in the backing memory and stop, let the
/// next device see the write, or stop with the backing memory untouched.
#[derive(Clone, Copy, Debug, PartialEq, Eq, Structural)]
pub enum MemoryWrite {
    Value(u8),
    PassThrough,
    Block,
}

/// An inclusive address range routed to the device with index `handler`.
#[derive(Clone, Copy, Debug, PartialEq, Eq, Structural)]
pub struct HandlerRange {
    pub start: u16,
    pub end: u16,
    pub handler: usize,
}

impl HandlerRange {
    pub open spec fn covers(self, address: u16) -> bool {
        self.start <= address <= self.end
    }
}

pub const MEMORY_SIZE: usize = 0x10000;

pub const ADDR_IF: u16 = 0xFF0F;

pub const ADDR_IE: u16 = 0xFFFF;

/// The cell of the backing memory that holds `address`: the echo region 0xE000..=0xFDFF
/// aliases 0xC000..=0xDDFF.
pub open spec fn echo(address: u16) -> int {
    if 0xE000 <= address <= 0xFDFF {
        address - 0x2000
    } else {
        address as int
    }
}

/// The state of a bus: its backing memory, its devices, and its routing table in the order of
/// registration.
pub struct BusView<H: IOHandler> {
    pub memory: Seq<u8>,
    pub handlers: Seq<H::State>,
    pub ranges: Seq<HandlerRange>,
}

impl<H: IOHandler> BusView<H> {
    pub open spec fn wf(self) -> bool {
        &&& self.memory.len() == MEMORY_SIZE
        &&& forall|i: int|
            0 <= i < self.ranges.len() ==> #[trigger] self.ranges[i].handler
                < self.handlers.len()
    }

    pub open spec fn backing(self, address: u16) -> u8 {
        self.memory[echo(address)]
    }

    /// A read as the routing entries from `i` on resolve it.
    pub open spec fn read_from(self, i: int, address: u16) -> u8
        decreases self.ranges.len() - i,
    {
        if i < 0 || i >= self.ranges.len() {
            self.backing(address)
        } else if self.ranges[i].covers(address) {
            match H::read_value(self.handlers[self.ranges[i].handler as int], address) {
                MemoryRead::Value(v) => v,
                MemoryRead::PassThrough => self.read_from(i + 1, address),
            }
        } else {
            self.read_from(i + 1, address)
        }
    }

    /// The first device, in registration order, that answers with a value decides the read;
    /// otherwise the backing memory does.
    pub open spec fn read(self, address: u16) -> u8 {
        self.read_from(0, address)
    }

    /// A write as the routing entries from `i` on resolve it.
    pub open spec fn write_from(self, i: int, address: u16, value: u8) -> BusView<H>
        decreases self.ranges.len() - i,
    {
        if i < 0 || i >= self.ranges.len() {
            BusView { memory: self.memory.update(echo(address), value), ..self }
        } else if self.ranges[i].covers(address) {
            let k = self.ranges[i].handler as int;
            let h = self.handlers[k];
            let next = BusView {
                handlers: self.handlers.update(k, H::after_write(h, address, value)),
                ..self
            };
            match H::write_result(h, address, value) {
                MemoryWrite::Value(v) => BusView {
                    memory: next.memory.update(address as int, v),
                    ..next
                },
                MemoryWrite::Block => next,
                MemoryWrite::PassThrough => next.write_from(i + 1, address, value),
            }
        } else {
            self.write_from(i + 1, address, value)
        }
    }

    /// Each device routed to `address` sees the write in registration order, until one
    /// answers with a value (stored in the backing memory) or blocks it; if none does, the
    /// backing memory takes the value.
    pub open spec fn write(self, address: u16, value: u8) -> BusView<H> {
        self.write_from(0, address, value)
    }

    pub open spec fn ie(self) -> u8 {
        self.memory[ADDR_IE as int]
    }

    pub open spec fn if_flags(self) -> u8 {
        self.memory[ADDR_IF as int]
    }

    pub open spec fn with_if(self, value: u8) -> BusView<H> {
        BusView { memory: self.memory.update(ADDR_IF as int, value), ..self }
    }

    /// No routing entry covers `address`.
    pub open spec fn unrouted(self, address: u16) -> bool {
        forall|i: int| 0 <= i < self.ranges.len() ==> !(#[trigger] self.ranges[i]).covers(address)
    }
}

/// A write to an address that no device claims stores the value in the backing memory and
/// changes nothing else.
pub proof fn lemma_write_unrouted<H: IOHandler>(bus: BusView<H>, i: int, address: u16, value: u8)
    requires
        0 <= i,
        bus.unrouted(address),
    ensures
        bus.write_from(i, address, value) == (BusView {
            memory: bus.memory.update(echo(address), value),
            ..bus
        }),
    decreases bus.ranges.len() - i,
{
    if i < bus.ranges.len() {
        assert(!bus.ranges[i].covers(address));
        lemma_write_unrouted(bus, i + 1, address, value);
    }
}

/// A read of an address that no device claims comes from the backing memory.
pub proof fn lemma_read_unrouted<H: IOHandler>(bus: BusView<H>, i: int, address: u16)
    requires
        0 <= i,
        bus.unrouted(address),
    ensures
        bus.read_from(i, address) == bus.backing(address),
    decreases bus.ranges.len() - i,
{
    if i < bus.ranges.len() {
        assert(!bus.ranges[i].covers(address));
        lemma_read_unrouted(bus, i + 1, address);
    }
}

/// A byte written to an address that no device claims reads back, and the other unclaimed
/// addresses keep their bytes, unless they share its cell through the echo region.
pub proof fn lemma_unrouted_read_after_write<H: IOHandler>(
    bus: BusView<H>,
    written: u16,
    value: u8,
    read: u16,
)
    requires
        bus.wf(),
        bus.unrouted(written),
        bus.unrouted(read),
    ensures
        bus.write(written, value).read(read) == if echo(written) == echo(read) {
            value
        } else {
            bus.read(read)
        },
        bus.write(written, value).ranges == bus.ranges,
        bus.write(written, value).handlers == bus.handlers,
        bus.write(written, value).wf(),
{
    lemma_write_unrouted(bus, 0, written, value);
    lemma_read_unrouted(bus, 0, read);
    lemma_read_unrouted(bus.write(written, value), 0, read);
}

/// Echo RAM: 0xE000..=0xFDFF and 0xC000..=0xDDFF are one memory. Where no device claims
/// either address, a byte written at one reads back at the other.
pub proof fn lemma_echo_ram<H: IOHandler>(bus: BusView<H>, address: u16, value: u8)
    requires
        bus.wf(),
        0xE000 <= address <= 0xFDFF,
        bus.unrouted(address),
        bus.unrouted((address - 0x2000) as u16),
    ensures
        bus.write(address, value).read((address - 0x2000) as u16) == value,
        bus.write((address - 0x2000) as u16, value).read(address) == value,
{
    lemma_unrouted_read_after_write(bus, address, value, (address - 0x2000) as u16);
    lemma_unrouted_read_after_write(bus, (address - 0x2000) as u16, value, address);
}

/// The states of a sequence of devices.
pub open spec fn states<H: IOHandler>(devices: Seq<H>) -> Seq<H::State> {
    devices.map_values(|h: H| h.state())
}

/// Replacing one device replaces its state and no other.
pub broadcast proof fn lemma_states_update<H: IOHandler>(devices: Seq<H>, i: int, device: H)
    requires
        0 <= i < devices.len(),
    ensures
        #[trigger] states(devices.update(i, device)) == states(devices).update(i, device.state()),
{
    assert(states(devices.update(i, device)) =~= states(devices).update(i, device.state()));
}

/// A 64 KiB address space: devices claim address ranges, and a backing memory answers what
/// they pass through.
pub struct MemoryBus<H> {
    memory: Vec<u8>,
    handlers: Vec<H>,
    ranges: Vec<HandlerRange>,
}

impl<H: IOHandler> View for MemoryBus<H> {
    type V = BusView<H>;

    closed spec fn view(&self) -> BusView<H> {
        BusView {
            memory: self.memory@,
            handlers: states(self.handlers@),
            ranges: self.ranges@,
        }
    }
}

fn echo_index(address: u16) -> (r: usize)
    ensures
        r == echo(address),
        r < MEMORY_SIZE,
{
    if 0xE000 <= address && address <= 0xFDFF {
        (address - 0x2000) as usize
    } else {
        address as usize
    }
}

impl<H: IOHandler> MemoryBus<H> {
    pub fn new() -> (r: MemoryBus<H>)
        ensures
            r@.wf(),
            r@.memory == Seq::new(MEMORY_SIZE as nat, |i: int| 0u8),
            r@.handlers.len() == 0,
            r@.ranges.len() == 0,
    {
        let r = MemoryBus { memory: vec![0u8; MEMORY_SIZE], handlers: Vec::new(), ranges: Vec::new() };
        assert(r@.memory =~= Seq::new(MEMORY_SIZE as nat, |i: int| 0u8));
        r
    }

    /// Gives the device to the bus; no address is routed to it yet.
    pub fn attach(&mut self, handler: H) -> (r: DevHandler)
        requires
            old(self)@.wf(),
        ensures
            final(self)@ == (BusView {
                handlers: old(self)@.handlers.push(handler.state()),
                ..old(self)@
            }),
            final(self)@.wf(),
            r.index == old(self)@.handlers.len(),
    {
        let index = self.handlers.len();
        self.handlers.push(handler);
        assert(self@.handlers =~= states(old(self).handlers@).push(handler.state()));
        DevHandler { index }
    }

    /// Routes the inclusive range `range` to the device `handler`, after the ranges routed
    /// before.
    pub fn add_handler(&mut self, range: (u16, u16), handler: DevHandler)
        requires
            old(self)@.wf(),
            handler.index < old(self)@.handlers.len(),
        ensures
            final(self)@ == (BusView {
                ranges: old(self)@.ranges.push(
                    HandlerRange { start: range.0, end: range.1, handler: handler.index },
                ),
                ..old(self)@
            }),
            final(self)@.wf(),
    {
        self.ranges.push(HandlerRange { start: range.0, end: range.1, handler: handler.index });
    }

    pub fn handler(&self, handler: DevHandler) -> (r: &H)
        requires
            handler.index < self@.handlers.len(),
        ensures
            r.state() == self@.handlers[handler.index as int],
    {
        &self.handlers[handler.index]
    }

    pub fn handler_mut(&mut self, handler: DevHandler) -> (r: &mut H)
        requires
            handler.index < old(self)@.handlers.len(),
        ensures
            r.state() == old(self)@.handlers[handler.index as int],
            final(self)@ == (BusView {
                handlers: old(self)@.handlers.update(handler.index as int, final(r).state()),
                ..old(self)@
            }),
    {
        proof {
            broadcast use lemma_states_update;

        }
        &mut self.handlers[handler.index]
    }

    pub fn read_byte(&self, address: u16) -> (r: u8)
        requires
            self@.wf(),
        ensures
            r == self@.read(address),
    {
        let mut i: usize = 0;
        while i < self.ranges.len()
            invariant
                self@.wf(),
                0 <= i <= self@.ranges.len(),
                self@.read_from(i as int, address) == self@.read(address),
            decreases self@.ranges.len() - i,
        {
            let range = self.ranges[i];
            if range.start <= address && address <= range.end {
                match self.handlers[range.handler].read(address) {
                    MemoryRead::Value(v) => {
                        return v;
                    },
                    MemoryRead::PassThrough => {},
                }
            }
            i += 1;
        }
        self.memory[echo_index(address)]
    }

    pub fn write_byte(&mut self, address: u16, value: u8)
        requires
            old(self)@.wf(),
        ensures
            final(self)@ == old(self)@.write(address, value),
            final(self)@.wf(),
            final(self)@.handlers.len() == old(self)@.handlers.len(),
    {
        let ghost target = self@.write(address, value);
        let mut i: usize = 0;
        while i < self.ranges.len()
            invariant
                self@.wf(),
                0 <= i <= self@.ranges.len(),
                self@.write_from(i as int, address, value) == target,
                target == old(self)@.write(address, value),
                self@.handlers.len() == old(self)@.handlers.len(),
            decreases self@.ranges.len() - i,
        {
            let range = self.ranges[i];
            if range.start <= address && address <= range.end {
                let ghost before = self@;
                let ghost k = range.handler as int;
                match self.handlers[range.handler].write(address, value) {
                    MemoryWrite::Value(v) => {
                        self.memory.set(address as usize, v);
                        assert(self@.handlers =~= before.handlers.update(
                            k,
                            H::after_write(before.handlers[k], address, value),
                        ));
                        assert(self@.memory =~= before.memory.update(address as int, v));
                        return;
                    },
                    MemoryWrite::Block => {
                        assert(self@.handlers =~= before.handlers.update(
                            k,
                            H::after_write(before.handlers[k], address, value),
                        ));
                        return;
                    },
                    MemoryWrite::PassThrough => {
                        assert(self@.handlers =~= before.handlers.update(
                            k,
                            H::after_write(before.handlers[k], address, value),
                        ));
                    },
                }
            }
            i += 1;
        }
        self.memory.set(echo_index(address), value);
    }

    pub fn get_ie(&self) -> (r: u8)
        requires
            self@.wf(),
        ensures
            r == self@.ie(),
    {
        self.memory[ADDR_IE as usize]
    }

    pub fn get_if(&self) -> (r: u8)
        requires
            self@.wf(),
        ensures
            r == self@.if_flags(),
    {
        self.memory[ADDR_IF as usize]
    }

    pub fn set_if(&mut self, value: u8)
        requires
            old(self)@.wf(),
        ensures
            final(self)@ == old(self)@.with_if(value),
            final(self)@.wf(),
            final(self)@.handlers.len() == old(self)@.handlers.len(),
    {
        self.memory.set(ADDR_IF as usize, value);
        assert(self@.ranges == old(self)@.ranges);
    }
}

} // verus!
