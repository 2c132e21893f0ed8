use vstd::prelude::*;

use crate::cpu::{machine, Machine, CPU};
use crate::cycle::Clock;
use crate::device::{DevHandler, IOHandler};
use crate::dma::{copied, transfer, DMA, OAM_SIZE};
use crate::gpu::{dots, GpuState, GPU};
use crate::hardware::{Hardware, HardwareHandle};
use crate::input::Pad;
use crate::mbc::{Cartridge, CartridgeState};
use crate::mmu::{BusView, HandlerRange, MemoryBus, MemoryRead, MemoryWrite, MEMORY_SIZE};

verus! {

/// A device of the system bus.
pub enum Peripheral {
    Cartridge(Cartridge),
    Gpu(GPU),
    Dma(DMA),
    Clock(Clock),
    Pad(Pad),
}

/// What the contracts see of a device of the system bus.
pub enum PeripheralState {
    Cartridge(CartridgeState),
    Gpu(GpuState),
    Dma(DMA),
    Clock(Clock),
    Pad(Pad),
}

impl IOHandler for Peripheral {
    type State = PeripheralState;

    open spec fn state(&self) -> PeripheralState {
        match self {
            Peripheral::Cartridge(c) => PeripheralState::Cartridge(c.state()),
            Peripheral::Gpu(g) => PeripheralState::Gpu(g.state()),
            Peripheral::Dma(d) => PeripheralState::Dma(d.state()),
            Peripheral::Clock(c) => PeripheralState::Clock(c.state()),
            Peripheral::Pad(p) => PeripheralState::Pad(p.state()),
        }
    }

    open spec fn read_value(s: PeripheralState, address: u16) -> MemoryRead {
        match s {
            PeripheralState::Cartridge(c) => Cartridge::read_value(c, address),
            PeripheralState::Gpu(g) => GPU::read_value(g, address),
            PeripheralState::Dma(d) => DMA::read_value(d, address),
            PeripheralState::Clock(c) => Clock::read_value(c, address),
            PeripheralState::Pad(p) => Pad::read_value(p, address),
        }
    }

    open spec fn after_write(s: PeripheralState, address: u16, value: u8) -> PeripheralState {
        match s {
            PeripheralState::Cartridge(c) => PeripheralState::Cartridge(
                Cartridge::after_write(c, address, value),
            ),
            PeripheralState::Gpu(g) => PeripheralState::Gpu(GPU::after_write(g, address, value)),
            PeripheralState::Dma(d) => PeripheralState::Dma(DMA::after_write(d, address, value)),
            PeripheralState::Clock(c) => PeripheralState::Clock(
                Clock::after_write(c, address, value),
            ),
            PeripheralState::Pad(p) => PeripheralState::Pad(Pad::after_write(p, address, value)),
        }
    }

    open spec fn write_result(s: PeripheralState, address: u16, value: u8) -> MemoryWrite {
        match s {
            PeripheralState::Cartridge(c) => Cartridge::write_result(c, address, value),
            PeripheralState::Gpu(g) => GPU::write_result(g, address, value),
            PeripheralState::Dma(d) => DMA::write_result(d, address, value),
            PeripheralState::Clock(c) => Clock::write_result(c, address, value),
            PeripheralState::Pad(p) => Pad::write_result(p, address, value),
        }
    }

    fn read(&self, address: u16) -> (r: MemoryRead) {
        match self {
            Peripheral::Cartridge(c) => c.read(address),
            Peripheral::Gpu(g) => g.read(address),
            Peripheral::Dma(d) => d.read(address),
            Peripheral::Clock(c) => c.read(address),
            Peripheral::Pad(p) => p.read(address),
        }
    }

    fn write(&mut self, address: u16, value: u8) -> (r: MemoryWrite) {
        match self {
            Peripheral::Cartridge(c) => c.write(address, value),
            Peripheral::Gpu(g) => g.write(address, value),
            Peripheral::Dma(d) => d.write(address, value),
            Peripheral::Clock(c) => c.write(address, value),
            Peripheral::Pad(p) => p.write(address, value),
        }
    }
}

pub const GPU_DEVICE: usize = 0;

pub const CARTRIDGE_DEVICE: usize = 1;

pub const DMA_DEVICE: usize = 2;

pub const CLOCK_DEVICE: usize = 3;

pub const PAD_DEVICE: usize = 4;

pub const DEVICE_COUNT: usize = 5;

/// The bus with one device's state replaced.
pub open spec fn with_device(
    bus: BusView<Peripheral>,
    index: usize,
    state: PeripheralState,
) -> BusView<Peripheral> {
    BusView { handlers: bus.handlers.update(index as int, state), ..bus }
}

/// The timer advanced by `cycles`, and the timer interrupt requested on overflow.
pub open spec fn timer_phase(bus: BusView<Peripheral>, cycles: u16) -> BusView<Peripheral> {
    match bus.handlers[CLOCK_DEVICE as int] {
        PeripheralState::Clock(c) => {
            let (next, overflow) = c.spec_step(cycles);
            let b = with_device(bus, CLOCK_DEVICE, PeripheralState::Clock(next));
            if overflow {
                b.with_if(b.if_flags() | 0x04)
            } else {
                b
            }
        },
        _ => bus,
    }
}

/// The PPU advanced by `cycles` dots, the VBlank interrupt requested when a frame completed;
/// also says whether one did.
pub open spec fn video_phase(bus: BusView<Peripheral>, cycles: u16) -> (BusView<Peripheral>, bool) {
    match bus.handlers[GPU_DEVICE as int] {
        PeripheralState::Gpu(g) => {
            let (next, frame) = dots(g, cycles as nat);
            let b = with_device(bus, GPU_DEVICE, PeripheralState::Gpu(next));
            (
                if frame {
                    b.with_if(b.if_flags() | 0x01)
                } else {
                    b
                },
                frame,
            )
        },
        _ => (bus, false),
    }
}

/// A scheduled OAM transfer carried out.
pub open spec fn dma_phase(bus: BusView<Peripheral>) -> BusView<Peripheral> {
    match bus.handlers[DMA_DEVICE as int] {
        PeripheralState::Dma(d) => {
            let b = with_device(bus, DMA_DEVICE, PeripheralState::Dma(DMA { active: false, ..d }));
            if d.active {
                copied(b, (d.reg * 256) as u16, OAM_SIZE as nat)
            } else {
                b
            }
        },
        _ => bus,
    }
}

/// The keys latched into the joypad.
pub open spec fn input_phase(bus: BusView<Peripheral>, keys: (u8, u8)) -> BusView<Peripheral> {
    match bus.handlers[PAD_DEVICE as int] {
        PeripheralState::Pad(p) => with_device(
            bus,
            PAD_DEVICE,
            PeripheralState::Pad(Pad { cross_button: keys.0, ab_button: keys.1, ..p }),
        ),
        _ => bus,
    }
}

/// One system step with the host holding `keys`: the CPU, then the timer and the PPU on the
/// cycles it took, then DMA, then the joypad. Also says whether a frame completed.
pub open spec fn system_step(m: Machine<Peripheral>, keys: (u8, u8)) -> (Machine<Peripheral>, bool) {
    let (after_cpu, cycles) = m.step();
    let timed = timer_phase(after_cpu.bus, cycles);
    let (shown, frame) = video_phase(timed, cycles);
    let copied_bus = dma_phase(shown);
    (Machine { cpu: after_cpu.cpu, bus: input_phase(copied_bus, keys) }, frame)
}

/// The routing of the DMG: cartridge ROM and RAM, video memory, OAM, joypad, timer, LCD
/// registers and DMA.
pub open spec fn system_ranges() -> Seq<HandlerRange> {
    seq![
        HandlerRange { start: 0x0000, end: 0x7FFF, handler: CARTRIDGE_DEVICE },
        HandlerRange { start: 0x8000, end: 0x9FFF, handler: GPU_DEVICE },
        HandlerRange { start: 0xA000, end: 0xBFFF, handler: CARTRIDGE_DEVICE },
        HandlerRange { start: 0xFE00, end: 0xFE9F, handler: GPU_DEVICE },
        HandlerRange { start: 0xFF00, end: 0xFF00, handler: PAD_DEVICE },
        HandlerRange { start: 0xFF04, end: 0xFF07, handler: CLOCK_DEVICE },
        HandlerRange { start: 0xFF40, end: 0xFF45, handler: GPU_DEVICE },
        HandlerRange { start: 0xFF46, end: 0xFF46, handler: DMA_DEVICE },
        HandlerRange { start: 0xFF47, end: 0xFF4B, handler: GPU_DEVICE },
    ]
}

/// The emulated machine: CPU, bus with its devices, and the host.
pub struct System<T> {
    cpu: CPU,
    bus: MemoryBus<Peripheral>,
    hardware: HardwareHandle<T>,
}

impl<T: Hardware> System<T> {
    pub closed spec fn machine(&self) -> Machine<Peripheral> {
        machine(self.cpu, self.bus@)
    }

    pub closed spec fn host(&self) -> T {
        self.hardware.inner
    }

    pub open spec fn wf(&self) -> bool {
        self.machine().bus.wf() && self.machine().bus.handlers.len() == DEVICE_COUNT
    }

    /// A system running `cart`, its devices routed as on the DMG, the CPU in its post-boot
    /// state.
    pub fn new(cart: Cartridge, hardware: T) -> (r: System<T>)
        ensures
            r.wf(),
            r.machine().cpu == (CPU {
                reg: crate::register::Registers::reset(),
                ime: true,
                halt: false,
            }),
            r.machine().cpu.reg.wf(),
            r.machine().bus.memory == Seq::new(MEMORY_SIZE as nat, |i: int| 0u8),
            r.machine().bus.ranges == system_ranges(),
            r.machine().bus.handlers[GPU_DEVICE as int] is Gpu,
            r.machine().bus.handlers[CARTRIDGE_DEVICE as int] == PeripheralState::Cartridge(
                cart.state(),
            ),
            r.machine().bus.handlers[DMA_DEVICE as int] == PeripheralState::Dma(
                DMA { reg: 0, active: false },
            ),
            r.machine().bus.handlers[CLOCK_DEVICE as int] == PeripheralState::Clock(
                Clock { cycles: 0xAD00, counter: 0, tma: 0, tac: 0 },
            ),
            r.machine().bus.handlers[PAD_DEVICE as int] == PeripheralState::Pad(
                Pad { cross_button: 0, ab_button: 0, cross_select: false, ab_select: false },
            ),
            r.host() == hardware,
    {
        let cpu = CPU::new();
        let mut bus: MemoryBus<Peripheral> = MemoryBus::new();
        let hardware = HardwareHandle::new(hardware);
        let gpu = bus.attach(Peripheral::Gpu(GPU::new()));
        let cartridge = bus.attach(Peripheral::Cartridge(cart));
        let dma = bus.attach(Peripheral::Dma(DMA::new()));
        let clock = bus.attach(Peripheral::Clock(Clock::new()));
        let input = bus.attach(Peripheral::Pad(Pad::new()));
        bus.add_handler((0x0000, 0x7FFF), cartridge);
        bus.add_handler((0x8000, 0x9FFF), gpu);
        bus.add_handler((0xA000, 0xBFFF), cartridge);
        bus.add_handler((0xFE00, 0xFE9F), gpu);
        bus.add_handler((0xFF00, 0xFF00), input);
        bus.add_handler((0xFF04, 0xFF07), clock);
        bus.add_handler((0xFF40, 0xFF45), gpu);
        bus.add_handler((0xFF46, 0xFF46), dma);
        bus.add_handler((0xFF47, 0xFF4B), gpu);
        assert(bus@.ranges =~= system_ranges());
        System { cpu, bus, hardware }
    }

    /// Runs one step: the CPU, then the timer and the PPU on the cycles it took (a completed
    /// frame goes to the host), then DMA, then the joypad from the host's keys, then the
    /// host's housekeeping. Returns the cycles taken, or `None`, with nothing changed, when
    /// the CPU is about to fetch an unassigned opcode.
    pub fn step(&mut self) -> (r: Option<u16>)
        requires
            old(self).wf(),
        ensures
            final(self).wf(),
            old(self).machine().cpu.reg.wf() ==> final(self).machine().cpu.reg.wf(),
            r is None <==> !old(self).machine().can_step(),
            r is None ==> final(self).machine() == old(self).machine(),
            r matches Some(cycles) ==> cycles == old(self).machine().step().1 && exists|
                keys: (u8, u8),
            | #[trigger] system_step(old(self).machine(), keys).0 == final(self).machine(),
    {
        if !self.cpu.can_step(&self.bus) {
            return None;
        }
        let elapsed = self.cpu.step(&mut self.bus);
        self.run_timer(elapsed);
        self.run_video(elapsed);
        self.run_dma();
        let keys = self.run_input();
        self.hardware.get_mut().update();
        assert(system_step(old(self).machine(), keys).0 == self.machine());
        Some(elapsed)
    }

    fn run_timer(&mut self, elapsed: u16)
        requires
            old(self).wf(),
        ensures
            final(self).wf(),
            final(self).machine() == (Machine {
                bus: timer_phase(old(self).machine().bus, elapsed),
                ..old(self).machine()
            }),
            final(self).host() == old(self).host(),
    {
        let ghost before = self.bus@;
        let overflow = match self.bus.handler_mut(DevHandler { index: CLOCK_DEVICE }) {
            Peripheral::Clock(c) => c.step(elapsed),
            _ => false,
        };
        proof {
            if !(before.handlers[CLOCK_DEVICE as int] is Clock) {
                assert(self.bus@.handlers =~= before.handlers);
            }
        }
        if overflow {
            let flags = self.bus.get_if();
            self.bus.set_if(flags | 0x04);
        }
    }

    fn run_video(&mut self, elapsed: u16)
        requires
            old(self).wf(),
        ensures
            final(self).wf(),
            final(self).machine() == (Machine {
                bus: video_phase(old(self).machine().bus, elapsed).0,
                ..old(self).machine()
            }),
    {
        let ghost before = self.bus@;
        let frame = match self.bus.handler_mut(DevHandler { index: GPU_DEVICE }) {
            Peripheral::Gpu(g) => g.step(elapsed),
            _ => false,
        };
        proof {
            if !(before.handlers[GPU_DEVICE as int] is Gpu) {
                assert(self.bus@.handlers =~= before.handlers);
            }
        }
        if frame {
            let flags = self.bus.get_if();
            self.bus.set_if(flags | 0x01);
            match self.bus.handler(DevHandler { index: GPU_DEVICE }) {
                Peripheral::Gpu(g) => self.hardware.get_mut().draw_framebuffer(g.frame_buffer()),
                _ => {},
            }
        }
    }

    fn run_dma(&mut self)
        requires
            old(self).wf(),
        ensures
            final(self).wf(),
            final(self).machine() == (Machine {
                bus: dma_phase(old(self).machine().bus),
                ..old(self).machine()
            }),
            final(self).host() == old(self).host(),
    {
        let ghost before = self.bus@;
        let source = match self.bus.handler_mut(DevHandler { index: DMA_DEVICE }) {
            Peripheral::Dma(d) => d.step(),
            _ => None,
        };
        proof {
            if !(before.handlers[DMA_DEVICE as int] is Dma) {
                assert(self.bus@.handlers =~= before.handlers);
            }
        }
        match source {
            Some(src) => transfer(&mut self.bus, src),
            None => {},
        }
    }

    fn run_input(&mut self) -> (keys: (u8, u8))
        requires
            old(self).wf(),
        ensures
            final(self).wf(),
            final(self).machine() == (Machine {
                bus: input_phase(old(self).machine().bus, keys),
                ..old(self).machine()
            }),
    {
        let keys = self.hardware.get_mut().get_keys();
        let ghost before = self.bus@;
        match self.bus.handler_mut(DevHandler { index: PAD_DEVICE }) {
            Peripheral::Pad(p) => p.step(keys),
            _ => {},
        }
        proof {
            if !(before.handlers[PAD_DEVICE as int] is Pad) {
                assert(self.bus@.handlers =~= before.handlers);
            }
        }
        keys
    }

    pub fn cpu(&self) -> (r: &CPU)
        ensures
            *r == self.machine().cpu,
    {
        &self.cpu
    }

    /// A read through the bus, as the CPU would make it.
    pub fn read_byte(&self, address: u16) -> (r: u8)
        requires
            self.wf(),
        ensures
            r == self.machine().bus.read(address),
    {
        self.bus.read_byte(address)
    }

    /// A write through the bus, as the CPU would make it.
    pub fn write_byte(&mut self, address: u16, value: u8)
        requires
            old(self).wf(),
        ensures
            final(self).wf(),
            final(self).machine() == old(self).machine().write8(address, value),
    {
        self.bus.write_byte(address, value)
    }

    pub fn is_active(&mut self) -> bool {
        self.hardware.get_mut().is_active()
    }
}

} // verus!
