use rustygb::cycle::Clock;
use rustygb::device::{Device, RamBlock};
use rustygb::dma::DMA;
use rustygb::mmu::MemoryBus;

#[test]
fn check_write_address() {
    let mut bus = MemoryBus::new();
    let test_obj = bus.attach(Device::new(RamBlock::new(0x2000, 0x2000)));
    bus.add_handler((0x2000, 0x3FFF), test_obj);
    bus.write_byte(0x2000, 0x42);
    assert_eq!(bus.read_byte(0x2000), 0x42);
    assert_eq!(bus.handler(test_obj).borrow().bytes()[0], 0x42);
}

#[test]
fn first_handler_in_registration_order_wins() {
    let mut bus = MemoryBus::new();
    let a = bus.attach(Device::new(RamBlock::new(0x4000, 0x1000)));
    let b = bus.attach(Device::new(RamBlock::new(0x4000, 0x1000)));
    bus.add_handler((0x4000, 0x4FFF), b);
    bus.add_handler((0x4000, 0x4FFF), a);
    bus.write_byte(0x4001, 0x22);
    assert_eq!(bus.read_byte(0x4001), 0x22);
    assert_eq!(bus.handler(b).borrow().bytes()[1], 0x22);
    assert_eq!(bus.handler(a).borrow().bytes()[1], 0x00);
}

#[test]
fn blocked_write_leaves_backing_memory() {
    let mut bus = MemoryBus::new();
    let d = bus.attach(Device::new(DMA::new()));
    bus.add_handler((0xC000, 0xC000), d);
    bus.write_byte(0xC000, 0x99);
    assert_eq!(bus.read_byte(0xC000), 0x00);
    assert!(!bus.handler(d).borrow().active);
}

#[test]
fn pass_through_falls_back_to_memory() {
    let mut bus = MemoryBus::new();
    let t = bus.attach(Device::mediate(Clock::new()));
    bus.add_handler((0xC000, 0xCFFF), t);
    bus.write_byte(0xC123, 0x5A);
    assert_eq!(bus.read_byte(0xC123), 0x5A);
    assert!(bus.handler(t).mediating);
}

#[test]
fn echo_ram_aliases_work_ram() {
    let mut bus: MemoryBus<Device<Clock>> = MemoryBus::new();
    for a in 0xE000u32..=0xFDFF {
        let a = a as u16;
        let v = (a as u8) ^ 0xA5;
        bus.write_byte(a, v);
        assert_eq!(bus.read_byte(a - 0x2000), v);
        bus.write_byte(a - 0x2000, !v);
        assert_eq!(bus.read_byte(a), !v);
    }
}

#[test]
fn interrupt_registers_live_in_memory() {
    let mut bus: MemoryBus<Device<Clock>> = MemoryBus::new();
    bus.write_byte(0xFFFF, 0x1F);
    bus.set_if(0x05);
    assert_eq!(bus.get_ie(), 0x1F);
    assert_eq!(bus.get_if(), 0x05);
    assert_eq!(bus.read_byte(0xFF0F), 0x05);
}

#[test]
fn ram_block_passes_outside_addresses() {
    let mut bus = MemoryBus::new();
    let r = bus.attach(RamBlock::new(0xC000, 0x10));
    bus.add_handler((0xC000, 0xC01F), r);
    bus.write_byte(0xC010, 0x33);
    assert_eq!(bus.read_byte(0xC010), 0x33);
    assert_eq!(bus.handler(r).bytes().len(), 0x10);
    assert!(bus.handler(r).bytes().iter().all(|b| *b == 0));
}
