use rustygb::cycle::Clock;
use rustygb::device::{Device, IOHandler};
use rustygb::dma::DMA;
use rustygb::gpu::{FrameBuffer, Pixel, GPU};
use rustygb::hardware::{Hardware, HardwareHandle};
use rustygb::input::Pad;
use rustygb::mbc::Cartridge;
use rustygb::mmu::{MemoryRead, MemoryWrite};
use rustygb::sound::Sound;
use rustygb::system::System;

struct Host {
    frames: usize,
    keys: (u8, u8),
}

impl Hardware for Host {
    fn is_active(&mut self) -> bool {
        true
    }

    fn draw_framebuffer(&mut self, _frame_buffer: &FrameBuffer) {
        self.frames += 1;
    }

    fn get_keys(&mut self) -> (u8, u8) {
        self.keys
    }

    fn update(&mut self) {}
}

fn value(r: MemoryRead) -> u8 {
    match r {
        MemoryRead::Value(v) => v,
        MemoryRead::PassThrough => panic!("pass through"),
    }
}

#[test]
fn dma_copies_into_oam() {
    let cart = Cartridge::new(vec![0; 0x8000], vec![0; 0x8000]);
    let mut system = System::new(cart, Host { frames: 0, keys: (0, 0) });
    for i in 0u16..160 {
        system.write_byte(0x8000 + i, i as u8);
    }
    system.write_byte(0xFF46, 0x80);
    assert_eq!(system.read_byte(0xFF46), 0x00);
    assert!(system.step().is_some());
    for i in 0u16..160 {
        assert_eq!(system.read_byte(0xFE00 + i), i as u8);
    }
}

#[test]
fn system_step_runs_cpu_and_latches_keys() {
    let cart = Cartridge::new(vec![0; 0x8000], vec![0; 0x8000]);
    let mut system = System::new(cart, Host { frames: 0, keys: (0x01, 0x08) });
    assert_eq!(system.step(), Some(4));
    assert_eq!(system.cpu().reg.pc, 0x0101);
    system.write_byte(0xFF00, 0x20);
    assert_eq!(system.read_byte(0xFF00), 0xEE);
    assert!(system.is_active());
}

#[test]
fn system_refuses_unassigned_opcode() {
    let mut rom = vec![0u8; 0x8000];
    rom[0x100] = 0xDD;
    let mut system = System::new(Cartridge::new(rom, vec![0; 0x2000]), Host { frames: 0, keys: (0, 0) });
    assert_eq!(system.step(), None);
    assert_eq!(system.cpu().reg.pc, 0x0100);
}

#[test]
fn system_delivers_frames_and_vblank() {
    let cart = Cartridge::new(vec![0; 0x8000], vec![0; 0x8000]);
    let mut system = System::new(cart, Host { frames: 0, keys: (0, 0) });
    // 144 lines of 456 dots end the first frame; each NOP takes 4 dots.
    for _ in 0..(144 * 456 / 4) {
        system.step();
    }
    assert_eq!(system.read_byte(0xFF0F) & 0x01, 0x01);
    assert_eq!(system.read_byte(0xFF44), 144);
}

#[test]
fn pad_selects_groups() {
    let mut pad = Pad::new();
    pad.step((0x01, 0x08));
    assert_eq!(value(pad.read(0xFF00)), 0xFF);
    assert!(matches!(pad.write(0xFF00, 0x20), MemoryWrite::Value(0x20)));
    assert_eq!(value(pad.read(0xFF00)), 0xEE);
    pad.write(0xFF00, 0x10);
    assert_eq!(value(pad.read(0xFF00)), 0xD7);
    pad.write(0xFF00, 0x30);
    assert_eq!(value(pad.read(0xFF00)), 0xFF);
}

#[test]
fn timer_overflow_after_exact_cycles() {
    for tma in [0x00u8, 0x80, 0xFE, 0xFF] {
        let mut clock = Clock::new();
        clock.write(0xFF07, 0b101);
        clock.write(0xFF06, tma);
        clock.write(0xFF05, tma);
        let cycles = (0xFF - tma as u16 + 1) * 16;
        assert!(!clock.clone().step(cycles - 1));
        assert!(clock.step(cycles));
        assert_eq!(value(clock.read(0xFF05)), tma);
    }
}

#[test]
fn timer_divider_and_rates() {
    let mut clock = Clock::new();
    assert_eq!(value(clock.read(0xFF04)), 0xAD);
    clock.write(0xFF04, 0x12);
    assert_eq!(value(clock.read(0xFF04)), 0);
    clock.step(0x0200);
    assert_eq!(value(clock.read(0xFF04)), 2);
    clock.write(0xFF07, 0b100);
    clock.step(1023);
    assert_eq!(value(clock.read(0xFF05)), 0);
    clock.step(1024);
    assert_eq!(value(clock.read(0xFF05)), 1);
    clock.write(0xFF07, 0b111);
    clock.step(512);
    assert_eq!(value(clock.read(0xFF05)), 3);
    clock.write(0xFF07, 0b101);
    clock.step(64);
    assert_eq!(value(clock.read(0xFF05)), 7);
    clock.write(0xFF07, 0b110);
    clock.step(63);
    assert_eq!(value(clock.read(0xFF05)), 7);
    clock.write(0xFF07, 0b001);
    clock.step(64);
    assert_eq!(value(clock.read(0xFF05)), 7);
}

#[test]
fn timer_raises_interrupt_in_system() {
    // CALL 0x0100 in a loop: 24 cycles a step, one TIMA tick at divisor 16.
    let mut rom = vec![0u8; 0x8000];
    rom[0x100] = 0xCD;
    rom[0x101] = 0x00;
    rom[0x102] = 0x01;
    let mut system = System::new(Cartridge::new(rom, vec![0; 0x8000]), Host { frames: 0, keys: (0, 0) });
    system.write_byte(0xFF07, 0b101);
    system.write_byte(0xFF06, 0xFE);
    system.write_byte(0xFF05, 0xFE);
    assert_eq!(system.step(), Some(24));
    assert_eq!(system.read_byte(0xFF05), 0xFF);
    assert_eq!(system.read_byte(0xFF0F) & 0x04, 0);
    system.step();
    assert_eq!(system.read_byte(0xFF0F) & 0x04, 0x04);
    assert_eq!(system.read_byte(0xFF05), 0xFE);
}

#[test]
fn dma_latches_and_blocks() {
    let mut dma = DMA::new();
    assert!(matches!(dma.read(0xFF46), MemoryRead::PassThrough));
    assert!(matches!(dma.write(0xFF46, 0xC1), MemoryWrite::Block));
    assert_eq!(dma.step(), Some(0xC100));
    assert_eq!(dma.step(), None);
}

#[test]
fn cartridge_banks() {
    let mut rom = vec![0u8; 0x4000 * 4];
    for bank in 0..4 {
        rom[bank * 0x4000] = bank as u8;
    }
    let mut cart = Cartridge::new(rom, vec![0; 0x8000]);
    assert_eq!(value(cart.read(0x0000)), 0);
    assert_eq!(value(cart.read(0x4000)), 1);
    cart.write(0x2000, 3);
    assert_eq!(value(cart.read(0x4000)), 3);
    cart.write(0x2000, 0);
    assert_eq!(value(cart.read(0x4000)), 1);
    cart.write(0x2000, 0x40);
    assert_eq!(value(cart.read(0x4000)), 1);
    cart.write(0x4000, 2);
    assert!(matches!(cart.write(0xA000, 0x55), MemoryWrite::PassThrough));
    assert_eq!(value(cart.read(0xA000)), 0x55);
    cart.write(0x4000, 0);
    assert_eq!(value(cart.read(0xA000)), 0x00);
    cart.write(0x4000, 7);
    assert_eq!(value(cart.read(0xA000)), 0x00);
    assert!(matches!(cart.read(0xC000), MemoryRead::PassThrough));
}

#[test]
fn cartridge_masks_small_rom() {
    let rom: Vec<u8> = (0..0x8000u32).map(|i| (i / 0x4000) as u8 + 1).collect();
    let mut cart = Cartridge::new(rom, vec![]);
    cart.write(0x2000, 5);
    assert_eq!(value(cart.read(0x4000)), 2);
    assert_eq!(value(cart.read(0xA000)), 0xFF);
}

#[test]
fn ppu_held_while_display_off() {
    let mut gpu = GPU::new();
    gpu.write(0xFF40, 0x11);
    for _ in 0..10 {
        assert!(!gpu.step(60000));
        assert_eq!(value(gpu.read(0xFF44)), 0);
    }
}

#[test]
fn ppu_line_and_frame_timing() {
    let mut gpu = GPU::new();
    assert!(!gpu.step(455));
    assert_eq!(value(gpu.read(0xFF44)), 0);
    assert!(!gpu.step(1));
    assert_eq!(value(gpu.read(0xFF44)), 1);
    assert!(!gpu.step(142 * 456));
    assert_eq!(value(gpu.read(0xFF44)), 143);
    assert!(gpu.step(456));
    assert_eq!(value(gpu.read(0xFF44)), 144);
    assert!(!gpu.step(10 * 456));
    assert_eq!(value(gpu.read(0xFF44)), 0);
}

#[test]
fn ppu_renders_background_and_sprite() {
    let mut gpu = GPU::new();
    // Tile 0, row 0: colour 1 everywhere; tile 1, row 0: colour 3 in the leftmost column.
    gpu.write(0x8000, 0xFF);
    gpu.write(0x8010, 0x80);
    gpu.write(0x8011, 0x80);
    gpu.write(0xFF47, 0xE4);
    gpu.write(0xFF48, 0xE4);
    // Sprite 0 at the top-left corner, tile 1.
    gpu.write(0xFE00, 16);
    gpu.write(0xFE01, 8);
    gpu.write(0xFE02, 1);
    gpu.write(0xFE03, 0);
    gpu.write(0xFF40, 0x91 | 0x01);
    gpu.step(456);
    let pixels = &gpu.frame_buffer().pixels;
    assert_eq!(pixels[0], Pixel::Black);
    assert_eq!(pixels[1], Pixel::Bright);
    assert_eq!(pixels[159], Pixel::Bright);
    assert_eq!(pixels[160], Pixel::White);
    gpu.step(456);
    assert_eq!(gpu.frame_buffer().pixels[160], Pixel::White);
}

#[test]
fn ppu_registers_read_back() {
    let mut gpu = GPU::new();
    for (addr, v) in [(0xFF42u16, 1u8), (0xFF43, 2), (0xFF45, 3), (0xFF49, 4), (0xFF4A, 5), (0xFF4B, 6)] {
        assert!(matches!(gpu.write(addr, v), MemoryWrite::Value(_)));
        assert_eq!(value(gpu.read(addr)), v);
    }
    gpu.write(0x9800, 0x42);
    assert_eq!(value(gpu.read(0x9800)), 0x42);
    assert!(matches!(gpu.read(0xFF46), MemoryRead::PassThrough));
}

#[test]
fn sound_registers_store_and_mask() {
    let mut sound = Sound::new();
    sound.write(0xFF11, 0xFF);
    assert_eq!(value(sound.read(0xFF11)), 0xC0);
    sound.write(0xFF12, 0xF3);
    assert_eq!(value(sound.read(0xFF12)), 0xF3);
    sound.write(0xFF13, 0x12);
    assert!(matches!(sound.read(0xFF13), MemoryRead::PassThrough));
    sound.write(0xFF30, 0xAB);
    assert_eq!(value(sound.read(0xFF30)), 0xAB);
    sound.step(1000);
    assert_eq!(value(sound.read(0xFF30)), 0xAB);
    assert!(matches!(sound.read(0xFF27), MemoryRead::PassThrough));
    assert!(matches!(sound.write(0xFF24, 0x77), MemoryWrite::PassThrough));
}

#[test]
fn ppu_window_covers_from_wx_minus_seven() {
    for (wx, first) in [(7u8, 0usize), (87, 80)] {
        let mut gpu = GPU::new();
        // Tile 1, row 0: colour 3 everywhere; the window map (0x9C00) names tile 1.
        gpu.write(0x8010, 0xFF);
        gpu.write(0x8011, 0xFF);
        for i in 0..32u16 {
            gpu.write(0x9C00 + i, 1);
        }
        gpu.write(0xFF47, 0xE4);
        gpu.write(0xFF4A, 0);
        gpu.write(0xFF4B, wx);
        gpu.write(0xFF40, 0xF1);
        gpu.step(456);
        let pixels = &gpu.frame_buffer().pixels;
        for x in 0..160 {
            let expected = if x >= first { Pixel::Black } else { Pixel::White };
            assert_eq!(pixels[x], expected, "x = {}", x);
        }
    }
}

#[test]
fn device_and_host_handles() {
    let mut dev = Device::new(Pad::new());
    dev.borrow_mut().step((0x0F, 0x00));
    assert_eq!(dev.borrow().cross_button, 0x0F);
    assert!(!dev.mediating);
    let mut host = HardwareHandle::new(Host { frames: 0, keys: (1, 2) });
    assert_eq!(host.get_mut().get_keys(), (1, 2));
    assert_eq!(host.get().frames, 0);
}
