use vstd::prelude::*;

use crate::device::IOHandler;
use crate::mmu::{MemoryRead, MemoryWrite};

verus! {

pub const FRAME_WIDTH: usize = 160;

pub const FRAME_HEIGHT: usize = 144;

pub const FRAME_SIZE: usize = 23040;

/// Bytes of tile data: 384 tiles of 16 bytes.
pub const VRAM_SIZE: usize = 6144;

/// Bytes of the two 32x32 tile maps.
pub const TILE_MAP_SIZE: usize = 2048;

/// Bytes of OAM: 40 sprites of 4 bytes (y, x, tile, attributes).
pub const OAM_BYTES: usize = 160;

pub const SPRITE_COUNT: usize = 40;

pub const DOTS_PER_LINE: u16 = 456;

pub const LINES_PER_FRAME: u8 = 154;

/// The line after which a frame is complete.
pub const LAST_VISIBLE_LINE: u8 = 143;

/// One of the four shades of the display.
#[derive(Clone, Copy, Debug, PartialEq, Eq, Structural)]
pub enum Pixel {
    White,
    Bright,
    Dark,
    Black,
}

/// A completed frame: 160x144 shades, row by row from the top left.
pub struct FrameBuffer {
    pub pixels: Vec<Pixel>,
}

/// What the contracts see of the PPU.
pub struct GpuState {
    pub vram: Seq<u8>,
    pub tile_map: Seq<u8>,
    pub oam: Seq<u8>,
    pub lcdc: u8,
    pub stat: u8,
    pub ly: u8,
    pub lyc: u8,
    pub wy: u8,
    pub wx: u8,
    pub scy: u8,
    pub scx: u8,
    pub bgp: u8,
    pub obp0: u8,
    pub obp1: u8,
    pub dot: u16,
    pub frame: Seq<Pixel>,
}

impl GpuState {
    pub open spec fn wf(self) -> bool {
        &&& self.vram.len() == VRAM_SIZE
        &&& self.tile_map.len() == TILE_MAP_SIZE
        &&& self.oam.len() == OAM_BYTES
        &&& self.frame.len() == FRAME_SIZE
        &&& self.dot < DOTS_PER_LINE
    }
}

/// Bit `col` of one byte, as 0 or 1.
pub open spec fn bit_of(byte: u8, col: u8) -> u8 {
    if (byte >> col) & 1 != 0 {
        1
    } else {
        0
    }
}

/// The colour number (0..=3) at column bit `col` and row `row` of tile `tile`: the low bit
/// from the row's first byte, the high bit from its second.
pub open spec fn tile_color(vram: Seq<u8>, tile: int, col: u8, row: u8) -> u8 {
    (2 * bit_of(vram[tile * 16 + row * 2 + 1], col) + bit_of(vram[tile * 16 + row * 2], col)) as u8
}

/// The window covers column `x` of the current line.
pub open spec fn in_window(s: GpuState, x: u8) -> bool {
    s.lcdc & 0x20 != 0 && s.ly >= s.wy && x + 7 >= s.wx
}

/// The background or window colour number at column `x` of the current line.
pub open spec fn bg_color(s: GpuState, x: u8) -> u8 {
    let window = in_window(s, x);
    let u: int = if window {
        x + 7 - s.wx
    } else {
        (x + s.scx) % 256
    };
    let v: int = if window {
        s.ly - s.wy
    } else {
        (s.ly + s.scy) % 256
    };
    let map: int = if s.lcdc & (if window {
        0x40u8
    } else {
        0x08u8
    }) != 0 {
        0x400
    } else {
        0
    };
    let raw = s.tile_map[map + (v / 8) * 32 + u / 8];
    let tile: int = if s.lcdc & 0x10 != 0 || raw >= 128 {
        raw as int
    } else {
        256 + raw
    };
    tile_color(s.vram, tile, (7 - u % 8) as u8, (v % 8) as u8)
}

/// Sprite `i` over column `x` of the current line, if it shows there: its colour number and
/// palette. It does not show where transparent, or where it sits behind a background colour
/// other than 0.
pub open spec fn sprite_hit(s: GpuState, x: u8, bg: u8, i: int) -> Option<(u8, u8)> {
    let y = s.oam[4 * i];
    let sprite_x = s.oam[4 * i + 1];
    let tile = s.oam[4 * i + 2];
    let attr = s.oam[4 * i + 3];
    let sx: int = x + 8 - sprite_x;
    let sy: int = s.ly + 16 - y;
    if 0 <= sx < 8 && 0 <= sy < 8 {
        let col: int = if attr & 0x20 != 0 {
            sx
        } else {
            7 - sx
        };
        let row: int = if attr & 0x40 != 0 {
            7 - sy
        } else {
            sy
        };
        let c = tile_color(s.vram, tile as int, col as u8, row as u8);
        if c != 0 && !(attr & 0x80 != 0 && bg != 0) {
            Some(
                (
                    c,
                    if attr & 0x10 != 0 {
                        s.obp1
                    } else {
                        s.obp0
                    },
                ),
            )
        } else {
            None
        }
    } else {
        None
    }
}

/// The first sprite from `i` on, in OAM order, that shows over column `x`.
pub open spec fn sprite_scan(s: GpuState, x: u8, bg: u8, i: int) -> Option<(u8, u8)>
    decreases SPRITE_COUNT - i,
{
    if i < 0 || i >= SPRITE_COUNT {
        None
    } else {
        match sprite_hit(s, x, bg, i) {
            Some(h) => Some(h),
            None => sprite_scan(s, x, bg, i + 1),
        }
    }
}

/// The shade that a palette register gives colour number `color`.
pub open spec fn shade(palette: u8, color: u8) -> Pixel {
    let i = (palette >> (2 * color) as u8) & 3;
    if i == 0 {
        Pixel::White
    } else if i == 1 {
        Pixel::Bright
    } else if i == 2 {
        Pixel::Dark
    } else {
        Pixel::Black
    }
}

/// The shade at column `x` of the current line: the background or window, unless a sprite
/// shows there while sprites are enabled.
pub open spec fn pixel(s: GpuState, x: u8) -> Pixel {
    let bg = bg_color(s, x);
    if s.lcdc & 0x01 != 0 {
        match sprite_scan(s, x, bg, 0) {
            Some(h) => shade(h.1, h.0),
            None => shade(s.bgp, bg),
        }
    } else {
        shade(s.bgp, bg)
    }
}

/// The frame with the current line drawn.
pub open spec fn rendered(s: GpuState) -> Seq<Pixel> {
    Seq::new(
        FRAME_SIZE as nat,
        |i: int|
            if s.ly * 160 <= i < s.ly * 160 + 160 {
                pixel(s, (i - s.ly * 160) as u8)
            } else {
                s.frame[i]
            },
    )
}

/// One dot: with the display on, the dot counter advances and at 456 the line ends (drawn
/// if visible; the frame completes at the end of line 143); with the display off, LY and
/// the dot counter are held at 0. Also says whether a frame completed.
pub open spec fn dot(s: GpuState) -> (GpuState, bool) {
    if s.lcdc & 0x80 != 0 {
        if s.dot + 1 == DOTS_PER_LINE {
            let drawn = if s.ly < 144 {
                GpuState { frame: rendered(s), ..s }
            } else {
                s
            };
            (
                GpuState { ly: ((s.ly + 1) % LINES_PER_FRAME as int) as u8, dot: 0, ..drawn },
                s.ly == LAST_VISIBLE_LINE,
            )
        } else {
            (GpuState { dot: (s.dot + 1) as u16, ..s }, false)
        }
    } else {
        (GpuState { ly: 0, dot: 0, ..s }, false)
    }
}

/// `n` dots, and whether any of them completed a frame.
pub open spec fn dots(s: GpuState, n: nat) -> (GpuState, bool)
    decreases n,
{
    if n == 0 {
        (s, false)
    } else {
        let (before, done) = dots(s, (n - 1) as nat);
        let (after, now) = dot(before);
        (after, done || now)
    }
}

/// The picture processing unit: tile data, tile maps, OAM, the LCD registers and the frame
/// being drawn.
pub struct GPU {
    vram: Vec<u8>,
    tile_map: Vec<u8>,
    oam: Vec<u8>,
    lcdc: u8,
    stat: u8,
    ly: u8,
    lyc: u8,
    wy: u8,
    wx: u8,
    scy: u8,
    scx: u8,
    bgp: u8,
    obp0: u8,
    obp1: u8,
    ppu_dot: u16,
    frame_buffer: FrameBuffer,
}

impl GPU {
    #[verifier::type_invariant]
    spec fn inv(self) -> bool {
        self.state().wf()
    }

    pub closed spec fn view_state(&self) -> GpuState {
        GpuState {
            vram: self.vram@,
            tile_map: self.tile_map@,
            oam: self.oam@,
            lcdc: self.lcdc,
            stat: self.stat,
            ly: self.ly,
            lyc: self.lyc,
            wy: self.wy,
            wx: self.wx,
            scy: self.scy,
            scx: self.scx,
            bgp: self.bgp,
            obp0: self.obp0,
            obp1: self.obp1,
            dot: self.ppu_dot,
            frame: self.frame_buffer.pixels@,
        }
    }

    pub fn new() -> (r: GPU)
        ensures
            r.state().wf(),
            r.state() == (GpuState {
                vram: Seq::new(VRAM_SIZE as nat, |i: int| 0u8),
                tile_map: Seq::new(TILE_MAP_SIZE as nat, |i: int| 0u8),
                oam: Seq::new(OAM_BYTES as nat, |i: int| 0u8),
                lcdc: 0x91,
                stat: 0,
                ly: 0,
                lyc: 0,
                wy: 0,
                wx: 0,
                scy: 0,
                scx: 0,
                bgp: 0,
                obp0: 0,
                obp1: 0,
                dot: 0,
                frame: Seq::new(FRAME_SIZE as nat, |i: int| Pixel::White),
            }),
    {
        let r = GPU {
            vram: vec![0u8; VRAM_SIZE],
            tile_map: vec![0u8; TILE_MAP_SIZE],
            oam: vec![0u8; OAM_BYTES],
            lcdc: 0x91,
            stat: 0,
            ly: 0,
            lyc: 0,
            wy: 0,
            wx: 0,
            scy: 0,
            scx: 0,
            bgp: 0,
            obp0: 0,
            obp1: 0,
            ppu_dot: 0,
            frame_buffer: FrameBuffer { pixels: vec![Pixel::White; FRAME_SIZE] },
        };
        assert(r.state().vram =~= Seq::new(VRAM_SIZE as nat, |i: int| 0u8));
        assert(r.state().oam =~= Seq::new(OAM_BYTES as nat, |i: int| 0u8));
        assert(r.state().tile_map =~= Seq::new(TILE_MAP_SIZE as nat, |i: int| 0u8));
        assert(r.state().frame =~= Seq::new(FRAME_SIZE as nat, |i: int| Pixel::White));
        r
    }

    /// The frame as last drawn.
    pub fn frame_buffer(&self) -> (r: &FrameBuffer)
        ensures
            r.pixels@ == self.state().frame,
    {
        &self.frame_buffer
    }

    fn tile_color(&self, tile: usize, col: u8, row: u8) -> (r: u8)
        requires
            tile < 384,
            col < 8,
            row < 8,
        ensures
            r == tile_color(self.state().vram, tile as int, col, row),
            r <= 3,
    {
        proof {
            use_type_invariant(self);
        }
        let base = tile * 16 + row as usize * 2;
        let low: u8 = if (self.vram[base] >> col) & 1 != 0 {
            1
        } else {
            0
        };
        let high: u8 = if (self.vram[base + 1] >> col) & 1 != 0 {
            1
        } else {
            0
        };
        2 * high + low
    }

    fn bg_color(&self, x: u8) -> (r: u8)
        requires
            x < 160,
        ensures
            r == bg_color(self.state(), x),
            r <= 3,
    {
        proof {
            use_type_invariant(self);
        }
        let window = self.lcdc & 0x20 != 0 && self.ly >= self.wy && x as u16 + 7 >= self.wx as u16;
        let (u, v): (usize, usize) = if window {
            (x as usize + 7 - self.wx as usize, (self.ly - self.wy) as usize)
        } else {
            ((x as usize + self.scx as usize) % 256, (self.ly as usize + self.scy as usize) % 256)
        };
        let select: u8 = if window {
            0x40
        } else {
            0x08
        };
        let map: usize = if self.lcdc & select != 0 {
            0x400
        } else {
            0
        };
        let raw = self.tile_map[map + (v / 8) * 32 + u / 8];
        let tile: usize = if self.lcdc & 0x10 != 0 || raw >= 128 {
            raw as usize
        } else {
            256 + raw as usize
        };
        self.tile_color(tile, (7 - u % 8) as u8, (v % 8) as u8)
    }

    fn sprite_hit(&self, x: u8, bg: u8, i: usize) -> (r: Option<(u8, u8)>)
        requires
            i < SPRITE_COUNT,
        ensures
            r == sprite_hit(self.state(), x, bg, i as int),
            r matches Some(h) ==> h.0 <= 3,
    {
        proof {
            use_type_invariant(self);
        }
        let y = self.oam[4 * i];
        let sprite_x = self.oam[4 * i + 1];
        let tile = self.oam[4 * i + 2];
        let attr = self.oam[4 * i + 3];
        if x as i32 + 8 - (sprite_x as i32) >= 0 && x as i32 + 8 - (sprite_x as i32) < 8
            && self.ly as i32 + 16 - (y as i32) >= 0 && self.ly as i32 + 16 - (y as i32) < 8 {
            let sx = (x as i32 + 8 - sprite_x as i32) as u8;
            let sy = (self.ly as i32 + 16 - y as i32) as u8;
            let col = if attr & 0x20 != 0 {
                sx
            } else {
                7 - sx
            };
            let row = if attr & 0x40 != 0 {
                7 - sy
            } else {
                sy
            };
            let c = self.tile_color(tile as usize, col, row);
            if c != 0 && !(attr & 0x80 != 0 && bg != 0) {
                Some(
                    (
                        c,
                        if attr & 0x10 != 0 {
                            self.obp1
                        } else {
                            self.obp0
                        },
                    ),
                )
            } else {
                None
            }
        } else {
            None
        }
    }

    fn pixel(&self, x: u8) -> (r: Pixel)
        requires
            x < 160,
        ensures
            r == pixel(self.state(), x),
    {
        let bg = self.bg_color(x);
        let (color, palette) = if self.lcdc & 0x01 != 0 {
            let mut found: Option<(u8, u8)> = None;
            let mut i: usize = 0;
            while i < SPRITE_COUNT && found.is_none()
                invariant
                    i <= SPRITE_COUNT,
                    found is None ==> sprite_scan(self.state(), x, bg, 0) == sprite_scan(
                        self.state(),
                        x,
                        bg,
                        i as int,
                    ),
                    found is Some ==> sprite_scan(self.state(), x, bg, 0) == found,
                    found matches Some(h) ==> h.0 <= 3,
                decreases SPRITE_COUNT - i,
            {
                found = self.sprite_hit(x, bg, i);
                i += 1;
            }
            match found {
                Some(h) => h,
                None => (bg, self.bgp),
            }
        } else {
            (bg, self.bgp)
        };
        let index = (palette >> (2 * color)) & 3;
        if index == 0 {
            Pixel::White
        } else if index == 1 {
            Pixel::Bright
        } else if index == 2 {
            Pixel::Dark
        } else {
            Pixel::Black
        }
    }

    /// Draws the current line into the frame.
    pub fn render(&mut self)
        requires
            old(self).state().ly < 144,
        ensures
            final(self).state() == (GpuState { frame: rendered(old(self).state()), ..old(self).state() }),
    {
        proof {
            use_type_invariant(&*self);
        }
        let row = self.ly as usize * FRAME_WIDTH;
        let mut line: Vec<Pixel> = Vec::new();
        let mut x: usize = 0;
        while x < FRAME_WIDTH
            invariant
                x <= FRAME_WIDTH,
                line@.len() == x,
                forall|j: int| 0 <= j < x ==> #[trigger] line@[j] == pixel(self.state(), j as u8),
            decreases FRAME_WIDTH - x,
        {
            let p = self.pixel(x as u8);
            line.push(p);
            x += 1;
        }
        let mut x: usize = 0;
        while x < FRAME_WIDTH
            invariant
                x <= FRAME_WIDTH,
                row == old(self).state().ly * 160,
                old(self).state().ly < 144,
                line@.len() == FRAME_WIDTH,
                forall|j: int|
                    0 <= j < FRAME_WIDTH ==> #[trigger] line@[j] == pixel(old(self).state(), j as u8),
                self.state() == (GpuState { frame: self.state().frame, ..old(self).state() }),
                self.state().frame.len() == FRAME_SIZE,
                forall|i: int|
                    0 <= i < FRAME_SIZE ==> #[trigger] self.state().frame[i] == (if row <= i < row
                        + x {
                        line@[i - row]
                    } else {
                        old(self).state().frame[i]
                    }),
            decreases FRAME_WIDTH - x,
        {
            proof {
                use_type_invariant(&*self);
            }
            self.frame_buffer.pixels[row + x] = line[x];
            x += 1;
        }
        assert(self.state().frame =~= rendered(old(self).state()));
    }

    /// Advances the PPU by `elapsed` dots; returns whether a frame was completed (the caller
    /// then requests the VBlank interrupt and shows the frame).
    pub fn step(&mut self, elapsed: u16) -> (frame_done: bool)
        ensures
            (final(self).state(), frame_done) == dots(old(self).state(), elapsed as nat),
    {
        let mut done = false;
        let mut n: u16 = 0;
        while n < elapsed
            invariant
                n <= elapsed,
                (self.state(), done) == dots(old(self).state(), n as nat),
            decreases elapsed - n,
        {
            proof {
                use_type_invariant(&*self);
            }
            if self.lcdc & 0x80 != 0 {
                if self.ppu_dot + 1 == DOTS_PER_LINE {
                    if self.ly < 144 {
                        self.render();
                    }
                    if self.ly == LAST_VISIBLE_LINE {
                        done = true;
                    }
                    self.ly = ((self.ly as u16 + 1) % LINES_PER_FRAME as u16) as u8;
                    self.ppu_dot = 0;
                } else {
                    self.ppu_dot = self.ppu_dot + 1;
                }
            } else {
                self.ly = 0;
                self.ppu_dot = 0;
            }
            n += 1;
        }
        done
    }
}

impl IOHandler for GPU {
    type State = GpuState;

    closed spec fn state(&self) -> GpuState {
        self.view_state()
    }

    open spec fn read_value(s: GpuState, address: u16) -> MemoryRead {
        if 0x8000 <= address <= 0x97FF {
            MemoryRead::Value(s.vram[address - 0x8000])
        } else if 0x9800 <= address <= 0x9FFF {
            MemoryRead::Value(s.tile_map[address - 0x9800])
        } else if 0xFE00 <= address <= 0xFE9F {
            MemoryRead::Value(s.oam[address - 0xFE00])
        } else if address == 0xFF40 {
            MemoryRead::Value(s.lcdc)
        } else if address == 0xFF41 {
            MemoryRead::Value(s.stat)
        } else if address == 0xFF42 {
            MemoryRead::Value(s.scy)
        } else if address == 0xFF43 {
            MemoryRead::Value(s.scx)
        } else if address == 0xFF44 {
            MemoryRead::Value(s.ly)
        } else if address == 0xFF45 {
            MemoryRead::Value(s.lyc)
        } else if address == 0xFF47 {
            MemoryRead::Value(s.bgp)
        } else if address == 0xFF48 {
            MemoryRead::Value(s.obp0)
        } else if address == 0xFF49 {
            MemoryRead::Value(s.obp1)
        } else if address == 0xFF4A {
            MemoryRead::Value(s.wy)
        } else if address == 0xFF4B {
            MemoryRead::Value(s.wx)
        } else {
            MemoryRead::PassThrough
        }
    }

    open spec fn after_write(s: GpuState, address: u16, value: u8) -> GpuState {
        if 0x8000 <= address <= 0x97FF {
            GpuState { vram: s.vram.update(address - 0x8000, value), ..s }
        } else if 0x9800 <= address <= 0x9FFF {
            GpuState { tile_map: s.tile_map.update(address - 0x9800, value), ..s }
        } else if 0xFE00 <= address <= 0xFE9F {
            GpuState { oam: s.oam.update(address - 0xFE00, value), ..s }
        } else if address == 0xFF40 {
            GpuState { lcdc: value, ..s }
        } else if address == 0xFF41 {
            GpuState { stat: value, ..s }
        } else if address == 0xFF42 {
            GpuState { scy: value, ..s }
        } else if address == 0xFF43 {
            GpuState { scx: value, ..s }
        } else if address == 0xFF44 {
            GpuState { ly: value, ..s }
        } else if address == 0xFF45 {
            GpuState { lyc: value, ..s }
        } else if address == 0xFF47 {
            GpuState { bgp: value, ..s }
        } else if address == 0xFF48 {
            GpuState { obp0: value, ..s }
        } else if address == 0xFF49 {
            GpuState { obp1: value, ..s }
        } else if address == 0xFF4A {
            GpuState { wy: value, ..s }
        } else if address == 0xFF4B {
            GpuState { wx: value, ..s }
        } else {
            s
        }
    }

    /// A register or memory byte of the PPU is mirrored into the backing memory; other
    /// addresses pass through.
    open spec fn write_result(s: GpuState, address: u16, value: u8) -> MemoryWrite {
        if (0x8000 <= address <= 0x9FFF) || (0xFE00 <= address <= 0xFE9F) || (0xFF40 <= address
            <= 0xFF4B && address != 0xFF46) {
            MemoryWrite::Value(value)
        } else {
            MemoryWrite::PassThrough
        }
    }

    fn read(&self, address: u16) -> (r: MemoryRead) {
        proof {
            use_type_invariant(self);
        }
        if 0x8000 <= address && address <= 0x97FF {
            MemoryRead::Value(self.vram[(address - 0x8000) as usize])
        } else if 0x9800 <= address && address <= 0x9FFF {
            MemoryRead::Value(self.tile_map[(address - 0x9800) as usize])
        } else if 0xFE00 <= address && address <= 0xFE9F {
            MemoryRead::Value(self.oam[(address - 0xFE00) as usize])
        } else if address == 0xFF40 {
            MemoryRead::Value(self.lcdc)
        } else if address == 0xFF41 {
            MemoryRead::Value(self.stat)
        } else if address == 0xFF42 {
            MemoryRead::Value(self.scy)
        } else if address == 0xFF43 {
            MemoryRead::Value(self.scx)
        } else if address == 0xFF44 {
            MemoryRead::Value(self.ly)
        } else if address == 0xFF45 {
            MemoryRead::Value(self.lyc)
        } else if address == 0xFF47 {
            MemoryRead::Value(self.bgp)
        } else if address == 0xFF48 {
            MemoryRead::Value(self.obp0)
        } else if address == 0xFF49 {
            MemoryRead::Value(self.obp1)
        } else if address == 0xFF4A {
            MemoryRead::Value(self.wy)
        } else if address == 0xFF4B {
            MemoryRead::Value(self.wx)
        } else {
            MemoryRead::PassThrough
        }
    }

    fn write(&mut self, address: u16, value: u8) -> (r: MemoryWrite) {
        proof {
            use_type_invariant(&*self);
        }
        if 0x8000 <= address && address <= 0x97FF {
            self.vram[(address - 0x8000) as usize] = value;
        } else if 0x9800 <= address && address <= 0x9FFF {
            self.tile_map[(address - 0x9800) as usize] = value;
        } else if 0xFE00 <= address && address <= 0xFE9F {
            self.oam[(address - 0xFE00) as usize] = value;
        } else if address == 0xFF40 {
            self.lcdc = value;
        } else if address == 0xFF41 {
            self.stat = value;
        } else if address == 0xFF42 {
            self.scy = value;
        } else if address == 0xFF43 {
            self.scx = value;
        } else if address == 0xFF44 {
            self.ly = value;
        } else if address == 0xFF45 {
            self.lyc = value;
        } else if address == 0xFF47 {
            self.bgp = value;
        } else if address == 0xFF48 {
            self.obp0 = value;
        } else if address == 0xFF49 {
            self.obp1 = value;
        } else if address == 0xFF4A {
            self.wy = value;
        } else if address == 0xFF4B {
            self.wx = value;
        } else {
            return MemoryWrite::PassThrough;
        }
        MemoryWrite::Value(value)
    }
}

/// With the display off, LY is held at 0 however many dots pass (from the first dot on, or
/// throughout when it starts at 0), no frame completes, and the frame is left as it was.
pub proof fn lemma_display_off(s: GpuState, n: nat)
    requires
        s.lcdc & 0x80 == 0,
    ensures
        (n > 0 || s.ly == 0) ==> dots(s, n).0.ly == 0,
        !dots(s, n).1,
        dots(s, n).0.lcdc == s.lcdc,
        dots(s, n).0.frame == s.frame,
    decreases n,
{
    if n > 0 {
        lemma_display_off(s, (n - 1) as nat);
    }
}

} // verus!
