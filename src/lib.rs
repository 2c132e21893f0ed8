//! A Game Boy (DMG) emulator core whose behaviour is stated as contracts and proved.
//!
//! - `register`, `alu`, `inst`, `cpu`: the register file, the flag arithmetic, the opcode
//!   tables and the interpreter, modelled by `cpu::Machine` (processor plus bus state).
//! - `mmu`, `device`: the 64 KiB bus that routes address ranges to devices in registration
//!   order, with a backing memory and echo RAM.
//! - `mbc`, `gpu`, `cycle`, `dma`, `input`, `sound`: the cartridge (MBC1), the PPU, the timer,
//!   OAM DMA, the joypad and the sound registers.
//! - `hardware`, `system`: the host port and one step of the whole machine.
pub mod register;
pub mod alu;
pub mod inst;
pub mod device;
pub mod mmu;
pub mod cpu;
pub mod cycle;
pub mod dma;
pub mod input;
pub mod mbc;
pub mod gpu;
pub mod sound;
pub mod hardware;
pub mod system;
