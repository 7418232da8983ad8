//! The core of an 8-bit, cartridge-based game console: a 6502-family CPU and
//! a tile and sprite picture processing unit (PPU), joined by a memory-mapped
//! bus. Every component has a mathematical model, and every operation is
//! proved to move the machine exactly as its model says.

use vstd::prelude::*;

pub mod cartridge;
pub mod controller;
pub mod cpu;
pub mod frame;
pub mod ppu;

verus! {

/// A condition that ends the emulation session. None of them can be
/// recovered from: the operation that met it stops where it stands and hands
/// the fault back.
#[derive(Clone, Copy, PartialEq, Eq, Structural, Debug)]
pub enum Fault {
    /// A CPU bus address that no device answers.
    CpuBus,
    /// A cartridge address outside its windows, or in a window with no
    /// memory behind it.
    Cartridge,
    /// A PPU bus address beyond the 14-bit address space.
    PpuBus,
    /// A PPU register number that names none of the eight registers.
    Register,
    /// An opcode with no defined behaviour.
    Opcode,
    /// A maskable interrupt request, which this machine does not implement.
    Irq,
    /// An interrupt was requested while another one was still pending.
    InterruptPending,
    /// A palette entry that names no colour of the reference table.
    Color,
    /// A cartridge image shorter than its own header announces.
    Image,
}

} // verus!
