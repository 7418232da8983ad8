//! The CPU: its registers and flags, the bus that routes its 16-bit
//! addresses, and the step that services interrupts and executes
//! instructions.

use crate::controller::Controller;
use crate::ppu::{PpuModel, PPU};
use crate::Fault;
use vstd::prelude::*;

pub mod bus;
pub mod flags;
pub mod instructions;
pub mod interrupts;
pub mod step;

verus! {

/// Whether an interrupt waits to be serviced, and which.
#[derive(Clone, Copy, PartialEq, Eq, Structural, Debug)]
pub enum InterruptStatus {
    /// Nothing is pending.
    Clear,
    /// A non-maskable interrupt.
    Nmi,
    /// A maskable interrupt request.
    Irq,
    /// A reset.
    Reset,
}

/// The state of the CPU and of everything on its bus, as plain values.
pub struct CpuModel {
    /// The accumulator.
    pub a: u8,
    /// Index register X.
    pub x: u8,
    /// Index register Y.
    pub y: u8,
    /// The stack pointer: the stack lies in page 1 and grows downward.
    pub sp: u8,
    /// The program counter.
    pub pc: u16,
    pub flags: flags::CPUFlags,
    pub bus: bus::BusModel,
    pub interrupt: InterruptStatus,
    /// Cycles run beyond the budget of the scanlines stepped so far.
    pub cycles: usize,
}

/// The CPU, with everything on its bus.
#[derive(Debug)]
pub struct CPU {
    /// The accumulator.
    pub a: u8,
    /// Index register X.
    pub x: u8,
    /// Index register Y.
    pub y: u8,
    /// The stack pointer.
    pub sp: u8,
    /// The program counter.
    pub pc: u16,
    pub flags: flags::CPUFlags,
    /// The bus, which owns the PPU, the cartridge and the controller.
    pub mem: bus::CPUMem,
    /// The interrupt that waits to be serviced, if any.
    pub interrupt_status: InterruptStatus,
    /// Cycles run beyond the budget of the scanlines stepped so far.
    pub cycles: usize,
}

impl View for CPU {
    type V = CpuModel;

    open spec fn view(&self) -> CpuModel {
        CpuModel {
            a: self.a,
            x: self.x,
            y: self.y,
            sp: self.sp,
            pc: self.pc,
            flags: self.flags,
            bus: self.mem@,
            interrupt: self.interrupt_status,
            cycles: self.cycles,
        }
    }
}

/// The two bytes of a 16-bit value, high byte first.
pub open spec fn split(val: u16) -> (u8, u8) {
    ((val / 0x100) as u8, (val % 0x100) as u8)
}

/// The 16-bit value of a high and a low byte.
pub open spec fn concat(high: u8, low: u8) -> u16 {
    (high * 0x100 + low) as u16
}

/// Splits a 16-bit value into its high and its low byte.
pub fn split_bytes(val: u16) -> (bytes: (u8, u8))
    ensures
        bytes == split(val),
{
    ((val / 0x100) as u8, (val % 0x100) as u8)
}

/// Joins a high and a low byte into a 16-bit value.
pub fn concat_bytes(high: u8, low: u8) -> (val: u16)
    ensures
        val == concat(high, low),
{
    (high as u16) * 0x100 + low as u16
}

/// Splitting a value and joining the halves gives the value back, and the
/// other way round.
pub proof fn lemma_split_concat(val: u16, high: u8, low: u8)
    ensures
        concat(split(val).0, split(val).1) == val,
        split(concat(high, low)) == (high, low),
{
}

impl CpuModel {
    /// The CPU at power-on, with `ppu` and `controller` on its bus: the
    /// program counter at the start of program ROM, the stack empty.
    pub open spec fn initial(ppu: PpuModel, controller: Controller) -> CpuModel {
        CpuModel {
            a: 0,
            x: 0,
            y: 0,
            sp: 0xFF,
            pc: 0x8000,
            flags: flags::CPUFlags::clear(),
            bus: bus::BusModel::initial(ppu, controller),
            interrupt: InterruptStatus::Clear,
            cycles: 0,
        }
    }

    /// The CPU after a read of bus address `addr`, with the byte read.
    pub open spec fn read(self, addr: u16) -> (CpuModel, Result<u8, Fault>) {
        let (bus, r) = self.bus.load(addr);
        (CpuModel { bus, ..self }, r)
    }

    /// The CPU after a write of `val` to bus address `addr`.
    pub open spec fn write(self, addr: u16, val: u8) -> (CpuModel, Result<(), Fault>) {
        let (bus, r) = self.bus.store(addr, val);
        (CpuModel { bus, ..self }, r)
    }

    /// The address in system RAM of the stack slot that `sp` names.
    pub open spec fn stack_slot(sp: u8) -> int {
        0x100 + sp
    }

    /// The CPU after `val` is pushed: stored where the stack pointer
    /// stands, which then moves down by one, wrapping within the page.
    pub open spec fn push(self, val: u8) -> CpuModel {
        CpuModel {
            bus: bus::BusModel {
                ram: self.bus.ram.update(Self::stack_slot(self.sp), val),
                ..self.bus
            },
            sp: self.sp.wrapping_sub(1),
            ..self
        }
    }

    /// The CPU after a pop, with the byte popped: the stack pointer moves
    /// up by one, wrapping within the page, and the byte is read where it
    /// then stands.
    pub open spec fn pop(self) -> (CpuModel, u8) {
        let sp = self.sp.wrapping_add(1);
        (CpuModel { sp, ..self }, self.bus.ram[Self::stack_slot(sp)])
    }

    /// The CPU after the byte at the program counter is fetched, with the
    /// byte. The program counter moves on by one, wrapping at the end of the
    /// address space; a fetch that faults leaves it where it is.
    pub open spec fn fetch(self) -> (CpuModel, Result<u8, Fault>) {
        let (read, r) = self.read(self.pc);
        match r {
            Err(fault) => (read, Err(fault)),
            Ok(byte) => (CpuModel { pc: self.pc.wrapping_add(1), ..read }, Ok(byte)),
        }
    }

    /// The CPU after the two bytes at the program counter are fetched, low
    /// byte first, with their 16-bit value.
    pub open spec fn fetch_word(self) -> (CpuModel, Result<u16, Fault>) {
        let (first, r) = self.read(self.pc);
        match r {
            Err(fault) => (first, Err(fault)),
            Ok(low) => {
                let (second, r) = first.read(self.pc.wrapping_add(1));
                match r {
                    Err(fault) => (second, Err(fault)),
                    Ok(high) => (
                        CpuModel { pc: self.pc.wrapping_add(2), ..second },
                        Ok(concat(high, low)),
                    ),
                }
            },
        }
    }
}

impl CPU {
    /// A CPU at power-on, with `ppu` and `controller` on its bus.
    pub fn new(ppu: PPU, controller: Controller) -> (cpu: CPU)
        ensures
            cpu@ == CpuModel::initial(ppu@, controller),
    {
        CPU {
            a: 0,
            x: 0,
            y: 0,
            sp: 0xFF,
            pc: 0x8000,
            cycles: 0,
            flags: flags::CPUFlags { n: false, v: false, d: false, i: false, z: false, c: false },
            mem: bus::CPUMem::new(ppu, controller),
            interrupt_status: InterruptStatus::Clear,
        }
    }

    /// A CPU with a blank cartridge behind a fresh PPU, and a fresh
    /// controller.
    pub fn test() -> (cpu: CPU)
        ensures
            cpu@ == CpuModel::initial(
                PpuModel::initial(crate::cartridge::CartridgeModel::blank()),
                Controller::initial(),
            ),
    {
        CPU::new(PPU::test(), Controller::new())
    }

    /// The program counter.
    pub fn get_pc(&self) -> (pc: u16)
        ensures
            pc == self@.pc,
    {
        self.pc
    }

    /// Pushes `val` on the stack.
    pub fn push(&mut self, val: u8)
        ensures
            final(self)@ == old(self)@.push(val),
    {
        self.mem.ram[0x100 + self.sp as usize] = val;
        self.sp = self.sp.wrapping_sub(1);
    }

    /// Pops a byte off the stack.
    pub fn pop(&mut self) -> (val: u8)
        ensures
            (final(self)@, val) == old(self)@.pop(),
    {
        self.sp = self.sp.wrapping_add(1);
        self.mem.ram[0x100 + self.sp as usize]
    }

    /// Fetches the two bytes at the program counter, low byte first.
    pub fn pc_getdb(&mut self) -> (r: Result<u16, Fault>)
        ensures
            (final(self)@, r) == old(self)@.fetch_word(),
    {
        let low: u8 = self.mem.loadb(self.pc)?;
        let high: u8 = self.mem.loadb(self.pc.wrapping_add(1))?;
        self.pc = self.pc.wrapping_add(2);
        Ok(concat_bytes(high, low))
    }

    /// Fetches the byte at the program counter.
    pub fn pc_getb(&mut self) -> (r: Result<u8, Fault>)
        ensures
            (final(self)@, r) == old(self)@.fetch(),
    {
        let ret: u8 = self.mem.loadb(self.pc)?;
        self.pc = self.pc.wrapping_add(1);
        Ok(ret)
    }

    /// Sets the zero flag from `result`.
    pub fn set_z(&mut self, result: u8)
        ensures
            final(self)@ == (CpuModel {
                flags: flags::CPUFlags { z: result == 0, ..old(self)@.flags },
                ..old(self)@
            }),
    {
        self.flags.z = result == 0;
    }

    /// Sets the negative flag from `result`.
    pub fn set_n(&mut self, result: u8)
        ensures
            final(self)@ == (CpuModel {
                flags: flags::CPUFlags { n: result >= 0x80, ..old(self)@.flags },
                ..old(self)@
            }),
    {
        assert((result & 0x80 != 0) == (result >= 0x80)) by (bit_vector);
        self.flags.n = result & 0x80 != 0;
    }
}

} // verus!
