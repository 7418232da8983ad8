//! The operations of the CPU. Each takes the operand that the addressing
//! mode resolved and moves the CPU as the model says.

use crate::cpu::flags::CPUFlags;
use crate::cpu::{CpuModel, CPU};
use crate::Fault;
use vstd::pervasive::unreached;
use vstd::prelude::*;

pub mod arithmetic;
pub mod control;
pub mod decode;
pub mod transfer;

verus! {

/// The operand of an instruction, as its addressing mode resolved it.
#[derive(Clone, Copy, PartialEq, Eq, Structural, Debug)]
pub enum InstrArg {
    /// No operand: the instruction works on registers alone.
    Implied,
    /// The operand is this byte.
    Immediate(u8),
    /// The operand lies at this address.
    Address(u16),
}

impl CpuModel {
    /// The CPU after the operand that `arg` names is read, with its value:
    /// the byte itself, or the byte at the address.
    pub open spec fn operand(self, arg: InstrArg) -> (CpuModel, Result<u8, Fault>)
        recommends
            arg !is Implied,
    {
        match arg {
            InstrArg::Immediate(imm) => (self, Ok(imm)),
            InstrArg::Address(addr) => self.read(addr),
            InstrArg::Implied => (self, Ok(0u8)),
        }
    }

    /// The CPU with `val` in the accumulator and the negative and zero flags
    /// set from it.
    pub open spec fn with_a(self, val: u8) -> CpuModel {
        CpuModel { a: val, flags: self.flags.with_nz(val), ..self }
    }

    /// The CPU with `val` in index register X and the negative and zero
    /// flags set from it.
    pub open spec fn with_x(self, val: u8) -> CpuModel {
        CpuModel { x: val, flags: self.flags.with_nz(val), ..self }
    }

    /// The CPU with `val` in index register Y and the negative and zero
    /// flags set from it.
    pub open spec fn with_y(self, val: u8) -> CpuModel {
        CpuModel { y: val, flags: self.flags.with_nz(val), ..self }
    }

    /// The CPU with the negative and zero flags set from `val`.
    pub open spec fn with_nz(self, val: u8) -> CpuModel {
        CpuModel { flags: self.flags.with_nz(val), ..self }
    }

    /// The CPU with the flags of a comparison of `reg` with `val`: negative
    /// and zero from their difference, carry if `reg` is not below `val`.
    pub open spec fn compared(self, reg: u8, val: u8) -> CpuModel {
        CpuModel {
            flags: CPUFlags { c: val <= reg, ..self.flags.with_nz(reg.wrapping_sub(val)) },
            ..self
        }
    }
}

impl CPU {
    /// The value of an operand that is a byte or lies at an address.
    pub fn unwrap_imm_or_memval(&mut self, arg: InstrArg) -> (r: Result<u8, Fault>)
        requires
            arg !is Implied,
        ensures
            (final(self)@, r) == old(self)@.operand(arg),
    {
        match arg {
            InstrArg::Immediate(imm) => Ok(imm),
            InstrArg::Address(addr) => self.mem.loadb(addr),
            InstrArg::Implied => unreached(),
        }
    }

    /// The address of an operand that lies at an address.
    pub fn unwrap_addr(&self, arg: InstrArg) -> (addr: u16)
        requires
            arg is Address,
        ensures
            addr == arg->Address_0,
    {
        match arg {
            InstrArg::Address(addr) => addr,
            _ => unreached(),
        }
    }

    /// Accepts the operand of an instruction that takes none.
    pub fn unwrap_implied(&self, arg: InstrArg)
        requires
            arg is Implied,
    {
        match arg {
            InstrArg::Implied => (),
            _ => unreached(),
        }
    }

    /// Sets the negative and zero flags from `val`.
    pub fn set_nz(&mut self, val: u8)
        ensures
            final(self)@ == old(self)@.with_nz(val),
    {
        self.set_n(val);
        self.set_z(val);
    }

    /// Sets the flags of a comparison of `reg` with `val`.
    pub fn set_compare_flags(&mut self, reg: u8, val: u8)
        ensures
            final(self)@ == old(self)@.compared(reg, val),
    {
        let result: u8 = reg.wrapping_sub(val);
        self.set_n(result);
        self.set_z(result);
        self.flags.c = val <= reg;
    }
}

/// A comparison tells how a register stands to a value: the zero flag that
/// they are equal, the carry flag that the register is not below the value,
/// and the negative flag the sign of their difference as a byte. It changes
/// nothing else.
pub proof fn lemma_compare(cpu: CpuModel, reg: u8, val: u8)
    ensures
        cpu.compared(reg, val).flags.z == (reg == val),
        cpu.compared(reg, val).flags.c == (reg >= val),
        cpu.compared(reg, val).flags.n == ((reg - val) % 0x100 >= 0x80),
        cpu.compared(reg, val) == (CpuModel {
            flags: CPUFlags {
                z: cpu.compared(reg, val).flags.z,
                c: cpu.compared(reg, val).flags.c,
                n: cpu.compared(reg, val).flags.n,
                ..cpu.flags
            },
            ..cpu
        }),
{
}

} // verus!
