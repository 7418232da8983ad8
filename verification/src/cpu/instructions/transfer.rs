//! Loads, stores, register transfers and the stack.

use crate::cpu::flags::CPUFlags;
use crate::cpu::instructions::InstrArg;
use crate::cpu::{CpuModel, CPU};
use crate::Fault;
use vstd::prelude::*;

verus! {

impl CpuModel {
    /// Load the accumulator.
    pub open spec fn lda(self, arg: InstrArg) -> (CpuModel, Result<(), Fault>) {
        let (read, r) = self.operand(arg);
        match r {
            Err(fault) => (read, Err(fault)),
            Ok(val) => (read.with_a(val), Ok(())),
        }
    }

    /// Load index register X.
    pub open spec fn ldx(self, arg: InstrArg) -> (CpuModel, Result<(), Fault>) {
        let (read, r) = self.operand(arg);
        match r {
            Err(fault) => (read, Err(fault)),
            Ok(val) => (read.with_x(val), Ok(())),
        }
    }

    /// Load index register Y.
    pub open spec fn ldy(self, arg: InstrArg) -> (CpuModel, Result<(), Fault>) {
        let (read, r) = self.operand(arg);
        match r {
            Err(fault) => (read, Err(fault)),
            Ok(val) => (read.with_y(val), Ok(())),
        }
    }

    /// Load the accumulator, then index register X, from the same operand.
    /// This is an undocumented operation that programs rely on.
    pub open spec fn lax(self, arg: InstrArg) -> (CpuModel, Result<(), Fault>) {
        let (loaded, r) = self.lda(arg);
        match r {
            Err(fault) => (loaded, Err(fault)),
            Ok(()) => loaded.ldx(arg),
        }
    }

    /// Store the accumulator.
    pub open spec fn sta(self, addr: u16) -> (CpuModel, Result<(), Fault>) {
        self.write(addr, self.a)
    }

    /// Store index register X.
    pub open spec fn stx(self, addr: u16) -> (CpuModel, Result<(), Fault>) {
        self.write(addr, self.x)
    }

    /// Store index register Y.
    pub open spec fn sty(self, addr: u16) -> (CpuModel, Result<(), Fault>) {
        self.write(addr, self.y)
    }

    /// Transfer X to the stack pointer. No flag changes.
    pub open spec fn txs(self) -> CpuModel {
        CpuModel { sp: self.x, ..self }
    }

    /// Pull the accumulator from the stack.
    pub open spec fn pla(self) -> CpuModel {
        let (popped, val) = self.pop();
        popped.with_a(val)
    }

    /// Push the status byte, without the break bit.
    pub open spec fn php(self) -> CpuModel {
        self.push(self.flags.pack())
    }

    /// Pull the flags from the stack.
    pub open spec fn plp(self) -> CpuModel {
        let (popped, val) = self.pop();
        CpuModel { flags: CPUFlags::unpack(val), ..popped }
    }
}

impl CPU {
    /// Loads the accumulator and index register X from the same operand.
    pub fn lax(&mut self, arg: InstrArg) -> (r: Result<(), Fault>)
        requires
            arg !is Implied,
        ensures
            (final(self)@, r) == old(self)@.lax(arg),
    {
        self.lda(arg)?;
        self.ldx(arg)
    }

    /// Pulls the accumulator from the stack.
    pub fn pla(&mut self, arg: InstrArg)
        requires
            arg is Implied,
        ensures
            final(self)@ == old(self)@.pla(),
    {
        self.unwrap_implied(arg);
        self.a = self.pop();
        let a: u8 = self.a;
        self.set_n(a);
        self.set_z(a);
    }

    /// Pushes the accumulator.
    pub fn pha(&mut self, arg: InstrArg)
        requires
            arg is Implied,
        ensures
            final(self)@ == old(self)@.push(old(self)@.a),
    {
        self.unwrap_implied(arg);
        let a: u8 = self.a;
        self.push(a);
    }

    /// Pulls the flags from the stack.
    pub fn plp(&mut self, arg: InstrArg)
        requires
            arg is Implied,
        ensures
            final(self)@ == old(self)@.plp(),
    {
        self.unwrap_implied(arg);
        let x: u8 = self.pop();
        self.flags = CPUFlags::from_byte(x);
    }

    /// Pushes the status byte.
    pub fn php(&mut self, arg: InstrArg)
        requires
            arg is Implied,
        ensures
            final(self)@ == old(self)@.php(),
    {
        self.unwrap_implied(arg);
        let result: u8 = self.flags.to_byte();
        self.push(result);
    }

    /// Transfers X to the stack pointer.
    pub fn txs(&mut self, arg: InstrArg)
        requires
            arg is Implied,
        ensures
            final(self)@ == old(self)@.txs(),
    {
        self.unwrap_implied(arg);
        self.sp = self.x;
    }

    /// Transfers the stack pointer to X.
    pub fn tsx(&mut self, arg: InstrArg)
        requires
            arg is Implied,
        ensures
            final(self)@ == old(self)@.with_x(old(self)@.sp),
    {
        self.unwrap_implied(arg);
        self.x = self.sp;
        let x: u8 = self.x;
        self.set_n(x);
        self.set_z(x);
    }

    /// Transfers Y to the accumulator.
    pub fn tya(&mut self, arg: InstrArg)
        requires
            arg is Implied,
        ensures
            final(self)@ == old(self)@.with_a(old(self)@.y),
    {
        self.unwrap_implied(arg);
        self.a = self.y;
        let a: u8 = self.a;
        self.set_n(a);
        self.set_z(a);
    }

    /// Transfers the accumulator to Y.
    pub fn tay(&mut self, arg: InstrArg)
        requires
            arg is Implied,
        ensures
            final(self)@ == old(self)@.with_y(old(self)@.a),
    {
        self.unwrap_implied(arg);
        self.y = self.a;
        let y: u8 = self.y;
        self.set_n(y);
        self.set_z(y);
    }

    /// Transfers X to the accumulator.
    pub fn txa(&mut self, arg: InstrArg)
        requires
            arg is Implied,
        ensures
            final(self)@ == old(self)@.with_a(old(self)@.x),
    {
        self.unwrap_implied(arg);
        self.a = self.x;
        let a: u8 = self.a;
        self.set_n(a);
        self.set_z(a);
    }

    /// Transfers the accumulator to X.
    pub fn tax(&mut self, arg: InstrArg)
        requires
            arg is Implied,
        ensures
            final(self)@ == old(self)@.with_x(old(self)@.a),
    {
        self.unwrap_implied(arg);
        self.x = self.a;
        let x: u8 = self.x;
        self.set_n(x);
        self.set_z(x);
    }

    /// Loads index register Y.
    pub fn ldy(&mut self, arg: InstrArg) -> (r: Result<(), Fault>)
        requires
            arg !is Implied,
        ensures
            (final(self)@, r) == old(self)@.ldy(arg),
    {
        let val: u8 = self.unwrap_imm_or_memval(arg)?;
        self.set_z(val);
        self.set_n(val);
        self.y = val;
        Ok(())
    }

    /// Loads index register X.
    pub fn ldx(&mut self, arg: InstrArg) -> (r: Result<(), Fault>)
        requires
            arg !is Implied,
        ensures
            (final(self)@, r) == old(self)@.ldx(arg),
    {
        let val: u8 = self.unwrap_imm_or_memval(arg)?;
        self.set_z(val);
        self.set_n(val);
        self.x = val;
        Ok(())
    }

    /// Loads the accumulator.
    pub fn lda(&mut self, arg: InstrArg) -> (r: Result<(), Fault>)
        requires
            arg !is Implied,
        ensures
            (final(self)@, r) == old(self)@.lda(arg),
    {
        let val: u8 = self.unwrap_imm_or_memval(arg)?;
        self.set_z(val);
        self.set_n(val);
        self.a = val;
        Ok(())
    }

    /// Stores the accumulator.
    pub fn sta(&mut self, arg: InstrArg) -> (r: Result<(), Fault>)
        requires
            arg is Address,
        ensures
            (final(self)@, r) == old(self)@.sta(arg->Address_0),
    {
        let addr: u16 = self.unwrap_addr(arg);
        self.mem.storeb(addr, self.a)
    }

    /// Stores index register X.
    pub fn stx(&mut self, arg: InstrArg) -> (r: Result<(), Fault>)
        requires
            arg is Address,
        ensures
            (final(self)@, r) == old(self)@.stx(arg->Address_0),
    {
        let addr: u16 = self.unwrap_addr(arg);
        self.mem.storeb(addr, self.x)
    }

    /// Stores index register Y.
    pub fn sty(&mut self, arg: InstrArg) -> (r: Result<(), Fault>)
        requires
            arg is Address,
        ensures
            (final(self)@, r) == old(self)@.sty(arg->Address_0),
    {
        let addr: u16 = self.unwrap_addr(arg);
        self.mem.storeb(addr, self.y)
    }
}

/// What is pushed is what is popped next, and the stack pointer is back
/// where it was: the stack pointer wraps within its page in both
/// directions.
pub proof fn lemma_push_pop(cpu: CpuModel, val: u8)
    requires
        cpu.bus.wf(),
    ensures
        cpu.push(val).pop().1 == val,
        cpu.push(val).pop().0.sp == cpu.sp,
        cpu.push(val).sp == if cpu.sp == 0 {
            0xFFu8
        } else {
            (cpu.sp - 1) as u8
        },
{
}

/// The status byte that is pushed gives back the same flags when pulled.
pub proof fn lemma_php_plp(cpu: CpuModel)
    requires
        cpu.bus.wf(),
    ensures
        cpu.php().plp().flags == cpu.flags,
        cpu.php().plp().sp == cpu.sp,
{
    cpu.flags.lemma_pack_unpack();
}

} // verus!
