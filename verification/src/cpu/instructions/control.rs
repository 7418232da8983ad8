//! Jumps, branches, subroutines, interrupts by software, and the flag
//! switches.

use crate::cpu::flags::{CPUFlags, BREAK_FLAG};
use crate::cpu::instructions::InstrArg;
use crate::cpu::{concat, concat_bytes, split, split_bytes, CpuModel, CPU};
use crate::Fault;
use vstd::prelude::*;

verus! {

/// The address of the low byte of the vector that a break and an interrupt
/// request share.
pub const BRK_VECTOR: u16 = 0xFFFE;

impl CpuModel {
    /// The CPU with the program counter at `addr`.
    pub open spec fn jump(self, addr: u16) -> CpuModel {
        CpuModel { pc: addr, ..self }
    }

    /// The CPU after a branch to `addr` that is taken if `taken`.
    pub open spec fn branch(self, taken: bool, addr: u16) -> CpuModel {
        if taken {
            self.jump(addr)
        } else {
            self
        }
    }

    /// Jump to a subroutine: the address of the last byte of the
    /// instruction is pushed, high byte first.
    pub open spec fn jsr(self, addr: u16) -> CpuModel {
        let ret = split(self.pc.wrapping_sub(1));
        self.push(ret.0).push(ret.1).jump(addr)
    }

    /// Return from a subroutine: to the byte after the address that is
    /// pulled.
    pub open spec fn rts(self) -> CpuModel {
        let (first, low) = self.pop();
        let (second, high) = first.pop();
        second.jump(concat(high, low).wrapping_add(1))
    }

    /// Return from an interrupt: the flags are pulled, then the program
    /// counter.
    pub open spec fn rti(self) -> CpuModel {
        let (first, status) = self.pop();
        let (second, low) = first.pop();
        let (third, high) = second.pop();
        CpuModel { flags: CPUFlags::unpack(status), pc: concat(high, low), ..third }
    }

    /// The CPU after the 16-bit value at `addr` and the address after it
    /// is loaded into the program counter, low byte first.
    pub open spec fn load_vector(self, addr: u16) -> (CpuModel, Result<(), Fault>) {
        let (first, r) = self.read(addr);
        match r {
            Err(fault) => (first, Err(fault)),
            Ok(low) => {
                let (second, r) = first.read(addr.wrapping_add(1));
                match r {
                    Err(fault) => (second, Err(fault)),
                    Ok(high) => (second.jump(concat(high, low)), Ok(())),
                }
            },
        }
    }

    /// The CPU after it enters an interrupt handler: `ret` is pushed, high
    /// byte first, then `status`; the program counter is loaded from the
    /// vector at `vector`; the interrupt disable flag is set.
    pub open spec fn enter_interrupt(self, ret: u16, status: u8, vector: u16) -> (
        CpuModel,
        Result<(), Fault>,
    ) {
        let pushed = self.push(split(ret).0).push(split(ret).1).push(status);
        let (loaded, r) = pushed.load_vector(vector);
        match r {
            Err(fault) => (loaded, Err(fault)),
            Ok(()) => (CpuModel { flags: CPUFlags { i: true, ..loaded.flags }, ..loaded }, Ok(())),
        }
    }

    /// Break: an interrupt by software. The return address skips the byte
    /// after the opcode, and the status byte on the stack has the break bit
    /// set.
    pub open spec fn brk(self) -> (CpuModel, Result<(), Fault>) {
        self.enter_interrupt(self.pc.wrapping_add(1), self.flags.pack() | BREAK_FLAG, BRK_VECTOR)
    }
}

impl CPU {
    /// Loads the program counter from the vector at `addr`.
    pub fn load_vector(&mut self, addr: u16) -> (r: Result<(), Fault>)
        ensures
            (final(self)@, r) == old(self)@.load_vector(addr),
    {
        let dest_low: u8 = self.mem.loadb(addr)?;
        let dest_high: u8 = self.mem.loadb(addr.wrapping_add(1))?;
        self.pc = concat_bytes(dest_high, dest_low);
        Ok(())
    }

    /// Enters an interrupt handler.
    pub fn enter_interrupt(&mut self, ret: u16, status: u8, vector: u16) -> (r: Result<(), Fault>)
        ensures
            (final(self)@, r) == old(self)@.enter_interrupt(ret, status, vector),
    {
        let ret_bytes: (u8, u8) = split_bytes(ret);
        self.push(ret_bytes.0);
        self.push(ret_bytes.1);
        self.push(status);
        self.load_vector(vector)?;
        self.flags.i = true;
        Ok(())
    }

    /// Returns from an interrupt handler.
    pub fn rti(&mut self, arg: InstrArg)
        requires
            arg is Implied,
        ensures
            final(self)@ == old(self)@.rti(),
    {
        self.unwrap_implied(arg);
        let status: u8 = self.pop();
        self.flags = CPUFlags::from_byte(status);
        let ret_low: u8 = self.pop();
        let ret_high: u8 = self.pop();
        self.pc = concat_bytes(ret_high, ret_low);
    }

    /// Enters the break handler.
    pub fn brk(&mut self, arg: InstrArg) -> (r: Result<(), Fault>)
        requires
            arg is Implied,
        ensures
            (final(self)@, r) == old(self)@.brk(),
    {
        self.unwrap_implied(arg);
        let status: u8 = self.flags.to_byte() | BREAK_FLAG;
        self.enter_interrupt(self.pc.wrapping_add(1), status, BRK_VECTOR)
    }

    /// Returns from a subroutine.
    pub fn rts(&mut self, arg: InstrArg)
        requires
            arg is Implied,
        ensures
            final(self)@ == old(self)@.rts(),
    {
        self.unwrap_implied(arg);
        let ret_low: u8 = self.pop();
        let ret_high: u8 = self.pop();
        self.pc = concat_bytes(ret_high, ret_low).wrapping_add(1);
    }

    /// Jumps to a subroutine.
    pub fn jsr(&mut self, arg: InstrArg)
        requires
            arg is Address,
        ensures
            final(self)@ == old(self)@.jsr(arg->Address_0),
    {
        let dest: u16 = self.unwrap_addr(arg);
        // the program counter stands behind the instruction: the address
        // pushed is that of its last byte
        let ret: (u8, u8) = split_bytes(self.pc.wrapping_sub(1));
        self.push(ret.0);
        self.push(ret.1);
        self.pc = dest;
    }

    /// Jumps.
    pub fn jmp(&mut self, arg: InstrArg)
        requires
            arg is Address,
        ensures
            final(self)@ == old(self)@.jump(arg->Address_0),
    {
        self.pc = self.unwrap_addr(arg);
    }

    /// Branch if the negative flag is clear.
    pub fn bpl(&mut self, arg: InstrArg)
        requires
            !old(self).flags.n ==> arg is Address,
        ensures
            final(self)@ == old(self)@.branch(!old(self)@.flags.n, arg->Address_0),
    {
        if !self.flags.n {
            self.jmp(arg)
        }
    }

    /// Branch if the negative flag is set.
    pub fn bmi(&mut self, arg: InstrArg)
        requires
            old(self).flags.n ==> arg is Address,
        ensures
            final(self)@ == old(self)@.branch(old(self)@.flags.n, arg->Address_0),
    {
        if self.flags.n {
            self.jmp(arg)
        }
    }

    /// Branch if the overflow flag is clear.
    pub fn bvc(&mut self, arg: InstrArg)
        requires
            !old(self).flags.v ==> arg is Address,
        ensures
            final(self)@ == old(self)@.branch(!old(self)@.flags.v, arg->Address_0),
    {
        if !self.flags.v {
            self.jmp(arg)
        }
    }

    /// Branch if the overflow flag is set.
    pub fn bvs(&mut self, arg: InstrArg)
        requires
            old(self).flags.v ==> arg is Address,
        ensures
            final(self)@ == old(self)@.branch(old(self)@.flags.v, arg->Address_0),
    {
        if self.flags.v {
            self.jmp(arg)
        }
    }

    /// Branch if the carry flag is clear.
    pub fn bcc(&mut self, arg: InstrArg)
        requires
            !old(self).flags.c ==> arg is Address,
        ensures
            final(self)@ == old(self)@.branch(!old(self)@.flags.c, arg->Address_0),
    {
        if !self.flags.c {
            self.jmp(arg)
        }
    }

    /// Branch if the carry flag is set.
    pub fn bcs(&mut self, arg: InstrArg)
        requires
            old(self).flags.c ==> arg is Address,
        ensures
            final(self)@ == old(self)@.branch(old(self)@.flags.c, arg->Address_0),
    {
        if self.flags.c {
            self.jmp(arg)
        }
    }

    /// Branch if the zero flag is clear.
    pub fn bne(&mut self, arg: InstrArg)
        requires
            !old(self).flags.z ==> arg is Address,
        ensures
            final(self)@ == old(self)@.branch(!old(self)@.flags.z, arg->Address_0),
    {
        if !self.flags.z {
            self.jmp(arg)
        }
    }

    /// Branch if the zero flag is set.
    pub fn beq(&mut self, arg: InstrArg)
        requires
            old(self).flags.z ==> arg is Address,
        ensures
            final(self)@ == old(self)@.branch(old(self)@.flags.z, arg->Address_0),
    {
        if self.flags.z {
            self.jmp(arg)
        }
    }

    /// The operation behind every opcode without defined behaviour: a
    /// fault, whatever the operand.
    pub fn unimpl(&mut self, _arg: InstrArg) -> (r: Result<(), Fault>)
        ensures
            final(self)@ == old(self)@,
            r == Err::<(), Fault>(Fault::Opcode),
    {
        Err(Fault::Opcode)
    }

    /// No operation, whatever the operand.
    pub fn nop(&mut self, _arg: InstrArg)
        ensures
            final(self)@ == old(self)@,
    {
    }

    /// Clears the overflow flag.
    pub fn clv(&mut self, arg: InstrArg)
        requires
            arg is Implied,
        ensures
            final(self)@ == (CpuModel {
                flags: CPUFlags { v: false, ..old(self)@.flags },
                ..old(self)@
            }),
    {
        self.unwrap_implied(arg);
        self.flags.v = false;
    }

    /// Sets the interrupt disable flag.
    pub fn sei(&mut self, arg: InstrArg)
        requires
            arg is Implied,
        ensures
            final(self)@ == (CpuModel {
                flags: CPUFlags { i: true, ..old(self)@.flags },
                ..old(self)@
            }),
    {
        self.unwrap_implied(arg);
        self.flags.i = true;
    }

    /// Clears the interrupt disable flag.
    pub fn cli(&mut self, arg: InstrArg)
        requires
            arg is Implied,
        ensures
            final(self)@ == (CpuModel {
                flags: CPUFlags { i: false, ..old(self)@.flags },
                ..old(self)@
            }),
    {
        self.unwrap_implied(arg);
        self.flags.i = false;
    }

    /// Sets the decimal flag.
    pub fn sed(&mut self, arg: InstrArg)
        requires
            arg is Implied,
        ensures
            final(self)@ == (CpuModel {
                flags: CPUFlags { d: true, ..old(self)@.flags },
                ..old(self)@
            }),
    {
        self.unwrap_implied(arg);
        self.flags.d = true;
    }

    /// Clears the decimal flag.
    pub fn cld(&mut self, arg: InstrArg)
        requires
            arg is Implied,
        ensures
            final(self)@ == (CpuModel {
                flags: CPUFlags { d: false, ..old(self)@.flags },
                ..old(self)@
            }),
    {
        self.unwrap_implied(arg);
        self.flags.d = false;
    }

    /// Sets the carry flag.
    pub fn sec(&mut self, arg: InstrArg)
        requires
            arg is Implied,
        ensures
            final(self)@ == (CpuModel {
                flags: CPUFlags { c: true, ..old(self)@.flags },
                ..old(self)@
            }),
    {
        self.unwrap_implied(arg);
        self.flags.c = true;
    }

    /// Clears the carry flag.
    pub fn clc(&mut self, arg: InstrArg)
        requires
            arg is Implied,
        ensures
            final(self)@ == (CpuModel {
                flags: CPUFlags { c: false, ..old(self)@.flags },
                ..old(self)@
            }),
    {
        self.unwrap_implied(arg);
        self.flags.c = false;
    }
}

/// A subroutine call and the return from it leave the program counter
/// behind the call and the stack pointer where it was.
pub proof fn lemma_jsr_rts(cpu: CpuModel, addr: u16)
    requires
        cpu.bus.wf(),
    ensures
        cpu.jsr(addr).pc == addr,
        cpu.jsr(addr).rts().pc == cpu.pc,
        cpu.jsr(addr).rts().sp == cpu.sp,
{
    let ret = cpu.pc.wrapping_sub(1);
    crate::cpu::lemma_split_concat(ret, 0, 0);
}

} // verus!
