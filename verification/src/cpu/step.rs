//! The step: service a pending interrupt, or fetch, decode and execute one
//! instruction; and the run of steps that fills the time of a scanline.

use crate::cpu::flags::CPUFlags;
use crate::cpu::instructions::arithmetic::Shift;
use crate::cpu::instructions::decode::{fetch_and_decode, DecodeResult, Instr, Op};
use crate::cpu::interrupts::INTERRUPT_CYCLES;
use crate::cpu::{CpuModel, InterruptStatus, CPU};
use crate::Fault;
use vstd::prelude::*;

verus! {

/// CPU cycles in the time of one scanline.
pub const CYCLES_PER_SCANLINE: usize = 114;

impl CpuModel {
    /// The CPU with its flags replaced.
    pub open spec fn with_flags(self, flags: CPUFlags) -> CpuModel {
        CpuModel { flags, ..self }
    }

    /// The CPU after operation `op` is executed. An opcode without defined
    /// behaviour is a fault.
    #[verifier::opaque]
    pub open spec fn execute(self, op: Op) -> (CpuModel, Result<(), Fault>)
        recommends
            op.instr.accepts(op.arg),
    {
        match op.instr {
            Instr::Adc => self.adc(op.arg),
            Instr::And => self.and(op.arg),
            Instr::Asl => self.shift(Shift::Asl, op.arg),
            Instr::Bcc => (self.branch(!self.flags.c, op.arg->Address_0), Ok(())),
            Instr::Bcs => (self.branch(self.flags.c, op.arg->Address_0), Ok(())),
            Instr::Beq => (self.branch(self.flags.z, op.arg->Address_0), Ok(())),
            Instr::Bit => self.bit(op.arg->Address_0),
            Instr::Bmi => (self.branch(self.flags.n, op.arg->Address_0), Ok(())),
            Instr::Bne => (self.branch(!self.flags.z, op.arg->Address_0), Ok(())),
            Instr::Bpl => (self.branch(!self.flags.n, op.arg->Address_0), Ok(())),
            Instr::Brk => self.brk(),
            Instr::Bvc => (self.branch(!self.flags.v, op.arg->Address_0), Ok(())),
            Instr::Bvs => (self.branch(self.flags.v, op.arg->Address_0), Ok(())),
            Instr::Clc => (self.with_flags(CPUFlags { c: false, ..self.flags }), Ok(())),
            Instr::Cld => (self.with_flags(CPUFlags { d: false, ..self.flags }), Ok(())),
            Instr::Cli => (self.with_flags(CPUFlags { i: false, ..self.flags }), Ok(())),
            Instr::Clv => (self.with_flags(CPUFlags { v: false, ..self.flags }), Ok(())),
            Instr::Cmp => self.compare(self.a, op.arg),
            Instr::Cpx => self.compare(self.x, op.arg),
            Instr::Cpy => self.compare(self.y, op.arg),
            Instr::Dec => self.step_memory(op.arg->Address_0, 0xFF),
            Instr::Dex => (self.with_x(self.x.wrapping_sub(1)), Ok(())),
            Instr::Dey => (self.with_y(self.y.wrapping_sub(1)), Ok(())),
            Instr::Eor => self.eor(op.arg),
            Instr::Inc => self.step_memory(op.arg->Address_0, 1),
            Instr::Inx => (self.with_x(self.x.wrapping_add(1)), Ok(())),
            Instr::Iny => (self.with_y(self.y.wrapping_add(1)), Ok(())),
            Instr::Jmp => (self.jump(op.arg->Address_0), Ok(())),
            Instr::Jsr => (self.jsr(op.arg->Address_0), Ok(())),
            Instr::Lax => self.lax(op.arg),
            Instr::Lda => self.lda(op.arg),
            Instr::Ldx => self.ldx(op.arg),
            Instr::Ldy => self.ldy(op.arg),
            Instr::Lsr => self.shift(Shift::Lsr, op.arg),
            Instr::Nop => (self, Ok(())),
            Instr::Ora => self.ora(op.arg),
            Instr::Pha => (self.push(self.a), Ok(())),
            Instr::Php => (self.php(), Ok(())),
            Instr::Pla => (self.pla(), Ok(())),
            Instr::Plp => (self.plp(), Ok(())),
            Instr::Rol => self.shift(Shift::Rol, op.arg),
            Instr::Ror => self.shift(Shift::Ror, op.arg),
            Instr::Rti => (self.rti(), Ok(())),
            Instr::Rts => (self.rts(), Ok(())),
            Instr::Sbc => self.sbc(op.arg),
            Instr::Sec => (self.with_flags(CPUFlags { c: true, ..self.flags }), Ok(())),
            Instr::Sed => (self.with_flags(CPUFlags { d: true, ..self.flags }), Ok(())),
            Instr::Sei => (self.with_flags(CPUFlags { i: true, ..self.flags }), Ok(())),
            Instr::Sta => self.sta(op.arg->Address_0),
            Instr::Stx => self.stx(op.arg->Address_0),
            Instr::Sty => self.sty(op.arg->Address_0),
            Instr::Tax => (self.with_x(self.a), Ok(())),
            Instr::Tay => (self.with_y(self.a), Ok(())),
            Instr::Tsx => (self.with_x(self.sp), Ok(())),
            Instr::Txa => (self.with_a(self.x), Ok(())),
            Instr::Txs => (self.txs(), Ok(())),
            Instr::Tya => (self.with_a(self.y), Ok(())),
            Instr::Unimpl => (self, Err(Fault::Opcode)),
        }
    }

    /// The CPU after one step, with the cycles the step took. A pending
    /// interrupt is serviced, which takes 7 cycles, and nothing else
    /// happens in the step; a pending interrupt request of the maskable
    /// kind is a fault. With nothing pending, the instruction at the program
    /// counter is executed; it takes the cycles of its opcode, a penalty if
    /// an index crossed a page, and the cycles for which a sprite DMA
    /// transfer has stalled the CPU, which are taken off the bus.
    #[verifier::opaque]
    pub open spec fn step(self) -> (CpuModel, Result<usize, Fault>) {
        match self.interrupt {
            InterruptStatus::Nmi => {
                let (entered, r) = self.nmi();
                match r {
                    Err(fault) => (entered, Err(fault)),
                    Ok(()) => (
                        CpuModel { interrupt: InterruptStatus::Clear, ..entered },
                        Ok(INTERRUPT_CYCLES),
                    ),
                }
            },
            InterruptStatus::Reset => {
                let (entered, r) = self.reset();
                match r {
                    Err(fault) => (entered, Err(fault)),
                    Ok(()) => (
                        CpuModel { interrupt: InterruptStatus::Clear, ..entered },
                        Ok(INTERRUPT_CYCLES),
                    ),
                }
            },
            InterruptStatus::Irq => (self, Err(Fault::Irq)),
            InterruptStatus::Clear => {
                let (decoded, r) = self.decode();
                match r {
                    Err(fault) => (decoded, Err(fault)),
                    Ok(instruction) => {
                        let (executed, r) = decoded.execute(instruction.op);
                        match r {
                            Err(fault) => (executed, Err(fault)),
                            Ok(()) => (
                                CpuModel { bus: executed.bus.without_stall(), ..executed },
                                Ok(
                                    (instruction.num_cycles
                                        + executed.bus.stalled_cycles) as usize,
                                ),
                            ),
                        }
                    },
                }
            },
        }
    }

    /// The CPU after it has run for `budget` cycles: it steps until the
    /// cycles it has run reach the budget, and keeps what it ran beyond it
    /// for the next run. The first step that faults ends the run.
    pub open spec fn run_until(self, budget: usize) -> (CpuModel, Result<(), Fault>)
        decreases budget - self.cycles,
    {
        if self.cycles >= budget {
            (CpuModel { cycles: (self.cycles - budget) as usize, ..self }, Ok(()))
        } else {
            let (stepped, r) = self.step();
            match r {
                Err(fault) => (stepped, Err(fault)),
                Ok(taken) => if self.cycles + taken >= budget {
                    (
                        CpuModel { cycles: (self.cycles + taken - budget) as usize, ..stepped },
                        Ok(()),
                    )
                } else {
                    proof {
                        lemma_step_cycles(self);
                    }
                    (CpuModel { cycles: (self.cycles + taken) as usize, ..stepped }).run_until(
                        budget,
                    )
                },
            }
        }
    }
}

/// A step takes at least 2 cycles, leaves the count of cycles run as it
/// is, and leaves no interrupt pending: every run of steps comes to an end.
pub proof fn lemma_step_cycles(cpu: CpuModel)
    ensures
        cpu.step().1 matches Ok(taken) ==> 2 <= taken <= 9 + 0xFFFF,
        cpu.step().0.cycles == cpu.cycles,
        cpu.step().1 is Ok ==> cpu.step().0.interrupt == InterruptStatus::Clear,
{
    reveal(CpuModel::step);
    crate::cpu::instructions::decode::lemma_decode_accepted(cpu);
    if cpu.interrupt == InterruptStatus::Clear {
        let (decoded, r) = cpu.decode();
        crate::cpu::instructions::decode::lemma_decode_keeps(cpu);
        if let Ok(instruction) = r {
            lemma_execute_keeps(decoded, instruction.op);
        }
    }
}

/// No operation touches the count of cycles run or the pending interrupt.
pub proof fn lemma_execute_keeps(cpu: CpuModel, op: Op)
    ensures
        cpu.execute(op).0.cycles == cpu.cycles,
        cpu.execute(op).0.interrupt == cpu.interrupt,
{
    reveal(CpuModel::execute);
    match op.instr {
        Instr::Adc => {},
        Instr::And => {},
        Instr::Asl => {},
        Instr::Bcc => {},
        Instr::Bcs => {},
        Instr::Beq => {},
        Instr::Bit => {},
        Instr::Bmi => {},
        Instr::Bne => {},
        Instr::Bpl => {},
        Instr::Brk => {},
        Instr::Bvc => {},
        Instr::Bvs => {},
        Instr::Clc => {},
        Instr::Cld => {},
        Instr::Cli => {},
        Instr::Clv => {},
        Instr::Cmp => {},
        Instr::Cpx => {},
        Instr::Cpy => {},
        Instr::Dec => {},
        Instr::Dex => {},
        Instr::Dey => {},
        Instr::Eor => {},
        Instr::Inc => {},
        Instr::Inx => {},
        Instr::Iny => {},
        Instr::Jmp => {},
        Instr::Jsr => {},
        Instr::Lax => {},
        Instr::Lda => {},
        Instr::Ldx => {},
        Instr::Ldy => {},
        Instr::Lsr => {},
        Instr::Nop => {},
        Instr::Ora => {},
        Instr::Pha => {},
        Instr::Php => {},
        Instr::Pla => {},
        Instr::Plp => {},
        Instr::Rol => {},
        Instr::Ror => {},
        Instr::Rti => {},
        Instr::Rts => {},
        Instr::Sbc => {},
        Instr::Sec => {},
        Instr::Sed => {},
        Instr::Sei => {},
        Instr::Sta => {},
        Instr::Stx => {},
        Instr::Sty => {},
        Instr::Tax => {},
        Instr::Tay => {},
        Instr::Tsx => {},
        Instr::Txa => {},
        Instr::Txs => {},
        Instr::Tya => {},
        Instr::Unimpl => {},
    }
}

impl CPU {
    /// Executes operation `op`.
    pub fn execute(&mut self, op: Op) -> (r: Result<(), Fault>)
        requires
            op.instr.accepts(op.arg),
        ensures
            (final(self)@, r) == old(self)@.execute(op),
    {
        reveal(CpuModel::execute);
        match op.instr {
            Instr::Adc => self.adc(op.arg),
            Instr::And => self.and(op.arg),
            Instr::Asl => self.asl(op.arg),
            Instr::Bcc => {
                self.bcc(op.arg);
                Ok(())
            },
            Instr::Bcs => {
                self.bcs(op.arg);
                Ok(())
            },
            Instr::Beq => {
                self.beq(op.arg);
                Ok(())
            },
            Instr::Bit => self.bit(op.arg),
            Instr::Bmi => {
                self.bmi(op.arg);
                Ok(())
            },
            Instr::Bne => {
                self.bne(op.arg);
                Ok(())
            },
            Instr::Bpl => {
                self.bpl(op.arg);
                Ok(())
            },
            Instr::Brk => self.brk(op.arg),
            Instr::Bvc => {
                self.bvc(op.arg);
                Ok(())
            },
            Instr::Bvs => {
                self.bvs(op.arg);
                Ok(())
            },
            Instr::Clc => {
                self.clc(op.arg);
                Ok(())
            },
            Instr::Cld => {
                self.cld(op.arg);
                Ok(())
            },
            Instr::Cli => {
                self.cli(op.arg);
                Ok(())
            },
            Instr::Clv => {
                self.clv(op.arg);
                Ok(())
            },
            Instr::Cmp => self.cmp(op.arg),
            Instr::Cpx => self.cpx(op.arg),
            Instr::Cpy => self.cpy(op.arg),
            Instr::Dec => self.dec(op.arg),
            Instr::Dex => {
                self.dex(op.arg);
                Ok(())
            },
            Instr::Dey => {
                self.dey(op.arg);
                Ok(())
            },
            Instr::Eor => self.eor(op.arg),
            Instr::Inc => self.inc(op.arg),
            Instr::Inx => {
                self.inx(op.arg);
                Ok(())
            },
            Instr::Iny => {
                self.iny(op.arg);
                Ok(())
            },
            Instr::Jmp => {
                self.jmp(op.arg);
                Ok(())
            },
            Instr::Jsr => {
                self.jsr(op.arg);
                Ok(())
            },
            Instr::Lax => self.lax(op.arg),
            Instr::Lda => self.lda(op.arg),
            Instr::Ldx => self.ldx(op.arg),
            Instr::Ldy => self.ldy(op.arg),
            Instr::Lsr => self.lsr(op.arg),
            Instr::Nop => {
                self.nop(op.arg);
                Ok(())
            },
            Instr::Ora => self.ora(op.arg),
            Instr::Pha => {
                self.pha(op.arg);
                Ok(())
            },
            Instr::Php => {
                self.php(op.arg);
                Ok(())
            },
            Instr::Pla => {
                self.pla(op.arg);
                Ok(())
            },
            Instr::Plp => {
                self.plp(op.arg);
                Ok(())
            },
            Instr::Rol => self.rol(op.arg),
            Instr::Ror => self.ror(op.arg),
            Instr::Rti => {
                self.rti(op.arg);
                Ok(())
            },
            Instr::Rts => {
                self.rts(op.arg);
                Ok(())
            },
            Instr::Sbc => self.sbc(op.arg),
            Instr::Sec => {
                self.sec(op.arg);
                Ok(())
            },
            Instr::Sed => {
                self.sed(op.arg);
                Ok(())
            },
            Instr::Sei => {
                self.sei(op.arg);
                Ok(())
            },
            Instr::Sta => self.sta(op.arg),
            Instr::Stx => self.stx(op.arg),
            Instr::Sty => self.sty(op.arg),
            Instr::Tax => {
                self.tax(op.arg);
                Ok(())
            },
            Instr::Tay => {
                self.tay(op.arg);
                Ok(())
            },
            Instr::Tsx => {
                self.tsx(op.arg);
                Ok(())
            },
            Instr::Txa => {
                self.txa(op.arg);
                Ok(())
            },
            Instr::Txs => {
                self.txs(op.arg);
                Ok(())
            },
            Instr::Tya => {
                self.tya(op.arg);
                Ok(())
            },
            Instr::Unimpl => self.unimpl(op.arg),
        }
    }

    /// Services the pending interrupt, or executes the next instruction.
    /// Returns the cycles that took.
    pub fn step(&mut self) -> (r: Result<usize, Fault>)
        ensures
            (final(self)@, r) == old(self)@.step(),
            r matches Ok(taken) ==> 2 <= taken <= 9 + 0xFFFF,
    {
        proof {
            reveal(CpuModel::step);
            lemma_step_cycles(self@);
        }
        match self.interrupt_status {
            InterruptStatus::Nmi => {
                self.nmi()?;
                self.interrupt_status = InterruptStatus::Clear;
                return Ok(INTERRUPT_CYCLES);
            },
            InterruptStatus::Reset => {
                self.reset()?;
                self.interrupt_status = InterruptStatus::Clear;
                return Ok(INTERRUPT_CYCLES);
            },
            InterruptStatus::Irq => {
                return Err(Fault::Irq);
            },
            InterruptStatus::Clear => {},
        }
        let decode_result: DecodeResult = fetch_and_decode(self)?;
        self.execute(decode_result.op)?;
        let stalled: usize = self.mem.fetch_stalled_cycles();
        Ok(decode_result.num_cycles + stalled)
    }

    /// Runs the CPU for the time of `num_scanlines` scanlines.
    pub fn step_for_scanlines(&mut self, num_scanlines: usize) -> (r: Result<(), Fault>)
        requires
            num_scanlines <= usize::MAX / CYCLES_PER_SCANLINE,
        ensures
            (final(self)@, r) == old(self)@.run_until(
                (CYCLES_PER_SCANLINE * num_scanlines) as usize,
            ),
    {
        let budget: usize = CYCLES_PER_SCANLINE * num_scanlines;
        while self.cycles < budget
            invariant
                budget == CYCLES_PER_SCANLINE * num_scanlines,
                old(self)@.run_until(budget) == self@.run_until(budget),
            decreases budget - self.cycles,
        {
            let ghost before = self@;
            proof {
                lemma_step_cycles(before);
            }
            let taken: usize = self.step()?;
            if taken >= budget - self.cycles {
                self.cycles = taken - (budget - self.cycles);
                return Ok(());
            }
            self.cycles = self.cycles + taken;
            assert(self@ == (CpuModel {
                cycles: (before.cycles + taken) as usize,
                ..before.step().0
            }));
        }
        self.cycles = self.cycles - budget;
        Ok(())
    }
}

} // verus!
