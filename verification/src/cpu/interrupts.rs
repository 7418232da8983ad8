//! Interrupts: how they are requested and how the CPU enters their
//! handlers.

use crate::cpu::flags::CPUFlags;
use crate::cpu::{concat, split, CpuModel, InterruptStatus, CPU};
use crate::Fault;
use vstd::prelude::*;

verus! {

/// The address of the low byte of the vector of the non-maskable interrupt.
pub const NMI_VECTOR: u16 = 0xFFFA;

/// The address of the low byte of the reset vector.
pub const RESET_VECTOR: u16 = 0xFFFC;

/// Cycles that entering an interrupt handler takes.
pub const INTERRUPT_CYCLES: usize = 7;

impl CpuModel {
    /// The CPU after an interrupt of kind `kind` is requested. At most one
    /// request can be pending: a second one is refused and changes nothing.
    pub open spec fn request(self, kind: InterruptStatus) -> (CpuModel, Result<(), Fault>) {
        if self.interrupt == InterruptStatus::Clear {
            (CpuModel { interrupt: kind, ..self }, Ok(()))
        } else {
            (self, Err(Fault::InterruptPending))
        }
    }

    /// The CPU after it enters the handler of the non-maskable interrupt:
    /// the program counter and the status byte are pushed, the program
    /// counter is loaded from the vector, further interrupts are disabled.
    pub open spec fn nmi(self) -> (CpuModel, Result<(), Fault>) {
        self.enter_interrupt(self.pc, self.flags.pack(), NMI_VECTOR)
    }

    /// The CPU after a reset: the program counter is loaded from the reset
    /// vector and further interrupts are disabled. The stack and the other
    /// flags stay as they are.
    pub open spec fn reset(self) -> (CpuModel, Result<(), Fault>) {
        let (loaded, r) = self.load_vector(RESET_VECTOR);
        match r {
            Err(fault) => (loaded, Err(fault)),
            Ok(()) => (CpuModel { flags: CPUFlags { i: true, ..loaded.flags }, ..loaded }, Ok(())),
        }
    }
}

impl CPU {
    /// Whether an interrupt waits to be serviced.
    pub fn interrupt_pending(&self) -> (pending: bool)
        ensures
            pending == (self@.interrupt != InterruptStatus::Clear),
    {
        match self.interrupt_status {
            InterruptStatus::Clear => false,
            _ => true,
        }
    }

    fn request(&mut self, kind: InterruptStatus) -> (r: Result<(), Fault>)
        ensures
            (final(self)@, r) == old(self)@.request(kind),
    {
        if self.interrupt_pending() {
            Err(Fault::InterruptPending)
        } else {
            self.interrupt_status = kind;
            Ok(())
        }
    }

    /// Requests a reset, to be serviced by the next step.
    pub fn send_reset(&mut self) -> (r: Result<(), Fault>)
        ensures
            (final(self)@, r) == old(self)@.request(InterruptStatus::Reset),
    {
        self.request(InterruptStatus::Reset)
    }

    /// Services a reset.
    pub fn reset(&mut self) -> (r: Result<(), Fault>)
        ensures
            (final(self)@, r) == old(self)@.reset(),
    {
        self.load_vector(RESET_VECTOR)?;
        self.flags.i = true;
        Ok(())
    }

    /// Requests a non-maskable interrupt, to be serviced by the next step.
    pub fn send_nmi(&mut self) -> (r: Result<(), Fault>)
        ensures
            (final(self)@, r) == old(self)@.request(InterruptStatus::Nmi),
    {
        self.request(InterruptStatus::Nmi)
    }

    /// Services a non-maskable interrupt.
    pub fn nmi(&mut self) -> (r: Result<(), Fault>)
        ensures
            (final(self)@, r) == old(self)@.nmi(),
    {
        let status: u8 = self.flags.to_byte();
        self.enter_interrupt(self.pc, status, NMI_VECTOR)
    }
}

/// Entering the handler of a non-maskable interrupt leaves on the stack the
/// high byte of the program counter, its low byte and the status byte, in
/// this order from the top of the stack down; the program counter is what
/// the vector holds, and the interrupt disable flag is set. The status byte
/// on the stack gives back the flags as they were.
pub proof fn lemma_nmi_entry(cpu: CpuModel, low: u8, high: u8)
    requires
        cpu.bus.wf(),
        cpu.bus.ppu.mem.cart.load(NMI_VECTOR) == Ok::<u8, Fault>(low),
        cpu.bus.ppu.mem.cart.load((NMI_VECTOR + 1) as u16) == Ok::<u8, Fault>(high),
    ensures
        ({
            let (after, r) = cpu.nmi();
            let slot = |down: int| CpuModel::stack_slot(((cpu.sp - down) % 0x100) as u8);
            &&& r is Ok
            &&& after.pc == concat(high, low)
            &&& after.flags == (CPUFlags { i: true, ..cpu.flags })
            &&& after.sp == ((cpu.sp - 3) % 0x100) as u8
            &&& after.bus.ram[slot(0)] == split(cpu.pc).0
            &&& after.bus.ram[slot(1)] == split(cpu.pc).1
            &&& after.bus.ram[slot(2)] == cpu.flags.pack()
            &&& CPUFlags::unpack(after.bus.ram[slot(2)]) == cpu.flags
            &&& concat(after.bus.ram[slot(0)], after.bus.ram[slot(1)]) == cpu.pc
        }),
{
    cpu.flags.lemma_pack_unpack();
    crate::cpu::lemma_split_concat(cpu.pc, 0, 0);
}

/// A requested non-maskable interrupt is serviced by the next step, which
/// does nothing else: it takes 7 cycles, leaves the return address and the
/// status byte on the stack, continues at the address in the vector with
/// interrupts disabled, and leaves nothing pending.
pub proof fn lemma_nmi_serviced_by_next_step(cpu: CpuModel, low: u8, high: u8)
    requires
        cpu.bus.wf(),
        cpu.interrupt == InterruptStatus::Clear,
        cpu.bus.ppu.mem.cart.load(NMI_VECTOR) == Ok::<u8, Fault>(low),
        cpu.bus.ppu.mem.cart.load((NMI_VECTOR + 1) as u16) == Ok::<u8, Fault>(high),
    ensures
        ({
            let (requested, accepted) = cpu.request(InterruptStatus::Nmi);
            let (after, taken) = requested.step();
            let slot = |down: int| CpuModel::stack_slot(((cpu.sp - down) % 0x100) as u8);
            &&& accepted is Ok
            &&& taken == Ok::<usize, Fault>(INTERRUPT_CYCLES)
            &&& after.pc == concat(high, low)
            &&& after.flags == (CPUFlags { i: true, ..cpu.flags })
            &&& after.interrupt == InterruptStatus::Clear
            &&& after.sp == ((cpu.sp - 3) % 0x100) as u8
            &&& concat(after.bus.ram[slot(0)], after.bus.ram[slot(1)]) == cpu.pc
            &&& CPUFlags::unpack(after.bus.ram[slot(2)]) == cpu.flags
            &&& (after.a, after.x, after.y) == (cpu.a, cpu.x, cpu.y)
        }),
{
    reveal(CpuModel::step);
    let requested = cpu.request(InterruptStatus::Nmi).0;
    lemma_nmi_entry(requested, low, high);
}

/// A second request before the first is serviced is refused, whatever the
/// two requests are, and leaves the first one pending.
pub proof fn lemma_one_request_pending(
    cpu: CpuModel,
    first: InterruptStatus,
    second: InterruptStatus,
)
    requires
        cpu.interrupt == InterruptStatus::Clear,
        first != InterruptStatus::Clear,
    ensures
        cpu.request(first).1 is Ok,
        cpu.request(first).0.request(second) == (
            cpu.request(first).0,
            Err::<(), Fault>(Fault::InterruptPending),
        ),
        cpu.request(first).0.interrupt == first,
{
}

} // verus!
