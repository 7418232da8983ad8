//! The frame driver: the order in which the CPU and the PPU take their turns
//! within one video frame, and what an input event does to the machine.

use crate::cartridge::Cartridge;
use crate::controller::{Button, ButtonAction, Controller};
use crate::cpu::step::CYCLES_PER_SCANLINE;
use crate::cpu::{CpuModel, InterruptStatus, CPU};
use crate::ppu::{PpuModel, PPU};
use crate::Fault;
use vstd::prelude::*;

verus! {

/// Scanlines that the PPU renders in a frame.
pub const VISIBLE_SCANLINES: u8 = 240;

/// Scanlines from the start of the vertical blank to the end of the frame:
/// the blank itself and the line before the next frame.
pub const VBLANK_SCANLINES: usize = 21;

/// What the input source reports.
#[derive(Clone, Copy, PartialEq, Eq, Structural, Debug)]
pub enum EmulatorEvent {
    /// A button of the controller was pressed or released.
    ControllerEvent { action: ButtonAction, button: Button },
    /// Something that the machine takes no notice of.
    Continue,
    /// The session is to end.
    Exit,
}

impl CpuModel {
    /// The machine with its PPU replaced.
    pub open spec fn with_ppu(self, ppu: PpuModel) -> CpuModel {
        CpuModel { bus: crate::cpu::bus::BusModel { ppu, ..self.bus }, ..self }
    }

    /// The machine at power-on around `cart`, with a reset requested.
    pub open spec fn powered_on(cart: crate::cartridge::CartridgeModel) -> CpuModel {
        CpuModel {
            interrupt: InterruptStatus::Reset,
            ..CpuModel::initial(PpuModel::initial(cart), Controller::initial())
        }
    }

    /// The machine after the time of one scanline: the CPU runs for the
    /// cycles of a scanline.
    pub open spec fn run_scanline(self) -> (CpuModel, Result<(), Fault>) {
        self.run_until(CYCLES_PER_SCANLINE)
    }

    /// The machine after the first `n` visible scanlines of a frame. In
    /// the time of each the CPU runs first, and the PPU then renders the
    /// line from the registers as the CPU left them.
    pub open spec fn scanlines_upto(self, n: int) -> (CpuModel, Result<(), Fault>)
        decreases n,
    {
        if n <= 0 {
            (self, Ok(()))
        } else {
            let (before, r) = self.scanlines_upto(n - 1);
            match r {
                Err(fault) => (before, Err(fault)),
                Ok(()) => {
                    let (ran, r) = before.run_scanline();
                    match r {
                        Err(fault) => (ran, Err(fault)),
                        Ok(()) => {
                            let (ppu, r) = ran.bus.ppu.render_scanline(n - 1);
                            (ran.with_ppu(ppu), r)
                        },
                    }
                },
            }
        }
    }

    /// The machine at the start of the vertical blank: the PPU raises its
    /// flag, and if its control register asks for it, a non-maskable
    /// interrupt is requested of the CPU.
    pub open spec fn enter_vblank(self) -> (CpuModel, Result<(), Fault>) {
        let blanking = self.with_ppu(self.bus.ppu.with_vblank());
        if blanking.bus.ppu.nmi_enabled() {
            blanking.request(InterruptStatus::Nmi)
        } else {
            (blanking, Ok(()))
        }
    }

    /// The machine after one frame: the 240 visible scanlines, the line
    /// after them, the start of the vertical blank, the 21 lines to the end
    /// of the frame, and the end of the vertical blank. The first fault
    /// ends the frame.
    pub open spec fn frame(self) -> (CpuModel, Result<(), Fault>) {
        let (drawn, r) = self.scanlines_upto(VISIBLE_SCANLINES as int);
        match r {
            Err(fault) => (drawn, Err(fault)),
            Ok(()) => {
                let (idle, r) = drawn.run_scanline();
                match r {
                    Err(fault) => (idle, Err(fault)),
                    Ok(()) => {
                        let (blanking, r) = idle.enter_vblank();
                        match r {
                            Err(fault) => (blanking, Err(fault)),
                            Ok(()) => {
                                let (ran, r) = blanking.run_until(
                                    (VBLANK_SCANLINES * CYCLES_PER_SCANLINE) as usize,
                                );
                                match r {
                                    Err(fault) => (ran, Err(fault)),
                                    Ok(()) => (
                                        ran.with_ppu(ran.bus.ppu.without_vblank()),
                                        Ok(()),
                                    ),
                                }
                            },
                        }
                    },
                }
            },
        }
    }

    /// The machine after an input event: a button event reaches the
    /// controller, anything else changes nothing.
    pub open spec fn after_event(self, event: EmulatorEvent) -> CpuModel {
        match event {
            EmulatorEvent::ControllerEvent { action, button } => CpuModel {
                bus: crate::cpu::bus::BusModel {
                    controller: self.bus.controller.updated(action, button),
                    ..self.bus
                },
                ..self
            },
            _ => self,
        }
    }
}

/// The frame stops for good at the first fault.
pub proof fn lemma_frame_fault_ends_scanlines(cpu: CpuModel, n: int, m: int)
    requires
        n <= m,
        cpu.scanlines_upto(n).1 is Err,
    ensures
        cpu.scanlines_upto(m) == cpu.scanlines_upto(n),
    decreases m - n,
{
    if n < m {
        lemma_frame_fault_ends_scanlines(cpu, n, m - 1);
    }
}

/// At the start of the vertical blank the PPU's flag goes up, and the CPU is
/// sent a non-maskable interrupt exactly when the control register asks for
/// one; at the end of a frame the flag is down again.
pub proof fn lemma_vblank_handshake(cpu: CpuModel)
    ensures
        cpu.enter_vblank().0.bus.ppu.in_vblank(),
        cpu.enter_vblank().0.bus.ppu == cpu.bus.ppu.with_vblank(),
        cpu.bus.ppu.nmi_enabled() && cpu.interrupt == InterruptStatus::Clear ==> cpu.enter_vblank()
            == (
            CpuModel { interrupt: InterruptStatus::Nmi, ..cpu.with_ppu(cpu.bus.ppu.with_vblank()) },
            Ok::<(), Fault>(()),
        ),
        cpu.bus.ppu.nmi_enabled() && cpu.interrupt != InterruptStatus::Clear
            ==> cpu.enter_vblank().1 == Err::<(), Fault>(Fault::InterruptPending),
        !cpu.bus.ppu.nmi_enabled() ==> cpu.enter_vblank() == (
            cpu.with_ppu(cpu.bus.ppu.with_vblank()),
            Ok::<(), Fault>(()),
        ),
        cpu.frame().1 is Ok ==> !cpu.frame().0.bus.ppu.in_vblank(),
{
    let s = cpu.bus.ppu.status;
    assert((s | 0x80) & 0x80 != 0) by (bit_vector);
    assert forall|t: u8| (t & 0x7F) & 0x80 == 0 by {
        assert((t & 0x7F) & 0x80 == 0) by (bit_vector);
    }
}

/// Builds the machine around `cart` and requests the reset that starts it.
pub fn power_on(cart: Cartridge) -> (cpu: CPU)
    ensures
        cpu@ == CpuModel::powered_on(cart@),
{
    let mut cpu = CPU::new(PPU::new(cart), Controller::new());
    cpu.interrupt_status = InterruptStatus::Reset;
    cpu
}

/// Runs the machine for one frame. The pixel buffer of the PPU then holds
/// the frame.
pub fn run_frame(cpu: &mut CPU) -> (r: Result<(), Fault>)
    ensures
        (final(cpu)@, r) == old(cpu)@.frame(),
{
    let ghost start = cpu@;
    let mut scanline: u8 = 0;
    while scanline < VISIBLE_SCANLINES
        invariant
            scanline <= VISIBLE_SCANLINES,
            start == old(cpu)@,
            start.scanlines_upto(scanline as int) == (cpu@, Ok::<(), Fault>(())),
        decreases VISIBLE_SCANLINES - scanline,
    {
        let ran = cpu.step_for_scanlines(1);
        if let Err(fault) = ran {
            proof {
                lemma_frame_fault_ends_scanlines(start, scanline + 1, VISIBLE_SCANLINES as int);
            }
            return Err(fault);
        }
        let rendered = cpu.mem.ppu.render_scanline(scanline);
        if let Err(fault) = rendered {
            proof {
                lemma_frame_fault_ends_scanlines(start, scanline + 1, VISIBLE_SCANLINES as int);
            }
            return Err(fault);
        }
        scanline = scanline + 1;
    }
    // the line after the picture
    cpu.step_for_scanlines(1)?;
    cpu.mem.ppu.set_vblank();
    if cpu.mem.ppu.nmi_enabled() {
        cpu.send_nmi()?;
    }
    cpu.step_for_scanlines(VBLANK_SCANLINES)?;
    cpu.mem.ppu.clear_vblank();
    Ok(())
}

/// Applies an input event to the machine. Returns whether the session goes
/// on.
pub fn handle_event(cpu: &mut CPU, event: EmulatorEvent) -> (running: bool)
    ensures
        final(cpu)@ == old(cpu)@.after_event(event),
        running == (event != EmulatorEvent::Exit),
{
    match event {
        EmulatorEvent::Exit => false,
        EmulatorEvent::Continue => true,
        EmulatorEvent::ControllerEvent { action, button } => {
            cpu.mem.controller.update(action, button);
            true
        },
    }
}

} // verus!
