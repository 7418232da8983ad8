//! The CPU's memory bus: system RAM, the PPU's registers, the controller,
//! the sprite DMA trigger and the cartridge, each behind its range of
//! addresses.

use crate::controller::Controller;
use crate::ppu::{PpuModel, PPU};
use crate::Fault;
use vstd::prelude::*;

verus! {

/// Length of system RAM.
pub const RAM_SIZE: u16 = 0x0800;

/// Length of system RAM, as the length of an array.
pub const RAM_LEN: usize = 0x0800;

/// Last address of system RAM and its mirrors.
pub const RAM_LAST: u16 = 0x1FFF;

/// First address of the PPU registers.
pub const PPUREGS_FIRST: u16 = 0x2000;

/// Last address of the PPU registers and their mirrors.
pub const PPUREGS_LAST: u16 = 0x3FFF;

/// Number of PPU registers.
pub const PPUREGS_SIZE: u16 = 0x0008;

/// First address of the sound and input registers.
pub const IO_FIRST: u16 = 0x4000;

/// Last address of the sound and input registers.
pub const IO_LAST: u16 = 0x4017;

/// The address that starts a sprite DMA transfer when written.
pub const OAMDMA: u16 = 0x4014;

/// The address of the first controller.
pub const CONTROLLER_1: u16 = 0x4016;

/// First address of the cartridge window.
pub const CART_FIRST: u16 = 0x4020;

/// Cycles for which a sprite DMA transfer stalls the CPU.
pub const OAMDMA_CYCLES: u16 = 514;

/// What is on the CPU's bus, as plain values.
pub struct BusModel {
    pub ram: Seq<u8>,
    pub ppu: PpuModel,
    pub controller: Controller,
    /// Cycles that the CPU has been stalled for and has not accounted for
    /// yet.
    pub stalled_cycles: u16,
}

impl BusModel {
    pub open spec fn wf(self) -> bool {
        &&& self.ram.len() == RAM_LEN
        &&& self.ppu.wf()
    }

    /// The bus at power-on, with `ppu` and `controller` on it.
    pub open spec fn initial(ppu: PpuModel, controller: Controller) -> BusModel {
        BusModel {
            ram: Seq::new(RAM_LEN as nat, |i: int| 0u8),
            ppu,
            controller,
            stalled_cycles: 0,
        }
    }

    /// The bus after a read at `addr`, with the byte read. System RAM
    /// repeats every 2 KiB and the PPU registers every 8 bytes; the sound
    /// registers and the DMA trigger read as 0; the addresses between the
    /// input registers and the cartridge window belong to nothing. A read
    /// of a PPU register or of the controller changes the device.
    pub open spec fn load(self, addr: u16) -> (BusModel, Result<u8, Fault>) {
        if addr <= RAM_LAST {
            (self, Ok(self.ram[addr as int % RAM_LEN as int]))
        } else if addr <= PPUREGS_LAST {
            let (ppu, r) = self.ppu.reg_read((addr % PPUREGS_SIZE) as u8);
            (BusModel { ppu, ..self }, r)
        } else if addr == CONTROLLER_1 {
            (
                BusModel { controller: self.controller.after_read(), ..self },
                Ok(self.controller.next_bit()),
            )
        } else if addr <= IO_LAST {
            (self, Ok(0u8))
        } else if addr < CART_FIRST {
            (self, Err(Fault::CpuBus))
        } else {
            (self, self.ppu.mem.cart.load(addr))
        }
    }

    /// The bus after the first `n` bytes of page `page` are copied into
    /// object attribute memory, each read through the bus and written
    /// through the OAM data port. The first read that faults ends the
    /// transfer.
    pub open spec fn dma_upto(self, page: u8, n: int) -> (BusModel, Result<(), Fault>)
        decreases n,
    {
        if n <= 0 {
            (self, Ok(()))
        } else {
            let (copied, r) = self.dma_upto(page, n - 1);
            match r {
                Err(fault) => (copied, Err(fault)),
                Ok(()) => {
                    let (read, r) = copied.load((page * 0x100 + n - 1) as u16);
                    match r {
                        Err(fault) => (read, Err(fault)),
                        Ok(byte) => (BusModel { ppu: read.ppu.write_oam(byte), ..read }, Ok(())),
                    }
                },
            }
        }
    }

    /// The bus after a sprite DMA transfer of page `page`: all 256 bytes
    /// are copied, and the CPU is stalled for the time that takes.
    pub open spec fn oamdma(self, page: u8) -> (BusModel, Result<(), Fault>) {
        let (copied, r) = self.dma_upto(page, 0x100);
        match r {
            Err(fault) => (copied, Err(fault)),
            Ok(()) => (BusModel { stalled_cycles: OAMDMA_CYCLES, ..copied }, Ok(())),
        }
    }

    /// The bus after a write of `val` at `addr`. A write to the sound
    /// registers does nothing; a write to the controller's address sets its
    /// strobe; a write to the DMA trigger runs the transfer.
    pub open spec fn store(self, addr: u16, val: u8) -> (BusModel, Result<(), Fault>) {
        if addr <= RAM_LAST {
            (BusModel { ram: self.ram.update(addr as int % RAM_LEN as int, val), ..self }, Ok(()))
        } else if addr <= PPUREGS_LAST {
            let (ppu, r) = self.ppu.reg_write((addr % PPUREGS_SIZE) as u8, val);
            (BusModel { ppu, ..self }, r)
        } else if addr == OAMDMA {
            self.oamdma(val)
        } else if addr == CONTROLLER_1 {
            (BusModel { controller: self.controller.strobed(val), ..self }, Ok(()))
        } else if addr <= IO_LAST {
            (self, Ok(()))
        } else if addr < CART_FIRST {
            (self, Err(Fault::CpuBus))
        } else {
            let (cart, r) = self.ppu.mem.cart.store(addr, val);
            (
                BusModel {
                    ppu: PpuModel {
                        mem: crate::ppu::PpuMemModel { cart, ..self.ppu.mem },
                        ..self.ppu
                    },
                    ..self
                },
                r,
            )
        }
    }

    /// The bus after the stalled cycles are taken off it.
    pub open spec fn without_stall(self) -> BusModel {
        BusModel { stalled_cycles: 0, ..self }
    }
}

/// The bus of the CPU and the devices on it.
#[derive(Debug)]
pub struct CPUMem {
    /// System RAM.
    pub ram: [u8; RAM_LEN],
    /// The PPU, which holds the cartridge.
    pub ppu: PPU,
    pub controller: Controller,
    /// Cycles that the CPU has been stalled for and has not accounted for
    /// yet.
    pub stalled_cycles: u16,
}

impl View for CPUMem {
    type V = BusModel;

    open spec fn view(&self) -> BusModel {
        BusModel {
            ram: self.ram@,
            ppu: self.ppu@,
            controller: self.controller,
            stalled_cycles: self.stalled_cycles,
        }
    }
}

impl CPUMem {
    /// A bus at power-on, with `ppu` and `controller` on it.
    pub fn new(ppu: PPU, controller: Controller) -> (mem: CPUMem)
        ensures
            mem@ == BusModel::initial(ppu@, controller),
    {
        let mem = CPUMem { ram: [0u8; RAM_LEN], ppu, controller, stalled_cycles: 0 };
        assert(mem@.ram =~= BusModel::initial(ppu@, controller).ram);
        mem
    }

    /// Every bus has memories of the fixed lengths.
    pub proof fn lemma_wf(&self)
        ensures
            self@.wf(),
    {
        self.ppu.lemma_wf();
    }

    /// Reads the byte at `addr`.
    pub fn loadb(&mut self, addr: u16) -> (r: Result<u8, Fault>)
        ensures
            (final(self)@, r) == old(self)@.load(addr),
    {
        if addr <= RAM_LAST {
            Ok(self.ram[addr as usize % RAM_LEN])
        } else if addr <= PPUREGS_LAST {
            self.ppu.reg_read((addr % PPUREGS_SIZE) as u8)
        } else if addr == CONTROLLER_1 {
            Ok(self.controller.read_next())
        } else if addr <= IO_LAST {
            Ok(0)
        } else if addr < CART_FIRST {
            Err(Fault::CpuBus)
        } else {
            self.ppu.mem.cart.loadb(addr)
        }
    }

    /// Writes `val` at `addr`.
    pub fn storeb(&mut self, addr: u16, val: u8) -> (r: Result<(), Fault>)
        ensures
            (final(self)@, r) == old(self)@.store(addr, val),
    {
        if addr <= RAM_LAST {
            self.ram[addr as usize % RAM_LEN] = val;
            Ok(())
        } else if addr <= PPUREGS_LAST {
            self.ppu.reg_write((addr % PPUREGS_SIZE) as u8, val)
        } else if addr == OAMDMA {
            self.oamdma(val)
        } else if addr == CONTROLLER_1 {
            self.controller.set_strobe(val);
            Ok(())
        } else if addr <= IO_LAST {
            Ok(())
        } else if addr < CART_FIRST {
            Err(Fault::CpuBus)
        } else {
            self.ppu.mem.cart.storeb(addr, val)
        }
    }

    /// Copies page `page_num` into object attribute memory and stalls the
    /// CPU for the duration.
    pub fn oamdma(&mut self, page_num: u8) -> (r: Result<(), Fault>)
        ensures
            (final(self)@, r) == old(self)@.oamdma(page_num),
    {
        let src_addr: u16 = (page_num as u16) * 0x100;
        let ghost start = self@;
        let mut i: u16 = 0;
        while i < 256
            invariant
                i <= 256,
                src_addr == page_num * 0x100,
                start == old(self)@,
                start.dma_upto(page_num, i as int) == (self@, Ok::<(), Fault>(())),
            decreases 256 - i,
        {
            let ghost before = self@;
            let loaded = self.loadb(src_addr + i);
            match loaded {
                Err(fault) => {
                    proof {
                        assert(start.dma_upto(page_num, i + 1) == (self@, Err::<(), Fault>(fault)));
                        lemma_dma_fault_ends_transfer(start, page_num, i + 1, 0x100);
                    }
                    return Err(fault);
                },
                Ok(val) => {
                    self.ppu.oamdma_write(val);
                },
            }
            i = i + 1;
        }
        self.stalled_cycles = OAMDMA_CYCLES;
        Ok(())
    }

    /// Takes the stalled cycles off the bus.
    pub fn fetch_stalled_cycles(&mut self) -> (cycles: usize)
        ensures
            cycles == old(self)@.stalled_cycles,
            final(self)@ == old(self)@.without_stall(),
    {
        let ret: usize = self.stalled_cycles as usize;
        self.stalled_cycles = 0;
        ret
    }
}

/// A transfer stops for good at the first fault.
pub proof fn lemma_dma_fault_ends_transfer(bus: BusModel, page: u8, n: int, m: int)
    requires
        n <= m,
        bus.dma_upto(page, n).1 is Err,
    ensures
        bus.dma_upto(page, m) == bus.dma_upto(page, n),
    decreases m - n,
{
    if n < m {
        lemma_dma_fault_ends_transfer(bus, page, n, m - 1);
    }
}

/// Where the cursor of object attribute memory stands after `n` bytes are
/// written from `start`.
pub open spec fn oam_cursor(start: u8, n: int) -> int {
    (start + n) % 0x100
}

proof fn lemma_cursor_visits_once(start: u8, i: int, j: int)
    requires
        0 <= i < 0x100,
        0 <= j < 0x100,
    ensures
        i != j ==> oam_cursor(start, i) != oam_cursor(start, j),
        0 <= oam_cursor(start, i) < 0x100,
        oam_cursor(start, i + 1) == (oam_cursor(start, i) + 1) % 0x100,
        oam_cursor(start, 0) == start,
        oam_cursor(start, 0x100) == start,
{
}

proof fn lemma_dma_from_ram_upto(bus: BusModel, page: u8, n: int)
    requires
        bus.wf(),
        page <= 0x1F,
        0 <= n <= 0x100,
    ensures
        bus.dma_upto(page, n).1 is Ok,
        bus.dma_upto(page, n).0.ppu.oam.len() == 0x100,
        bus.dma_upto(page, n).0.ppu.oam_addr == oam_cursor(bus.ppu.oam_addr, n),
        bus.dma_upto(page, n).0 == (BusModel {
            ppu: PpuModel {
                oam: bus.dma_upto(page, n).0.ppu.oam,
                oam_addr: bus.dma_upto(page, n).0.ppu.oam_addr,
                ..bus.ppu
            },
            ..bus
        }),
        forall|i: int|
            0 <= i < n ==> bus.dma_upto(page, n).0.ppu.oam[#[trigger] oam_cursor(
                bus.ppu.oam_addr,
                i,
            )] == bus.ram[(page * 0x100 + i) % 0x800],
    decreases n,
{
    let start = bus.ppu.oam_addr;
    if n > 0 {
        lemma_dma_from_ram_upto(bus, page, n - 1);
        let before = bus.dma_upto(page, n - 1).0;
        let copied = bus.dma_upto(page, n).0;
        let at = oam_cursor(start, n - 1);
        let byte = bus.ram[(page * 0x100 + n - 1) % 0x800];
        lemma_cursor_visits_once(start, n - 1, 0);
        assert(before.load((page * 0x100 + n - 1) as u16) == (before, Ok::<u8, Fault>(byte)));
        assert(copied.ppu == before.ppu.write_oam(byte));
        assert(copied.ppu.oam == before.ppu.oam.update(at, byte));
        assert(copied.ppu.oam_addr == oam_cursor(start, n));
        assert forall|i: int| 0 <= i < n implies copied.ppu.oam[#[trigger] oam_cursor(start, i)]
            == bus.ram[(page * 0x100 + i) % 0x800] by {
            if i < n - 1 {
                lemma_cursor_visits_once(start, i, n - 1);
            }
        }
    }
}

/// A sprite DMA transfer from a page of system RAM copies the 256 bytes of
/// the page into object attribute memory, beginning where the cursor stands
/// and wrapping at the end, so that the cursor stands where it began and
/// every byte of object attribute memory is written once. It stalls the CPU
/// for 514 cycles and changes nothing else.
pub proof fn lemma_dma_from_ram(bus: BusModel, page: u8)
    requires
        bus.wf(),
        page <= 0x1F,
    ensures
        ({
            let (after, r) = bus.oamdma(page);
            &&& r is Ok
            &&& after == (BusModel {
                ppu: PpuModel { oam: after.ppu.oam, ..bus.ppu },
                stalled_cycles: OAMDMA_CYCLES,
                ..bus
            })
            &&& after.ppu.oam.len() == 0x100
            &&& forall|i: int|
                0 <= i < 0x100 ==> after.ppu.oam[#[trigger] oam_cursor(bus.ppu.oam_addr, i)]
                    == bus.ram[(page * 0x100 + i) % 0x800]
        }),
{
    lemma_dma_from_ram_upto(bus, page, 0x100);
}

/// System RAM answers at every address up to 0x1FFF, and an address and its
/// mirrors 2 KiB apart name the same byte: a byte written through one is
/// read back through the other.
pub proof fn lemma_ram_mirrors(bus: BusModel, written: u16, read: u16, val: u8)
    requires
        bus.wf(),
        written <= RAM_LAST,
        read <= RAM_LAST,
    ensures
        bus.store(written, val).1 is Ok,
        bus.load(read).0 == bus,
        read % 0x800 == written % 0x800 ==> bus.store(written, val).0.load(read).1 == Ok::<
            u8,
            Fault,
        >(val),
        read % 0x800 != written % 0x800 ==> bus.store(written, val).0.load(read).1 == bus.load(
            read,
        ).1,
{
}

/// The eight registers of the PPU answer at every address from 0x2000 to
/// 0x3FFF, every 8 bytes again: two addresses 8 apart do the same.
pub proof fn lemma_ppu_registers_mirror(bus: BusModel, first: u16, second: u16, val: u8)
    requires
        PPUREGS_FIRST <= first <= PPUREGS_LAST,
        PPUREGS_FIRST <= second <= PPUREGS_LAST,
        first % 8 == second % 8,
    ensures
        bus.load(first) == bus.load(second),
        bus.store(first, val) == bus.store(second, val),
{
}

/// The bus maps the whole 16-bit address space but for the eight addresses
/// from 0x4018 to 0x401F: a read faults there, and elsewhere outside the
/// cartridge window it succeeds unless the PPU's data port faults.
pub proof fn lemma_bus_map(bus: BusModel, addr: u16)
    ensures
        IO_LAST < addr < CART_FIRST ==> bus.load(addr) == (bus, Err::<u8, Fault>(Fault::CpuBus)),
        IO_LAST < addr < CART_FIRST ==> forall|val: u8|
            bus.store(addr, val) == (bus, Err::<(), Fault>(Fault::CpuBus)),
        addr <= RAM_LAST || IO_FIRST <= addr <= IO_LAST ==> bus.load(addr).1 is Ok,
        PPUREGS_FIRST <= addr <= PPUREGS_LAST && addr % 8 != 7 ==> bus.load(addr).1 is Ok,
        addr >= CART_FIRST ==> bus.load(addr) == (bus, bus.ppu.mem.cart.load(addr)),
{
}

} // verus!
