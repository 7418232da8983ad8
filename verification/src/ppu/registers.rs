//! The eight registers through which the CPU drives the PPU.

use crate::ppu::reg_id::{
    ADDRESS, CONTROL, DATA, MASK, OAMADDR, OAMDATA, REGISTERS, SCROLL, STATUS,
};
use crate::ppu::{PpuModel, PALETTE_RAM_FIRST, PPU};
use crate::Fault;
use vstd::prelude::*;

verus! {

/// The temporary address with its nametable bits (10 and 11) taken from the
/// low two bits of a value written to the control register.
pub open spec fn t_with_nametable(t: u16, val: u8) -> u16 {
    (t & 0xF3FF) | (((val & 0x03) as u16) << 10)
}

/// The temporary address with its coarse horizontal scroll (bits 0 to 4)
/// taken from the high five bits of the first scroll write.
pub open spec fn t_with_scroll_x(t: u16, val: u8) -> u16 {
    (t & 0xFFE0) | (((val & 0xF8) as u16) >> 3)
}

/// The temporary address with its fine vertical scroll (bits 12 to 14) and
/// its coarse vertical scroll (bits 5 to 9) taken from the second scroll
/// write.
pub open spec fn t_with_scroll_y(t: u16, val: u8) -> u16 {
    (t & 0x8C1F) | (((val & 0x07) as u16) << 12) | (((val & 0xF8) as u16) << 2)
}

/// The temporary address with bits 8 to 13 taken from the first address
/// write, and nothing above them.
pub open spec fn t_with_address_high(t: u16, val: u8) -> u16 {
    (t & 0x00FF) | (((val & 0x3F) as u16) << 8)
}

/// The temporary address with its low byte taken from the second address
/// write.
pub open spec fn t_with_address_low(t: u16, val: u8) -> u16 {
    (t & 0xFF00) | (val as u16)
}

impl PpuModel {
    /// A read of the data port. The byte comes from the current address,
    /// which then moves on. Below the palette window the port answers with
    /// what the previous read left in the buffer and keeps the byte for the
    /// next one; inside it the byte comes out at once. Where the address
    /// names no memory the read faults and changes nothing.
    pub open spec fn read_data(self) -> (PpuModel, Result<u8, Fault>) {
        match self.mem.load(self.v) {
            Err(fault) => (self, Err(fault)),
            Ok(byte) => {
                let moved = PpuModel { v: self.v.wrapping_add(self.vram_increment()), ..self };
                if self.v < PALETTE_RAM_FIRST {
                    (PpuModel { data_readbuf: byte, ..moved }, Ok(self.data_readbuf))
                } else {
                    (moved, Ok(byte))
                }
            },
        }
    }

    /// A write to the data port: the byte goes to the current address,
    /// which then moves on. Where the address names no memory the write
    /// faults and changes nothing.
    pub open spec fn write_data(self, val: u8) -> (PpuModel, Result<(), Fault>) {
        let (mem, r) = self.mem.store(self.v, val);
        match r {
            Err(fault) => (self, Err(fault)),
            Ok(()) => (
                PpuModel { mem, v: self.v.wrapping_add(self.vram_increment()), ..self },
                Ok(()),
            ),
        }
    }

    /// A write to the OAM data port: the byte goes where the cursor stands,
    /// and the cursor moves on by one, wrapping.
    pub open spec fn write_oam(self, val: u8) -> PpuModel {
        PpuModel {
            oam: self.oam.update(self.oam_addr as int, val),
            oam_addr: self.oam_addr.wrapping_add(1),
            ..self
        }
    }

    /// A write to the scroll port. The toggle decides which half it fills.
    pub open spec fn write_scroll(self, val: u8) -> PpuModel {
        if !self.w {
            PpuModel { t: t_with_scroll_x(self.t, val), x: val & 0x07, w: true, ..self }
        } else {
            PpuModel { t: t_with_scroll_y(self.t, val), w: false, ..self }
        }
    }

    /// A write to the address port. The toggle decides which half it
    /// fills; the second write also makes the temporary address the current
    /// one.
    pub open spec fn write_address(self, val: u8) -> PpuModel {
        if !self.w {
            PpuModel { t: t_with_address_high(self.t, val), w: true, ..self }
        } else {
            let t = t_with_address_low(self.t, val);
            PpuModel { t, v: t, w: false, ..self }
        }
    }

    /// A read of register `reg`, with the value it returns. Only the
    /// status, OAM data and data registers can be read; the others answer 0.
    /// A read of the status register returns it, then lowers the vertical
    /// blank flag and clears the write toggle. A number beyond the eight
    /// registers is a fault.
    pub open spec fn reg_read(self, reg: u8) -> (PpuModel, Result<u8, Fault>) {
        if reg >= REGISTERS {
            (self, Err(Fault::Register))
        } else if reg == STATUS {
            (PpuModel { w: false, ..self.without_vblank() }, Ok(self.status))
        } else if reg == OAMDATA {
            (self, Ok(self.oam[self.oam_addr as int]))
        } else if reg == DATA {
            self.read_data()
        } else {
            (self, Ok(0u8))
        }
    }

    /// A write of `val` to register `reg`. The status register ignores
    /// writes. A number beyond the eight registers is a fault.
    pub open spec fn reg_write(self, reg: u8, val: u8) -> (PpuModel, Result<(), Fault>) {
        if reg >= REGISTERS {
            (self, Err(Fault::Register))
        } else if reg == CONTROL {
            (PpuModel { control: val, t: t_with_nametable(self.t, val), ..self }, Ok(()))
        } else if reg == MASK {
            (PpuModel { mask: val, ..self }, Ok(()))
        } else if reg == OAMADDR {
            (PpuModel { oam_addr: val, ..self }, Ok(()))
        } else if reg == OAMDATA {
            (self.write_oam(val), Ok(()))
        } else if reg == SCROLL {
            (self.write_scroll(val), Ok(()))
        } else if reg == ADDRESS {
            (self.write_address(val), Ok(()))
        } else if reg == DATA {
            self.write_data(val)
        } else {
            (self, Ok(()))
        }
    }
}

impl PPU {
    fn vram_increment(&self) -> (inc: u16)
        ensures
            inc == self@.vram_increment(),
    {
        if self.control & 0x04 != 0 {
            0x20
        } else {
            0x01
        }
    }

    /// Reads register `reg_num`.
    pub fn reg_read(&mut self, reg_num: u8) -> (r: Result<u8, Fault>)
        ensures
            (final(self)@, r) == old(self)@.reg_read(reg_num),
    {
        if reg_num >= REGISTERS {
            Err(Fault::Register)
        } else if reg_num == STATUS {
            let status: u8 = self.status;
            self.w = false;
            self.status = self.status & 0x7F;
            Ok(status)
        } else if reg_num == OAMDATA {
            Ok(self.oam[self.oam_addr as usize])
        } else if reg_num == DATA {
            let addr: u16 = self.v;
            let byte: u8 = self.mem.loadb(addr)?;
            self.v = self.v.wrapping_add(self.vram_increment());
            if addr < PALETTE_RAM_FIRST {
                let ret: u8 = self.data_readbuf;
                self.data_readbuf = byte;
                Ok(ret)
            } else {
                Ok(byte)
            }
        } else {
            Ok(0)
        }
    }

    /// Writes `val` to register `reg_num`.
    pub fn reg_write(&mut self, reg_num: u8, val: u8) -> (r: Result<(), Fault>)
        ensures
            (final(self)@, r) == old(self)@.reg_write(reg_num, val),
    {
        if reg_num >= REGISTERS {
            return Err(Fault::Register);
        }
        if reg_num == CONTROL {
            self.control = val;
            self.t = (self.t & 0xF3FF) | (((val & 0x03) as u16) << 10);
        } else if reg_num == MASK {
            self.mask = val;
        } else if reg_num == OAMADDR {
            self.oam_addr = val;
        } else if reg_num == OAMDATA {
            self.oamdma_write(val);
        } else if reg_num == SCROLL {
            if !self.w {
                self.t = (self.t & 0xFFE0) | (((val & 0xF8) as u16) >> 3);
                self.x = val & 0x07;
                self.w = true;
            } else {
                self.t = (self.t & 0x8C1F) | (((val & 0x07) as u16) << 12) | (((val & 0xF8) as u16)
                    << 2);
                self.w = false;
            }
        } else if reg_num == ADDRESS {
            if !self.w {
                self.t = (self.t & 0x00FF) | (((val & 0x3F) as u16) << 8);
                self.w = true;
            } else {
                self.t = (self.t & 0xFF00) | (val as u16);
                self.v = self.t;
                self.w = false;
            }
        } else if reg_num == DATA {
            let inc: u16 = self.vram_increment();
            self.mem.storeb(self.v, val)?;
            self.v = self.v.wrapping_add(inc);
        }
        Ok(())
    }

    /// Writes one byte of a sprite DMA transfer, which goes through the OAM
    /// data port.
    pub fn oamdma_write(&mut self, val: u8)
        ensures
            final(self)@ == old(self)@.write_oam(val),
            (final(self)@, Ok::<(), Fault>(())) == old(self)@.reg_write(OAMDATA, val),
    {
        self.oam[self.oam_addr as usize] = val;
        self.oam_addr = self.oam_addr.wrapping_add(1);
    }
}

/// Two writes to the address port, begun with the toggle clear, set the
/// current address to the low six bits of the first byte followed by the
/// second byte, and leave the toggle clear again, so that a third write
/// begins a new pair: it does not touch the current address.
pub proof fn lemma_address_port_pairs(ppu: PpuModel, high: u8, low: u8, third: u8)
    requires
        !ppu.w,
    ensures
        ({
            let first = ppu.reg_write(ADDRESS, high).0;
            let second = first.reg_write(ADDRESS, low).0;
            let after = second.reg_write(ADDRESS, third).0;
            &&& first.w
            &&& first.v == ppu.v
            &&& !second.w
            &&& second.v == (high as int % 0x40) * 0x100 + low
            &&& after.w
            &&& after.v == second.v
        }),
{
    let t = ppu.t;
    assert(t_with_address_low(t_with_address_high(t, high), low) == (high % 0x40) * 0x100 + low)
        by (bit_vector);
}

/// The scroll port fills the temporary address and the fine scroll only: no
/// write to it changes the current address, and its two writes alternate on
/// the same toggle that the address port uses.
pub proof fn lemma_scroll_port_keeps_address(ppu: PpuModel, val: u8)
    ensures
        ppu.reg_write(SCROLL, val).0.v == ppu.v,
        ppu.reg_write(SCROLL, val).0.w == !ppu.w,
        ppu.reg_write(ADDRESS, val).0.w == !ppu.w,
        ppu.reg_write(ADDRESS, val).0.v != ppu.v ==> ppu.w,
{
}

/// A read of the status register clears the write toggle, whatever it was,
/// and lowers the vertical blank flag after returning it.
pub proof fn lemma_status_read(ppu: PpuModel)
    ensures
        ppu.reg_read(STATUS).1 == Ok::<u8, Fault>(ppu.status),
        !ppu.reg_read(STATUS).0.w,
        !ppu.reg_read(STATUS).0.in_vblank(),
{
    let s = ppu.status;
    assert((s & 0x7F) & 0x80 == 0) by (bit_vector);
}

/// The data port reads one byte behind. At an address below the palette
/// window the read returns what was in the buffer before and leaves the
/// byte at the address in the buffer; at a palette address it returns the
/// byte at the address at once and leaves the buffer alone.
pub proof fn lemma_data_port_read(ppu: PpuModel, byte: u8)
    requires
        ppu.mem.load(ppu.v) == Ok::<u8, Fault>(byte),
    ensures
        ppu.v < PALETTE_RAM_FIRST ==> ppu.reg_read(DATA).1 == Ok::<u8, Fault>(ppu.data_readbuf)
            && ppu.reg_read(DATA).0.data_readbuf == byte,
        ppu.v >= PALETTE_RAM_FIRST ==> ppu.reg_read(DATA).1 == Ok::<u8, Fault>(byte)
            && ppu.reg_read(DATA).0.data_readbuf == ppu.data_readbuf,
        ppu.reg_read(DATA).0.v == ppu.v.wrapping_add(ppu.vram_increment()),
{
}

} // verus!
