//! The picture processing unit: its own address space, the registers it
//! shows to the CPU, and the renderer that turns tiles and sprites into
//! pixels.

use crate::cartridge::{Cartridge, CartridgeModel};
use crate::Fault;
use vstd::prelude::*;

pub mod palette;
pub mod preview;
pub mod reg_id;
pub mod registers;
pub mod render;
pub mod timing;

verus! {

/// Pixels in one scanline.
pub const SCREEN_WIDTH: usize = 256;

/// Visible scanlines in one frame.
pub const SCREEN_HEIGHT: usize = 240;

/// Bytes that one pixel takes in the pixel buffer.
pub const BYTES_PER_PIXEL: usize = 3;

/// Length of the pixel buffer.
pub const SCREEN_SIZE: usize = SCREEN_WIDTH * SCREEN_HEIGHT * BYTES_PER_PIXEL;

/// Length of the object attribute memory.
pub const OAM_SIZE: usize = 256;

/// Length of the palette RAM.
pub const PALETTE_RAM_SIZE: usize = 0x20;

/// First address of the palette window.
pub const PALETTE_RAM_FIRST: u16 = 0x3F00;

/// Last address of the palette window, and of the PPU's address space.
pub const PALETTE_RAM_LAST: u16 = 0x3FFF;

/// The place in palette RAM that `addr` names. The window repeats every 32
/// bytes, and the first entry of each group of four is shared between the
/// background half and the sprite half.
pub open spec fn palette_slot(addr: u16) -> int {
    let offset = addr as int % 0x20;
    if offset % 4 == 0 {
        offset % 0x10
    } else {
        offset
    }
}

/// The memory that the PPU addresses: the cartridge below the palette
/// window, palette RAM inside it.
pub struct PpuMemModel {
    pub cart: CartridgeModel,
    pub palette_ram: Seq<u8>,
}

impl PpuMemModel {
    pub open spec fn wf(self) -> bool {
        &&& self.cart.wf()
        &&& self.palette_ram.len() == PALETTE_RAM_SIZE
    }

    /// The byte read at `addr`.
    pub open spec fn load(self, addr: u16) -> Result<u8, Fault> {
        if addr < PALETTE_RAM_FIRST {
            self.cart.load(addr)
        } else if addr <= PALETTE_RAM_LAST {
            Ok(self.palette_ram[palette_slot(addr)])
        } else {
            Err(Fault::PpuBus)
        }
    }

    /// The memory after `val` is written at `addr`. A write that nothing
    /// answers changes nothing.
    pub open spec fn store(self, addr: u16, val: u8) -> (PpuMemModel, Result<(), Fault>) {
        if addr < PALETTE_RAM_FIRST {
            let (cart, r) = self.cart.store(addr, val);
            (PpuMemModel { cart, ..self }, r)
        } else if addr <= PALETTE_RAM_LAST {
            (
                PpuMemModel {
                    palette_ram: self.palette_ram.update(palette_slot(addr), val),
                    ..self
                },
                Ok(()),
            )
        } else {
            (self, Err(Fault::PpuBus))
        }
    }
}

/// The memory that the PPU addresses.
#[derive(Debug)]
pub struct PPUMem {
    pub cart: Cartridge,
    pub palette_ram: [u8; PALETTE_RAM_SIZE],
}

impl View for PPUMem {
    type V = PpuMemModel;

    open spec fn view(&self) -> PpuMemModel {
        PpuMemModel { cart: self.cart@, palette_ram: self.palette_ram@ }
    }
}

impl PPUMem {
    /// The palette entry that `addr` names, wherever in the address space
    /// `addr` lies.
    pub fn palette_entry(&self, addr: u16) -> (entry: u8)
        ensures
            entry == self@.palette_ram[palette_slot(addr)],
    {
        let offset: usize = addr as usize % PALETTE_RAM_SIZE;
        let slot: usize = if offset % 4 == 0 {
            offset % 0x10
        } else {
            offset
        };
        self.palette_ram[slot]
    }

    /// Reads the byte at `addr`.
    pub fn loadb(&self, addr: u16) -> (r: Result<u8, Fault>)
        ensures
            r == self@.load(addr),
    {
        if addr < PALETTE_RAM_FIRST {
            self.cart.loadb(addr)
        } else if addr <= PALETTE_RAM_LAST {
            Ok(self.palette_entry(addr))
        } else {
            Err(Fault::PpuBus)
        }
    }

    /// Writes `val` at `addr`.
    pub fn storeb(&mut self, addr: u16, val: u8) -> (r: Result<(), Fault>)
        ensures
            (final(self)@, r) == old(self)@.store(addr, val),
    {
        if addr < PALETTE_RAM_FIRST {
            self.cart.storeb(addr, val)
        } else if addr <= PALETTE_RAM_LAST {
            let offset: usize = addr as usize % PALETTE_RAM_SIZE;
            let slot: usize = if offset % 4 == 0 {
                offset % 0x10
            } else {
                offset
            };
            self.palette_ram[slot] = val;
            Ok(())
        } else {
            Err(Fault::PpuBus)
        }
    }
}

/// The four background entries of the palette are one entry each, seen from
/// both halves: a byte written at one palette address is read back at
/// another exactly when both name the same slot, and a write leaves every
/// other slot as it was.
pub proof fn lemma_palette_mirroring(mem: PpuMemModel, written: u16, read: u16, val: u8)
    requires
        mem.wf(),
        PALETTE_RAM_FIRST <= written <= PALETTE_RAM_LAST,
        PALETTE_RAM_FIRST <= read <= PALETTE_RAM_LAST,
    ensures
        mem.store(written, val).1 is Ok,
        palette_slot(read) == palette_slot(written) ==> mem.store(written, val).0.load(read)
            == Ok::<u8, Fault>(val),
        palette_slot(read) != palette_slot(written) ==> mem.store(written, val).0.load(read)
            == mem.load(read),
        written % 4 == 0 ==> palette_slot(written) == palette_slot((written ^ 0x10) as u16),
{
    let w = written;
    let m = (w ^ 0x10) as u16;
    assert(w % 4 == 0 ==> m % 0x20 % 4 == 0 && w % 0x20 % 4 == 0 && m % 0x20 % 0x10 == w % 0x20
        % 0x10) by (bit_vector)
        requires
            m == w ^ 0x10,
    ;
}

/// The state of the PPU, as plain values.
pub struct PpuModel {
    /// Object attribute memory: 64 sprites of 4 bytes (y, tile, attributes,
    /// x).
    pub oam: Seq<u8>,
    pub mem: PpuMemModel,
    /// The frame: 3 bytes a pixel, blue first, line after line.
    pub pixeldata: Seq<u8>,
    pub control: u8,
    pub mask: u8,
    pub status: u8,
    /// Where the next access through the OAM data port goes.
    pub oam_addr: u8,
    /// The current video RAM address.
    pub v: u16,
    /// The temporary address that the scroll and address ports fill.
    pub t: u16,
    /// Fine horizontal scroll, 3 bits.
    pub x: u8,
    /// The write toggle that the scroll and address ports share: set after
    /// the first write of a pair.
    pub w: bool,
    /// The byte that the next buffered read of the data port returns.
    pub data_readbuf: u8,
    /// The dot within the scanline that the dot clock stands at.
    pub scanline_cycle: u16,
    /// The scanline that the dot clock stands at.
    pub scanline: u16,
}

impl PpuModel {
    pub open spec fn wf(self) -> bool {
        &&& self.oam.len() == OAM_SIZE
        &&& self.mem.wf()
        &&& self.pixeldata.len() == SCREEN_SIZE
    }

    /// The PPU at power-on, around `cart`: every sprite hidden, everything
    /// else zero.
    pub open spec fn initial(cart: CartridgeModel) -> PpuModel {
        PpuModel {
            oam: Seq::new(OAM_SIZE as nat, |i: int| 0xFFu8),
            mem: PpuMemModel {
                cart,
                palette_ram: Seq::new(PALETTE_RAM_SIZE as nat, |i: int| 0u8),
            },
            pixeldata: Seq::new(SCREEN_SIZE as nat, |i: int| 0u8),
            control: 0,
            mask: 0,
            status: 0,
            oam_addr: 0,
            v: 0,
            t: 0,
            x: 0,
            w: false,
            data_readbuf: 0,
            scanline_cycle: 0,
            scanline: 0,
        }
    }

    /// Whether the vertical blank flag, bit 7 of the status register, is set.
    pub open spec fn in_vblank(self) -> bool {
        self.status & 0x80 != 0
    }

    /// Whether the control register asks for an interrupt at vertical blank.
    pub open spec fn nmi_enabled(self) -> bool {
        self.control & 0x80 != 0
    }

    /// Whether the mask register shows the background.
    pub open spec fn bg_enabled(self) -> bool {
        self.mask & 0x08 != 0
    }

    /// Whether the mask register shows the sprites.
    pub open spec fn sprites_enabled(self) -> bool {
        self.mask & 0x10 != 0
    }

    /// By how much an access through the data port moves the video RAM
    /// address: a whole row of tiles if bit 2 of the control register is
    /// set, one byte if not.
    pub open spec fn vram_increment(self) -> u16 {
        if self.control & 0x04 != 0 {
            0x20
        } else {
            0x01
        }
    }

    pub open spec fn with_vblank(self) -> PpuModel {
        PpuModel { status: self.status | 0x80, ..self }
    }

    pub open spec fn without_vblank(self) -> PpuModel {
        PpuModel { status: self.status & 0x7F, ..self }
    }
}

/// The picture processing unit.
#[derive(Debug)]
pub struct PPU {
    /// Object attribute memory.
    pub oam: [u8; OAM_SIZE],
    pub mem: PPUMem,
    /// The frame: 3 bytes a pixel, blue first, line after line.
    pub pixeldata: [u8; SCREEN_SIZE],
    pub control: u8,
    pub mask: u8,
    pub status: u8,
    pub oam_addr: u8,
    /// The current video RAM address.
    pub v: u16,
    /// The temporary address.
    pub t: u16,
    /// Fine horizontal scroll.
    pub x: u8,
    /// The write toggle of the scroll and address ports.
    pub w: bool,
    /// The read buffer of the data port.
    pub data_readbuf: u8,
    /// The dot within the scanline that the dot clock stands at.
    pub scanline_cycle: u16,
    /// The scanline that the dot clock stands at.
    pub scanline: u16,
}

impl View for PPU {
    type V = PpuModel;

    open spec fn view(&self) -> PpuModel {
        PpuModel {
            oam: self.oam@,
            mem: self.mem@,
            pixeldata: self.pixeldata@,
            control: self.control,
            mask: self.mask,
            status: self.status,
            oam_addr: self.oam_addr,
            v: self.v,
            t: self.t,
            x: self.x,
            w: self.w,
            data_readbuf: self.data_readbuf,
            scanline_cycle: self.scanline_cycle,
            scanline: self.scanline,
        }
    }
}

impl PPU {
    /// A PPU at power-on, around `cart`.
    pub fn new(cart: Cartridge) -> (ppu: PPU)
        ensures
            ppu@ == PpuModel::initial(cart@),
    {
        let ppu = PPU {
            mem: PPUMem { cart, palette_ram: [0u8; PALETTE_RAM_SIZE] },
            pixeldata: [0u8; SCREEN_SIZE],
            oam: [0xFFu8; OAM_SIZE],
            control: 0,
            mask: 0,
            status: 0,
            oam_addr: 0,
            v: 0,
            x: 0,
            t: 0,
            w: false,
            data_readbuf: 0,
            scanline_cycle: 0,
            scanline: 0,
        };
        assert(ppu@.oam =~= PpuModel::initial(cart@).oam);
        assert(ppu@.mem.palette_ram =~= PpuModel::initial(cart@).mem.palette_ram);
        assert(ppu@.pixeldata =~= PpuModel::initial(cart@).pixeldata);
        ppu
    }

    /// A PPU around a blank cartridge.
    pub fn test() -> (ppu: PPU)
        ensures
            ppu@ == PpuModel::initial(CartridgeModel::blank()),
    {
        PPU::new(Cartridge::test_ref())
    }

    /// Every PPU has memories of the fixed lengths.
    pub proof fn lemma_wf(&self)
        ensures
            self@.wf(),
    {
        self.mem.cart.lemma_wf();
    }

    /// Raises the vertical blank flag.
    pub fn set_vblank(&mut self)
        ensures
            final(self)@ == old(self)@.with_vblank(),
            final(self)@.in_vblank(),
    {
        self.status = self.status | 0x80;
        let s = self.status;
        assert(s & 0x80 != 0) by (bit_vector)
            requires
                exists|o: u8| s == o | 0x80,
        ;
    }

    /// Lowers the vertical blank flag.
    pub fn clear_vblank(&mut self)
        ensures
            final(self)@ == old(self)@.without_vblank(),
            !final(self)@.in_vblank(),
    {
        self.status = self.status & 0x7F;
        let s = self.status;
        assert(s & 0x80 == 0) by (bit_vector)
            requires
                exists|o: u8| s == o & 0x7F,
        ;
    }

    /// Whether the control register asks for an interrupt at vertical blank.
    pub fn nmi_enabled(&self) -> (enabled: bool)
        ensures
            enabled == self@.nmi_enabled(),
    {
        (self.control & 0x80) != 0
    }

    /// Whether the mask register shows the background.
    pub fn bg_enabled(&self) -> (enabled: bool)
        ensures
            enabled == self@.bg_enabled(),
    {
        (self.mask & 0x08) != 0
    }

    /// Whether the mask register shows the sprites.
    pub fn sprites_enabled(&self) -> (enabled: bool)
        ensures
            enabled == self@.sprites_enabled(),
    {
        (self.mask & 0x10) != 0
    }

    /// Whether the mask register shows anything.
    pub fn rendering_enabled(&self) -> (enabled: bool)
        ensures
            enabled == (self@.bg_enabled() || self@.sprites_enabled()),
    {
        self.bg_enabled() || self.sprites_enabled()
    }

    /// The frame as rendered so far.
    pub fn get_pixeldata(&self) -> (pixels: &[u8; SCREEN_SIZE])
        ensures
            pixels@ == self@.pixeldata,
    {
        &self.pixeldata
    }
}

} // verus!
