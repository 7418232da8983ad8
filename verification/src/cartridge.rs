//! The cartridge: program ROM, pattern ROM and the on-board video RAM that
//! backs the nametables.

use crate::Fault;
use vstd::prelude::*;
use vstd::slice::{slice_subrange, slice_to_vec};

verus! {

/// Length of the image header.
pub const HEADER_SIZE: usize = 16;

/// Length of one program ROM bank.
pub const PRGROM_BANK_SIZE: usize = 16384;

/// Length of one pattern ROM bank.
pub const CHRROM_BANK_SIZE: usize = 8192;

/// Length of the on-board video RAM.
pub const VRAM_SIZE: usize = 0x0800;

/// Last address of the pattern window.
pub const CHR_LAST: u16 = 0x1FFF;

/// First address of the video RAM window.
pub const VRAM_FIRST: u16 = 0x2000;

/// Last address of the video RAM window.
pub const VRAM_LAST: u16 = 0x3EFF;

/// First address of the program window.
pub const PRG_FIRST: u16 = 0x8000;

/// What a cartridge holds, as plain sequences of bytes.
pub struct CartridgeModel {
    pub prgrom: Seq<u8>,
    pub chrrom: Seq<u8>,
    pub vram: Seq<u8>,
}

impl CartridgeModel {
    /// The video RAM has its fixed length.
    pub open spec fn wf(self) -> bool {
        self.vram.len() == VRAM_SIZE
    }

    /// The period with which program ROM repeats in the program window. The
    /// length is kept in 16 bits, so a ROM of 64 KiB or a multiple of it
    /// leaves the window empty, as an absent ROM does.
    pub open spec fn prg_period(self) -> int {
        self.prgrom.len() as int % 0x1_0000
    }

    /// Where in program ROM the byte for `addr` lies.
    pub open spec fn prg_index(self, addr: u16) -> int
        recommends
            addr >= PRG_FIRST,
            self.prg_period() > 0,
    {
        (addr - PRG_FIRST) % self.prg_period()
    }

    /// Whether any memory answers at `addr`.
    pub open spec fn maps(self, addr: u16) -> bool {
        if addr <= CHR_LAST {
            addr < self.chrrom.len()
        } else if addr <= VRAM_LAST {
            true
        } else if addr >= PRG_FIRST {
            self.prg_period() > 0
        } else {
            false
        }
    }

    /// The byte read at `addr`.
    pub open spec fn load(self, addr: u16) -> Result<u8, Fault> {
        if !self.maps(addr) {
            Err(Fault::Cartridge)
        } else if addr <= CHR_LAST {
            Ok(self.chrrom[addr as int])
        } else if addr <= VRAM_LAST {
            Ok(self.vram[addr as int % VRAM_SIZE as int])
        } else {
            Ok(self.prgrom[self.prg_index(addr)])
        }
    }

    /// The cartridge after `val` is written at `addr`. A write that nothing
    /// answers leaves the cartridge as it was.
    pub open spec fn store(self, addr: u16, val: u8) -> (CartridgeModel, Result<(), Fault>) {
        if !self.maps(addr) {
            (self, Err(Fault::Cartridge))
        } else if addr <= CHR_LAST {
            (CartridgeModel { chrrom: self.chrrom.update(addr as int, val), ..self }, Ok(()))
        } else if addr <= VRAM_LAST {
            (
                CartridgeModel {
                    vram: self.vram.update(addr as int % VRAM_SIZE as int, val),
                    ..self
                },
                Ok(()),
            )
        } else {
            (
                CartridgeModel {
                    prgrom: self.prgrom.update(self.prg_index(addr), val),
                    ..self
                },
                Ok(()),
            )
        }
    }

    /// The cartridge that an image describes: the header names the number of
    /// program and pattern banks, and the banks follow it in that order.
    pub open spec fn of_image(data: Seq<u8>) -> Result<CartridgeModel, Fault> {
        if data.len() < HEADER_SIZE {
            Err(Fault::Image)
        } else {
            let prg_end = HEADER_SIZE + PRGROM_BANK_SIZE * data[4];
            let chr_end = prg_end + CHRROM_BANK_SIZE * data[5];
            if data.len() < chr_end {
                Err(Fault::Image)
            } else {
                Ok(
                    CartridgeModel {
                        prgrom: data.subrange(HEADER_SIZE as int, prg_end),
                        chrrom: data.subrange(prg_end, chr_end),
                        vram: Seq::new(VRAM_SIZE as nat, |i: int| 0u8),
                    },
                )
            }
        }
    }

    /// A cartridge of 32 KiB of program ROM and 8 KiB of pattern ROM, all
    /// zero.
    pub open spec fn blank() -> CartridgeModel {
        CartridgeModel {
            prgrom: Seq::new(0x8000, |i: int| 0u8),
            chrrom: Seq::new(0x2000, |i: int| 0u8),
            vram: Seq::new(VRAM_SIZE as nat, |i: int| 0u8),
        }
    }
}

/// The program window shows program ROM from 0x8000 on. A ROM of one bank
/// is seen twice, at 0x8000 and at 0xC000; one of two banks fills the
/// window.
pub proof fn lemma_program_window(cart: CartridgeModel, addr: u16)
    requires
        addr >= PRG_FIRST,
    ensures
        cart.prgrom.len() == PRGROM_BANK_SIZE ==> cart.load(addr) == Ok::<u8, Fault>(
            cart.prgrom[(addr - PRG_FIRST) % PRGROM_BANK_SIZE as int],
        ),
        cart.prgrom.len() == PRGROM_BANK_SIZE && addr < 0xC000 ==> cart.load(addr) == cart.load(
            (addr + PRGROM_BANK_SIZE) as u16,
        ),
        cart.prgrom.len() == 2 * PRGROM_BANK_SIZE ==> cart.load(addr) == Ok::<u8, Fault>(
            cart.prgrom[addr - PRG_FIRST],
        ),
{
    if cart.prgrom.len() == 2 * PRGROM_BANK_SIZE {
        assert(cart.prg_period() == 0x8000);
        assert((addr - PRG_FIRST) % 0x8000 == addr - PRG_FIRST);
    }
}

/// What is written is read back, wherever the cartridge answers, and a
/// write changes the byte behind no other address of the same window but
/// its mirrors.
pub proof fn lemma_store_then_load(cart: CartridgeModel, addr: u16, val: u8)
    requires
        cart.wf(),
        cart.maps(addr),
    ensures
        cart.store(addr, val).1 is Ok,
        cart.store(addr, val).0.load(addr) == Ok::<u8, Fault>(val),
            cart.store(addr, val).0.wf(),
{
}

/// A cartridge.
#[derive(Debug)]
pub struct Cartridge {
    prgrom: Vec<u8>,
    chrrom: Vec<u8>,
    vram: [u8; VRAM_SIZE],
}

impl View for Cartridge {
    type V = CartridgeModel;

    closed spec fn view(&self) -> CartridgeModel {
        CartridgeModel { prgrom: self.prgrom@, chrrom: self.chrrom@, vram: self.vram@ }
    }
}

impl Cartridge {
    /// A blank cartridge, for use where any cartridge will do.
    pub fn test_ref() -> (cart: Cartridge)
        ensures
            cart@ == CartridgeModel::blank(),
    {
        let cart = Cartridge {
            prgrom: vec![0u8; 0x8000],
            chrrom: vec![0u8; 0x2000],
            vram: [0u8; VRAM_SIZE],
        };
        assert(cart.prgrom@ =~= CartridgeModel::blank().prgrom);
        assert(cart.chrrom@ =~= CartridgeModel::blank().chrrom);
        assert(cart.vram@ =~= CartridgeModel::blank().vram);
        cart
    }

    /// Builds the cartridge from the bytes of an image file.
    pub fn from_ines_bytes(data: &[u8]) -> (r: Result<Cartridge, Fault>)
        ensures
            match r {
                Ok(cart) => CartridgeModel::of_image(data@) == Ok::<CartridgeModel, Fault>(cart@),
                Err(fault) => CartridgeModel::of_image(data@) == Err::<CartridgeModel, Fault>(
                    fault,
                ),
            },
    {
        if data.len() < HEADER_SIZE {
            return Err(Fault::Image);
        }
        let num_prgrom_banks: u8 = data[4];
        let num_chrrom_banks: u8 = data[5];
        let prgrom_start: usize = HEADER_SIZE;
        let prgrom_end: usize = prgrom_start + PRGROM_BANK_SIZE * (num_prgrom_banks as usize);
        let chrrom_end: usize = prgrom_end + CHRROM_BANK_SIZE * (num_chrrom_banks as usize);
        if data.len() < chrrom_end {
            return Err(Fault::Image);
        }
        let cart = Cartridge {
            prgrom: slice_to_vec(slice_subrange(data, prgrom_start, prgrom_end)),
            chrrom: slice_to_vec(slice_subrange(data, prgrom_end, chrrom_end)),
            vram: [0u8; VRAM_SIZE],
        };
        assert(cart.vram@ =~= Seq::new(VRAM_SIZE as nat, |i: int| 0u8));
        Ok(cart)
    }

    /// Reads the byte at `addr`.
    pub fn loadb(&self, addr: u16) -> (r: Result<u8, Fault>)
        ensures
            r == self@.load(addr),
    {
        if addr <= CHR_LAST {
            if (addr as usize) < self.chrrom.len() {
                Ok(self.chrrom[addr as usize])
            } else {
                Err(Fault::Cartridge)
            }
        } else if addr <= VRAM_LAST {
            Ok(self.vram[addr as usize % VRAM_SIZE])
        } else if addr >= PRG_FIRST {
            let period: usize = self.prgrom.len() % 0x1_0000;
            if period > 0 {
                Ok(self.prgrom[(addr - PRG_FIRST) as usize % period])
            } else {
                Err(Fault::Cartridge)
            }
        } else {
            Err(Fault::Cartridge)
        }
    }

    /// Writes `val` at `addr`.
    pub fn storeb(&mut self, addr: u16, val: u8) -> (r: Result<(), Fault>)
        ensures
            (final(self)@, r) == old(self)@.store(addr, val),
    {
        if addr <= CHR_LAST {
            if (addr as usize) < self.chrrom.len() {
                self.chrrom[addr as usize] = val;
                Ok(())
            } else {
                Err(Fault::Cartridge)
            }
        } else if addr <= VRAM_LAST {
            self.vram[addr as usize % VRAM_SIZE] = val;
            Ok(())
        } else if addr >= PRG_FIRST {
            let period: usize = self.prgrom.len() % 0x1_0000;
            if period > 0 {
                self.prgrom[(addr - PRG_FIRST) as usize % period] = val;
                Ok(())
            } else {
                Err(Fault::Cartridge)
            }
        } else {
            Err(Fault::Cartridge)
        }
    }

    /// Every cartridge has video RAM of the fixed length.
    pub proof fn lemma_wf(&self)
        ensures
            self@.wf(),
    {
    }
}

} // verus!
