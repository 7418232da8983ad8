//! A test picture: the first tile of the pattern table on a plain screen.
//! It shows at a glance whether pattern table, attribute table and palette
//! are in place, without a frame being run.

use crate::ppu::palette::PALETTE_BGR;
use crate::ppu::render::pattern_bits;
use crate::ppu::{PpuModel, PALETTE_RAM_FIRST, PPU, SCREEN_SIZE};
use crate::Fault;
use vstd::prelude::*;

verus! {

/// The address of the attribute byte of the first tile.
pub const FIRST_ATTRIBUTE: u16 = 0x23C0;

/// A pixel buffer in which every pixel has the colour (`r`, `g`, `b`).
pub open spec fn filled(r: u8, g: u8, b: u8) -> Seq<u8> {
    Seq::new(
        SCREEN_SIZE as nat,
        |i: int|
            if i % 3 == 0 {
                b
            } else if i % 3 == 1 {
                g
            } else {
                r
            },
    )
}

/// `pixels` with pixel (`x`, `y`) painted in colour `color` of the reference
/// table.
pub open spec fn painted(pixels: Seq<u8>, x: int, y: int, color: int) -> Seq<u8> {
    let i = (y * 256 + x) * 3;
    let bgr = PALETTE_BGR[color];
    pixels.update(i, bgr.0).update(i + 1, bgr.1).update(i + 2, bgr.2)
}

impl PpuModel {
    /// The colour of pixel (`x`, `y`) of the first tile: the pattern gives
    /// the low two bits of the palette entry, the low two bits of the first
    /// attribute byte the high two.
    pub open spec fn preview_pixel(self, x: int, y: int) -> Result<u8, Fault> {
        match self.mem.load(y as u16) {
            Err(fault) => Err(fault),
            Ok(low) => match self.mem.load((y + 8) as u16) {
                Err(fault) => Err(fault),
                Ok(high) => match self.mem.load(FIRST_ATTRIBUTE) {
                    Err(fault) => Err(fault),
                    Ok(attr) => {
                        let group = ((attr % 4) * 4) as u8;
                        let color = self.palette_color(
                            group | pattern_bits(low, high, (7 - x) as u8),
                        );
                        if color < 64 {
                            Ok(color)
                        } else {
                            Err(Fault::Color)
                        }
                    },
                },
            },
        }
    }

    /// The test picture after the first `n` pixels of the tile are drawn
    /// over `pixels`, row after row. The first pixel that faults ends the
    /// drawing.
    pub open spec fn preview_upto(self, pixels: Seq<u8>, n: int) -> (Seq<u8>, Result<(), Fault>)
        decreases n,
    {
        if n <= 0 {
            (pixels, Ok(()))
        } else {
            let (drawn, r) = self.preview_upto(pixels, n - 1);
            match r {
                Err(fault) => (drawn, Err(fault)),
                Ok(()) => match self.preview_pixel((n - 1) % 8, (n - 1) / 8) {
                    Err(fault) => (drawn, Err(fault)),
                    Ok(color) => (painted(drawn, (n - 1) % 8, (n - 1) / 8, color as int), Ok(())),
                },
            }
        }
    }

    /// The test picture: the 64 pixels of the first tile in the top left
    /// corner of a blue screen.
    pub open spec fn preview(self) -> Result<Seq<u8>, Fault> {
        match self.preview_upto(filled(0, 0, 252), 64).1 {
            Err(fault) => Err(fault),
            Ok(()) => Ok(self.preview_upto(filled(0, 0, 252), 64).0),
        }
    }
}

/// The drawing of the test picture stops for good at the first fault.
pub proof fn lemma_preview_fault_ends_drawing(ppu: PpuModel, pixels: Seq<u8>, n: int, m: int)
    requires
        n <= m,
        ppu.preview_upto(pixels, n).1 is Err,
    ensures
        ppu.preview_upto(pixels, m) == ppu.preview_upto(pixels, n),
    decreases m - n,
{
    if n < m {
        lemma_preview_fault_ends_drawing(ppu, pixels, n, m - 1);
    }
}

/// A pixel buffer filled with one colour.
pub fn fill_color(r: u8, g: u8, b: u8) -> (data: [u8; SCREEN_SIZE])
    ensures
        data@ == filled(r, g, b),
{
    let mut data: [u8; SCREEN_SIZE] = [0u8; SCREEN_SIZE];
    let mut pixel: usize = 0;
    while pixel < SCREEN_SIZE / 3
        invariant
            pixel <= SCREEN_SIZE / 3,
            forall|i: int| 0 <= i < 3 * pixel ==> #[trigger] data@[i] == filled(r, g, b)[i],
        decreases SCREEN_SIZE / 3 - pixel,
    {
        data[3 * pixel] = b;
        data[3 * pixel + 1] = g;
        data[3 * pixel + 2] = r;
        pixel = pixel + 1;
    }
    assert(data@ =~= filled(r, g, b));
    data
}

impl PPU {
    /// Draws the test picture.
    pub fn render(&self) -> (r: Result<[u8; SCREEN_SIZE], Fault>)
        ensures
            match r {
                Ok(pixels) => self@.preview() == Ok::<Seq<u8>, Fault>(pixels@),
                Err(fault) => self@.preview() == Err::<Seq<u8>, Fault>(fault),
            },
    {
        let mut pixeldata: [u8; SCREEN_SIZE] = fill_color(0, 0, 252);
        let ghost blank = pixeldata@;
        let mut i: u8 = 0;
        while i < 8
            invariant
                i <= 8,
                blank == filled(0, 0, 252),
                self@.preview_upto(blank, 8 * i) == (pixeldata@, Ok::<(), Fault>(())),
            decreases 8 - i,
        {
            proof {
                if self@.preview_pixel(0, i as int) is Err {
                    lemma_preview_fault_ends_drawing(self@, blank, 8 * i + 1, 64);
                }
            }
            let pattern_low: u8 = self.mem.loadb(i as u16)?;
            let pattern_high: u8 = self.mem.loadb(i as u16 + 8)?;
            let mut j: u8 = 0;
            while j < 8
                invariant
                    j <= 8,
                    i < 8,
                    blank == filled(0, 0, 252),
                    self@.mem.load(i as u16) == Ok::<u8, Fault>(pattern_low),
                    self@.mem.load((i + 8) as u16) == Ok::<u8, Fault>(pattern_high),
                    self@.preview_upto(blank, 8 * i + j) == (pixeldata@, Ok::<(), Fault>(())),
                decreases 8 - j,
            {
                let ghost n = 8 * i + j;
                assert(n % 8 == j && n / 8 == i);
                proof {
                    if self@.preview_pixel(j as int, i as int) is Err {
                        lemma_preview_fault_ends_drawing(self@, blank, n + 1, 64);
                    }
                }
                let palette_low: u8 = ((pattern_low >> (7 - j)) & 1) | (((pattern_high >> (7 - j))
                    & 1) << 1);
                let attr: u8 = self.mem.loadb(FIRST_ATTRIBUTE)?;
                let palette_high: u8 = (attr % 4) * 4;
                let palette_i: u8 = palette_high | palette_low;
                let color: usize = self.mem.palette_entry(PALETTE_RAM_FIRST + palette_i as u16) as usize;
                if color >= 64 {
                    return Err(Fault::Color);
                }
                let color_bgr: (u8, u8, u8) = PALETTE_BGR[color];
                let x: usize = ((i as usize) * 256 + j as usize) * 3;
                pixeldata[x] = color_bgr.0;
                pixeldata[x + 1] = color_bgr.1;
                pixeldata[x + 2] = color_bgr.2;
                j = j + 1;
            }
            i = i + 1;
        }
        Ok(pixeldata)
    }
}

} // verus!
