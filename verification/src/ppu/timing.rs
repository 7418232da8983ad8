//! The dot clock: what the PPU does to its video RAM address as the beam
//! moves. On a visible scanline the clock is stepped to the dots at which
//! the address changes; outside the picture it is stepped dot by dot.

use crate::ppu::{PpuModel, PPU};
use vstd::pervasive::unreached;
use vstd::prelude::*;

verus! {

/// Dots in one scanline.
pub const DOTS_PER_SCANLINE: u16 = 341;

/// Scanlines in one frame, visible or not.
pub const SCANLINES_PER_FRAME: u16 = 262;

/// The last visible scanline.
pub const LAST_VISIBLE_SCANLINE: u16 = 239;

/// The dot after which the address moves down by one row of pixels.
pub const ROW_DOT: u16 = 256;

/// The dot after which the address takes its horizontal position back from
/// the temporary address.
pub const RELOAD_DOT: u16 = 257;

/// The address after the beam has moved down by one row of pixels: the
/// fine vertical scroll (bits 12 to 14) moves on; from its last value it
/// wraps and the coarse vertical scroll (bits 5 to 9) moves on. From the
/// last row of tiles, 29, the coarse scroll wraps and the vertical
/// nametable (bit 11) switches; from 31, a value beyond the tiles, it wraps
/// and nothing switches.
pub open spec fn address_after_row(v: u16) -> u16 {
    if v & 0x7000 != 0x7000 {
        (v + 0x1000) as u16
    } else {
        let wrapped = v & 0x8FFF;
        let coarse_y = (wrapped & 0x03E0) >> 5;
        if coarse_y == 29 {
            (wrapped ^ 0x0800) & 0xFC1F
        } else if coarse_y == 31 {
            wrapped & 0xFC1F
        } else {
            (wrapped & 0xFC1F) | (((coarse_y + 1) as u16) << 5)
        }
    }
}

/// The address with its horizontal position (bits 0 to 4 and 10) taken
/// from the temporary address `t`.
pub open spec fn address_reloaded(v: u16, t: u16) -> u16 {
    (v & 0xFBE0) | (t & 0x041F)
}

/// The address after the beam has moved right by one tile: the coarse
/// horizontal scroll (bits 0 to 4) moves on, and from the last tile it
/// wraps and the horizontal nametable (bit 10) switches.
pub open spec fn address_after_tile(v: u16) -> u16 {
    if v & 0x001F == 31 {
        (v & 0xFFE0) ^ 0x0400
    } else {
        (v + 1) as u16
    }
}

impl PpuModel {
    /// Whether the mask register shows anything.
    pub open spec fn rendering_enabled(self) -> bool {
        self.bg_enabled() || self.sprites_enabled()
    }

    /// The PPU with its dot clock moved on by one dot: from the last dot of
    /// a scanline to the first of the next, and from the last scanline of a
    /// frame to the first.
    pub open spec fn beam_advanced(self) -> PpuModel {
        if self.scanline_cycle + 1 == DOTS_PER_SCANLINE {
            PpuModel {
                scanline_cycle: 0,
                scanline: if self.scanline + 1 == SCANLINES_PER_FRAME {
                    0
                } else {
                    (self.scanline + 1) as u16
                },
                ..self
            }
        } else {
            PpuModel { scanline_cycle: (self.scanline_cycle + 1) as u16, ..self }
        }
    }

    /// Whether the next dot is one that the PPU can take: the clock stays
    /// within a frame, and on a visible scanline the dot is the first one or
    /// one of the two at which the address changes.
    pub open spec fn tick_defined(self) -> bool {
        let next = self.beam_advanced();
        &&& self.scanline_cycle < u16::MAX
        &&& self.scanline < u16::MAX
        &&& next.scanline < SCANLINES_PER_FRAME
        &&& next.scanline <= LAST_VISIBLE_SCANLINE ==> next.scanline_cycle == 0
            || next.scanline_cycle == ROW_DOT || next.scanline_cycle == RELOAD_DOT
    }

    /// The PPU after one dot. Outside the visible scanlines only the clock
    /// moves. On a visible scanline with rendering on, the address moves
    /// down a row after dot 256 and takes back its horizontal position
    /// after dot 257; at every eighth dot of the part of the line in which
    /// tiles are fetched it moves right by one tile.
    pub open spec fn tick(self) -> PpuModel
        recommends
            self.tick_defined(),
    {
        let next = self.beam_advanced();
        if next.scanline > LAST_VISIBLE_SCANLINE {
            next
        } else {
            let dot = next.scanline_cycle;
            let v = if !next.rendering_enabled() {
                next.v
            } else if dot == ROW_DOT {
                address_after_row(next.v)
            } else if dot == RELOAD_DOT {
                address_reloaded(next.v, next.t)
            } else {
                next.v
            };
            if (dot <= 256 || dot >= 328) && dot % 8 == 0 {
                PpuModel { v: address_after_tile(v), ..next }
            } else {
                PpuModel { v, ..next }
            }
        }
    }
}

impl PPU {
    /// Moves the PPU on by one dot.
    pub fn tick(&mut self)
        requires
            old(self)@.tick_defined(),
        ensures
            final(self)@ == old(self)@.tick(),
    {
        self.scanline_cycle = self.scanline_cycle + 1;
        if self.scanline_cycle == DOTS_PER_SCANLINE {
            self.scanline_cycle = 0;
            self.scanline = self.scanline + 1;
            if self.scanline == SCANLINES_PER_FRAME {
                self.scanline = 0;
            }
        }
        if self.scanline <= LAST_VISIBLE_SCANLINE {
            if self.scanline_cycle == ROW_DOT {
                if self.rendering_enabled() {
                    let v: u16 = self.v;
                    if (v & 0x7000) != 0x7000 {
                        // fine y is below 7
                        assert(v & 0x7000 != 0x7000 ==> v <= 0xEFFF) by (bit_vector);
                        self.v = v + 0x1000;
                    } else {
                        let wrapped: u16 = v & 0x8FFF;
                        let coarse_y: u16 = (wrapped & 0x03E0) >> 5;
                        assert((wrapped & 0x03E0) >> 5 <= 31) by (bit_vector);
                        if coarse_y == 29 {
                            // the last row of tiles: on to the other nametable
                            self.v = (wrapped ^ 0x0800) & 0xFC1F;
                        } else if coarse_y == 31 {
                            self.v = wrapped & 0xFC1F;
                        } else {
                            self.v = (wrapped & 0xFC1F) | ((coarse_y + 1) << 5);
                        }
                    }
                }
            } else if self.scanline_cycle == RELOAD_DOT {
                if self.rendering_enabled() {
                    self.v = (self.v & 0xFBE0) | (self.t & 0x041F);
                }
            } else if self.scanline_cycle != 0 {
                unreached::<()>();
            }
            if (self.scanline_cycle <= 256 || self.scanline_cycle >= 328) && (self.scanline_cycle
                % 8) == 0 {
                let v: u16 = self.v;
                if (v & 0x001F) == 31 {
                    // the last tile of the line: on to the other nametable
                    self.v = (v & 0xFFE0) ^ 0x0400;
                } else {
                    assert(v & 0x001F != 31 ==> v < 0xFFFF) by (bit_vector);
                    self.v = v + 1;
                }
            }
        } else if self.scanline >= SCANLINES_PER_FRAME {
            unreached::<()>();
        }
    }
}

} // verus!
