//! The renderer: one scanline of background tiles, then the sprites on top.

use crate::ppu::palette::PALETTE_BGR;
use crate::ppu::{palette_slot, PpuModel, PALETTE_RAM_FIRST, PPU};
use crate::Fault;
use vstd::prelude::*;

verus! {

/// The two-bit value of one pixel of a tile row: bit `shift` of the low
/// pattern byte, and above it bit `shift` of the high one.
pub open spec fn pattern_bits(low: u8, high: u8, shift: u8) -> u8 {
    ((low >> shift) & 1) | (((high >> shift) & 1) << 1)
}

/// The palette entry for a pixel: the pattern value with the palette group
/// above it. Pattern value 0 is the one shared background colour, whatever
/// the group.
pub open spec fn palette_index(low: u8, high: u8) -> u8 {
    if low == 0 {
        0
    } else {
        low | high
    }
}

/// The address of the attribute byte that covers the tile at `nt_addr`: it
/// lies behind the 960 tiles of the same nametable, one byte for each block
/// of four by four tiles.
pub open spec fn attr_addr(nt_addr: u16) -> int {
    let index = nt_addr as int % 0x400;
    nt_addr - index + 0x3C0 + (index / 128) * 8 + (index % 32) / 4
}

/// Which quarter of its four by four block the tile at `nt_addr` lies in:
/// 0 top left, 1 top right, 2 bottom left, 3 bottom right.
pub open spec fn attr_quadrant(nt_addr: u16) -> int {
    let index = nt_addr as int % 0x400;
    ((index / 64) % 2) * 2 + (index / 2) % 2
}

/// The palette group that attribute byte `attr` gives to `quadrant`, as
/// bits 2 and 3 of a palette entry.
pub open spec fn attr_group(attr: u8, quadrant: int) -> u8 {
    if quadrant == 0 {
        ((attr % 4) * 4) as u8
    } else if quadrant == 1 {
        ((attr / 4 % 4) * 4) as u8
    } else if quadrant == 2 {
        ((attr / 16 % 4) * 4) as u8
    } else {
        ((attr / 64) * 4) as u8
    }
}

/// How many columns of a sprite at horizontal position `x` fall on the
/// screen.
pub open spec fn sprite_width(x: u8) -> int {
    if x > 0xF8 {
        0x100 - x
    } else {
        8
    }
}

/// The bit of the pattern bytes that column `col` of a sprite shows. A
/// flipped sprite scans the bits from the other end.
pub open spec fn sprite_shift(x: u8, horiz_flip: bool, col: int) -> int {
    if horiz_flip {
        col
    } else {
        sprite_width(x) - 1 - col
    }
}

impl PpuModel {
    /// The PPU with pixel (`x`, `y`) painted in colour `color` of the
    /// reference table.
    pub open spec fn plot(self, x: int, y: int, color: int) -> PpuModel
        recommends
            0 <= x < 256,
            0 <= y < 240,
            0 <= color < 64,
    {
        let i = (y * 256 + x) * 3;
        let bgr = PALETTE_BGR[color];
        PpuModel {
            pixeldata: self.pixeldata.update(i, bgr.0).update(i + 1, bgr.1).update(i + 2, bgr.2),
            ..self
        }
    }

    /// The three bytes of pixel (`x`, `y`) in the pixel buffer: blue, green,
    /// red.
    pub open spec fn pixel(self, x: int, y: int) -> (u8, u8, u8) {
        let i = (y * 256 + x) * 3;
        (self.pixeldata[i], self.pixeldata[i + 1], self.pixeldata[i + 2])
    }

    /// The colour that palette entry `palette_i` holds.
    pub open spec fn palette_color(self, palette_i: u8) -> u8 {
        self.mem.palette_ram[palette_slot((PALETTE_RAM_FIRST + palette_i) as u16)]
    }

    /// The address of the nametable that the control register selects.
    pub open spec fn nametable_base(self) -> int {
        0x2000 + 0x400 * (self.control % 4)
    }

    /// The address of the pattern table that the background uses.
    pub open spec fn bg_pattern_base(self) -> int {
        if self.control & 0x10 != 0 {
            0x1000
        } else {
            0
        }
    }

    /// The address of the pattern table that 8 by 8 sprites use.
    pub open spec fn sprite_pattern_base(self) -> int {
        if self.control & 0x08 != 0 {
            0x1000
        } else {
            0
        }
    }

    /// The height of every sprite: 16 if bit 5 of the control register is
    /// set, else 8.
    pub open spec fn sprite_height(self) -> int {
        if self.control & 0x20 != 0 {
            16
        } else {
            8
        }
    }

    /// The palette group of the background tile at `nt_addr`.
    pub open spec fn bg_tile_attr(self, nt_addr: u16) -> Result<u8, Fault> {
        match self.mem.load(attr_addr(nt_addr) as u16) {
            Err(fault) => Err(fault),
            Ok(attr) => Ok(attr_group(attr, attr_quadrant(nt_addr))),
        }
    }

    /// The nametable address of the tile under background pixel (`x`, `y`).
    pub open spec fn bg_tile_addr(self, x: int, y: int) -> u16 {
        (self.nametable_base() + x / 8 + 32 * (y / 8)) as u16
    }

    /// The two pattern bytes of the row of its tile that background pixel
    /// (`x`, `y`) lies in.
    pub open spec fn bg_pattern(self, x: int, y: int) -> Result<(u8, u8), Fault> {
        match self.mem.load(self.bg_tile_addr(x, y)) {
            Err(fault) => Err(fault),
            Ok(tile) => {
                let row_addr = self.bg_pattern_base() + tile * 16 + y % 8;
                match self.mem.load(row_addr as u16) {
                    Err(fault) => Err(fault),
                    Ok(low) => match self.mem.load((row_addr + 8) as u16) {
                        Err(fault) => Err(fault),
                        Ok(high) => Ok((low, high)),
                    },
                }
            },
        }
    }

    /// The colour of background pixel (`x`, `y`): the tile comes from the
    /// nametable, its pattern gives the low two bits of the palette entry,
    /// the attribute table the high two. A colour outside the reference
    /// table is a fault.
    pub open spec fn bg_pixel(self, x: int, y: int) -> Result<u8, Fault> {
        match self.bg_pattern(x, y) {
            Err(fault) => Err(fault),
            Ok((low, high)) => match self.bg_tile_attr(self.bg_tile_addr(x, y)) {
                Err(fault) => Err(fault),
                Ok(group) => {
                    let color = self.palette_color(
                        palette_index(pattern_bits(low, high, (7 - x % 8) as u8), group),
                    );
                    if color < 64 {
                        Ok(color)
                    } else {
                        Err(Fault::Color)
                    }
                },
            },
        }
    }

    /// The PPU after the first `n` pixels of the background of line `y`
    /// are drawn, from the left. The first pixel that faults ends the
    /// drawing; the pixels before it stay drawn.
    pub open spec fn draw_bg_upto(self, y: int, n: int) -> (PpuModel, Result<(), Fault>)
        decreases n,
    {
        if n <= 0 {
            (self, Ok(()))
        } else {
            let (drawn, r) = self.draw_bg_upto(y, n - 1);
            match r {
                Err(fault) => (drawn, Err(fault)),
                Ok(()) => match self.bg_pixel(n - 1, y) {
                    Err(fault) => (drawn, Err(fault)),
                    Ok(color) => (drawn.plot(n - 1, y, color as int), Ok(())),
                },
            }
        }
    }

    /// Whether sprite `n` covers line `scanline`. A sprite is drawn one line
    /// below its y coordinate, and one at 240 or below is hidden.
    pub open spec fn sprite_on_line(self, n: int, scanline: int) -> bool {
        let y = self.oam[4 * n] as int;
        y < 0xF0 && y + 1 <= scanline < y + 1 + self.sprite_height()
    }

    /// The address of the low pattern byte of the row of sprite `n` that
    /// line `scanline` shows. A vertical flip turns the rows of a tile, and
    /// the two tiles of a tall sprite, upside down; a tall sprite takes its
    /// pattern table from the low bit of its tile number.
    pub open spec fn sprite_row_addr(self, n: int, scanline: int) -> int {
        let y = self.oam[4 * n] as int;
        let tile = self.oam[4 * n + 1] as int;
        let vert_flip = self.oam[4 * n + 2] & 0x80 != 0;
        let row = scanline - (y + 1);
        let tile_row = if vert_flip {
            7 - row % 8
        } else {
            row % 8
        };
        if self.sprite_height() == 8 {
            self.sprite_pattern_base() + tile * 16 + tile_row
        } else {
            let second_tile: int = if (row >= 8) != vert_flip {
                1
            } else {
                0
            };
            (tile % 2) * 0x1000 + (tile - tile % 2 + second_tile) * 16 + tile_row
        }
    }

    /// The palette group of sprite `n`, as the high bits of a palette
    /// entry: sprites use the second half of the palette.
    pub open spec fn sprite_group(self, n: int) -> u8 {
        (0x10 + (self.oam[4 * n + 2] % 4) * 4) as u8
    }

    /// The pattern value of column `col` of sprite `n`, with `low` and
    /// `high` the pattern bytes of its row.
    pub open spec fn sprite_bits(self, n: int, low: u8, high: u8, col: int) -> u8 {
        let x = self.oam[4 * n + 3];
        let horiz_flip = self.oam[4 * n + 2] & 0x40 != 0;
        pattern_bits(low, high, sprite_shift(x, horiz_flip, col) as u8)
    }

    /// The colour that sprite `n` shows where its pattern value is `bits`.
    pub open spec fn sprite_color(self, n: int, bits: u8) -> u8 {
        self.palette_color(palette_index(bits, self.sprite_group(n)))
    }

    /// The PPU after the first `k` columns of sprite `n` are drawn on line
    /// `scanline`, with `low` and `high` the pattern bytes of its row. A
    /// pixel of pattern value 0 is transparent and leaves the frame as it
    /// is. The first column that faults ends the drawing.
    pub open spec fn draw_sprite_upto(self, n: int, scanline: int, low: u8, high: u8, k: int) -> (
        PpuModel,
        Result<(), Fault>,
    )
        decreases k,
    {
        if k <= 0 {
            (self, Ok(()))
        } else {
            let (drawn, r) = self.draw_sprite_upto(n, scanline, low, high, k - 1);
            let bits = self.sprite_bits(n, low, high, k - 1);
            match r {
                Err(fault) => (drawn, Err(fault)),
                Ok(()) => if bits == 0 {
                    (drawn, Ok(()))
                } else {
                    let color = self.sprite_color(n, bits);
                    if color < 64 {
                        (
                            drawn.plot(self.oam[4 * n + 3] + k - 1, scanline, color as int),
                            Ok(()),
                        )
                    } else {
                        (drawn, Err(Fault::Color))
                    }
                },
            }
        }
    }

    /// The PPU after sprite `n` is drawn on line `scanline`, and whether the
    /// sprite covers the line at all.
    pub open spec fn draw_sprite(self, n: int, scanline: int) -> (PpuModel, Result<bool, Fault>) {
        if !self.sprite_on_line(n, scanline) {
            (self, Ok(false))
        } else {
            let row_addr = self.sprite_row_addr(n, scanline);
            match self.mem.load(row_addr as u16) {
                Err(fault) => (self, Err(fault)),
                Ok(low) => match self.mem.load((row_addr + 8) as u16) {
                    Err(fault) => (self, Err(fault)),
                    Ok(high) => {
                        let (drawn, r) = self.draw_sprite_upto(
                            n,
                            scanline,
                            low,
                            high,
                            sprite_width(self.oam[4 * n + 3]),
                        );
                        match r {
                            Err(fault) => (drawn, Err(fault)),
                            Ok(()) => (drawn, Ok(true)),
                        }
                    },
                },
            }
        }
    }

    /// The PPU after the first `n` sprites are looked at for line
    /// `scanline`, with the number of sprites drawn. Sprites are taken in
    /// the order of object attribute memory, and once eight are drawn the
    /// rest are passed over.
    pub open spec fn draw_sprites_upto(self, scanline: int, n: int) -> (
        PpuModel,
        Result<int, Fault>,
    )
        decreases n,
    {
        if n <= 0 {
            (self, Ok(0))
        } else {
            let (drawn, r) = self.draw_sprites_upto(scanline, n - 1);
            match r {
                Err(fault) => (drawn, Err(fault)),
                Ok(count) => if count >= 8 {
                    (drawn, Ok(count))
                } else {
                    let (next, shown) = drawn.draw_sprite(n - 1, scanline);
                    match shown {
                        Err(fault) => (next, Err(fault)),
                        Ok(true) => (next, Ok(count + 1)),
                        Ok(false) => (next, Ok(count)),
                    }
                },
            }
        }
    }

    /// The PPU after line `scanline` is rendered: the background if the mask
    /// register shows it, then the sprites if the mask register shows them.
    pub open spec fn render_scanline(self, scanline: int) -> (PpuModel, Result<(), Fault>) {
        let (bg, r) = if self.bg_enabled() {
            self.draw_bg_upto(scanline, 256)
        } else {
            (self, Ok(()))
        };
        match r {
            Err(fault) => (bg, Err(fault)),
            Ok(()) => if bg.sprites_enabled() {
                let (sprites, count) = bg.draw_sprites_upto(scanline, 64);
                match count {
                    Err(fault) => (sprites, Err(fault)),
                    Ok(_) => (sprites, Ok(())),
                }
            } else {
                (bg, Ok(()))
            },
        }
    }
}

/// What became of a sprite on a scanline.
#[derive(Clone, Copy, PartialEq, Eq, Structural, Debug)]
pub enum SpriteRenderResult {
    Rendered,
    NotRendered,
}

/// Joins the pattern value of a pixel and its palette group into a palette
/// entry.
pub fn concat_palette_bits(low: u8, high: u8) -> (palette_i: u8)
    ensures
        palette_i == palette_index(low, high),
{
    if low == 0 {
        0
    } else {
        low | high
    }
}

fn pattern_pixel(low: u8, high: u8, shift: u8) -> (bits: u8)
    requires
        shift < 8,
    ensures
        bits == pattern_bits(low, high, shift),
{
    ((low >> shift) & 1) | (((high >> shift) & 1) << 1)
}

/// Drawing stops for good at the first fault: drawing further pixels of the
/// background changes nothing.
pub proof fn lemma_bg_fault_ends_drawing(ppu: PpuModel, y: int, n: int, m: int)
    requires
        n <= m,
        ppu.draw_bg_upto(y, n).1 is Err,
    ensures
        ppu.draw_bg_upto(y, m) == ppu.draw_bg_upto(y, n),
    decreases m - n,
{
    if n < m {
        lemma_bg_fault_ends_drawing(ppu, y, n, m - 1);
    }
}

/// What drawing the background comes to. The drawing succeeds exactly when
/// every pixel has a colour of the reference table; each pixel drawn then
/// shows the colour that the nametable, the pattern table, the attribute
/// table and the palette give it, and every byte of the pixel buffer
/// outside the pixels drawn is as it was.
pub proof fn lemma_bg_pixels(ppu: PpuModel, y: int, n: int)
    requires
        ppu.wf(),
        0 <= y < 240,
        0 <= n <= 256,
    ensures
        ppu.draw_bg_upto(y, n).1 is Ok <==> (forall|x: int|
            0 <= x < n ==> (#[trigger] ppu.bg_pixel(x, y)) is Ok),
        ppu.draw_bg_upto(y, n).0.wf(),
        ppu.draw_bg_upto(y, n).1 is Ok ==> (forall|x: int|
            0 <= x < n ==> (#[trigger] ppu.draw_bg_upto(y, n).0.pixel(x, y)) == PALETTE_BGR[ppu.bg_pixel(
                x,
                y,
            )->Ok_0 as int]),
        ppu.draw_bg_upto(y, n).1 is Ok ==> (forall|i: int|
            0 <= i < ppu.pixeldata.len() && !((y * 256) * 3 <= i < (y * 256 + n) * 3)
                ==> #[trigger] ppu.draw_bg_upto(y, n).0.pixeldata[i] == ppu.pixeldata[i]),
    decreases n,
{
    if n > 0 {
        lemma_bg_pixels(ppu, y, n - 1);
        lemma_bg_changes_pixels_only(ppu, y, n - 1);
        let (drawn, r) = ppu.draw_bg_upto(y, n - 1);
        if r is Ok && ppu.bg_pixel(n - 1, y) is Ok {
            let color = ppu.bg_pixel(n - 1, y)->Ok_0;
            let after = drawn.plot(n - 1, y, color as int);
            assert(ppu.draw_bg_upto(y, n) == (after, Ok::<(), Fault>(())));
            assert forall|x: int| 0 <= x < n implies (#[trigger] after.pixel(x, y))
                == PALETTE_BGR[ppu.bg_pixel(x, y)->Ok_0 as int] by {
                if x < n - 1 {
                    assert(drawn.pixel(x, y) == PALETTE_BGR[ppu.bg_pixel(x, y)->Ok_0 as int]);
                }
            }
        }
    }
}

/// Drawing the background touches the pixel buffer and nothing else.
pub proof fn lemma_bg_changes_pixels_only(ppu: PpuModel, y: int, n: int)
    ensures
        ppu.draw_bg_upto(y, n).0 == (PpuModel {
            pixeldata: ppu.draw_bg_upto(y, n).0.pixeldata,
            ..ppu
        }),
    decreases n,
{
    if n > 0 {
        lemma_bg_changes_pixels_only(ppu, y, n - 1);
    }
}

proof fn lemma_sprite_columns_change_pixels_only(
    ppu: PpuModel,
    n: int,
    scanline: int,
    low: u8,
    high: u8,
    k: int,
)
    ensures
        ppu.draw_sprite_upto(n, scanline, low, high, k).0 == (PpuModel {
            pixeldata: ppu.draw_sprite_upto(n, scanline, low, high, k).0.pixeldata,
            ..ppu
        }),
    decreases k,
{
    if k > 0 {
        lemma_sprite_columns_change_pixels_only(ppu, n, scanline, low, high, k - 1);
    }
}

proof fn lemma_sprite_changes_pixels_only(ppu: PpuModel, n: int, scanline: int)
    ensures
        ppu.draw_sprite(n, scanline).0 == (PpuModel {
            pixeldata: ppu.draw_sprite(n, scanline).0.pixeldata,
            ..ppu
        }),
{
    let row_addr = ppu.sprite_row_addr(n, scanline);
    if let Ok(low) = ppu.mem.load(row_addr as u16) {
        if let Ok(high) = ppu.mem.load((row_addr + 8) as u16) {
            lemma_sprite_columns_change_pixels_only(
                ppu,
                n,
                scanline,
                low,
                high,
                sprite_width(ppu.oam[4 * n + 3]),
            );
        }
    }
}

/// What drawing the columns of a sprite comes to. Where the pattern value
/// of a column is 0 the pixel stays as it was; elsewhere it shows the
/// colour that the sprite's palette group gives the value. Every byte of
/// the pixel buffer outside the columns drawn is as it was.
pub proof fn lemma_sprite_pixels(ppu: PpuModel, n: int, scanline: int, low: u8, high: u8, k: int)
    requires
        ppu.wf(),
        0 <= n < 64,
        0 <= scanline < 240,
        0 <= k <= sprite_width(ppu.oam[4 * n + 3]),
        ppu.draw_sprite_upto(n, scanline, low, high, k).1 is Ok,
    ensures
        ({
            let after = ppu.draw_sprite_upto(n, scanline, low, high, k).0;
            let x = ppu.oam[4 * n + 3];
            &&& after.wf()
            &&& forall|col: int|
                0 <= col < k ==> (#[trigger] after.pixel(x + col, scanline)) == if ppu.sprite_bits(
                    n,
                    low,
                    high,
                    col,
                ) == 0 {
                    ppu.pixel(x + col, scanline)
                } else {
                    PALETTE_BGR[ppu.sprite_color(n, ppu.sprite_bits(n, low, high, col)) as int]
                }
            &&& forall|i: int|
                0 <= i < ppu.pixeldata.len() && !((scanline * 256 + x) * 3 <= i < (scanline * 256
                    + x + k) * 3) ==> #[trigger] after.pixeldata[i] == ppu.pixeldata[i]
        }),
    decreases k,
{
    if k > 0 {
        let (drawn, r) = ppu.draw_sprite_upto(n, scanline, low, high, k - 1);
        let after = ppu.draw_sprite_upto(n, scanline, low, high, k).0;
        let x = ppu.oam[4 * n + 3];
        lemma_sprite_pixels(ppu, n, scanline, low, high, k - 1);
        lemma_sprite_columns_change_pixels_only(ppu, n, scanline, low, high, k - 1);
        assert forall|col: int| 0 <= col < k implies (#[trigger] after.pixel(x + col, scanline))
            == if ppu.sprite_bits(n, low, high, col) == 0 {
            ppu.pixel(x + col, scanline)
        } else {
            PALETTE_BGR[ppu.sprite_color(n, ppu.sprite_bits(n, low, high, col)) as int]
        } by {
            if col < k - 1 {
                assert(drawn.pixel(x + col, scanline) == if ppu.sprite_bits(n, low, high, col)
                    == 0 {
                    ppu.pixel(x + col, scanline)
                } else {
                    PALETTE_BGR[ppu.sprite_color(n, ppu.sprite_bits(n, low, high, col)) as int]
                });
            }
        }
    }
}

/// Drawing the sprites touches the pixel buffer and nothing else.
pub proof fn lemma_sprites_change_pixels_only(ppu: PpuModel, scanline: int, n: int)
    ensures
        ppu.draw_sprites_upto(scanline, n).0 == (PpuModel {
            pixeldata: ppu.draw_sprites_upto(scanline, n).0.pixeldata,
            ..ppu
        }),
    decreases n,
{
    if n > 0 {
        lemma_sprites_change_pixels_only(ppu, scanline, n - 1);
        lemma_sprite_changes_pixels_only(ppu.draw_sprites_upto(scanline, n - 1).0, n - 1, scanline);
    }
}

/// Rendering a scanline touches the pixel buffer and nothing else: no
/// register, no memory and no sprite changes.
pub proof fn lemma_render_changes_pixels_only(ppu: PpuModel, scanline: int)
    ensures
        ppu.render_scanline(scanline).0 == (PpuModel {
            pixeldata: ppu.render_scanline(scanline).0.pixeldata,
            ..ppu
        }),
{
    lemma_bg_changes_pixels_only(ppu, scanline, 256);
    lemma_sprites_change_pixels_only(ppu, scanline, 64);
    lemma_sprites_change_pixels_only(ppu.draw_bg_upto(scanline, 256).0, scanline, 64);
}

/// At most eight sprites are drawn on a scanline: the count never passes 8,
/// and once it stands at 8 no further sprite changes anything.
pub proof fn lemma_sprite_cap(ppu: PpuModel, scanline: int, n: int, m: int)
    requires
        0 <= n <= m,
    ensures
        ppu.draw_sprites_upto(scanline, n).1 matches Ok(count) ==> 0 <= count <= 8 && count <= n,
        ppu.draw_sprites_upto(scanline, n).1 == Ok::<int, Fault>(8) ==> ppu.draw_sprites_upto(
            scanline,
            m,
        ) == ppu.draw_sprites_upto(scanline, n),
        ppu.draw_sprites_upto(scanline, n).1 is Err ==> ppu.draw_sprites_upto(scanline, m)
            == ppu.draw_sprites_upto(scanline, n),
    decreases m, n,
{
    if n > 0 {
        lemma_sprite_cap(ppu, scanline, n - 1, n - 1);
    }
    if n < m {
        lemma_sprite_cap(ppu, scanline, n, m - 1);
    }
}

impl PPU {
    /// Paints pixel (`x`, `y`) in colour `color` of the reference table.
    pub fn set_pixel(&mut self, x: u8, y: u8, color: usize)
        requires
            y < 240,
            color < 64,
        ensures
            final(self)@ == old(self)@.plot(x as int, y as int, color as int),
    {
        let i: usize = ((y as usize) * 256 + (x as usize)) * 3;
        let color_bgr: (u8, u8, u8) = PALETTE_BGR[color];
        self.pixeldata[i] = color_bgr.0;
        self.pixeldata[i + 1] = color_bgr.1;
        self.pixeldata[i + 2] = color_bgr.2;
    }

    /// The colour that palette entry `palette_i` holds.
    pub fn get_palette_color(&self, palette_i: u8) -> (color: usize)
        ensures
            color == self@.palette_color(palette_i),
    {
        self.mem.palette_entry(PALETTE_RAM_FIRST + palette_i as u16) as usize
    }

    /// The palette group of the background tile at `nt_addr`, as bits 2 and
    /// 3 of a palette entry.
    pub fn get_bg_tile_attr(&self, nt_addr: u16) -> (r: Result<u8, Fault>)
        ensures
            r == self@.bg_tile_attr(nt_addr),
    {
        let nt_index: u16 = nt_addr % 0x400;
        let at_index: u16 = (nt_index / 128) * 8 + (nt_index % 32) / 4;
        let at_base: u16 = nt_addr - nt_index + 0x3C0;
        let at_val: u8 = self.mem.loadb(at_base + at_index)?;
        let quadrant: u16 = ((nt_index / 64) % 2) * 2 + (nt_index / 2) % 2;
        if quadrant == 0 {
            Ok((at_val % 4) * 4)
        } else if quadrant == 1 {
            Ok((at_val / 4 % 4) * 4)
        } else if quadrant == 2 {
            Ok((at_val / 16 % 4) * 4)
        } else {
            Ok((at_val / 64) * 4)
        }
    }

    /// Draws the background of line `scanline`.
    pub fn render_scanline_bg(&mut self, scanline: u8) -> (r: Result<(), Fault>)
        requires
            scanline < 240,
        ensures
            (final(self)@, r) == old(self)@.draw_bg_upto(scanline as int, 256),
    {
        let nt_base: u16 = 0x2000 + 0x400 * ((self.control % 4) as u16);
        let nt_row: u8 = scanline / 8;
        let tile_row: u8 = scanline % 8;
        let pt_base: u16 = if self.control & 0x10 != 0 {
            0x1000
        } else {
            0
        };
        let ghost start = self@;
        let ghost y = scanline as int;
        let mut nt_col: u8 = 0;
        while nt_col < 32
            invariant
                nt_col <= 32,
                scanline < 240,
                y == scanline,
                nt_row == scanline / 8,
                tile_row == scanline % 8,
                start == old(self)@,
                nt_base == start.nametable_base(),
                pt_base == start.bg_pattern_base(),
                start.draw_bg_upto(y, 8 * nt_col) == (self@, Ok::<(), Fault>(())),
                self@.mem == start.mem,
                self@.control == start.control,
            ensures
                nt_col == 32,
                start.draw_bg_upto(y, 256) == (self@, Ok::<(), Fault>(())),
            decreases 32 - nt_col,
        {
            let nt_addr: u16 = nt_base + nt_col as u16 + 32 * (nt_row as u16);
            let ghost x0 = 8 * nt_col as int;
            assert(nt_addr == self@.bg_tile_addr(x0, y));
            proof {
                if self@.bg_pattern(x0, y) is Err {
                    assert(start.draw_bg_upto(y, x0 + 1) == (self@, Err::<(), Fault>(
                        self@.bg_pattern(x0, y)->Err_0,
                    )));
                    lemma_bg_fault_ends_drawing(start, y, x0 + 1, 256);
                }
            }
            let tile_num: u8 = self.mem.loadb(nt_addr)?;
            let tile_addr: u16 = pt_base + (tile_num as u16) * 16;
            let pattern_low: u8 = self.mem.loadb(tile_addr + tile_row as u16)?;
            let pattern_high: u8 = self.mem.loadb(tile_addr + tile_row as u16 + 8)?;
            let mut tile_col: u8 = 0;
            while tile_col < 8
                invariant
                    tile_col <= 8,
                    nt_col < 32,
                    scanline < 240,
                    y == scanline,
                    x0 == 8 * nt_col,
                    nt_row == scanline / 8,
                    tile_row == scanline % 8,
                    start == old(self)@,
                    nt_addr == start.bg_tile_addr(x0, y),
                    start.bg_pattern(x0, y) == Ok::<(u8, u8), Fault>((pattern_low, pattern_high)),
                    start.draw_bg_upto(y, x0 + tile_col) == (self@, Ok::<(), Fault>(())),
                    self@.mem == start.mem,
                    self@.control == start.control,
                ensures
                    tile_col == 8,
                    start.draw_bg_upto(y, x0 + 8) == (self@, Ok::<(), Fault>(())),
                    self@.mem == start.mem,
                    self@.control == start.control,
                decreases 8 - tile_col,
            {
                let ghost x = x0 + tile_col;
                assert(self@.bg_tile_addr(x, y) == nt_addr);
                assert(self@.bg_pattern(x, y) == start.bg_pattern(x0, y));
                proof {
                    if self@.bg_pixel(x, y) is Err {
                        assert(start.draw_bg_upto(y, x + 1) == (self@, Err::<(), Fault>(
                            self@.bg_pixel(x, y)->Err_0,
                        )));
                        lemma_bg_fault_ends_drawing(start, y, x + 1, 256);
                    }
                }
                let palette_low: u8 = pattern_pixel(pattern_low, pattern_high, 7 - tile_col);
                let palette_high: u8 = self.get_bg_tile_attr(nt_addr)?;
                let palette_i: u8 = concat_palette_bits(palette_low, palette_high);
                let color: usize = self.get_palette_color(palette_i);
                if color >= 64 {
                    return Err(Fault::Color);
                }
                self.set_pixel(nt_col * 8 + tile_col, scanline, color);
                tile_col = tile_col + 1;
            }
            nt_col = nt_col + 1;
        }
        Ok(())
    }

    /// Draws sprite `sprite_num` on line `scanline`, if it covers the line.
    pub fn render_sprite(&mut self, sprite_num: u8, scanline: u8) -> (r: Result<
        SpriteRenderResult,
        Fault,
    >)
        requires
            sprite_num < 64,
            scanline < 240,
        ensures
            final(self)@ == old(self)@.draw_sprite(sprite_num as int, scanline as int).0,
            match r {
                Ok(shown) => old(self)@.draw_sprite(sprite_num as int, scanline as int).1 == Ok::<
                    bool,
                    Fault,
                >(shown == SpriteRenderResult::Rendered),
                Err(fault) => old(self)@.draw_sprite(sprite_num as int, scanline as int).1 == Err::<
                    bool,
                    Fault,
                >(fault),
            },
    {
        let tall: bool = (self.control & 0x20) != 0;
        let sprite_size: u16 = if tall {
            16
        } else {
            8
        };
        let sprite_i: usize = (sprite_num as usize) * 4;
        let y: u8 = self.oam[sprite_i];
        if !(y < 0xF0 && y + 1 <= scanline && (scanline as u16) < y as u16 + 1 + sprite_size) {
            return Ok(SpriteRenderResult::NotRendered);
        }
        // sprites are delayed one scanline
        let y: u8 = y + 1;
        let tile_num: u16 = self.oam[sprite_i + 1] as u16;
        let attributes: u8 = self.oam[sprite_i + 2];
        let x: u8 = self.oam[sprite_i + 3];
        let vert_flip: bool = (attributes & 0x80) != 0;
        let horiz_flip: bool = (attributes & 0x40) != 0;
        let palette_high: u8 = 0x10 + (attributes % 4) * 4;
        let sprite_row: u8 = scanline - y;
        let tile_row: u8 = if vert_flip {
            7 - sprite_row % 8
        } else {
            sprite_row % 8
        };
        let tile_addr: u16 = if !tall {
            let pt_base: u16 = if self.control & 0x08 != 0 {
                0x1000
            } else {
                0
            };
            pt_base + tile_num * 16
        } else {
            let pt_base: u16 = (tile_num % 2) * 0x1000;
            let second_tile: u16 = if (sprite_row >= 8) != vert_flip {
                1
            } else {
                0
            };
            pt_base + (tile_num - tile_num % 2 + second_tile) * 16
        };
        let ghost n = sprite_num as int;
        let ghost line = scanline as int;
        let ghost start = self@;
        assert(start.sprite_on_line(n, line));
        assert(tile_addr + tile_row == start.sprite_row_addr(n, line));
        let pattern_low: u8 = self.mem.loadb(tile_addr + tile_row as u16)?;
        let pattern_high: u8 = self.mem.loadb(tile_addr + tile_row as u16 + 8)?;
        let end_col: u8 = if x > 0xF8 {
            0xFF - x + 1
        } else {
            8
        };
        let mut sprite_col: u8 = 0;
        while sprite_col < end_col
            invariant
                sprite_col <= end_col,
                end_col == sprite_width(x),
                scanline < 240,
                sprite_num < 64,
                n == sprite_num,
                line == scanline,
                start == old(self)@,
                x == start.oam[4 * n + 3],
                horiz_flip == (start.oam[4 * n + 2] & 0x40 != 0),
                palette_high == start.sprite_group(n),
                start.sprite_on_line(n, line),
                start.mem.load(start.sprite_row_addr(n, line) as u16) == Ok::<u8, Fault>(
                    pattern_low,
                ),
                start.mem.load((start.sprite_row_addr(n, line) + 8) as u16) == Ok::<u8, Fault>(
                    pattern_high,
                ),
                start.draw_sprite_upto(n, line, pattern_low, pattern_high, sprite_col as int) == (
                    self@,
                    Ok::<(), Fault>(()),
                ),
                self@.mem == start.mem,
            ensures
                sprite_col == end_col,
                start.draw_sprite_upto(n, line, pattern_low, pattern_high, end_col as int) == (
                    self@,
                    Ok::<(), Fault>(()),
                ),
            decreases end_col - sprite_col,
        {
            let shamt: u8 = if horiz_flip {
                sprite_col
            } else {
                end_col - 1 - sprite_col
            };
            let palette_low: u8 = pattern_pixel(pattern_low, pattern_high, shamt);
            let palette_i: u8 = concat_palette_bits(palette_low, palette_high);
            // a pixel of pattern value 0 is transparent
            if palette_low != 0 {
                let color: usize = self.get_palette_color(palette_i);
                if color >= 64 {
                    proof {
                        assert(start.draw_sprite_upto(
                            n,
                            line,
                            pattern_low,
                            pattern_high,
                            sprite_col + 1,
                        ) == (self@, Err::<(), Fault>(Fault::Color)));
                        lemma_sprite_fault_ends_drawing(
                            start,
                            n,
                            line,
                            pattern_low,
                            pattern_high,
                            sprite_col + 1,
                            end_col as int,
                        );
                    }
                    return Err(Fault::Color);
                }
                self.set_pixel(sprite_col + x, scanline, color);
            }
            sprite_col = sprite_col + 1;
        }
        Ok(SpriteRenderResult::Rendered)
    }

    /// Draws the sprites of line `scanline`, over what the line holds.
    pub fn render_scanline_sprites(&mut self, scanline: u8) -> (r: Result<(), Fault>)
        requires
            scanline < 240,
        ensures
            final(self)@ == old(self)@.draw_sprites_upto(scanline as int, 64).0,
            match r {
                Ok(()) => old(self)@.draw_sprites_upto(scanline as int, 64).1 is Ok,
                Err(fault) => old(self)@.draw_sprites_upto(scanline as int, 64).1 == Err::<
                    int,
                    Fault,
                >(fault),
            },
    {
        let ghost start = self@;
        let ghost line = scanline as int;
        let mut num_sprites: u8 = 0;
        let mut sprite_num: u8 = 0;
        while sprite_num < 64 && num_sprites < 8
            invariant
                sprite_num <= 64,
                num_sprites <= 8,
                scanline < 240,
                line == scanline,
                start == old(self)@,
                start.draw_sprites_upto(line, sprite_num as int) == (
                    self@,
                    Ok::<int, Fault>(num_sprites as int),
                ),
            decreases 64 - sprite_num,
        {
            let shown = self.render_sprite(sprite_num, scanline);
            match shown {
                Err(fault) => {
                    proof {
                        lemma_sprite_cap(start, line, sprite_num + 1, 64);
                    }
                    return Err(fault);
                },
                Ok(SpriteRenderResult::Rendered) => {
                    num_sprites = num_sprites + 1;
                },
                Ok(SpriteRenderResult::NotRendered) => {},
            }
            sprite_num = sprite_num + 1;
        }
        proof {
            lemma_sprite_cap(start, line, sprite_num as int, 64);
        }
        Ok(())
    }

    /// Renders line `scanline` into the pixel buffer: the background if the
    /// mask register shows it, then the sprites if it shows them.
    pub fn render_scanline(&mut self, scanline: u8) -> (r: Result<(), Fault>)
        requires
            scanline < 240,
        ensures
            (final(self)@, r) == old(self)@.render_scanline(scanline as int),
    {
        let show_bg: bool = (self.mask & 0x08) != 0;
        let show_sprites: bool = (self.mask & 0x10) != 0;
        if show_bg {
            proof {
                lemma_bg_changes_pixels_only(self@, scanline as int, 256);
            }
            self.render_scanline_bg(scanline)?;
        }
        if show_sprites {
            self.render_scanline_sprites(scanline)?;
        }
        Ok(())
    }
}

/// Drawing stops for good at the first fault: drawing further columns of a
/// sprite changes nothing.
pub proof fn lemma_sprite_fault_ends_drawing(
    ppu: PpuModel,
    n: int,
    scanline: int,
    low: u8,
    high: u8,
    k: int,
    m: int,
)
    requires
        k <= m,
        ppu.draw_sprite_upto(n, scanline, low, high, k).1 is Err,
    ensures
        ppu.draw_sprite_upto(n, scanline, low, high, m) == ppu.draw_sprite_upto(
            n,
            scanline,
            low,
            high,
            k,
        ),
    decreases m - k,
{
    if k < m {
        lemma_sprite_fault_ends_drawing(ppu, n, scanline, low, high, k, m - 1);
    }
}

} // verus!
