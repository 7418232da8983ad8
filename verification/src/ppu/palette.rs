//! The reference colour table.

use vstd::prelude::*;

verus! {

/// The 64 colours that a palette entry can name, as (blue, green, red).
pub const PALETTE_BGR: [(u8, u8, u8); 64] = [
    (124, 124, 124), (252, 0, 0), (188, 0, 0), (188, 40, 68),
    (132, 0, 148), (32, 0, 168), (0, 16, 168), (0, 20, 136),
    (0, 48, 80), (0, 120, 0), (0, 104, 0), (0, 88, 0),
    (88, 64, 0), (0, 0, 0), (0, 0, 0), (0, 0, 0),
    (188, 188, 188), (248, 120, 0), (248, 88, 0), (252, 68, 104),
    (204, 0, 216), (88, 0, 228), (0, 56, 248), (16, 92, 228),
    (0, 124, 172), (0, 184, 0), (0, 168, 0), (68, 168, 0),
    (136, 136, 0), (0, 0, 0), (0, 0, 0), (0, 0, 0),
    (248, 248, 248), (252, 188, 60), (252, 136, 104), (248, 120, 152),
    (248, 120, 248), (152, 88, 248), (88, 120, 248), (68, 160, 252),
    (0, 184, 248), (24, 248, 184), (84, 216, 88), (152, 248, 88),
    (216, 232, 0), (120, 120, 120), (0, 0, 0), (0, 0, 0),
    (252, 252, 252), (252, 228, 164), (248, 184, 184), (248, 184, 216),
    (248, 184, 248), (192, 164, 248), (176, 208, 240), (168, 224, 252),
    (120, 216, 248), (120, 248, 216), (184, 248, 184), (216, 248, 184),
    (252, 252, 0), (248, 216, 248), (0, 0, 0), (0, 0, 0),
];

} // verus!
