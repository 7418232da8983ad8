//! The six flags of the CPU and the status byte that carries them.

use vstd::prelude::*;

verus! {

/// The flags: negative, overflow, decimal, interrupt disable, zero, carry.
#[derive(Clone, Copy, PartialEq, Eq, Structural, Debug)]
pub struct CPUFlags {
    pub n: bool,
    pub v: bool,
    pub d: bool,
    pub i: bool,
    pub z: bool,
    pub c: bool,
}

/// Bit 5 of the status byte, which is always set.
pub const UNUSED_FLAG: u8 = 0x20;

/// Bit 4 of the status byte: the break flag, which exists only in a status
/// byte on the stack.
pub const BREAK_FLAG: u8 = 0x10;

/// `mask` if `flag` is set, else nothing.
pub open spec fn flag_bit(flag: bool, mask: u8) -> u8 {
    if flag {
        mask
    } else {
        0
    }
}

impl CPUFlags {
    /// No flag set.
    pub open spec fn clear() -> CPUFlags {
        CPUFlags { n: false, v: false, d: false, i: false, z: false, c: false }
    }

    /// The status byte: a bit for each flag, bit 5 set, the break bit clear.
    pub open spec fn pack(self) -> u8 {
        flag_bit(self.n, 0x80) | flag_bit(self.v, 0x40) | UNUSED_FLAG | flag_bit(self.d, 0x08)
            | flag_bit(self.i, 0x04) | flag_bit(self.z, 0x02) | flag_bit(self.c, 0x01)
    }

    /// The flags that a status byte holds. Bits 4 and 5 hold none.
    pub open spec fn unpack(val: u8) -> CPUFlags {
        CPUFlags {
            n: val & 0x80 != 0,
            v: val & 0x40 != 0,
            d: val & 0x08 != 0,
            i: val & 0x04 != 0,
            z: val & 0x02 != 0,
            c: val & 0x01 != 0,
        }
    }

    /// The flags with negative and zero set from `result`.
    pub open spec fn with_nz(self, result: u8) -> CPUFlags {
        CPUFlags { n: result >= 0x80, z: result == 0, ..self }
    }

    /// Unpacks a status byte.
    pub fn from_byte(val: u8) -> (flags: CPUFlags)
        ensures
            flags == CPUFlags::unpack(val),
    {
        CPUFlags {
            n: (val & 0x80 != 0),
            v: (val & 0x40 != 0),
            d: (val & 0x08 != 0),
            i: (val & 0x04 != 0),
            z: (val & 0x02 != 0),
            c: (val & 0x01 != 0),
        }
    }

    /// Packs the flags into a status byte.
    pub fn to_byte(&self) -> (val: u8)
        ensures
            val == self.pack(),
            CPUFlags::unpack(val) == *self,
    {
        proof {
            self.lemma_pack_unpack();
        }
        let n: u8 = if self.n { 0x80 } else { 0 };
        let v: u8 = if self.v { 0x40 } else { 0 };
        let d: u8 = if self.d { 0x08 } else { 0 };
        let i: u8 = if self.i { 0x04 } else { 0 };
        let z: u8 = if self.z { 0x02 } else { 0 };
        let c: u8 = if self.c { 0x01 } else { 0 };
        n | v | UNUSED_FLAG | d | i | z | c
    }

    /// Packing the flags into a status byte and unpacking it gives the same
    /// flags, for every combination of the six, with or without the break
    /// bit that a push may add.
    pub proof fn lemma_pack_unpack(self)
        ensures
            CPUFlags::unpack(self.pack()) == self,
            CPUFlags::unpack(self.pack() | BREAK_FLAG) == self,
            self.pack() & UNUSED_FLAG != 0,
            self.pack() & BREAK_FLAG == 0,
    {
        let n = flag_bit(self.n, 0x80);
        let v = flag_bit(self.v, 0x40);
        let d = flag_bit(self.d, 0x08);
        let i = flag_bit(self.i, 0x04);
        let z = flag_bit(self.z, 0x02);
        let c = flag_bit(self.c, 0x01);
        let b = n | v | 0x20 | d | i | z | c;
        let pushed = b | 0x10;
        assert(b & 0x80 == n && b & 0x40 == v && b & 0x08 == d && b & 0x04 == i && b & 0x02 == z
            && b & 0x01 == c && b & 0x20 != 0 && b & 0x10 == 0) by (bit_vector)
            requires
                b == n | v | 0x20 | d | i | z | c,
                n == 0 || n == 0x80,
                v == 0 || v == 0x40,
                d == 0 || d == 0x08,
                i == 0 || i == 0x04,
                z == 0 || z == 0x02,
                c == 0 || c == 0x01,
        ;
        assert(pushed & 0xCF == b & 0xCF) by (bit_vector)
            requires
                pushed == b | 0x10,
        ;
        assert(pushed & 0x80 == b & 0x80 && pushed & 0x40 == b & 0x40 && pushed & 0x08 == b & 0x08
            && pushed & 0x04 == b & 0x04 && pushed & 0x02 == b & 0x02 && pushed & 0x01 == b
            & 0x01) by (bit_vector)
            requires
                pushed & 0xCF == b & 0xCF,
        ;
    }

    /// Unpacking a status byte and packing the flags gives the byte back
    /// but for bits 4 and 5, which hold no flag.
    pub proof fn lemma_unpack_pack(val: u8)
        ensures
            CPUFlags::unpack(val).pack() == (val & 0xCF) | UNUSED_FLAG,
    {
        let f = CPUFlags::unpack(val);
        let n = flag_bit(f.n, 0x80);
        let v = flag_bit(f.v, 0x40);
        let d = flag_bit(f.d, 0x08);
        let i = flag_bit(f.i, 0x04);
        let z = flag_bit(f.z, 0x02);
        let c = flag_bit(f.c, 0x01);
        assert(n == val & 0x80 && v == val & 0x40 && d == val & 0x08 && i == val & 0x04 && z == val
            & 0x02 && c == val & 0x01) by (bit_vector)
            requires
                n == (if val & 0x80 != 0 { 0x80u8 } else { 0 }),
                v == (if val & 0x40 != 0 { 0x40u8 } else { 0 }),
                d == (if val & 0x08 != 0 { 0x08u8 } else { 0 }),
                i == (if val & 0x04 != 0 { 0x04u8 } else { 0 }),
                z == (if val & 0x02 != 0 { 0x02u8 } else { 0 }),
                c == (if val & 0x01 != 0 { 0x01u8 } else { 0 }),
        ;
        assert(n | v | 0x20 | d | i | z | c == (val & 0xCF) | 0x20) by (bit_vector)
            requires
                n == val & 0x80,
                v == val & 0x40,
                d == val & 0x08,
                i == val & 0x04,
                z == val & 0x02,
                c == val & 0x01,
        ;
    }
}

} // verus!
