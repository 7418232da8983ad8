//! The numbers of the eight registers that the PPU shows to the CPU.

use vstd::prelude::*;

verus! {

pub const CONTROL: u8 = 0;

pub const MASK: u8 = 1;

pub const STATUS: u8 = 2;

pub const OAMADDR: u8 = 3;

pub const OAMDATA: u8 = 4;

pub const SCROLL: u8 = 5;

pub const ADDRESS: u8 = 6;

pub const DATA: u8 = 7;

/// How many registers there are.
pub const REGISTERS: u8 = 8;

} // verus!
