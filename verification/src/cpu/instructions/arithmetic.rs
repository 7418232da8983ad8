//! Arithmetic, logic, comparisons, increments and shifts.

use crate::cpu::flags::CPUFlags;
use crate::cpu::instructions::InstrArg;
use crate::cpu::{CpuModel, CPU};
use crate::Fault;
use vstd::pervasive::unreached;
use vstd::prelude::*;

verus! {

/// The value of a byte read as a signed number.
pub open spec fn signed(val: u8) -> int {
    if val >= 0x80 {
        val - 0x100
    } else {
        val as int
    }
}

/// The four shifts and rotates.
#[derive(Clone, Copy, PartialEq, Eq, Structural, Debug)]
pub enum Shift {
    /// Shift left: bit 7 leaves into the carry, bit 0 becomes 0.
    Asl,
    /// Shift right: bit 0 leaves into the carry, bit 7 becomes 0.
    Lsr,
    /// Rotate left: bit 7 leaves into the carry, the carry enters at bit 0.
    Rol,
    /// Rotate right: bit 0 leaves into the carry, the carry enters at bit 7.
    Ror,
}

impl Shift {
    /// The value after the shift.
    pub open spec fn result(self, val: u8, carry: bool) -> u8 {
        match self {
            Shift::Asl => val << 1,
            Shift::Lsr => val >> 1,
            Shift::Rol => (val << 1) | if carry {
                1u8
            } else {
                0u8
            },
            Shift::Ror => (val >> 1) | if carry {
                0x80u8
            } else {
                0u8
            },
        }
    }

    /// The carry after the shift: the bit that left.
    pub open spec fn carry_out(self, val: u8) -> bool {
        match self {
            Shift::Asl | Shift::Rol => val & 0x80 != 0,
            Shift::Lsr | Shift::Ror => val & 0x01 != 0,
        }
    }

    /// The negative flag after the shift: bit 7 of the result, but always
    /// clear after a shift right.
    pub open spec fn negative(self, val: u8, carry: bool) -> bool {
        match self {
            Shift::Lsr => false,
            _ => self.result(val, carry) >= 0x80,
        }
    }
}

impl CpuModel {
    /// The CPU after `val` and the carry are added to the accumulator, in
    /// binary whatever the decimal flag says. The carry flag is the carry
    /// out of bit 7. The overflow flag is set when both operands have the
    /// same sign and the sign of the result differs from it.
    pub open spec fn add_with_carry(self, val: u8) -> CpuModel {
        let carry: int = if self.flags.c {
            1
        } else {
            0
        };
        let sum = self.a + val + carry;
        let result = (sum % 0x100) as u8;
        CpuModel {
            a: result,
            flags: CPUFlags {
                c: sum > 0xFF,
                v: (self.a >= 0x80) == (val >= 0x80) && (result >= 0x80) != (self.a >= 0x80),
                ..self.flags.with_nz(result)
            },
            ..self
        }
    }

    /// The CPU after `val` and the borrow are subtracted from the
    /// accumulator, in binary whatever the decimal flag says. A clear carry
    /// flag is a borrow; afterwards the carry flag is set if no borrow
    /// occurred. The overflow flag is set when the operands differ in sign
    /// and the sign of the result differs from the accumulator's.
    pub open spec fn subtract_with_carry(self, val: u8) -> CpuModel {
        let borrow: int = if self.flags.c {
            0
        } else {
            1
        };
        let difference = self.a - val - borrow;
        let result = (difference % 0x100) as u8;
        CpuModel {
            a: result,
            flags: CPUFlags {
                c: difference >= 0,
                v: (self.a >= 0x80) != (val >= 0x80) && (result >= 0x80) != (self.a >= 0x80),
                ..self.flags.with_nz(result)
            },
            ..self
        }
    }

    /// Add with carry.
    pub open spec fn adc(self, arg: InstrArg) -> (CpuModel, Result<(), Fault>) {
        let (read, r) = self.operand(arg);
        match r {
            Err(fault) => (read, Err(fault)),
            Ok(val) => (read.add_with_carry(val), Ok(())),
        }
    }

    /// Subtract with carry.
    pub open spec fn sbc(self, arg: InstrArg) -> (CpuModel, Result<(), Fault>) {
        let (read, r) = self.operand(arg);
        match r {
            Err(fault) => (read, Err(fault)),
            Ok(val) => (read.subtract_with_carry(val), Ok(())),
        }
    }

    /// Bitwise and with the accumulator.
    pub open spec fn and(self, arg: InstrArg) -> (CpuModel, Result<(), Fault>) {
        let (read, r) = self.operand(arg);
        match r {
            Err(fault) => (read, Err(fault)),
            Ok(val) => (read.with_a(self.a & val), Ok(())),
        }
    }

    /// Bitwise or with the accumulator.
    pub open spec fn ora(self, arg: InstrArg) -> (CpuModel, Result<(), Fault>) {
        let (read, r) = self.operand(arg);
        match r {
            Err(fault) => (read, Err(fault)),
            Ok(val) => (read.with_a(self.a | val), Ok(())),
        }
    }

    /// Bitwise exclusive or with the accumulator.
    pub open spec fn eor(self, arg: InstrArg) -> (CpuModel, Result<(), Fault>) {
        let (read, r) = self.operand(arg);
        match r {
            Err(fault) => (read, Err(fault)),
            Ok(val) => (read.with_a(self.a ^ val), Ok(())),
        }
    }

    /// Compare the operand with `reg`.
    pub open spec fn compare(self, reg: u8, arg: InstrArg) -> (CpuModel, Result<(), Fault>) {
        let (read, r) = self.operand(arg);
        match r {
            Err(fault) => (read, Err(fault)),
            Ok(val) => (read.compared(reg, val), Ok(())),
        }
    }

    /// Test the bits of the byte at `addr`: negative and overflow are its
    /// bits 7 and 6, zero tells whether it has no bit in common with the
    /// accumulator.
    pub open spec fn bit(self, addr: u16) -> (CpuModel, Result<(), Fault>) {
        let (read, r) = self.read(addr);
        match r {
            Err(fault) => (read, Err(fault)),
            Ok(val) => (
                CpuModel {
                    flags: CPUFlags {
                        n: val & 0x80 != 0,
                        v: val & 0x40 != 0,
                        z: val & self.a == 0,
                        ..read.flags
                    },
                    ..read
                },
                Ok(()),
            ),
        }
    }

    /// The CPU after the byte at `addr` is replaced by itself plus `delta`,
    /// wrapping, with negative and zero set from the new byte.
    pub open spec fn step_memory(self, addr: u16, delta: u8) -> (CpuModel, Result<(), Fault>) {
        let (read, r) = self.read(addr);
        match r {
            Err(fault) => (read, Err(fault)),
            Ok(val) => {
                let (written, r) = read.write(addr, val.wrapping_add(delta));
                match r {
                    Err(fault) => (written, Err(fault)),
                    Ok(()) => (written.with_nz(val.wrapping_add(delta)), Ok(())),
                }
            },
        }
    }

    /// A shift or rotate of the accumulator, if `arg` is implied, or of the
    /// byte at an address. The carry takes the bit that leaves before the
    /// new byte is written; negative and zero follow once it is.
    pub open spec fn shift(self, kind: Shift, arg: InstrArg) -> (CpuModel, Result<(), Fault>)
        recommends
            arg !is Immediate,
    {
        let carry = self.flags.c;
        match arg {
            InstrArg::Address(addr) => {
                let (read, r) = self.read(addr);
                match r {
                    Err(fault) => (read, Err(fault)),
                    Ok(val) => {
                        let carried = CpuModel {
                            flags: CPUFlags { c: kind.carry_out(val), ..read.flags },
                            ..read
                        };
                        let (written, r) = carried.write(addr, kind.result(val, carry));
                        match r {
                            Err(fault) => (written, Err(fault)),
                            Ok(()) => (
                                CpuModel {
                                    flags: CPUFlags {
                                        n: kind.negative(val, carry),
                                        z: kind.result(val, carry) == 0,
                                        ..written.flags
                                    },
                                    ..written
                                },
                                Ok(()),
                            ),
                        }
                    },
                }
            },
            _ => (
                CpuModel {
                    a: kind.result(self.a, carry),
                    flags: CPUFlags {
                        c: kind.carry_out(self.a),
                        n: kind.negative(self.a, carry),
                        z: kind.result(self.a, carry) == 0,
                        ..self.flags
                    },
                    ..self
                },
                Ok(()),
            ),
        }
    }
}

impl Shift {
    fn apply(self, val: u8, carry: bool) -> (r: (u8, bool))
        ensures
            r.0 == self.result(val, carry),
            r.1 == self.carry_out(val),
    {
        match self {
            Shift::Asl => (val << 1, val & 0x80 != 0),
            Shift::Lsr => (val >> 1, val & 0x01 != 0),
            Shift::Rol => ((val << 1) | if carry { 1u8 } else { 0u8 }, val & 0x80 != 0),
            Shift::Ror => ((val >> 1) | if carry { 0x80u8 } else { 0u8 }, val & 0x01 != 0),
        }
    }
}

impl CPU {
    fn shift(&mut self, kind: Shift, arg: InstrArg) -> (r: Result<(), Fault>)
        requires
            arg !is Immediate,
        ensures
            (final(self)@, r) == old(self)@.shift(kind, arg),
    {
        let carry: bool = self.flags.c;
        let result: u8 = match arg {
            InstrArg::Address(addr) => {
                let target_val: u8 = self.mem.loadb(addr)?;
                let shifted: (u8, bool) = kind.apply(target_val, carry);
                self.flags.c = shifted.1;
                self.mem.storeb(addr, shifted.0)?;
                shifted.0
            },
            InstrArg::Implied => {
                let shifted: (u8, bool) = kind.apply(self.a, carry);
                self.flags.c = shifted.1;
                self.a = shifted.0;
                shifted.0
            },
            InstrArg::Immediate(_) => unreached(),
        };
        match kind {
            Shift::Lsr => {
                self.flags.n = false;
            },
            _ => {
                self.set_n(result);
            },
        }
        self.set_z(result);
        Ok(())
    }

    /// Rotates the accumulator or a byte in memory right through the carry.
    pub fn ror(&mut self, arg: InstrArg) -> (r: Result<(), Fault>)
        requires
            arg !is Immediate,
        ensures
            (final(self)@, r) == old(self)@.shift(Shift::Ror, arg),
    {
        self.shift(Shift::Ror, arg)
    }

    /// Rotates the accumulator or a byte in memory left through the carry.
    pub fn rol(&mut self, arg: InstrArg) -> (r: Result<(), Fault>)
        requires
            arg !is Immediate,
        ensures
            (final(self)@, r) == old(self)@.shift(Shift::Rol, arg),
    {
        self.shift(Shift::Rol, arg)
    }

    /// Shifts the accumulator or a byte in memory left.
    pub fn asl(&mut self, arg: InstrArg) -> (r: Result<(), Fault>)
        requires
            arg !is Immediate,
        ensures
            (final(self)@, r) == old(self)@.shift(Shift::Asl, arg),
    {
        self.shift(Shift::Asl, arg)
    }

    /// Shifts the accumulator or a byte in memory right.
    pub fn lsr(&mut self, arg: InstrArg) -> (r: Result<(), Fault>)
        requires
            arg !is Immediate,
        ensures
            (final(self)@, r) == old(self)@.shift(Shift::Lsr, arg),
    {
        self.shift(Shift::Lsr, arg)
    }

    /// Increments Y.
    pub fn iny(&mut self, arg: InstrArg)
        requires
            arg is Implied,
        ensures
            final(self)@ == old(self)@.with_y(old(self)@.y.wrapping_add(1)),
    {
        self.unwrap_implied(arg);
        self.y = self.y.wrapping_add(1);
        let y: u8 = self.y;
        self.set_n(y);
        self.set_z(y);
    }

    /// Increments X.
    pub fn inx(&mut self, arg: InstrArg)
        requires
            arg is Implied,
        ensures
            final(self)@ == old(self)@.with_x(old(self)@.x.wrapping_add(1)),
    {
        self.unwrap_implied(arg);
        self.x = self.x.wrapping_add(1);
        let x: u8 = self.x;
        self.set_n(x);
        self.set_z(x);
    }

    /// Increments a byte in memory.
    pub fn inc(&mut self, arg: InstrArg) -> (r: Result<(), Fault>)
        requires
            arg is Address,
        ensures
            (final(self)@, r) == old(self)@.step_memory(arg->Address_0, 1),
    {
        let addr: u16 = self.unwrap_addr(arg);
        let mut mem_val: u8 = self.mem.loadb(addr)?;
        mem_val = mem_val.wrapping_add(1);
        self.mem.storeb(addr, mem_val)?;
        self.set_n(mem_val);
        self.set_z(mem_val);
        Ok(())
    }

    /// Decrements Y.
    pub fn dey(&mut self, arg: InstrArg)
        requires
            arg is Implied,
        ensures
            final(self)@ == old(self)@.with_y(old(self)@.y.wrapping_sub(1)),
    {
        self.unwrap_implied(arg);
        self.y = self.y.wrapping_sub(1);
        let y: u8 = self.y;
        self.set_n(y);
        self.set_z(y);
    }

    /// Decrements X.
    pub fn dex(&mut self, arg: InstrArg)
        requires
            arg is Implied,
        ensures
            final(self)@ == old(self)@.with_x(old(self)@.x.wrapping_sub(1)),
    {
        self.unwrap_implied(arg);
        self.x = self.x.wrapping_sub(1);
        let x: u8 = self.x;
        self.set_n(x);
        self.set_z(x);
    }

    /// Decrements a byte in memory.
    pub fn dec(&mut self, arg: InstrArg) -> (r: Result<(), Fault>)
        requires
            arg is Address,
        ensures
            (final(self)@, r) == old(self)@.step_memory(arg->Address_0, 0xFF),
    {
        let addr: u16 = self.unwrap_addr(arg);
        let mut mem_val: u8 = self.mem.loadb(addr)?;
        mem_val = mem_val.wrapping_sub(1);
        self.mem.storeb(addr, mem_val)?;
        self.set_n(mem_val);
        self.set_z(mem_val);
        Ok(())
    }

    /// Compares the operand with Y.
    pub fn cpy(&mut self, arg: InstrArg) -> (r: Result<(), Fault>)
        requires
            arg !is Implied,
        ensures
            (final(self)@, r) == old(self)@.compare(old(self)@.y, arg),
    {
        let val: u8 = self.unwrap_imm_or_memval(arg)?;
        let y: u8 = self.y;
        self.set_compare_flags(y, val);
        Ok(())
    }

    /// Compares the operand with X.
    pub fn cpx(&mut self, arg: InstrArg) -> (r: Result<(), Fault>)
        requires
            arg !is Implied,
        ensures
            (final(self)@, r) == old(self)@.compare(old(self)@.x, arg),
    {
        let val: u8 = self.unwrap_imm_or_memval(arg)?;
        let x: u8 = self.x;
        self.set_compare_flags(x, val);
        Ok(())
    }

    /// Compares the operand with the accumulator.
    pub fn cmp(&mut self, arg: InstrArg) -> (r: Result<(), Fault>)
        requires
            arg !is Implied,
        ensures
            (final(self)@, r) == old(self)@.compare(old(self)@.a, arg),
    {
        let val: u8 = self.unwrap_imm_or_memval(arg)?;
        let a: u8 = self.a;
        self.set_compare_flags(a, val);
        Ok(())
    }

    /// Subtracts the operand and the borrow from the accumulator.
    pub fn sbc(&mut self, arg: InstrArg) -> (r: Result<(), Fault>)
        requires
            arg !is Implied,
        ensures
            (final(self)@, r) == old(self)@.sbc(arg),
    {
        let val: u8 = self.unwrap_imm_or_memval(arg)?;
        let borrow: u8 = if self.flags.c {
            0
        } else {
            1
        };
        // A - M - !C
        let result: u8 = self.a.wrapping_sub(val).wrapping_sub(borrow);
        self.flags.c = self.a as u16 >= val as u16 + borrow as u16;
        let diff_sign: bool = (val >= 0x80) != (self.a >= 0x80);
        self.flags.v = diff_sign && (val >= 0x80) == (result >= 0x80);
        self.set_z(result);
        self.set_n(result);
        self.a = result;
        Ok(())
    }

    /// Adds the operand and the carry to the accumulator.
    pub fn adc(&mut self, arg: InstrArg) -> (r: Result<(), Fault>)
        requires
            arg !is Implied,
        ensures
            (final(self)@, r) == old(self)@.adc(arg),
    {
        let val: u8 = self.unwrap_imm_or_memval(arg)?;
        let carry: u8 = if self.flags.c {
            1
        } else {
            0
        };
        let result: u8 = val.wrapping_add(self.a).wrapping_add(carry);
        self.flags.c = val as u16 + self.a as u16 + carry as u16 > 0xFF;
        let same_sign: bool = (val >= 0x80) == (self.a >= 0x80);
        self.flags.v = same_sign && (val >= 0x80) != (result >= 0x80);
        self.set_z(result);
        self.set_n(result);
        self.a = result;
        Ok(())
    }

    /// Combines the accumulator with the operand by exclusive or.
    pub fn eor(&mut self, arg: InstrArg) -> (r: Result<(), Fault>)
        requires
            arg !is Implied,
        ensures
            (final(self)@, r) == old(self)@.eor(arg),
    {
        let val: u8 = self.a ^ self.unwrap_imm_or_memval(arg)?;
        self.set_z(val);
        self.set_n(val);
        self.a = val;
        Ok(())
    }

    /// Combines the accumulator with the operand by and.
    pub fn and(&mut self, arg: InstrArg) -> (r: Result<(), Fault>)
        requires
            arg !is Implied,
        ensures
            (final(self)@, r) == old(self)@.and(arg),
    {
        let val: u8 = self.a & self.unwrap_imm_or_memval(arg)?;
        self.set_z(val);
        self.set_n(val);
        self.a = val;
        Ok(())
    }

    /// Combines the accumulator with the operand by or.
    pub fn ora(&mut self, arg: InstrArg) -> (r: Result<(), Fault>)
        requires
            arg !is Implied,
        ensures
            (final(self)@, r) == old(self)@.ora(arg),
    {
        let val: u8 = self.a | self.unwrap_imm_or_memval(arg)?;
        self.set_z(val);
        self.set_n(val);
        self.a = val;
        Ok(())
    }

    /// Tests the bits of a byte in memory against the accumulator.
    pub fn bit(&mut self, arg: InstrArg) -> (r: Result<(), Fault>)
        requires
            arg is Address,
        ensures
            (final(self)@, r) == old(self)@.bit(arg->Address_0),
    {
        let addr: u16 = self.unwrap_addr(arg);
        let val: u8 = self.mem.loadb(addr)?;
        self.flags.n = (val & 0x80) != 0;
        self.flags.v = (val & 0x40) != 0;
        self.flags.z = (val & self.a) == 0;
        Ok(())
    }
}

/// The overflow flag says that the result, read as a signed number, is not
/// the sum or the difference of the signed operands: the true result lies
/// outside the range of a signed byte. The carry flag says the same of the
/// unsigned sum, and the opposite of the unsigned difference.
pub proof fn lemma_overflow_is_signed_overflow(cpu: CpuModel, val: u8)
    ensures
        ({
            let carry: int = if cpu.flags.c {
                1
            } else {
                0
            };
            let sum = signed(cpu.a) + signed(val) + carry;
            let after = cpu.add_with_carry(val);
            &&& after.flags.v == !(-128 <= sum <= 127)
            &&& !after.flags.v ==> signed(after.a) == sum
            &&& after.flags.c == (cpu.a + val + carry > 0xFF)
            &&& after.a + (if after.flags.c {
                0x100int
            } else {
                0int
            }) == cpu.a + val + carry
        }),
        ({
            let borrow: int = if cpu.flags.c {
                0
            } else {
                1
            };
            let difference = signed(cpu.a) - signed(val) - borrow;
            let after = cpu.subtract_with_carry(val);
            &&& after.flags.v == !(-128 <= difference <= 127)
            &&& !after.flags.v ==> signed(after.a) == difference
            &&& after.flags.c == (cpu.a >= val + borrow)
            &&& after.a - (if after.flags.c {
                0int
            } else {
                0x100int
            }) == cpu.a - val - borrow
        }),
{
}

/// In every shift the carry carries the bit across: a rotate left followed
/// by a rotate right gives the byte and the carry back, and the shifts
/// halve and double.
pub proof fn lemma_shifts(val: u8, carry: bool)
    ensures
        Shift::Asl.result(val, carry) == (val * 2) % 0x100,
        Shift::Lsr.result(val, carry) == val / 2,
        Shift::Asl.carry_out(val) == (val >= 0x80),
        Shift::Lsr.carry_out(val) == (val % 2 == 1),
        Shift::Rol.result(val, carry) == (val * 2) % 0x100 + if carry {
            1int
        } else {
            0int
        },
        Shift::Ror.result(val, carry) == val / 2 + if carry {
            0x80int
        } else {
            0int
        },
        Shift::Ror.result(Shift::Rol.result(val, carry), Shift::Rol.carry_out(val)) == val,
        Shift::Ror.carry_out(Shift::Rol.result(val, carry)) == carry,
{
    assert(val << 1 == (val * 2) % 0x100) by (bit_vector);
    assert(val >> 1 == val / 2) by (bit_vector);
    assert((val & 0x80 != 0) == (val >= 0x80)) by (bit_vector);
    assert((val & 0x01 != 0) == (val % 2 == 1)) by (bit_vector);
    assert((val << 1) | 1u8 == (val * 2) % 0x100 + 1) by (bit_vector);
    assert((val << 1) | 0u8 == (val * 2) % 0x100) by (bit_vector);
    assert((val >> 1) | 0x80u8 == val / 2 + 0x80) by (bit_vector);
    assert((val >> 1) | 0u8 == val / 2) by (bit_vector);
    let c: u8 = if carry { 1 } else { 0 };
    let h: u8 = if val & 0x80 != 0 { 0x80 } else { 0 };
    assert((((val << 1) | c) >> 1) | h == val && ((((val << 1) | c) & 0x01 != 0) == (c == 1)))
        by (bit_vector)
        requires
            c == 0 || c == 1,
            h == (if val & 0x80 != 0 { 0x80u8 } else { 0u8 }),
    ;
}

} // verus!
