//! Addition, subtraction, multiplication and division.

use vstd::prelude::*;

use super::control::ExceptionCause;
use super::{div_result, Cpu, Effect};
use crate::bus::Devices;
use crate::instruction::Instruction;

verus! {

impl<D: Devices> Cpu<D> {
    /// Enters the overflow exception for the current instruction.
    fn overflow(&mut self)
        requires
            old(self).wf(),
        ensures
            final(self).wf(),
            old(self).trapped(&*final(self), ExceptionCause::Overflow),
    {
        let npc = self.npc;
        let epc = self.current_pc;
        self.exception(ExceptionCause::Overflow, epc, npc);
    }

    /// 00.20 - ADD: GPR[rd] = GPR[rs] + GPR[rt], trapping on signed overflow
    pub fn ins_add(&mut self, instruction: Instruction)
        requires
            old(self).wf(),
            instruction.0 >> 26 == 0,
            instruction.0 & 0x3f == 0x20,
        ensures
            final(self).wf(),
            old(self).did(&*final(self), old(self).effect_of(instruction.0).unwrap()),
    {
        let a = self.get_rs(instruction);
        let b = self.get_rt(instruction);
        let s = a as i32 as i64 + b as i32 as i64;
        if s < -0x8000_0000 || s > 0x7fff_ffff {
            self.overflow();
        } else {
            self.write_reg(instruction.rd(), a.wrapping_add(b));
        }
    }

    /// 00.21 - ADDU: GPR[rd] = GPR[rs] + GPR[rt], wrapping
    pub fn ins_addu(&mut self, instruction: Instruction)
        requires
            old(self).wf(),
            instruction.0 >> 26 == 0,
            instruction.0 & 0x3f == 0x21,
        ensures
            final(self).wf(),
            old(self).did(&*final(self), old(self).effect_of(instruction.0).unwrap()),
    {
        let v = self.get_rs(instruction).wrapping_add(self.get_rt(instruction));
        self.write_reg(instruction.rd(), v);
    }

    /// 00.22 - SUB: GPR[rd] = GPR[rs] - GPR[rt], trapping on signed overflow
    pub fn ins_sub(&mut self, instruction: Instruction)
        requires
            old(self).wf(),
            instruction.0 >> 26 == 0,
            instruction.0 & 0x3f == 0x22,
        ensures
            final(self).wf(),
            old(self).did(&*final(self), old(self).effect_of(instruction.0).unwrap()),
    {
        let a = self.get_rs(instruction);
        let b = self.get_rt(instruction);
        let s = a as i32 as i64 - b as i32 as i64;
        if s < -0x8000_0000 || s > 0x7fff_ffff {
            self.overflow();
        } else {
            self.write_reg(instruction.rd(), a.wrapping_sub(b));
        }
    }

    /// 00.23 - SUBU: GPR[rd] = GPR[rs] - GPR[rt], wrapping
    pub fn ins_subu(&mut self, instruction: Instruction)
        requires
            old(self).wf(),
            instruction.0 >> 26 == 0,
            instruction.0 & 0x3f == 0x23,
        ensures
            final(self).wf(),
            old(self).did(&*final(self), old(self).effect_of(instruction.0).unwrap()),
    {
        let v = self.get_rs(instruction).wrapping_sub(self.get_rt(instruction));
        self.write_reg(instruction.rd(), v);
    }

    /// 08 - ADDI: GPR[rt] = GPR[rs] + sign_extend(immediate), trapping on signed overflow
    pub fn ins_addi(&mut self, instruction: Instruction)
        requires
            old(self).wf(),
            instruction.0 >> 26 == 0x08,
        ensures
            final(self).wf(),
            old(self).did(&*final(self), old(self).effect_of(instruction.0).unwrap()),
    {
        let a = self.get_rs(instruction);
        let b = instruction.simm16() as u32;
        let s = a as i32 as i64 + b as i32 as i64;
        if s < -0x8000_0000 || s > 0x7fff_ffff {
            self.overflow();
        } else {
            self.write_reg(instruction.rt(), a.wrapping_add(b));
        }
    }

    /// 09 - ADDIU: GPR[rt] = GPR[rs] + sign_extend(immediate), without overflow trap
    pub fn ins_addiu(&mut self, instruction: Instruction)
        requires
            old(self).wf(),
            instruction.0 >> 26 == 0x09,
        ensures
            final(self).wf(),
            old(self).did(&*final(self), old(self).effect_of(instruction.0).unwrap()),
    {
        let v = self.get_rs(instruction).wrapping_add(instruction.simm16() as u32);
        self.write_reg(instruction.rt(), v);
    }

    /// 00.10 - MFHI: GPR[rd] = HI
    pub fn ins_mfhi(&mut self, instruction: Instruction)
        requires
            old(self).wf(),
            instruction.0 >> 26 == 0,
            instruction.0 & 0x3f == 0x10,
        ensures
            final(self).wf(),
            old(self).did(&*final(self), old(self).effect_of(instruction.0).unwrap()),
    {
        let v = self.hi;
        self.write_reg(instruction.rd(), v);
    }

    /// 00.11 - MTHI: HI = GPR[rs]
    pub fn ins_mthi(&mut self, instruction: Instruction)
        requires
            old(self).wf(),
            instruction.0 >> 26 == 0,
            instruction.0 & 0x3f == 0x11,
        ensures
            final(self).wf(),
            old(self).did(&*final(self), old(self).effect_of(instruction.0).unwrap()),
    {
        self.hi = self.get_rs(instruction);
    }

    /// 00.12 - MFLO: GPR[rd] = LO
    pub fn ins_mflo(&mut self, instruction: Instruction)
        requires
            old(self).wf(),
            instruction.0 >> 26 == 0,
            instruction.0 & 0x3f == 0x12,
        ensures
            final(self).wf(),
            old(self).did(&*final(self), old(self).effect_of(instruction.0).unwrap()),
    {
        let v = self.lo;
        self.write_reg(instruction.rd(), v);
    }

    /// 00.13 - MTLO: LO = GPR[rs]
    pub fn ins_mtlo(&mut self, instruction: Instruction)
        requires
            old(self).wf(),
            instruction.0 >> 26 == 0,
            instruction.0 & 0x3f == 0x13,
        ensures
            final(self).wf(),
            old(self).did(&*final(self), old(self).effect_of(instruction.0).unwrap()),
    {
        self.lo = self.get_rs(instruction);
    }

    /// 00.18 - MULT: HI:LO = signed(GPR[rs]) * signed(GPR[rt])
    pub fn ins_mult(&mut self, instruction: Instruction)
        requires
            old(self).wf(),
            instruction.0 >> 26 == 0,
            instruction.0 & 0x3f == 0x18,
        ensures
            final(self).wf(),
            old(self).did(&*final(self), old(self).effect_of(instruction.0).unwrap()),
    {
        let a = self.get_rs(instruction) as i32 as i64;
        let b = self.get_rt(instruction) as i32 as i64;
        assert(-0x4000_0000_0000_0000 <= a * b <= 0x4000_0000_0000_0000) by (nonlinear_arith)
            requires -0x8000_0000 <= a <= 0x7fff_ffff, -0x8000_0000 <= b <= 0x7fff_ffff;
        let p = a * b;
        self.hi = (p >> 32u32) as u32;
        #[verifier::truncate]
        let lo = p as u32;
        self.lo = lo;
    }

    /// 00.19 - MULTU: HI:LO = GPR[rs] * GPR[rt]
    pub fn ins_multu(&mut self, instruction: Instruction)
        requires
            old(self).wf(),
            instruction.0 >> 26 == 0,
            instruction.0 & 0x3f == 0x19,
        ensures
            final(self).wf(),
            old(self).did(&*final(self), old(self).effect_of(instruction.0).unwrap()),
    {
        let a = self.get_rs(instruction) as u64;
        let b = self.get_rt(instruction) as u64;
        assert(a * b <= 0xffff_fffe_0000_0001u64) by (nonlinear_arith)
            requires a <= 0xffff_ffffu64, b <= 0xffff_ffffu64;
        let p = a * b;
        self.hi = (p >> 32u32) as u32;
        #[verifier::truncate]
        let lo = p as u32;
        self.lo = lo;
    }

    /// 00.1A - DIV: LO = signed(GPR[rs]) / signed(GPR[rt]), HI = the remainder
    pub fn ins_div(&mut self, instruction: Instruction)
        requires
            old(self).wf(),
            instruction.0 >> 26 == 0,
            instruction.0 & 0x3f == 0x1a,
        ensures
            final(self).wf(),
            old(self).did(&*final(self), old(self).effect_of(instruction.0).unwrap()),
    {
        let n = self.get_rs(instruction);
        let d = self.get_rt(instruction);
        let (h, l) = div_signed(n, d);
        self.hi = h;
        self.lo = l;
    }

    /// 00.1B - DIVU: LO = GPR[rs] / GPR[rt], HI = the remainder
    pub fn ins_divu(&mut self, instruction: Instruction)
        requires
            old(self).wf(),
            instruction.0 >> 26 == 0,
            instruction.0 & 0x3f == 0x1b,
        ensures
            final(self).wf(),
            old(self).did(&*final(self), old(self).effect_of(instruction.0).unwrap()),
    {
        let n = self.get_rs(instruction);
        let d = self.get_rt(instruction);
        if d == 0 {
            self.hi = n;
            self.lo = 0xffff_ffff;
        } else {
            self.hi = n % d;
            self.lo = n / d;
        }
    }

}

/// Signed division as the CPU performs it: see `div_result`.
fn div_signed(n: u32, d: u32) -> (r: (u32, u32))
    ensures
        r == div_result(n, d),
{
    if d == 0 {
        (n, if (n as i32) >= 0 { 0xffff_ffff } else { 1 })
    } else if n == 0x8000_0000 && d == 0xffff_ffff {
        (0, 0x8000_0000)
    } else {
        let neg_n = (n as i32) < 0;
        let neg_d = (d as i32) < 0;
        let an: u32 = if neg_n { 0u32.wrapping_sub(n) } else { n };
        let ad: u32 = if neg_d { 0u32.wrapping_sub(d) } else { d };
        let q = an / ad;
        let r = an % ad;
        let lo = if neg_n != neg_d { 0u32.wrapping_sub(q) } else { q };
        let hi = if neg_n { 0u32.wrapping_sub(r) } else { r };
        (hi, lo)
    }
}

} // verus!
