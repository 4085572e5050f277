//! Shifts, bitwise logic and comparisons.

use vstd::prelude::*;

use super::{Cpu, Effect};
use crate::bus::Devices;
use crate::instruction::Instruction;

verus! {

impl<D: Devices> Cpu<D> {
    /// 00.00 - SLL: GPR[rd] = GPR[rt] << shamt
    pub fn ins_sll(&mut self, instruction: Instruction)
        requires
            old(self).wf(),
            instruction.0 >> 26 == 0,
            instruction.0 & 0x3f == 0x00,
        ensures
            final(self).wf(),
            old(self).did(&*final(self), old(self).effect_of(instruction.0).unwrap()),
    {
        let v = self.get_rt(instruction) << instruction.shamt();
        self.write_reg(instruction.rd(), v);
    }

    /// 00.02 - SRL: GPR[rd] = GPR[rt] >> shamt (logical)
    pub fn ins_srl(&mut self, instruction: Instruction)
        requires
            old(self).wf(),
            instruction.0 >> 26 == 0,
            instruction.0 & 0x3f == 0x02,
        ensures
            final(self).wf(),
            old(self).did(&*final(self), old(self).effect_of(instruction.0).unwrap()),
    {
        let v = self.get_rt(instruction) >> instruction.shamt();
        self.write_reg(instruction.rd(), v);
    }

    /// 00.03 - SRA: GPR[rd] = signed(GPR[rt]) >> shamt
    pub fn ins_sra(&mut self, instruction: Instruction)
        requires
            old(self).wf(),
            instruction.0 >> 26 == 0,
            instruction.0 & 0x3f == 0x03,
        ensures
            final(self).wf(),
            old(self).did(&*final(self), old(self).effect_of(instruction.0).unwrap()),
    {
        let v = ((self.get_rt(instruction) as i32) >> instruction.shamt()) as u32;
        self.write_reg(instruction.rd(), v);
    }

    /// 00.04 - SLLV: GPR[rd] = GPR[rt] << (GPR[rs] & 0x1f)
    pub fn ins_sllv(&mut self, instruction: Instruction)
        requires
            old(self).wf(),
            instruction.0 >> 26 == 0,
            instruction.0 & 0x3f == 0x04,
        ensures
            final(self).wf(),
            old(self).did(&*final(self), old(self).effect_of(instruction.0).unwrap()),
    {
        let rs = self.get_rs(instruction);
        let amount = rs & 0x1f;
        proof { crate::bits::lemma_and_le(rs, 0x1f); }
        let v = self.get_rt(instruction) << amount;
        self.write_reg(instruction.rd(), v);
    }

    /// 00.06 - SRLV: GPR[rd] = GPR[rt] >> (GPR[rs] & 0x1f)
    pub fn ins_srlv(&mut self, instruction: Instruction)
        requires
            old(self).wf(),
            instruction.0 >> 26 == 0,
            instruction.0 & 0x3f == 0x06,
        ensures
            final(self).wf(),
            old(self).did(&*final(self), old(self).effect_of(instruction.0).unwrap()),
    {
        let rs = self.get_rs(instruction);
        let amount = rs & 0x1f;
        proof { crate::bits::lemma_and_le(rs, 0x1f); }
        let v = self.get_rt(instruction) >> amount;
        self.write_reg(instruction.rd(), v);
    }

    /// 00.07 - SRAV: GPR[rd] = signed(GPR[rt]) >> (GPR[rs] & 0x1f)
    pub fn ins_srav(&mut self, instruction: Instruction)
        requires
            old(self).wf(),
            instruction.0 >> 26 == 0,
            instruction.0 & 0x3f == 0x07,
        ensures
            final(self).wf(),
            old(self).did(&*final(self), old(self).effect_of(instruction.0).unwrap()),
    {
        let rs = self.get_rs(instruction);
        let amount = rs & 0x1f;
        proof { crate::bits::lemma_and_le(rs, 0x1f); }
        let v = ((self.get_rt(instruction) as i32) >> amount) as u32;
        self.write_reg(instruction.rd(), v);
    }

    /// 00.24 - AND: GPR[rd] = GPR[rs] & GPR[rt]
    pub fn ins_and(&mut self, instruction: Instruction)
        requires
            old(self).wf(),
            instruction.0 >> 26 == 0,
            instruction.0 & 0x3f == 0x24,
        ensures
            final(self).wf(),
            old(self).did(&*final(self), old(self).effect_of(instruction.0).unwrap()),
    {
        let v = self.get_rs(instruction) & self.get_rt(instruction);
        self.write_reg(instruction.rd(), v);
    }

    /// 00.25 - OR: GPR[rd] = GPR[rs] | GPR[rt]
    pub fn ins_or(&mut self, instruction: Instruction)
        requires
            old(self).wf(),
            instruction.0 >> 26 == 0,
            instruction.0 & 0x3f == 0x25,
        ensures
            final(self).wf(),
            old(self).did(&*final(self), old(self).effect_of(instruction.0).unwrap()),
    {
        let v = self.get_rs(instruction) | self.get_rt(instruction);
        self.write_reg(instruction.rd(), v);
    }

    /// 00.26 - XOR: GPR[rd] = GPR[rs] ^ GPR[rt]
    pub fn ins_xor(&mut self, instruction: Instruction)
        requires
            old(self).wf(),
            instruction.0 >> 26 == 0,
            instruction.0 & 0x3f == 0x26,
        ensures
            final(self).wf(),
            old(self).did(&*final(self), old(self).effect_of(instruction.0).unwrap()),
    {
        let v = self.get_rs(instruction) ^ self.get_rt(instruction);
        self.write_reg(instruction.rd(), v);
    }

    /// 00.27 - NOR: GPR[rd] = !(GPR[rs] | GPR[rt])
    pub fn ins_nor(&mut self, instruction: Instruction)
        requires
            old(self).wf(),
            instruction.0 >> 26 == 0,
            instruction.0 & 0x3f == 0x27,
        ensures
            final(self).wf(),
            old(self).did(&*final(self), old(self).effect_of(instruction.0).unwrap()),
    {
        let v = !(self.get_rs(instruction) | self.get_rt(instruction));
        self.write_reg(instruction.rd(), v);
    }

    /// 00.2A - SLT: GPR[rd] = signed(GPR[rs]) < signed(GPR[rt])
    pub fn ins_slt(&mut self, instruction: Instruction)
        requires
            old(self).wf(),
            instruction.0 >> 26 == 0,
            instruction.0 & 0x3f == 0x2a,
        ensures
            final(self).wf(),
            old(self).did(&*final(self), old(self).effect_of(instruction.0).unwrap()),
    {
        let v: u32 = if (self.get_rs(instruction) as i32) < (self.get_rt(instruction) as i32) { 1 } else { 0 };
        self.write_reg(instruction.rd(), v);
    }

    /// 00.2B - SLTU: GPR[rd] = GPR[rs] < GPR[rt]
    pub fn ins_sltu(&mut self, instruction: Instruction)
        requires
            old(self).wf(),
            instruction.0 >> 26 == 0,
            instruction.0 & 0x3f == 0x2b,
        ensures
            final(self).wf(),
            old(self).did(&*final(self), old(self).effect_of(instruction.0).unwrap()),
    {
        let v: u32 = if self.get_rs(instruction) < self.get_rt(instruction) { 1 } else { 0 };
        self.write_reg(instruction.rd(), v);
    }

    /// 0A - SLTI: GPR[rt] = signed(GPR[rs]) < sign_extend(immediate)
    pub fn ins_slti(&mut self, instruction: Instruction)
        requires
            old(self).wf(),
            instruction.0 >> 26 == 0x0a,
        ensures
            final(self).wf(),
            old(self).did(&*final(self), old(self).effect_of(instruction.0).unwrap()),
    {
        let value = instruction.simm16();
        let result: u32 = if (self.get_rs(instruction) as i32) < value { 1 } else { 0 };
        self.write_reg(instruction.rt(), result);
    }

    /// 0B - SLTIU: GPR[rt] = GPR[rs] < unsigned(sign_extend(immediate))
    pub fn ins_sltiu(&mut self, instruction: Instruction)
        requires
            old(self).wf(),
            instruction.0 >> 26 == 0x0b,
        ensures
            final(self).wf(),
            old(self).did(&*final(self), old(self).effect_of(instruction.0).unwrap()),
    {
        let value = instruction.simm16() as u32;
        let result: u32 = if self.get_rs(instruction) < value { 1 } else { 0 };
        self.write_reg(instruction.rt(), result);
    }

    /// 0C - ANDI: GPR[rt] = GPR[rs] & immediate
    pub fn ins_andi(&mut self, instruction: Instruction)
        requires
            old(self).wf(),
            instruction.0 >> 26 == 0x0c,
        ensures
            final(self).wf(),
            old(self).did(&*final(self), old(self).effect_of(instruction.0).unwrap()),
    {
        let v = self.get_rs(instruction) & instruction.imm16();
        self.write_reg(instruction.rt(), v);
    }

    /// 0D - ORI: GPR[rt] = GPR[rs] | immediate
    pub fn ins_ori(&mut self, instruction: Instruction)
        requires
            old(self).wf(),
            instruction.0 >> 26 == 0x0d,
        ensures
            final(self).wf(),
            old(self).did(&*final(self), old(self).effect_of(instruction.0).unwrap()),
    {
        let v = self.get_rs(instruction) | instruction.imm16();
        self.write_reg(instruction.rt(), v);
    }

    /// 0E - XORI: GPR[rt] = GPR[rs] ^ immediate
    pub fn ins_xori(&mut self, instruction: Instruction)
        requires
            old(self).wf(),
            instruction.0 >> 26 == 0x0e,
        ensures
            final(self).wf(),
            old(self).did(&*final(self), old(self).effect_of(instruction.0).unwrap()),
    {
        let v = self.get_rs(instruction) ^ instruction.imm16();
        self.write_reg(instruction.rt(), v);
    }

    /// 0F - LUI: GPR[rt] = immediate << 16
    pub fn ins_lui(&mut self, instruction: Instruction)
        requires
            old(self).wf(),
            instruction.0 >> 26 == 0x0f,
        ensures
            final(self).wf(),
            old(self).did(&*final(self), old(self).effect_of(instruction.0).unwrap()),
    {
        let v = instruction.imm16() << 16u32;
        self.write_reg(instruction.rt(), v);
    }

}

} // verus!
