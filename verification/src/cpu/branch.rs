//! Jumps and branches, which take effect after their delay slot.

use vstd::prelude::*;

use super::{branch_dest, Cpu, Effect};
use crate::bus::Devices;
use crate::instruction::Instruction;

verus! {

impl<D: Devices> Cpu<D> {
    /// The target of a relative branch: the delay slot's address plus the
    /// sign-extended offset times 4.
    pub fn branch_dest(&self, instruction: Instruction) -> (r: u32)
        ensures
            r == branch_dest(self.pc, instruction.0),
    {
        self.pc.wrapping_add((instruction.simm16() as u32) << 2u32)
    }

    /// 00.08 - JR: PC = GPR[rs] after the delay slot
    pub fn ins_jr(&mut self, instruction: Instruction)
        requires
            old(self).wf(),
            instruction.0 >> 26 == 0,
            instruction.0 & 0x3f == 0x08,
        ensures
            final(self).wf(),
            old(self).did(&*final(self), old(self).effect_of(instruction.0).unwrap()),
    {
        let target = self.get_rs(instruction);
        self.branch_target = Some(target);
        self.next_is_bds = true;
    }

    /// 00.09 - JALR: GPR[rd] = return address; PC = GPR[rs] after the delay slot
    pub fn ins_jalr(&mut self, instruction: Instruction)
        requires
            old(self).wf(),
            instruction.0 >> 26 == 0,
            instruction.0 & 0x3f == 0x09,
        ensures
            final(self).wf(),
            old(self).did(&*final(self), old(self).effect_of(instruction.0).unwrap()),
    {
        let target = self.get_rs(instruction);
        let ra = self.pc.wrapping_add(4);
        self.write_reg(instruction.rd(), ra);
        self.branch_target = Some(target);
        self.next_is_bds = true;
    }

    /// 01 - BLTZ, BGEZ, BLTZAL, BGEZAL: RT bit 0 chooses >= 0 over < 0, and
    /// RT bits 4..1 equal to 0b1000 make it link (GPR[31] = return address,
    /// taken or not)
    pub fn ins_bcondz(&mut self, instruction: Instruction)
        requires
            old(self).wf(),
            instruction.0 >> 26 == 0x01,
        ensures
            final(self).wf(),
            old(self).did(&*final(self), old(self).effect_of(instruction.0).unwrap()),
    {
        let rt = instruction.rt();
        let value = self.get_rs(instruction) as i32;
        let taken = if rt & 1 == 0 { value < 0 } else { value >= 0 };
        if rt & 0x1e == 0x10 {
            let ra = self.pc.wrapping_add(4);
            self.write_reg(31, ra);
        }
        self.branch_target = if taken { Some(self.branch_dest(instruction)) } else { None };
        self.next_is_bds = true;
    }

    /// 02 - J: PC = (PC & 0xf000_0000) | (target << 2) after the delay slot
    pub fn ins_j(&mut self, instruction: Instruction)
        requires
            old(self).wf(),
            instruction.0 >> 26 == 0x02,
        ensures
            final(self).wf(),
            old(self).did(&*final(self), old(self).effect_of(instruction.0).unwrap()),
    {
        let target = (self.pc & 0xf000_0000) | (instruction.jump_target() << 2u32);
        self.branch_target = Some(target);
        self.next_is_bds = true;
    }

    /// 03 - JAL: GPR[31] = return address, then as J
    pub fn ins_jal(&mut self, instruction: Instruction)
        requires
            old(self).wf(),
            instruction.0 >> 26 == 0x03,
        ensures
            final(self).wf(),
            old(self).did(&*final(self), old(self).effect_of(instruction.0).unwrap()),
    {
        let ra = self.pc.wrapping_add(4);
        self.write_reg(31, ra);
        let target = (self.pc & 0xf000_0000) | (instruction.jump_target() << 2u32);
        self.branch_target = Some(target);
        self.next_is_bds = true;
    }

    /// 04 - BEQ: branch if GPR[rs] == GPR[rt]
    pub fn ins_beq(&mut self, instruction: Instruction)
        requires
            old(self).wf(),
            instruction.0 >> 26 == 0x04,
        ensures
            final(self).wf(),
            old(self).did(&*final(self), old(self).effect_of(instruction.0).unwrap()),
    {
        let taken = self.get_rs(instruction) == self.get_rt(instruction);
        self.branch_target = if taken { Some(self.branch_dest(instruction)) } else { None };
        self.next_is_bds = true;
    }

    /// 05 - BNE: branch if GPR[rs] != GPR[rt]
    pub fn ins_bne(&mut self, instruction: Instruction)
        requires
            old(self).wf(),
            instruction.0 >> 26 == 0x05,
        ensures
            final(self).wf(),
            old(self).did(&*final(self), old(self).effect_of(instruction.0).unwrap()),
    {
        let taken = self.get_rs(instruction) != self.get_rt(instruction);
        self.branch_target = if taken { Some(self.branch_dest(instruction)) } else { None };
        self.next_is_bds = true;
    }

    /// 06 - BLEZ: branch if signed(GPR[rs]) <= 0
    pub fn ins_blez(&mut self, instruction: Instruction)
        requires
            old(self).wf(),
            instruction.0 >> 26 == 0x06,
        ensures
            final(self).wf(),
            old(self).did(&*final(self), old(self).effect_of(instruction.0).unwrap()),
    {
        let taken = (self.get_rs(instruction) as i32) <= 0;
        self.branch_target = if taken { Some(self.branch_dest(instruction)) } else { None };
        self.next_is_bds = true;
    }

    /// 07 - BGTZ: branch if signed(GPR[rs]) > 0
    pub fn ins_bgtz(&mut self, instruction: Instruction)
        requires
            old(self).wf(),
            instruction.0 >> 26 == 0x07,
        ensures
            final(self).wf(),
            old(self).did(&*final(self), old(self).effect_of(instruction.0).unwrap()),
    {
        let taken = (self.get_rs(instruction) as i32) > 0;
        self.branch_target = if taken { Some(self.branch_dest(instruction)) } else { None };
        self.next_is_bds = true;
    }

}

} // verus!
