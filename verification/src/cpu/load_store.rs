//! Loads and stores between registers and memory. Loads write their
//! register at once.

use vstd::prelude::*;

use super::control::{Cop0, ExceptionCause};
use super::{f_rs, f_rt, f_simm, write_gpr, AccessType, Cpu, CpuFault};
use crate::bus::Devices;
use crate::instruction::Instruction;
use crate::memory::{is_aligned, AccessSize};
use vstd::wrapping::u32_specs::wrapping_add;

verus! {

/// The effective address of load/store word `w` in a register file.
pub open spec fn address_of(regs: Seq<u32>, w: u32) -> u32 {
    wrapping_add(regs[f_rs(w)], f_simm(w))
}

/// A loaded value widened to a word: sign- or zero-extended.
pub open spec fn extend(v: u32, size: AccessSize, signed: bool) -> u32 {
    match size {
        AccessSize::Byte => if signed { v as u8 as i8 as u32 } else { v & 0xff },
        AccessSize::HalfWord => if signed { v as u16 as i16 as u32 } else { v & 0xffff },
        AccessSize::Word => v,
    }
}

/// LWL: the high bytes of the register replaced by the low bytes of the
/// aligned word, by the offset of the address in it.
pub open spec fn lwl_merge(cur: u32, word: u32, offset: u32) -> u32 {
    if offset == 0 {
        (cur & 0x00ff_ffff) | (word << 24u32)
    } else if offset == 1 {
        (cur & 0x0000_ffff) | (word << 16u32)
    } else if offset == 2 {
        (cur & 0x0000_00ff) | (word << 8u32)
    } else {
        word
    }
}

/// LWR: the low bytes of the register replaced by the high bytes of the
/// aligned word.
pub open spec fn lwr_merge(cur: u32, word: u32, offset: u32) -> u32 {
    if offset == 0 {
        word
    } else if offset == 1 {
        (cur & 0xff00_0000) | (word >> 8u32)
    } else if offset == 2 {
        (cur & 0xffff_0000) | (word >> 16u32)
    } else {
        (cur & 0xffff_ff00) | (word >> 24u32)
    }
}

/// SWL: the low bytes of the memory word replaced by the high bytes of
/// the register.
pub open spec fn swl_merge(mem: u32, value: u32, offset: u32) -> u32 {
    if offset == 0 {
        (mem & 0xffff_ff00) | (value >> 24u32)
    } else if offset == 1 {
        (mem & 0xffff_0000) | (value >> 16u32)
    } else if offset == 2 {
        (mem & 0xff00_0000) | (value >> 8u32)
    } else {
        value
    }
}

/// SWR: the high bytes of the memory word replaced by the low bytes of
/// the register.
pub open spec fn swr_merge(mem: u32, value: u32, offset: u32) -> u32 {
    if offset == 0 {
        value
    } else if offset == 1 {
        (mem & 0x0000_00ff) | (value << 8u32)
    } else if offset == 2 {
        (mem & 0x0000_ffff) | (value << 16u32)
    } else {
        (mem & 0x00ff_ffff) | (value << 24u32)
    }
}

impl<D: Devices> Cpu<D> {
    /// What a load of `size` into RT, widened as `signed` says, does from
    /// this state: a misaligned address traps; a read of main RAM sets RT.
    pub open spec fn load_effect(
        &self,
        after: &Self,
        instruction: u32,
        size: AccessSize,
        signed: bool,
        r: Result<(), CpuFault>,
    ) -> bool {
        let addr = address_of(self.registers@, instruction);
        &&& !is_aligned(addr, size) ==> r is Ok && self.trapped_from(
            after,
            Cop0 { bad_vaddr: addr, ..self.cop0 },
            ExceptionCause::LoadAddressError,
        )
        &&& self.ram_readable(addr, size) ==> r is Ok && after.registers@ == write_gpr(
            self.registers@,
            f_rt(instruction),
            extend(self.ram_value(addr, size), size, signed),
        ) && after.pc == self.pc && after.npc == self.npc && after.branch_target == self.branch_target
            && after.bus.ram.bytes() == self.bus.ram.bytes()
    }

    /// What a store of the low `size` bytes of RT does from this state: a
    /// misaligned address traps; a write to main RAM changes those bytes.
    pub open spec fn store_effect(&self, after: &Self, instruction: u32, size: AccessSize, r: Result<(), CpuFault>) -> bool {
        let addr = address_of(self.registers@, instruction);
        let value = self.registers@[f_rt(instruction)];
        &&& after.registers == self.registers
        &&& !is_aligned(addr, size) ==> r is Ok && self.trapped_from(
            after,
            Cop0 { bad_vaddr: addr, ..self.cop0 },
            ExceptionCause::StoreAddressError,
        )
        &&& self.ram_writable(addr, value, size) ==> r is Ok && after.bus.ram.bytes() == self.ram_after_write(
            addr,
            value,
            size,
        ) && after.pc == self.pc && after.npc == self.npc && after.branch_target == self.branch_target
    }

    /// A load of `size` into RT, widened as `signed` says.
    pub fn load(&mut self, instruction: Instruction, size: AccessSize, signed: bool) -> (r: Result<(), CpuFault>)
        requires
            old(self).wf(),
        ensures
            final(self).wf(),
            old(self).load_effect(&*final(self), instruction.0, size, signed, r),
    {
        let address = self.target_address(instruction);
        self.last_memory_operation = (AccessType::Read, address);
        match self.read_memory(address, size) {
            Ok(value) => {
                let v = match size {
                    AccessSize::Byte => {
                        if signed {
                            #[verifier::truncate]
                            let b = value as u8;
                            #[verifier::truncate]
                            let sb = b as i8;
                            sb as u32
                        } else {
                            value & 0xff
                        }
                    },
                    AccessSize::HalfWord => {
                        if signed {
                            #[verifier::truncate]
                            let h = value as u16;
                            #[verifier::truncate]
                            let sh = h as i16;
                            sh as u32
                        } else {
                            value & 0xffff
                        }
                    },
                    AccessSize::Word => value,
                };
                self.write_reg(instruction.rt(), v);
                Ok(())
            },
            Err(e) => self.memory_access_exception(e, AccessType::Read, address),
        }
    }

    /// A store of the low `size` bytes of RT.
    pub fn store(&mut self, instruction: Instruction, size: AccessSize) -> (r: Result<(), CpuFault>)
        requires
            old(self).wf(),
        ensures
            final(self).wf(),
            old(self).store_effect(&*final(self), instruction.0, size, r),
    {
        let address = self.target_address(instruction);
        let value = self.get_rt(instruction);
        self.last_memory_operation = (AccessType::Write, address);
        match self.write_memory(address, value, size) {
            Ok(()) => Ok(()),
            Err(e) => self.memory_access_exception(e, AccessType::Write, address),
        }
    }

    /// 20 - LB: GPR[rt] = sign_extend(Memory8[rs + offset])
    pub fn ins_lb(&mut self, instruction: Instruction) -> (r: Result<(), CpuFault>)
        requires
            old(self).wf(),
        ensures
            final(self).wf(),
            old(self).load_effect(&*final(self), instruction.0, AccessSize::Byte, true, r),
    {
        self.load(instruction, AccessSize::Byte, true)
    }

    /// 21 - LH: GPR[rt] = sign_extend(Memory16[rs + offset])
    pub fn ins_lh(&mut self, instruction: Instruction) -> (r: Result<(), CpuFault>)
        requires
            old(self).wf(),
        ensures
            final(self).wf(),
            old(self).load_effect(&*final(self), instruction.0, AccessSize::HalfWord, true, r),
    {
        self.load(instruction, AccessSize::HalfWord, true)
    }

    /// 23 - LW: GPR[rt] = Memory32[rs + offset]
    pub fn ins_lw(&mut self, instruction: Instruction) -> (r: Result<(), CpuFault>)
        requires
            old(self).wf(),
        ensures
            final(self).wf(),
            ({
                let addr = address_of(old(self).registers@, instruction.0);
                old(self).ram_readable(addr, AccessSize::Word) ==> r is Ok && final(self).registers@
                    == write_gpr(
                    old(self).registers@,
                    f_rt(instruction.0),
                    old(self).ram_value(addr, AccessSize::Word),
                )
            }),
    {
        self.load(instruction, AccessSize::Word, false)
    }

    /// 24 - LBU: GPR[rt] = Memory8[rs + offset]
    pub fn ins_lbu(&mut self, instruction: Instruction) -> (r: Result<(), CpuFault>)
        requires
            old(self).wf(),
        ensures
            final(self).wf(),
            old(self).load_effect(&*final(self), instruction.0, AccessSize::Byte, false, r),
    {
        self.load(instruction, AccessSize::Byte, false)
    }

    /// 25 - LHU: GPR[rt] = Memory16[rs + offset]
    pub fn ins_lhu(&mut self, instruction: Instruction) -> (r: Result<(), CpuFault>)
        requires
            old(self).wf(),
        ensures
            final(self).wf(),
            old(self).load_effect(&*final(self), instruction.0, AccessSize::HalfWord, false, r),
    {
        self.load(instruction, AccessSize::HalfWord, false)
    }

    /// 28 - SB: Memory8[rs + offset] = GPR[rt]
    pub fn ins_sb(&mut self, instruction: Instruction) -> (r: Result<(), CpuFault>)
        requires
            old(self).wf(),
        ensures
            final(self).wf(),
            old(self).store_effect(&*final(self), instruction.0, AccessSize::Byte, r),
    {
        self.store(instruction, AccessSize::Byte)
    }

    /// 29 - SH: Memory16[rs + offset] = GPR[rt]
    pub fn ins_sh(&mut self, instruction: Instruction) -> (r: Result<(), CpuFault>)
        requires
            old(self).wf(),
        ensures
            final(self).wf(),
            old(self).store_effect(&*final(self), instruction.0, AccessSize::HalfWord, r),
    {
        self.store(instruction, AccessSize::HalfWord)
    }

    /// 2B - SW: Memory32[rs + offset] = GPR[rt]
    pub fn ins_sw(&mut self, instruction: Instruction) -> (r: Result<(), CpuFault>)
        requires
            old(self).wf(),
        ensures
            final(self).wf(),
            ({
                let addr = address_of(old(self).registers@, instruction.0);
                let value = old(self).registers@[f_rt(instruction.0)];
                old(self).ram_writable(addr, value, AccessSize::Word) ==> r is Ok
                    && final(self).bus.ram.bytes() == old(self).ram_after_write(addr, value, AccessSize::Word)
            }),
    {
        self.store(instruction, AccessSize::Word)
    }

    /// The aligned word holding `address` and the address's offset in it.
    fn aligned_word(address: u32) -> (r: (u32, u32))
        ensures
            r.0 == address & !3u32,
            r.1 == address & 3,
            r.1 < 4,
            is_aligned(r.0, AccessSize::Word),
    {
        let aligned = address & !3u32;
        proof {
            crate::bits::lemma_alignment(address);
        }
        (aligned, address & 3)
    }

    /// 22 - LWL: merges the unaligned word's high part into RT.
    pub fn ins_lwl(&mut self, instruction: Instruction) -> (r: Result<(), CpuFault>)
        requires
            old(self).wf(),
        ensures
            final(self).wf(),
            ({
                let addr = address_of(old(self).registers@, instruction.0);
                old(self).ram_readable(addr & !3u32, AccessSize::Word) ==> r is Ok && final(self).registers@
                    == write_gpr(
                    old(self).registers@,
                    f_rt(instruction.0),
                    lwl_merge(
                        old(self).registers@[f_rt(instruction.0)],
                        old(self).ram_value(addr & !3u32, AccessSize::Word),
                        addr & 3,
                    ),
                )
            }),
    {
        let address = self.target_address(instruction);
        let (aligned, offset) = Self::aligned_word(address);
        self.last_memory_operation = (AccessType::Read, address);
        let cur = self.get_rt(instruction);
        match self.read_memory(aligned, AccessSize::Word) {
            Ok(word) => {
                let v = if offset == 0 {
                    (cur & 0x00ff_ffff) | (word << 24u32)
                } else if offset == 1 {
                    (cur & 0x0000_ffff) | (word << 16u32)
                } else if offset == 2 {
                    (cur & 0x0000_00ff) | (word << 8u32)
                } else {
                    word
                };
                self.write_reg(instruction.rt(), v);
                Ok(())
            },
            Err(e) => self.memory_access_exception(e, AccessType::Read, aligned),
        }
    }

    /// 26 - LWR: merges the unaligned word's low part into RT.
    pub fn ins_lwr(&mut self, instruction: Instruction) -> (r: Result<(), CpuFault>)
        requires
            old(self).wf(),
        ensures
            final(self).wf(),
            ({
                let addr = address_of(old(self).registers@, instruction.0);
                old(self).ram_readable(addr & !3u32, AccessSize::Word) ==> r is Ok && final(self).registers@
                    == write_gpr(
                    old(self).registers@,
                    f_rt(instruction.0),
                    lwr_merge(
                        old(self).registers@[f_rt(instruction.0)],
                        old(self).ram_value(addr & !3u32, AccessSize::Word),
                        addr & 3,
                    ),
                )
            }),
    {
        let address = self.target_address(instruction);
        let (aligned, offset) = Self::aligned_word(address);
        self.last_memory_operation = (AccessType::Read, address);
        let cur = self.get_rt(instruction);
        match self.read_memory(aligned, AccessSize::Word) {
            Ok(word) => {
                let v = if offset == 0 {
                    word
                } else if offset == 1 {
                    (cur & 0xff00_0000) | (word >> 8u32)
                } else if offset == 2 {
                    (cur & 0xffff_0000) | (word >> 16u32)
                } else {
                    (cur & 0xffff_ff00) | (word >> 24u32)
                };
                self.write_reg(instruction.rt(), v);
                Ok(())
            },
            Err(e) => self.memory_access_exception(e, AccessType::Read, aligned),
        }
    }

    /// 2A - SWL: stores RT's high part into the unaligned word.
    pub fn ins_swl(&mut self, instruction: Instruction) -> (r: Result<(), CpuFault>)
        requires
            old(self).wf(),
        ensures
            final(self).wf(),
            final(self).registers == old(self).registers,
            ({
                let addr = address_of(old(self).registers@, instruction.0);
                let aligned = addr & !3u32;
                let merged = swl_merge(
                    old(self).ram_value(aligned, AccessSize::Word),
                    old(self).registers@[f_rt(instruction.0)],
                    addr & 3,
                );
                old(self).ram_readable(aligned, AccessSize::Word) ==> r is Ok && final(self).bus.ram.bytes()
                    == old(self).ram_after_write(aligned, merged, AccessSize::Word)
            }),
    {
        let address = self.target_address(instruction);
        let (aligned, offset) = Self::aligned_word(address);
        let value = self.get_rt(instruction);
        self.last_memory_operation = (AccessType::Write, address);
        match self.read_memory(aligned, AccessSize::Word) {
            Ok(mem) => {
                let v = if offset == 0 {
                    (mem & 0xffff_ff00) | (value >> 24u32)
                } else if offset == 1 {
                    (mem & 0xffff_0000) | (value >> 16u32)
                } else if offset == 2 {
                    (mem & 0xff00_0000) | (value >> 8u32)
                } else {
                    value
                };
                match self.write_memory(aligned, v, AccessSize::Word) {
                    Ok(()) => Ok(()),
                    Err(e) => self.memory_access_exception(e, AccessType::Write, aligned),
                }
            },
            Err(e) => self.memory_access_exception(e, AccessType::Write, aligned),
        }
    }

    /// 2E - SWR: stores RT's low part into the unaligned word.
    pub fn ins_swr(&mut self, instruction: Instruction) -> (r: Result<(), CpuFault>)
        requires
            old(self).wf(),
        ensures
            final(self).wf(),
            final(self).registers == old(self).registers,
            ({
                let addr = address_of(old(self).registers@, instruction.0);
                let aligned = addr & !3u32;
                let merged = swr_merge(
                    old(self).ram_value(aligned, AccessSize::Word),
                    old(self).registers@[f_rt(instruction.0)],
                    addr & 3,
                );
                old(self).ram_readable(aligned, AccessSize::Word) ==> r is Ok && final(self).bus.ram.bytes()
                    == old(self).ram_after_write(aligned, merged, AccessSize::Word)
            }),
    {
        let address = self.target_address(instruction);
        let (aligned, offset) = Self::aligned_word(address);
        let value = self.get_rt(instruction);
        self.last_memory_operation = (AccessType::Write, address);
        match self.read_memory(aligned, AccessSize::Word) {
            Ok(mem) => {
                let v = if offset == 0 {
                    value
                } else if offset == 1 {
                    (mem & 0x0000_00ff) | (value << 8u32)
                } else if offset == 2 {
                    (mem & 0x0000_ffff) | (value << 16u32)
                } else {
                    (mem & 0x00ff_ffff) | (value << 24u32)
                };
                match self.write_memory(aligned, v, AccessSize::Word) {
                    Ok(()) => Ok(()),
                    Err(e) => self.memory_access_exception(e, AccessType::Write, aligned),
                }
            },
            Err(e) => self.memory_access_exception(e, AccessType::Write, aligned),
        }
    }
}

} // verus!
