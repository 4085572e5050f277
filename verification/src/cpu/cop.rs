//! System calls, breakpoints and the coprocessor transfers: moves to and
//! from COP0 and the GTE, and the GTE's own loads and stores.

use vstd::prelude::*;

use super::control::{cop0_register_exists, ExceptionCause};
use super::load_store::address_of;
use super::{f_rd, f_rt, write_gpr, AccessType, Cpu, CpuFault, DelayedLoad};
use crate::bus::Devices;
use crate::instruction::Instruction;
use crate::memory::AccessSize;

verus! {

impl<D: Devices> Cpu<D> {
    /// 00.0C - SYSCALL: raises the system call exception.
    pub fn ins_syscall(&mut self, _instruction: Instruction)
        requires
            old(self).wf(),
        ensures
            final(self).wf(),
            old(self).trapped(&*final(self), ExceptionCause::Syscall),
    {
        let epc = self.current_pc;
        let next = self.npc;
        self.exception(ExceptionCause::Syscall, epc, next);
    }

    /// 00.0D - BREAK: raises the breakpoint exception.
    pub fn ins_break(&mut self, _instruction: Instruction)
        requires
            old(self).wf(),
        ensures
            final(self).wf(),
            old(self).trapped(&*final(self), ExceptionCause::Breakpoint),
    {
        let epc = self.current_pc;
        let next = self.npc;
        self.exception(ExceptionCause::Breakpoint, epc, next);
    }

    /// 10.00 - MFC0: GPR[rt] = COP0[rd], after the next instruction. A
    /// register COP0 does not have is a fault.
    pub fn ins_mfc0(&mut self, instruction: Instruction) -> (r: Result<(), CpuFault>)
        requires
            old(self).wf(),
        ensures
            final(self).wf(),
            r is Ok <==> cop0_register_exists(f_rd(instruction.0)),
            r is Ok ==> final(self).load_delay == Some(DelayedLoad {
                target: f_rt(instruction.0) as usize,
                value: old(self).cop0.read_spec(f_rd(instruction.0)).unwrap(),
                coprocessor: None,
            }),
            final(self).registers == old(self).registers,
            final(self).cop0 == old(self).cop0,
    {
        match self.cop0.read(instruction.rd()) {
            Some(value) => {
                self.delayed_load(instruction.rt(), value);
                Ok(())
            },
            None => Err(CpuFault::InvalidCop0Register(instruction.rd())),
        }
    }

    /// 10.04 - MTC0: COP0[rd] = GPR[rt], after the next instruction.
    pub fn ins_mtc0(&mut self, instruction: Instruction)
        requires
            old(self).wf(),
        ensures
            final(self).wf(),
            final(self).load_delay == Some(DelayedLoad {
                target: f_rd(instruction.0) as usize,
                value: old(self).registers@[f_rt(instruction.0)],
                coprocessor: Some(0u8),
            }),
            final(self).registers == old(self).registers,
            final(self).cop0 == old(self).cop0,
    {
        let value = self.get_rt(instruction);
        self.cop_delayed_load(0, instruction.rd(), value);
    }

    /// 12.00 - MFC2: GPR[rt] = GTE data register rd, after the next
    /// instruction.
    pub fn ins_mfc2(&mut self, instruction: Instruction)
        requires
            old(self).wf(),
        ensures
            final(self).wf(),
            final(self).load_delay == Some(DelayedLoad {
                target: f_rt(instruction.0) as usize,
                value: old(self).gte.read_spec(f_rd(instruction.0)).unwrap(),
                coprocessor: None,
            }),
            final(self).registers == old(self).registers,
            final(self).gte == old(self).gte,
    {
        let value = match self.gte.read(instruction.rd()) {
            Some(v) => v,
            None => 0,
        };
        self.delayed_load(instruction.rt(), value);
    }

    /// 12.02 - CFC2: GPR[rt] = GTE control register rd.
    pub fn ins_cfc2(&mut self, instruction: Instruction)
        requires
            old(self).wf(),
        ensures
            final(self).wf(),
            final(self).registers@ == write_gpr(
                old(self).registers@,
                f_rt(instruction.0),
                old(self).gte.read_spec(f_rd(instruction.0) + 32).unwrap(),
            ),
            final(self).gte == old(self).gte,
    {
        let value = match self.gte.read(instruction.rd() + 32) {
            Some(v) => v,
            None => 0,
        };
        self.write_reg(instruction.rt(), value);
    }

    /// 12.04 - MTC2: GTE data register rd = GPR[rt], after the next
    /// instruction.
    pub fn ins_mtc2(&mut self, instruction: Instruction)
        requires
            old(self).wf(),
        ensures
            final(self).wf(),
            final(self).load_delay == Some(DelayedLoad {
                target: f_rd(instruction.0) as usize,
                value: old(self).registers@[f_rt(instruction.0)],
                coprocessor: Some(2u8),
            }),
            final(self).registers == old(self).registers,
    {
        let value = self.get_rt(instruction);
        self.cop_delayed_load(2, instruction.rd(), value);
    }

    /// 12.06 - CTC2: GTE control register rd = GPR[rt], after the next
    /// instruction.
    pub fn ins_ctc2(&mut self, instruction: Instruction)
        requires
            old(self).wf(),
        ensures
            final(self).wf(),
            final(self).load_delay == Some(DelayedLoad {
                target: (f_rd(instruction.0) + 32) as usize,
                value: old(self).registers@[f_rt(instruction.0)],
                coprocessor: Some(2u8),
            }),
            final(self).registers == old(self).registers,
    {
        let value = self.get_rt(instruction);
        self.cop_delayed_load(2, instruction.rd() + 32, value);
    }

    /// 32 - LWC2: GTE data register rt = Memory32[rs + offset].
    pub fn ins_lwc2(&mut self, instruction: Instruction) -> (r: Result<(), CpuFault>)
        requires
            old(self).wf(),
        ensures
            final(self).wf(),
            final(self).registers == old(self).registers,
            ({
                let addr = address_of(old(self).registers@, instruction.0);
                old(self).ram_readable(addr, AccessSize::Word) ==> r is Ok && final(self).gte
                    == old(self).gte.write_data_spec(
                    f_rt(instruction.0),
                    old(self).ram_value(addr, AccessSize::Word),
                )
            }),
    {
        let address = self.target_address(instruction);
        self.last_memory_operation = (AccessType::Read, address);
        match self.read_memory(address, AccessSize::Word) {
            Ok(value) => {
                let _ = self.gte.write(instruction.rt(), value);
                Ok(())
            },
            Err(e) => self.memory_access_exception(e, AccessType::Read, address),
        }
    }

    /// 3A - SWC2: Memory32[rs + offset] = GTE data register rt.
    pub fn ins_swc2(&mut self, instruction: Instruction) -> (r: Result<(), CpuFault>)
        requires
            old(self).wf(),
        ensures
            final(self).wf(),
            final(self).registers == old(self).registers,
            ({
                let addr = address_of(old(self).registers@, instruction.0);
                let value = old(self).gte.read_spec(f_rt(instruction.0)).unwrap();
                old(self).ram_writable(addr, value, AccessSize::Word) ==> r is Ok
                    && final(self).bus.ram.bytes() == old(self).ram_after_write(addr, value, AccessSize::Word)
            }),
    {
        let address = self.target_address(instruction);
        let value = match self.gte.read(instruction.rt()) {
            Some(v) => v,
            None => 0,
        };
        self.last_memory_operation = (AccessType::Write, address);
        match self.write_memory(address, value, AccessSize::Word) {
            Ok(()) => Ok(()),
            Err(e) => self.memory_access_exception(e, AccessType::Write, address),
        }
    }
}

} // verus!
