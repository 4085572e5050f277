//! The MIPS R3000A CPU: its register file, the fetch/execute step with the
//! branch delay slot and the coprocessor load delay, and exceptions.

pub mod arith;
pub mod branch;
pub mod control;
pub mod cop;
pub mod load_store;
pub mod logic;
pub mod memory;

use vstd::prelude::*;

use crate::bus::{Bus, Devices, NoDevices};
use crate::gte::operations::is_command;
use crate::gte::Gte;
use crate::instruction::{sign_extend16, Instruction};
use crate::memory::AccessSize;
use self::control::{Cop0, ExceptionCause};
use vstd::wrapping::u32_specs::{wrapping_add, wrapping_sub};

verus! {

pub const NUM_REGISTERS: usize = 32;

/// The kind of a memory access.
#[derive(Clone, Copy, Debug, PartialEq, Eq, Structural)]
pub enum AccessType {
    InstructionFetch,
    Read,
    Write,
}

/// Why a memory access failed.
#[derive(Clone, Copy, Debug, PartialEq, Eq, Structural)]
pub enum MemoryError {
    /// The address is not a multiple of the access size.
    AlignmentError,
    /// Nothing answers at the address.
    BusError,
    /// A device answers, but not to an access of this kind.
    Unsupported,
}

/// A load whose value reaches its register one instruction late.
#[derive(Clone, Copy, Debug, PartialEq, Eq, Structural)]
pub struct DelayedLoad {
    /// The register to load to.
    pub target: usize,
    /// The value to load.
    pub value: u32,
    /// The coprocessor whose register is the target, or `None` for a
    /// general-purpose register.
    pub coprocessor: Option<u8>,
}

/// A state the emulated machine cannot continue from: an instruction or
/// access that the PS1 does not have or that is not emulated.
#[derive(Clone, Copy, Debug, PartialEq, Eq, Structural)]
pub enum CpuFault {
    /// Coprocessor 1 or 3, which the PS1 does not have.
    MissingCoprocessor(u32),
    /// A coprocessor transfer sub-operation that does not exist.
    UnknownCopFunction(u32, u32),
    /// A COP0 command other than RFE.
    UnknownCop0Command(u32),
    /// A GTE command that does not exist.
    UnknownGteCommand(u32),
    /// A read or write of a COP0 register that does not exist.
    InvalidCop0Register(usize),
    /// A memory access that a device does not handle.
    UnsupportedAccess(u32),
}

/// The effect of an instruction that only reads and writes registers.
#[derive(Clone, Copy, Debug)]
pub enum Effect {
    /// Writes a general-purpose register (writes to r0 are dropped).
    SetReg(usize, u32),
    SetHi(u32),
    SetLo(u32),
    SetHiLo(u32, u32),
    /// A branch or jump: the target when taken, and the link register and
    /// return address it writes.
    Branch(Option<u32>, Option<(usize, u32)>),
    /// A signed overflow: the instruction traps and writes nothing.
    Overflow,
}

/// Instruction fields of a word.
pub open spec fn f_rs(w: u32) -> int {
    ((w >> 21u32) & 0x1f) as int
}

pub open spec fn f_rt(w: u32) -> int {
    ((w >> 16u32) & 0x1f) as int
}

pub open spec fn f_rd(w: u32) -> int {
    ((w >> 11u32) & 0x1f) as int
}

pub open spec fn f_shamt(w: u32) -> u32 {
    (w >> 6u32) & 0x1f
}

pub open spec fn f_imm(w: u32) -> u32 {
    w & 0xffff
}

/// The sign-extended immediate, as a word.
pub open spec fn f_simm(w: u32) -> u32 {
    sign_extend16(w & 0xffff) as u32
}

/// The target of a relative branch in the delay slot at `pc`.
pub open spec fn branch_dest(pc: u32, w: u32) -> u32 {
    wrapping_add(pc, f_simm(w) << 2u32)
}

/// Whether adding two words as signed numbers overflows.
pub open spec fn add_overflows(a: u32, b: u32) -> bool {
    let s = (a as i32) + (b as i32);
    s < -0x8000_0000 || s > 0x7fff_ffff
}

/// Whether subtracting two words as signed numbers overflows.
pub open spec fn sub_overflows(a: u32, b: u32) -> bool {
    let s = (a as i32) - (b as i32);
    s < -0x8000_0000 || s > 0x7fff_ffff
}

/// HI and LO after a signed division: the quotient of the magnitudes in
/// LO, negated (modulo 2^32) when the signs differ, so rounded toward zero;
/// the remainder in HI, with the sign of the dividend. Division by zero
/// gives HI = n and LO = -1 or 1 by the sign of n; the one overflowing
/// quotient, -2^31 / -1, gives LO = -2^31 and HI = 0.
pub open spec fn div_result(n: u32, d: u32) -> (u32, u32) {
    let neg_n = (n as i32) < 0;
    let neg_d = (d as i32) < 0;
    if d == 0 {
        (n, if !neg_n { 0xffff_ffffu32 } else { 1u32 })
    } else if n == 0x8000_0000 && d == 0xffff_ffff {
        (0, 0x8000_0000)
    } else {
        let an = if neg_n { wrapping_sub(0, n) } else { n };
        let ad = if neg_d { wrapping_sub(0, d) } else { d };
        (
            if neg_n { wrapping_sub(0, an % ad) } else { an % ad },
            if neg_n != neg_d { wrapping_sub(0, an / ad) } else { an / ad },
        )
    }
}

/// HI and LO after an unsigned division; by zero HI = n and LO = all ones.
pub open spec fn divu_result(n: u32, d: u32) -> (u32, u32) {
    if d == 0 {
        (n, 0xffff_ffff)
    } else {
        (n % d, n / d)
    }
}

/// The effect of instruction word `w` if it only reads and writes
/// registers, given the values of its RS and RT registers, the address of
/// its delay slot `pc`, and HI and LO.
pub open spec fn simple_effect(w: u32, rs: u32, rt: u32, pc: u32, hi: u32, lo: u32) -> Option<Effect> {
    let op = w >> 26u32;
    let rd = f_rd(w) as usize;
    let t = f_rt(w) as usize;
    if op == 0 {
        let funct = w & 0x3f;
        if funct == 0x00 {
            Some(Effect::SetReg(rd, rt << f_shamt(w)))
        } else if funct == 0x02 {
            Some(Effect::SetReg(rd, rt >> f_shamt(w)))
        } else if funct == 0x03 {
            Some(Effect::SetReg(rd, ((rt as i32) >> f_shamt(w)) as u32))
        } else if funct == 0x04 {
            Some(Effect::SetReg(rd, rt << (rs & 0x1f)))
        } else if funct == 0x06 {
            Some(Effect::SetReg(rd, rt >> (rs & 0x1f)))
        } else if funct == 0x07 {
            Some(Effect::SetReg(rd, ((rt as i32) >> (rs & 0x1f)) as u32))
        } else if funct == 0x08 {
            Some(Effect::Branch(Some(rs), None))
        } else if funct == 0x09 {
            Some(Effect::Branch(Some(rs), Some((rd, wrapping_add(pc, 4)))))
        } else if funct == 0x10 {
            Some(Effect::SetReg(rd, hi))
        } else if funct == 0x11 {
            Some(Effect::SetHi(rs))
        } else if funct == 0x12 {
            Some(Effect::SetReg(rd, lo))
        } else if funct == 0x13 {
            Some(Effect::SetLo(rs))
        } else if funct == 0x18 {
            let p = ((rs as i32) * (rt as i32)) as i64;
            Some(Effect::SetHiLo((p >> 32u32) as u32, p as u32))
        } else if funct == 0x19 {
            let p = (rs * rt) as u64;
            Some(Effect::SetHiLo((p >> 32u32) as u32, p as u32))
        } else if funct == 0x1a {
            let (h, l) = div_result(rs, rt);
            Some(Effect::SetHiLo(h, l))
        } else if funct == 0x1b {
            let (h, l) = divu_result(rs, rt);
            Some(Effect::SetHiLo(h, l))
        } else if funct == 0x20 {
            if add_overflows(rs, rt) {
                Some(Effect::Overflow)
            } else {
                Some(Effect::SetReg(rd, wrapping_add(rs, rt)))
            }
        } else if funct == 0x21 {
            Some(Effect::SetReg(rd, wrapping_add(rs, rt)))
        } else if funct == 0x22 {
            if sub_overflows(rs, rt) {
                Some(Effect::Overflow)
            } else {
                Some(Effect::SetReg(rd, wrapping_sub(rs, rt)))
            }
        } else if funct == 0x23 {
            Some(Effect::SetReg(rd, wrapping_sub(rs, rt)))
        } else if funct == 0x24 {
            Some(Effect::SetReg(rd, rs & rt))
        } else if funct == 0x25 {
            Some(Effect::SetReg(rd, rs | rt))
        } else if funct == 0x26 {
            Some(Effect::SetReg(rd, rs ^ rt))
        } else if funct == 0x27 {
            Some(Effect::SetReg(rd, !(rs | rt)))
        } else if funct == 0x2a {
            Some(Effect::SetReg(rd, if (rs as i32) < (rt as i32) { 1u32 } else { 0u32 }))
        } else if funct == 0x2b {
            Some(Effect::SetReg(rd, if rs < rt { 1u32 } else { 0u32 }))
        } else {
            None
        }
    } else if op == 1 {
        let taken = if t & 1 == 0 {
            (rs as i32) < 0
        } else {
            (rs as i32) >= 0
        };
        Some(
            Effect::Branch(
                if taken { Some(branch_dest(pc, w)) } else { None },
                if t & 0x1e == 0x10 { Some((31usize, wrapping_add(pc, 4))) } else { None },
            ),
        )
    } else if op == 2 || op == 3 {
        let target = (pc & 0xf000_0000) | ((w & 0x03ff_ffff) << 2u32);
        Some(Effect::Branch(Some(target), if op == 3 { Some((31usize, wrapping_add(pc, 4))) } else { None }))
    } else if op == 4 || op == 5 || op == 6 || op == 7 {
        let taken = if op == 4 {
            rs == rt
        } else if op == 5 {
            rs != rt
        } else if op == 6 {
            (rs as i32) <= 0
        } else {
            (rs as i32) > 0
        };
        Some(Effect::Branch(if taken { Some(branch_dest(pc, w)) } else { None }, None))
    } else if op == 8 {
        if add_overflows(rs, f_simm(w)) {
            Some(Effect::Overflow)
        } else {
            Some(Effect::SetReg(t, wrapping_add(rs, f_simm(w))))
        }
    } else if op == 9 {
        Some(Effect::SetReg(t, wrapping_add(rs, f_simm(w))))
    } else if op == 0x0a {
        Some(Effect::SetReg(t, if (rs as i32) < sign_extend16(f_imm(w)) { 1u32 } else { 0u32 }))
    } else if op == 0x0b {
        Some(Effect::SetReg(t, if rs < f_simm(w) { 1u32 } else { 0u32 }))
    } else if op == 0x0c {
        Some(Effect::SetReg(t, rs & f_imm(w)))
    } else if op == 0x0d {
        Some(Effect::SetReg(t, rs | f_imm(w)))
    } else if op == 0x0e {
        Some(Effect::SetReg(t, rs ^ f_imm(w)))
    } else if op == 0x0f {
        Some(Effect::SetReg(t, f_imm(w) << 16u32))
    } else {
        None
    }
}

/// The register file after writing `v` to register `i`: r0 stays zero.
pub open spec fn write_gpr(regs: Seq<u32>, i: int, v: u32) -> Seq<u32> {
    if i == 0 {
        regs
    } else {
        regs.update(i, v)
    }
}

/// The pending load after register `i` is written: a pending load into the
/// same general-purpose register is dropped, so the later write wins.
pub open spec fn cancel_load(pending: Option<DelayedLoad>, i: int) -> Option<DelayedLoad> {
    match pending {
        Some(l) => if i != 0 && l.coprocessor is None && l.target == i { None } else { pending },
        None => None,
    }
}

/// A register file after a register-only effect.
pub open spec fn effect_regs(regs: Seq<u32>, e: Effect) -> Seq<u32> {
    match e {
        Effect::SetReg(i, v) => write_gpr(regs, i as int, v),
        Effect::Branch(_, Some((i, v))) => write_gpr(regs, i as int, v),
        _ => regs,
    }
}

/// A pending load after a register-only effect.
pub open spec fn effect_pending(pending: Option<DelayedLoad>, e: Effect) -> Option<DelayedLoad> {
    match e {
        Effect::SetReg(i, _) => cancel_load(pending, i as int),
        Effect::Branch(_, Some((i, _))) => cancel_load(pending, i as int),
        _ => pending,
    }
}

/// HI after a register-only effect.
pub open spec fn effect_hi(hi: u32, e: Effect) -> u32 {
    match e {
        Effect::SetHi(v) => v,
        Effect::SetHiLo(h, _) => h,
        _ => hi,
    }
}

/// LO after a register-only effect.
pub open spec fn effect_lo(lo: u32, e: Effect) -> u32 {
    match e {
        Effect::SetLo(v) => v,
        Effect::SetHiLo(_, l) => l,
        _ => lo,
    }
}

/// A register file after a pending general-purpose load lands.
pub open spec fn land(regs: Seq<u32>, pending: Option<DelayedLoad>) -> Seq<u32> {
    match pending {
        Some(l) => if l.coprocessor is None { write_gpr(regs, l.target as int, l.value) } else { regs },
        None => regs,
    }
}

/// Whether word `w` holds no instruction: an unknown function of the
/// register-type opcode, or an unknown opcode.
pub open spec fn is_reserved(w: u32) -> bool {
    let op = w >> 26u32;
    let f = w & 0x3f;
    if op == 0 {
        !(f == 0 || f == 2 || f == 3 || f == 4 || f == 6 || f == 7 || f == 8 || f == 9 || f == 0xc
            || f == 0xd || (0x10 <= f <= 0x13) || (0x18 <= f <= 0x1b) || (0x20 <= f <= 0x27) || f
            == 0x2a || f == 0x2b)
    } else {
        !(op <= 0x13 || (0x20 <= op <= 0x26) || (0x28 <= op <= 0x2b) || op == 0x2e || op == 0x32
            || op == 0x3a)
    }
}

/// The CPU and the machine it runs on.
pub struct Cpu<D: Devices> {
    /// The general-purpose registers; r0 always reads zero.
    pub registers: [u32; NUM_REGISTERS],
    pub hi: u32,
    pub lo: u32,
    /// The address of the next instruction to fetch; while an instruction
    /// executes, the address of its delay slot.
    pub pc: u32,
    /// The address the PC takes after the current instruction.
    pub npc: u32,
    /// The address of the instruction being executed.
    pub current_pc: u32,
    /// The target of a branch taken by the last instruction, which takes
    /// effect after its delay slot.
    pub branch_target: Option<u32>,
    pub next_is_bds: bool,
    pub current_is_bds: bool,
    pub branch_taken: bool,
    /// The bus that connects the CPU to memory and the devices.
    pub bus: Bus<D>,
    /// The load issued by the current instruction, written back at the end
    /// of the next one.
    pub load_delay: Option<DelayedLoad>,
    /// The load issued by the previous instruction, written back at the end
    /// of this one.
    pub current_load_delay: Option<DelayedLoad>,
    /// The BIU/cache control register.
    pub biu_cache_control: u32,
    /// Coprocessor 0: system control.
    pub cop0: Cop0,
    /// Coprocessor 2: the geometry transformation engine.
    pub gte: Gte,
    /// The kind and address of the last memory access of an instruction.
    pub last_memory_operation: (AccessType, u32),
    pub current_instruction: u32,
    /// The cycles the current step took.
    pub step_cycles: usize,
}

impl Cpu<NoDevices> {
    /// A CPU at reset, on a bus without a GPU or CD-ROM drive.
    pub fn new() -> (r: Self)
        ensures
            r.wf(),
            r.pc == 0xbfc0_0000,
            forall|i: int| 0 <= i < 32 ==> r.registers[i] == 0,
            r.branch_target is None,
            r.load_delay is None && r.current_load_delay is None,
    {
        Cpu::with_devices(NoDevices)
    }
}

impl<D: Devices> Cpu<D> {
    pub open spec fn wf(&self) -> bool {
        &&& self.bus.wf()
        &&& self.registers[0] == 0
        &&& self.load_delay matches Some(l) ==> l.target < 64 && (l.coprocessor is None ==> l.target < 32)
        &&& self.current_load_delay matches Some(l) ==> l.target < 64 && (l.coprocessor is None ==> l.target
            < 32)
    }

    /// The register file after applying `e` to it.
    pub open spec fn regs_after(&self, e: Effect) -> Seq<u32> {
        effect_regs(self.registers@, e)
    }

    /// The pending load after applying `e`.
    pub open spec fn pending_after(&self, e: Effect) -> Option<DelayedLoad> {
        effect_pending(self.current_load_delay, e)
    }

    /// HI after applying `e`.
    pub open spec fn hi_after(&self, e: Effect) -> u32 {
        effect_hi(self.hi, e)
    }

    /// LO after applying `e`.
    pub open spec fn lo_after(&self, e: Effect) -> u32 {
        effect_lo(self.lo, e)
    }

    /// The effect of instruction `w` in this state, if it only touches
    /// registers.
    pub open spec fn effect_of(&self, w: u32) -> Option<Effect> {
        simple_effect(w, self.registers[f_rs(w)], self.registers[f_rt(w)], self.pc, self.hi, self.lo)
    }

    /// Applies a register-only effect: the next state's registers, HI, LO,
    /// pending load, branch target and delay-slot flag.
    pub open spec fn applied(&self, next: &Self, e: Effect) -> bool {
        &&& next.registers@ == self.regs_after(e)
        &&& next.hi == self.hi_after(e)
        &&& next.lo == self.lo_after(e)
        &&& next.current_load_delay == self.pending_after(e)
        &&& next.branch_target == match e {
            Effect::Branch(t, _) => t,
            _ => self.branch_target,
        }
        &&& next.next_is_bds == match e {
            Effect::Branch(_, _) => true,
            _ => self.next_is_bds,
        }
        &&& next.pc == self.pc
        &&& next.npc == self.npc
        &&& next.bus == self.bus
        &&& next.cop0 == self.cop0
        &&& next.gte == self.gte
        &&& next.load_delay == self.load_delay
        &&& next.current_pc == self.current_pc
        &&& next.current_is_bds == self.current_is_bds
        &&& next.branch_taken == self.branch_taken
        &&& next.current_instruction == self.current_instruction
    }

    /// The state after entering an exception for `cause` raised by the
    /// current instruction, with COP0 first set to `cop0`: the handler
    /// runs next, nothing else changes.
    pub open spec fn trapped_from(&self, next: &Self, cop0: Cop0, cause: ExceptionCause) -> bool {
        &&& next.cop0 == cop0.exception_spec(
            cause,
            self.current_pc,
            self.npc,
            self.current_is_bds,
            self.branch_taken,
            (self.current_instruction >> 26u32) & 3,
        )
        &&& next.pc == cop0.handler_spec()
        &&& next.npc == cop0.handler_spec()
        &&& next.branch_target is None
        &&& !next.next_is_bds
        &&& next.registers == self.registers
        &&& next.hi == self.hi && next.lo == self.lo
        &&& next.gte == self.gte
        &&& next.load_delay == self.load_delay
        &&& next.current_load_delay == self.current_load_delay
    }

    /// The state after the current instruction raises `cause`.
    pub open spec fn trapped(&self, next: &Self, cause: ExceptionCause) -> bool {
        self.trapped_from(next, self.cop0, cause) && next.bus == self.bus
    }

    /// The state after the current instruction has effect `e`.
    pub open spec fn did(&self, next: &Self, e: Effect) -> bool {
        match e {
            Effect::Overflow => self.trapped(next, ExceptionCause::Overflow),
            _ => self.applied(next, e),
        }
    }

    /// A CPU at reset on the given devices.
    pub fn with_devices(devices: D) -> (r: Self)
        ensures
            r.wf(),
            r.pc == 0xbfc0_0000,
            r.npc == 0xbfc0_0004,
            forall|i: int| 0 <= i < 32 ==> r.registers[i] == 0,
            r.branch_target is None,
            r.load_delay is None && r.current_load_delay is None,
            r.bus.devices == devices,
    {
        Cpu {
            registers: [0; NUM_REGISTERS],
            hi: 0,
            lo: 0,
            pc: 0xbfc0_0000,
            npc: 0xbfc0_0004,
            current_pc: 0xbfc0_0000,
            branch_target: None,
            next_is_bds: false,
            current_is_bds: false,
            branch_taken: false,
            bus: Bus::new(devices),
            load_delay: None,
            current_load_delay: None,
            biu_cache_control: 0,
            cop0: Cop0::new(),
            gte: Gte::new(),
            last_memory_operation: (AccessType::InstructionFetch, 0),
            current_instruction: 0,
            step_cycles: 0,
        }
    }

    /// The value of the register RS names.
    pub fn get_rs(&self, instruction: Instruction) -> (r: u32)
        ensures
            r == self.registers[f_rs(instruction.0)],
    {
        self.registers[instruction.rs()]
    }

    /// The value of the register RT names.
    pub fn get_rt(&self, instruction: Instruction) -> (r: u32)
        ensures
            r == self.registers[f_rt(instruction.0)],
    {
        self.registers[instruction.rt()]
    }

    /// The effective address of a load or store: RS plus the sign-extended
    /// offset.
    pub fn target_address(&self, instruction: Instruction) -> (r: u32)
        ensures
            r == wrapping_add(self.registers[f_rs(instruction.0)], f_simm(instruction.0)),
    {
        let offset = instruction.simm16() as u32;
        self.get_rs(instruction).wrapping_add(offset)
    }

    /// Writes a general-purpose register; writes to r0 are dropped. A load
    /// still pending for the same register is cancelled.
    pub fn write_reg(&mut self, index: usize, value: u32)
        requires
            old(self).wf(),
            index < 32,
        ensures
            final(self).wf(),
            final(self).registers@ == write_gpr(old(self).registers@, index as int, value),
            final(self).current_load_delay == cancel_load(old(self).current_load_delay, index as int),
            final(self).hi == old(self).hi && final(self).lo == old(self).lo,
            final(self).pc == old(self).pc && final(self).npc == old(self).npc,
            final(self).branch_target == old(self).branch_target,
            final(self).next_is_bds == old(self).next_is_bds,
            final(self).bus == old(self).bus,
            final(self).cop0 == old(self).cop0,
            final(self).gte == old(self).gte,
            final(self).load_delay == old(self).load_delay,
            final(self).current_pc == old(self).current_pc,
            final(self).current_is_bds == old(self).current_is_bds,
            final(self).branch_taken == old(self).branch_taken,
            final(self).current_instruction == old(self).current_instruction,
    {
        if index == 0 {
            return;
        }
        if let Some(load) = self.current_load_delay {
            if load.coprocessor.is_none() && load.target == index {
                self.current_load_delay = None;
            }
        }
        self.registers[index] = value;
    }

    /// Schedules a load into a general-purpose register, to land after the
    /// next instruction.
    pub fn delayed_load(&mut self, target: usize, value: u32)
        requires
            old(self).wf(),
            target < 32,
        ensures
            final(self).wf(),
            *final(self) == (Cpu {
                load_delay: Some(DelayedLoad { target, value, coprocessor: None }),
                ..*old(self)
            }),
    {
        self.load_delay = Some(DelayedLoad { target, value, coprocessor: None });
    }

    /// Schedules a write of a coprocessor register, to land after the next
    /// instruction.
    pub fn cop_delayed_load(&mut self, cop: u8, target: usize, value: u32)
        requires
            old(self).wf(),
            target < 64,
        ensures
            final(self).wf(),
            *final(self) == (Cpu {
                load_delay: Some(DelayedLoad { target, value, coprocessor: Some(cop) }),
                ..*old(self)
            }),
    {
        self.load_delay = Some(DelayedLoad { target, value, coprocessor: Some(cop) });
    }

    /// Completes the load issued by the previous instruction. A load into
    /// a COP0 register that does not exist is a fault.
    pub fn handle_load_delay(&mut self) -> (r: Result<(), CpuFault>)
        requires
            old(self).wf(),
        ensures
            final(self).wf(),
            final(self).current_load_delay is None,
            final(self).load_delay == old(self).load_delay,
            final(self).bus == old(self).bus,
            final(self).pc == old(self).pc && final(self).npc == old(self).npc,
            final(self).branch_target == old(self).branch_target,
            final(self).hi == old(self).hi && final(self).lo == old(self).lo,
            final(self).current_pc == old(self).current_pc,
            final(self).next_is_bds == old(self).next_is_bds,
            match old(self).current_load_delay {
                None => final(self).registers == old(self).registers && final(self).cop0 == old(
                    self,
                ).cop0 && final(self).gte == old(self).gte && r is Ok,
                Some(l) => match l.coprocessor {
                    None => final(self).registers@ == write_gpr(old(self).registers@, l.target as int, l.value)
                        && final(self).cop0 == old(self).cop0 && final(self).gte == old(self).gte && r is Ok,
                    Some(c) => final(self).registers == old(self).registers && (if c == 0 {
                        final(self).cop0 == old(self).cop0.write_spec(l.target as int, l.value)
                            && final(self).gte == old(self).gte && (r is Ok <==> control::cop0_register_exists(
                            l.target as int,
                        ))
                    } else {
                        final(self).cop0 == old(self).cop0 && r is Ok && (c == 2 ==> (l.target < 32
                            ==> final(self).gte == old(self).gte.write_data_spec(l.target as int, l.value)))
                    }),
                },
            },
    {
        let pending = self.current_load_delay;
        self.current_load_delay = None;
        match pending {
            None => Ok(()),
            Some(load) => {
                match load.coprocessor {
                    None => {
                        if load.target != 0 {
                            self.registers[load.target] = load.value;
                        }
                        Ok(())
                    },
                    Some(0) => {
                        match self.cop0.write(load.target, load.value) {
                            Ok(()) => Ok(()),
                            Err(()) => Err(CpuFault::InvalidCop0Register(load.target)),
                        }
                    },
                    Some(2) => {
                        let _ = self.gte.write(load.target, load.value);
                        Ok(())
                    },
                    Some(_) => Ok(()),
                }
            },
        }
    }

    /// Enters an exception: COP0 records it (see `Cop0::start_exception`,
    /// with `next` the address that would have run next), and execution
    /// goes on at the handler.
    pub fn exception(&mut self, cause: ExceptionCause, epc: u32, next: u32)
        requires
            old(self).wf(),
        ensures
            final(self).wf(),
            final(self).cop0 == old(self).cop0.exception_spec(
                cause,
                epc,
                next,
                old(self).current_is_bds,
                old(self).branch_taken,
                (old(self).current_instruction >> 26u32) & 3,
            ),
            final(self).pc == old(self).cop0.handler_spec(),
            final(self).npc == old(self).cop0.handler_spec(),
            final(self).branch_target is None,
            !final(self).next_is_bds,
            final(self).registers == old(self).registers,
            final(self).hi == old(self).hi && final(self).lo == old(self).lo,
            final(self).bus == old(self).bus,
            final(self).gte == old(self).gte,
            final(self).load_delay == old(self).load_delay,
            final(self).current_load_delay == old(self).current_load_delay,
            final(self).current_pc == old(self).current_pc,
            final(self).current_is_bds == old(self).current_is_bds,
            final(self).branch_taken == old(self).branch_taken,
            final(self).current_instruction == old(self).current_instruction,
    {
        let ci = self.current_instruction;
        let copn = (ci >> 26u32) & 3;
        proof { crate::bits::lemma_field_le(ci, 26, 3); }
        let handler = self.cop0.start_exception(
            cause,
            epc,
            next,
            self.current_is_bds,
            self.branch_taken,
            copn,
        );
        self.pc = handler;
        self.npc = handler;
        self.branch_target = None;
        self.next_is_bds = false;
    }

    /// Enters the exception of a failed memory access of the current
    /// instruction: a misaligned address records the address in BadVaddr
    /// and raises an address error (a store one for writes); an address
    /// nothing answers raises a bus error (an instruction one for fetches).
    /// An access no device handles is a fault.
    pub fn memory_access_exception(&mut self, err: MemoryError, access: AccessType, address: u32) -> (r: Result<(), CpuFault>)
        requires
            old(self).wf(),
        ensures
            final(self).wf(),
            final(self).bus == old(self).bus,
            final(self).current_pc == old(self).current_pc,
            final(self).current_instruction == old(self).current_instruction,
            err == MemoryError::Unsupported ==> r == Err::<(), CpuFault>(CpuFault::UnsupportedAccess(address))
                && final(self).registers == old(self).registers,
            err == MemoryError::AlignmentError ==> r is Ok && old(self).trapped_from(
                &*final(self),
                Cop0 { bad_vaddr: address, ..old(self).cop0 },
                if access == AccessType::Write {
                    ExceptionCause::StoreAddressError
                } else {
                    ExceptionCause::LoadAddressError
                },
            ),
            err == MemoryError::BusError ==> r is Ok && old(self).trapped(
                &*final(self),
                if access == AccessType::InstructionFetch {
                    ExceptionCause::InstructionBusError
                } else {
                    ExceptionCause::DataBusError
                },
            ),
    {
        let cause = match err {
            MemoryError::AlignmentError => {
                self.cop0.bad_vaddr = address;
                if access == AccessType::Write {
                    ExceptionCause::StoreAddressError
                } else {
                    ExceptionCause::LoadAddressError
                }
            },
            MemoryError::BusError => {
                if access == AccessType::InstructionFetch {
                    ExceptionCause::InstructionBusError
                } else {
                    ExceptionCause::DataBusError
                }
            },
            MemoryError::Unsupported => {
                return Err(CpuFault::UnsupportedAccess(address));
            },
        };
        let epc = self.current_pc;
        let next = self.npc;
        self.exception(cause, epc, next);
        Ok(())
    }

    /// Fetches the instruction at `address`, counting its cycles: 2 when
    /// cached (kuseg, kseg0), 5 from uncached RAM (kseg1 below
    /// 0xb000_0000), 24 from uncached ROM.
    fn fetch_instruction(&mut self, address: u32) -> (r: Result<Instruction, MemoryError>)
        requires
            old(self).wf(),
            old(self).step_cycles == 0,
        ensures
            final(self).wf(),
            final(self).registers == old(self).registers,
            final(self).bus.ram.bytes() == old(self).bus.ram.bytes(),
            final(self).cop0 == old(self).cop0,
            final(self).gte == old(self).gte,
            final(self).pc == old(self).pc && final(self).npc == old(self).npc,
            final(self).hi == old(self).hi && final(self).lo == old(self).lo,
            final(self).branch_target == old(self).branch_target,
            final(self).next_is_bds == old(self).next_is_bds,
            final(self).load_delay == old(self).load_delay,
            final(self).current_load_delay == old(self).current_load_delay,
            final(self).current_pc == old(self).current_pc,
            final(self).current_is_bds == old(self).current_is_bds,
            final(self).branch_taken == old(self).branch_taken,
            final(self).current_instruction == old(self).current_instruction,
            final(self).step_cycles <= 24,
            old(self).ram_readable(address, AccessSize::Word) ==> r == Ok::<Instruction, MemoryError>(
                Instruction(old(self).ram_value(address, AccessSize::Word)),
            ),
    {
        self.step_cycles = if address <= 0x9fff_ffff {
            2
        } else if address <= 0xafff_ffff {
            5
        } else {
            24
        };
        let word = self.read_memory(address, AccessSize::Word)?;
        Ok(Instruction(word))
    }

    /// Executes one instruction. Register-only instructions have the
    /// effect `simple_effect` gives; loads and stores go through memory;
    /// SYSCALL, BREAK and unknown instructions raise their exception.
    pub fn execute(&mut self, instruction: Instruction) -> (r: Result<(), CpuFault>)
        requires
            old(self).wf(),
        ensures
            final(self).wf(),
            old(self).effect_of(instruction.0) matches Some(e) ==> r is Ok && old(self).did(&*final(self), e),
            instruction.0 >> 26 == 0 && instruction.0 & 0x3f == 0x0c ==> r is Ok && old(self).trapped(
                &*final(self),
                ExceptionCause::Syscall,
            ),
            instruction.0 >> 26 == 0 && instruction.0 & 0x3f == 0x0d ==> r is Ok && old(self).trapped(
                &*final(self),
                ExceptionCause::Breakpoint,
            ),
            is_reserved(instruction.0) ==> r is Ok && old(self).trapped(
                &*final(self),
                ExceptionCause::ReservedInstruction,
            ),
            instruction.0 >> 26 == 0x11 || instruction.0 >> 26 == 0x13 ==> r == Err::<(), CpuFault>(
                CpuFault::MissingCoprocessor(instruction.0 >> 26),
            ),
            ({
                let addr = load_store::address_of(old(self).registers@, instruction.0);
                instruction.0 >> 26 == 0x23 && old(self).ram_readable(addr, AccessSize::Word) ==> r is Ok
                    && final(self).registers@ == write_gpr(
                    old(self).registers@,
                    f_rt(instruction.0),
                    old(self).ram_value(addr, AccessSize::Word),
                )
            }),
            ({
                let addr = load_store::address_of(old(self).registers@, instruction.0);
                let value = old(self).registers@[f_rt(instruction.0)];
                instruction.0 >> 26 == 0x2b && old(self).ram_writable(addr, value, AccessSize::Word) ==> r is Ok
                    && final(self).bus.ram.bytes() == old(self).ram_after_write(addr, value, AccessSize::Word)
            }),
            instruction.0 >> 26 == 0x20 ==> old(self).load_effect(&*final(self), instruction.0, AccessSize::Byte, true, r),
            instruction.0 >> 26 == 0x21 ==> old(self).load_effect(
                &*final(self),
                instruction.0,
                AccessSize::HalfWord,
                true,
                r,
            ),
            instruction.0 >> 26 == 0x24 ==> old(self).load_effect(&*final(self), instruction.0, AccessSize::Byte, false, r),
            instruction.0 >> 26 == 0x25 ==> old(self).load_effect(
                &*final(self),
                instruction.0,
                AccessSize::HalfWord,
                false,
                r,
            ),
            instruction.0 >> 26 == 0x28 ==> old(self).store_effect(&*final(self), instruction.0, AccessSize::Byte, r),
            instruction.0 >> 26 == 0x29 ==> old(self).store_effect(&*final(self), instruction.0, AccessSize::HalfWord, r),
            ({
                let addr = load_store::address_of(old(self).registers@, instruction.0);
                let rt = old(self).registers@[f_rt(instruction.0)];
                let word = old(self).ram_value(addr & !3u32, AccessSize::Word);
                &&& instruction.0 >> 26 == 0x22 && old(self).ram_readable(addr & !3u32, AccessSize::Word) ==> r is Ok
                    && final(self).registers@ == write_gpr(
                    old(self).registers@,
                    f_rt(instruction.0),
                    load_store::lwl_merge(rt, word, addr & 3),
                )
                &&& instruction.0 >> 26 == 0x26 && old(self).ram_readable(addr & !3u32, AccessSize::Word) ==> r is Ok
                    && final(self).registers@ == write_gpr(
                    old(self).registers@,
                    f_rt(instruction.0),
                    load_store::lwr_merge(rt, word, addr & 3),
                )
                &&& instruction.0 >> 26 == 0x2a && old(self).ram_readable(addr & !3u32, AccessSize::Word) ==> r is Ok
                    && final(self).registers == old(self).registers && final(self).bus.ram.bytes()
                    == old(self).ram_after_write(addr & !3u32, load_store::swl_merge(word, rt, addr & 3), AccessSize::Word)
                &&& instruction.0 >> 26 == 0x2e && old(self).ram_readable(addr & !3u32, AccessSize::Word) ==> r is Ok
                    && final(self).registers == old(self).registers && final(self).bus.ram.bytes()
                    == old(self).ram_after_write(addr & !3u32, load_store::swr_merge(word, rt, addr & 3), AccessSize::Word)
            }),
            ({
                let addr = load_store::address_of(old(self).registers@, instruction.0);
                let stored = old(self).gte.read_spec(f_rt(instruction.0)).unwrap();
                &&& instruction.0 >> 26 == 0x32 && old(self).ram_readable(addr, AccessSize::Word) ==> r is Ok
                    && final(self).registers == old(self).registers && final(self).gte
                    == old(self).gte.write_data_spec(f_rt(instruction.0), old(self).ram_value(addr, AccessSize::Word))
                &&& instruction.0 >> 26 == 0x3a && old(self).ram_writable(addr, stored, AccessSize::Word) ==> r is Ok
                    && final(self).registers == old(self).registers && final(self).bus.ram.bytes()
                    == old(self).ram_after_write(addr, stored, AccessSize::Word)
            }),
            ({
                let w = instruction.0;
                let execute = w & 0x0200_0000 != 0;
                let f = (w >> 21) & 0x1f;
                let s = old(self).cop0.status;
                &&& w >> 26 == 0x10 && execute && w & 0x1ff_ffff == 0x10 ==> r is Ok && final(self).cop0.status
                    == control::returned_status(s) && final(self).cop0.cause == old(self).cop0.cause
                    && final(self).cop0.epc == old(self).cop0.epc && final(self).registers == old(self).registers
                &&& w >> 26 == 0x10 && execute && w & 0x1ff_ffff != 0x10 ==> r == Err::<(), CpuFault>(
                    CpuFault::UnknownCop0Command(w & 0x1ff_ffff),
                )
                &&& w >> 26 == 0x10 && !execute && f == 0 ==> (r is Ok <==> control::cop0_register_exists(f_rd(w)))
                    && final(self).registers == old(self).registers && (r is Ok ==> final(self).load_delay == Some(
                    DelayedLoad {
                        target: f_rt(w) as usize,
                        value: old(self).cop0.read_spec(f_rd(w)).unwrap(),
                        coprocessor: None,
                    },
                ))
                &&& w >> 26 == 0x10 && !execute && f == 4 ==> r is Ok && final(self).registers == old(self).registers
                    && final(self).load_delay == Some(
                    DelayedLoad { target: f_rd(w) as usize, value: old(self).registers@[f_rt(w)], coprocessor: Some(0u8) },
                )
                &&& w >> 26 == 0x10 && !execute && f != 0 && f != 4 ==> r == Err::<(), CpuFault>(
                    CpuFault::UnknownCopFunction(0, f),
                )
            }),
            ({
                let w = instruction.0;
                let execute = w & 0x0200_0000 != 0;
                let f = (w >> 21) & 0x1f;
                &&& w >> 26 == 0x12 && execute && is_command(w & 0x3f) ==> r is Ok && final(self).gte
                    == old(self).gte.execute_spec(w) && final(self).registers == old(self).registers
                &&& w >> 26 == 0x12 && execute && !is_command(w & 0x3f) ==> r == Err::<(), CpuFault>(
                    CpuFault::UnknownGteCommand(w & 0x3f),
                )
                &&& w >> 26 == 0x12 && !execute && f == 0 ==> r is Ok && final(self).registers == old(self).registers
                    && final(self).gte == old(self).gte && final(self).load_delay == Some(
                    DelayedLoad {
                        target: f_rt(w) as usize,
                        value: old(self).gte.read_spec(f_rd(w)).unwrap(),
                        coprocessor: None,
                    },
                )
                &&& w >> 26 == 0x12 && !execute && f == 2 ==> r is Ok && final(self).gte == old(self).gte
                    && final(self).registers@ == write_gpr(
                    old(self).registers@,
                    f_rt(w),
                    old(self).gte.read_spec(f_rd(w) + 32).unwrap(),
                )
                &&& w >> 26 == 0x12 && !execute && f == 4 ==> r is Ok && final(self).registers == old(self).registers
                    && final(self).load_delay == Some(
                    DelayedLoad { target: f_rd(w) as usize, value: old(self).registers@[f_rt(w)], coprocessor: Some(2u8) },
                )
                &&& w >> 26 == 0x12 && !execute && f == 6 ==> r is Ok && final(self).registers == old(self).registers
                    && final(self).load_delay == Some(
                    DelayedLoad {
                        target: (f_rd(w) + 32) as usize,
                        value: old(self).registers@[f_rt(w)],
                        coprocessor: Some(2u8),
                    },
                )
                &&& w >> 26 == 0x12 && !execute && f != 0 && f != 2 && f != 4 && f != 6 ==> r == Err::<(), CpuFault>(
                    CpuFault::UnknownCopFunction(2, f),
                )
            }),
    {
        let op = instruction.opcode();
        match op {
            0x00 => {
                match instruction.funct() {
                    0x00 => self.ins_sll(instruction),
                    0x02 => self.ins_srl(instruction),
                    0x03 => self.ins_sra(instruction),
                    0x04 => self.ins_sllv(instruction),
                    0x06 => self.ins_srlv(instruction),
                    0x07 => self.ins_srav(instruction),
                    0x08 => self.ins_jr(instruction),
                    0x09 => self.ins_jalr(instruction),
                    0x0c => self.ins_syscall(instruction),
                    0x0d => self.ins_break(instruction),
                    0x10 => self.ins_mfhi(instruction),
                    0x11 => self.ins_mthi(instruction),
                    0x12 => self.ins_mflo(instruction),
                    0x13 => self.ins_mtlo(instruction),
                    0x18 => self.ins_mult(instruction),
                    0x19 => self.ins_multu(instruction),
                    0x1a => self.ins_div(instruction),
                    0x1b => self.ins_divu(instruction),
                    0x20 => self.ins_add(instruction),
                    0x21 => self.ins_addu(instruction),
                    0x22 => self.ins_sub(instruction),
                    0x23 => self.ins_subu(instruction),
                    0x24 => self.ins_and(instruction),
                    0x25 => self.ins_or(instruction),
                    0x26 => self.ins_xor(instruction),
                    0x27 => self.ins_nor(instruction),
                    0x2a => self.ins_slt(instruction),
                    0x2b => self.ins_sltu(instruction),
                    _ => self.reserved_instruction(),
                }
                Ok(())
            },
            0x01 => {
                self.ins_bcondz(instruction);
                Ok(())
            },
            0x02 => {
                self.ins_j(instruction);
                Ok(())
            },
            0x03 => {
                self.ins_jal(instruction);
                Ok(())
            },
            0x04 => {
                self.ins_beq(instruction);
                Ok(())
            },
            0x05 => {
                self.ins_bne(instruction);
                Ok(())
            },
            0x06 => {
                self.ins_blez(instruction);
                Ok(())
            },
            0x07 => {
                self.ins_bgtz(instruction);
                Ok(())
            },
            0x08 => {
                self.ins_addi(instruction);
                Ok(())
            },
            0x09 => {
                self.ins_addiu(instruction);
                Ok(())
            },
            0x0a => {
                self.ins_slti(instruction);
                Ok(())
            },
            0x0b => {
                self.ins_sltiu(instruction);
                Ok(())
            },
            0x0c => {
                self.ins_andi(instruction);
                Ok(())
            },
            0x0d => {
                self.ins_ori(instruction);
                Ok(())
            },
            0x0e => {
                self.ins_xori(instruction);
                Ok(())
            },
            0x0f => {
                self.ins_lui(instruction);
                Ok(())
            },
            0x10 => {
                if instruction.cop_execute() {
                    if instruction.cop_instruction() == 0x10 {
                        self.cop0.execute(instruction);
                        Ok(())
                    } else {
                        Err(CpuFault::UnknownCop0Command(instruction.cop_instruction()))
                    }
                } else {
                    match instruction.cop_funct() {
                        0 => self.ins_mfc0(instruction),
                        4 => {
                            self.ins_mtc0(instruction);
                            Ok(())
                        },
                        f => Err(CpuFault::UnknownCopFunction(0, f)),
                    }
                }
            },
            0x12 => {
                if instruction.cop_execute() {
                    if crate::gte::operations::valid_command(instruction.0) {
                        self.gte.execute(instruction);
                        Ok(())
                    } else {
                        Err(CpuFault::UnknownGteCommand(instruction.0 & 0x3f))
                    }
                } else {
                    match instruction.cop_funct() {
                        0 => {
                            self.ins_mfc2(instruction);
                            Ok(())
                        },
                        2 => {
                            self.ins_cfc2(instruction);
                            Ok(())
                        },
                        4 => {
                            self.ins_mtc2(instruction);
                            Ok(())
                        },
                        6 => {
                            self.ins_ctc2(instruction);
                            Ok(())
                        },
                        f => Err(CpuFault::UnknownCopFunction(2, f)),
                    }
                }
            },
            0x11 | 0x13 => Err(CpuFault::MissingCoprocessor(op)),
            0x20 => self.ins_lb(instruction),
            0x21 => self.ins_lh(instruction),
            0x22 => self.ins_lwl(instruction),
            0x23 => self.ins_lw(instruction),
            0x24 => self.ins_lbu(instruction),
            0x25 => self.ins_lhu(instruction),
            0x26 => self.ins_lwr(instruction),
            0x28 => self.ins_sb(instruction),
            0x29 => self.ins_sh(instruction),
            0x2a => self.ins_swl(instruction),
            0x2b => self.ins_sw(instruction),
            0x2e => self.ins_swr(instruction),
            0x32 => self.ins_lwc2(instruction),
            0x3a => self.ins_swc2(instruction),
            _ => {
                self.reserved_instruction();
                Ok(())
            },
        }
    }

    /// Raises the reserved instruction exception for the current
    /// instruction.
    fn reserved_instruction(&mut self)
        requires
            old(self).wf(),
        ensures
            final(self).wf(),
            old(self).trapped(&*final(self), ExceptionCause::ReservedInstruction),
    {
        let epc = self.current_pc;
        let next = self.npc;
        self.exception(ExceptionCause::ReservedInstruction, epc, next);
    }

    /// Performs one step: fetches the instruction at PC and executes it.
    /// A branch taken by the previous instruction takes effect now, after
    /// its delay slot; the load the previous instruction issued lands at
    /// the end of the step. A pending interrupt is taken instead (a GTE
    /// command still runs first). Returns the cycles the step took.
    pub fn step(&mut self) -> (r: Result<usize, CpuFault>)
        requires
            old(self).wf(),
        ensures
            final(self).wf(),
            ({
                let w = old(self).ram_value(old(self).pc, AccessSize::Word);
                let pc4 = wrapping_add(old(self).pc, 4);
                let e = simple_effect(w, old(self).registers[f_rs(w)], old(self).registers[f_rt(w)], pc4, old(self).hi, old(self).lo);
                old(self).ram_readable(old(self).pc, AccessSize::Word) && !old(self).cop0.should_interrupt_spec()
                    && e is Some && !(e.unwrap() is Overflow)
                    && (old(self).load_delay matches Some(l) ==> l.coprocessor is None || l.coprocessor == Some(2u8))
                    ==> r is Ok
                    && final(self).current_pc == old(self).pc
                    && final(self).pc == (match old(self).branch_target {
                        Some(t) => t,
                        None => pc4,
                    })
                    && final(self).branch_target == (match e.unwrap() {
                        Effect::Branch(t, _) => t,
                        _ => None,
                    })
                    && final(self).registers@ == land(effect_regs(old(self).registers@, e.unwrap()), effect_pending(old(self).load_delay, e.unwrap()))
                    && final(self).hi == effect_hi(old(self).hi, e.unwrap())
                    && final(self).lo == effect_lo(old(self).lo, e.unwrap())
                    && final(self).load_delay is None
                    && final(self).bus.ram.bytes() == old(self).bus.ram.bytes()
            }),
    {
        let pending = self.load_delay;
        self.load_delay = None;
        self.current_load_delay = pending;
        self.current_is_bds = self.next_is_bds;
        self.next_is_bds = false;
        self.current_pc = self.pc;
        self.step_cycles = 0;
        self.branch_taken = self.branch_target.is_some();
        self.npc = match self.branch_target {
            Some(t) => t,
            None => self.pc.wrapping_add(4),
        };
        self.branch_target = None;

        let fetch_address = self.current_pc;
        let instruction = match self.fetch_instruction(fetch_address) {
            Ok(i) => i,
            Err(e) => {
                self.memory_access_exception(e, AccessType::InstructionFetch, fetch_address)?;
                return Ok(10);
            },
        };
        self.current_instruction = instruction.0;

        if self.cop0.should_interrupt() {
            if instruction.opcode() == 0x12 && instruction.cop_execute() {
                if !crate::gte::operations::valid_command(instruction.0) {
                    return Err(CpuFault::UnknownGteCommand(instruction.0 & 0x3f));
                }
                self.gte.execute(instruction);
            }
            self.handle_load_delay()?;
            let epc = self.current_pc;
            self.exception(ExceptionCause::Interrupt, epc, epc);
            return Ok(10);
        }

        self.pc = self.current_pc.wrapping_add(4);
        self.execute(instruction)?;
        self.handle_load_delay()?;
        self.pc = self.npc;
        Ok(self.step_cycles)
    }
}

} // verus!
