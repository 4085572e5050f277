use vstd::prelude::*;

use crate::instruction::Instruction;

verus! {

/// A reason for an exception in the MIPS architecture, as recorded in the
/// exception code field of the Cause register.
#[derive(Clone, Copy, Debug, PartialEq, Eq, Structural)]
pub enum ExceptionCause {
    /// A hardware interrupt is pending and enabled.
    Interrupt,
    /// A load or an instruction fetch from a misaligned address.
    LoadAddressError,
    /// A store to a misaligned address.
    StoreAddressError,
    /// An instruction fetch from an address that nothing answers.
    InstructionBusError,
    /// A data access to an address that nothing answers.
    DataBusError,
    /// A syscall instruction was executed.
    Syscall,
    /// A breakpoint instruction was executed, or a hardware breakpoint was hit.
    Breakpoint,
    /// The instruction is not one the CPU implements.
    ReservedInstruction,
    /// A coprocessor that is not present was used.
    CoprocessorUnusable,
    /// A signed arithmetic operation overflowed.
    Overflow,
}

/// The exception code that the Cause register records for each cause.
pub open spec fn cause_code(cause: ExceptionCause) -> u32 {
    match cause {
        ExceptionCause::Interrupt => 0,
        ExceptionCause::LoadAddressError => 4,
        ExceptionCause::StoreAddressError => 5,
        ExceptionCause::InstructionBusError => 6,
        ExceptionCause::DataBusError => 7,
        ExceptionCause::Syscall => 8,
        ExceptionCause::Breakpoint => 9,
        ExceptionCause::ReservedInstruction => 10,
        ExceptionCause::CoprocessorUnusable => 11,
        ExceptionCause::Overflow => 12,
    }
}

impl ExceptionCause {
    /// The raw exception code of this cause.
    pub fn code(self) -> (r: u32)
        ensures
            r == cause_code(self),
            r < 32,
    {
        match self {
            ExceptionCause::Interrupt => 0,
            ExceptionCause::LoadAddressError => 4,
            ExceptionCause::StoreAddressError => 5,
            ExceptionCause::InstructionBusError => 6,
            ExceptionCause::DataBusError => 7,
            ExceptionCause::Syscall => 8,
            ExceptionCause::Breakpoint => 9,
            ExceptionCause::ReservedInstruction => 10,
            ExceptionCause::CoprocessorUnusable => 11,
            ExceptionCause::Overflow => 12,
        }
    }

    /// The cause recorded under a raw exception code, if any.
    pub fn from_code(value: u32) -> (r: Option<ExceptionCause>)
        ensures
            r matches Some(c) ==> cause_code(c) == value,
            r is None <==> !(value == 0 || (4 <= value <= 12)),
    {
        match value {
            0 => Some(ExceptionCause::Interrupt),
            4 => Some(ExceptionCause::LoadAddressError),
            5 => Some(ExceptionCause::StoreAddressError),
            6 => Some(ExceptionCause::InstructionBusError),
            7 => Some(ExceptionCause::DataBusError),
            8 => Some(ExceptionCause::Syscall),
            9 => Some(ExceptionCause::Breakpoint),
            10 => Some(ExceptionCause::ReservedInstruction),
            11 => Some(ExceptionCause::CoprocessorUnusable),
            12 => Some(ExceptionCause::Overflow),
            _ => None,
        }
    }
}

/// The Status register after a reset: the boot exception vectors (bit 22) are
/// selected.
pub const STATUS_RESET: u32 = 0x0040_0000;

/// r15, the processor ID: read-only, the version of the processor.
pub const PROCESSOR_ID: u32 = 2;

/// The status register after entering an exception: the three
/// interrupt-enable/kernel-mode pairs in bits 5..0 move up one pair, the
/// current pair becoming 0 (interrupts off, kernel mode).
pub open spec fn entered_status(status: u32) -> u32 {
    (status & !0x3fu32) | ((status << 2) & 0x3f)
}

/// The status register after RFE: the pairs in bits 5..0 move down one
/// pair, the oldest pair staying as it was.
pub open spec fn returned_status(status: u32) -> u32 {
    (status & !0x3fu32) | ((status & 0x30) | ((status & 0x3f) >> 2))
}

/// Returning from an exception restores the interrupt-enable and kernel-mode
/// pairs that entering it pushed: after an exception entry and an RFE, the
/// current and previous pairs (bits 3..0) are those before the entry and the
/// bits above bit 5 are untouched.
pub proof fn lemma_rfe_undoes_exception_entry(status: u32)
    ensures
        returned_status(entered_status(status)) & 0xf == status & 0xf,
        returned_status(entered_status(status)) & !0x3fu32 == status & !0x3fu32,
{
    assert(((((status & !0x3fu32) | ((status << 2) & 0x3f)) & !0x3fu32) | (((((status & !0x3fu32) | ((status
        << 2) & 0x3f)) & 0x30) | ((((status & !0x3fu32) | ((status << 2) & 0x3f)) & 0x3f) >> 2)))) & 0xf == status
        & 0xf && ((((status & !0x3fu32) | ((status << 2) & 0x3f)) & !0x3fu32) | (((((status & !0x3fu32) | ((status
        << 2) & 0x3f)) & 0x30) | ((((status & !0x3fu32) | ((status << 2) & 0x3f)) & 0x3f) >> 2)))) & !0x3fu32
        == status & !0x3fu32) by (bit_vector);
}

/// The COP0 system control coprocessor's registers.
#[derive(Debug)]
pub struct Cop0 {
    /// r3 - Breakpoint Program Counter
    pub bpc: u32,
    /// r5 - Breakpoint Data Address
    pub bda: u32,
    /// r6 - Target Address
    pub tar: u32,
    /// r7 - Debug and Cache Invalidate Control
    pub dcic: u32,
    /// r8 - Bad Address
    pub bad_vaddr: u32,
    /// r9 - Breakpoint Data Address Mask
    pub bdma: u32,
    /// r11 - Breakpoint Program Counter Mask
    pub bpcm: u32,
    /// r12 - Status Register
    pub status: u32,
    /// r13 - Cause of the last exception
    pub cause: u32,
    /// r14 - Exception Program Counter
    pub epc: u32,
}

/// The registers that exist in COP0 on the PS1.
pub open spec fn cop0_register_exists(reg: int) -> bool {
    reg == 3 || reg == 5 || reg == 6 || reg == 7 || reg == 8 || reg == 9 || reg == 11
        || reg == 12 || reg == 13 || reg == 14 || reg == 15
}

impl Cop0 {
    /// The value a read of register `reg` gives, if the register exists.
    pub open spec fn read_spec(&self, reg: int) -> Option<u32> {
        if reg == 3 { Some(self.bpc) }
        else if reg == 5 { Some(self.bda) }
        else if reg == 6 { Some(self.tar) }
        else if reg == 7 { Some(self.dcic) }
        else if reg == 8 { Some(self.bad_vaddr) }
        else if reg == 9 { Some(self.bdma) }
        else if reg == 11 { Some(self.bpcm) }
        else if reg == 12 { Some(self.status) }
        else if reg == 13 { Some(self.cause) }
        else if reg == 14 { Some(self.epc) }
        else if reg == 15 { Some(PROCESSOR_ID) }
        else { None }
    }

    /// The registers after a write of `value` to register `reg`.
    pub open spec fn write_spec(self, reg: int, value: u32) -> Cop0 {
        if reg == 3 { Cop0 { bpc: value, ..self } }
        else if reg == 5 { Cop0 { bda: value, ..self } }
        else if reg == 6 { Cop0 { tar: value, ..self } }
        else if reg == 7 { Cop0 { dcic: value, ..self } }
        else if reg == 8 { Cop0 { bad_vaddr: value, ..self } }
        else if reg == 9 { Cop0 { bdma: value, ..self } }
        else if reg == 11 { Cop0 { bpcm: value, ..self } }
        else if reg == 12 { Cop0 { status: value, ..self } }
        else if reg == 13 { Cop0 { cause: (self.cause & !0x0300u32) | (value & 0x0300), ..self } }
        else if reg == 14 { Cop0 { epc: value, ..self } }
        else { self }
    }

    /// The registers after an exception is entered (see `start_exception`).
    pub open spec fn exception_spec(
        self,
        cause: ExceptionCause,
        pc: u32,
        npc: u32,
        in_bds: bool,
        branch_taken: bool,
        coprocessor_number: u32,
    ) -> Cop0 {
        Cop0 {
            status: entered_status(self.status),
            cause: (self.cause & 0x0fff_ff83u32) | (if in_bds { 0x8000_0000u32 } else { 0 }) | (if in_bds
                && branch_taken { 0x4000_0000u32 } else { 0 }) | (coprocessor_number << 28) | (cause_code(
                cause,
            ) << 2),
            epc: if in_bds { vstd::wrapping::u32_specs::wrapping_sub(pc, 4) } else { pc },
            tar: if in_bds { npc } else { 0 },
            ..self
        }
    }

    /// The address of the exception handler: the boot vector while Status
    /// bit 22 (BEV) is set, the RAM vector otherwise.
    pub open spec fn handler_spec(&self) -> u32 {
        if self.status & 0x0040_0000 != 0 {
            0xbfc0_0180u32
        } else {
            0x8000_0080u32
        }
    }

    /// Whether an interrupt is taken: IE (Status bit 0) is set and a pending
    /// interrupt (Cause bits 15..8) is unmasked (Status bits 15..8).
    pub open spec fn should_interrupt_spec(&self) -> bool {
        (self.status & 1) != 0 && ((self.cause & self.status) & 0xff00) != 0
    }

    /// Creates a COP0 with every register zero but the Status register, which
    /// selects the boot exception vectors.
    pub fn new() -> (r: Self)
        ensures
            r.bpc == 0 && r.bda == 0 && r.tar == 0 && r.dcic == 0 && r.bad_vaddr == 0,
            r.bdma == 0 && r.bpcm == 0 && r.cause == 0 && r.epc == 0,
            r.status == STATUS_RESET,
    {
        Cop0 {
            bpc: 0,
            bda: 0,
            tar: 0,
            dcic: 0,
            bad_vaddr: 0,
            bdma: 0,
            bpcm: 0,
            status: STATUS_RESET,
            cause: 0,
            epc: 0,
        }
    }

    /// Reads a value from the specified COP0 register, or `None` where the
    /// register does not exist on the PS1.
    pub fn read(&self, reg: usize) -> (r: Option<u32>)
        ensures
            r == self.read_spec(reg as int),
            r is Some <==> cop0_register_exists(reg as int),
    {
        match reg {
            3 => Some(self.bpc),
            5 => Some(self.bda),
            6 => Some(self.tar),
            7 => Some(self.dcic),
            8 => Some(self.bad_vaddr),
            9 => Some(self.bdma),
            11 => Some(self.bpcm),
            12 => Some(self.status),
            13 => Some(self.cause),
            14 => Some(self.epc),
            15 => Some(PROCESSOR_ID),
            _ => None,
        }
    }

    /// Writes a value to the specified COP0 register. Only bits 8 and 9 of the
    /// Cause register can be written, and the processor ID is read-only.
    /// Fails where the register does not exist on the PS1, leaving every
    /// register unchanged.
    pub fn write(&mut self, reg: usize, value: u32) -> (r: Result<(), ()>)
        ensures
            r is Ok <==> cop0_register_exists(reg as int),
            *final(self) == old(self).write_spec(reg as int, value),
    {
        match reg {
            3 => self.bpc = value,
            5 => self.bda = value,
            6 => self.tar = value,
            7 => self.dcic = value,
            8 => self.bad_vaddr = value,
            9 => self.bdma = value,
            11 => self.bpcm = value,
            12 => self.status = value,
            13 => {
                let old_value = self.cause & !0x0300u32;
                let new_value = value & 0x0300;
                self.cause = old_value | new_value;
            },
            14 => self.epc = value,
            15 => {},
            _ => return Err(()),
        }
        Ok(())
    }

    /// Executes a COP0 instruction. The only one is RFE, which pops the
    /// interrupt-enable/kernel-mode stack in the low 6 bits of Status: bits
    /// 3..0 take bits 5..2, and bits 5..4 stay as they were.
    pub fn execute(&mut self, instruction: Instruction)
        requires
            instruction.0 & 0x1ff_ffff == 0x10,
        ensures
            final(self).status == returned_status(old(self).status),
            final(self).cause == old(self).cause,
            final(self).epc == old(self).epc,
            final(self).tar == old(self).tar,
    {
        let s = self.status;
        let low_fields = s & 0x3f;
        let new_low = (low_fields & 0x30) | (low_fields >> 2);
        assert((low_fields & 0x30) == (s & 0x30)) by (bit_vector)
            requires low_fields == s & 0x3f;
        self.status = (s & !0x3fu32) | new_low;
    }

    /// Returns true if an interrupt should be handled.
    pub fn should_interrupt(&self) -> (r: bool)
        ensures
            r == self.should_interrupt_spec(),
    {
        if self.status & 1 == 0 {
            return false;
        }
        (self.cause & self.status) & 0xff00 != 0
    }

    /// Sets or clears the hardware interrupt bit (IP2, Cause bit 10).
    pub fn set_hardware_interrupt(&mut self, value: bool)
        ensures
            final(self).cause == if value {
                old(self).cause | 0x400
            } else {
                old(self).cause & !0x400u32
            },
            final(self).status == old(self).status,
            final(self).epc == old(self).epc,
            final(self).tar == old(self).tar,
    {
        if value {
            self.cause = self.cause | 0x400;
        } else {
            self.cause = self.cause & !0x400u32;
        }
    }

    /// Sets up the registers to handle an exception, and returns the address
    /// of the exception handler.
    ///
    /// The interrupt-enable/kernel-mode stack in Status bits 5..0 is pushed
    /// (shifted left by 2). Cause records the exception code, the coprocessor
    /// number, and whether the exception hit a branch delay slot (bit 31) of
    /// a taken branch (bit 30). EPC is the address of the faulting
    /// instruction, or of the branch before it when in a delay slot, in which
    /// case TAR holds the address that would have run next.
    pub fn start_exception(
        &mut self,
        cause: ExceptionCause,
        pc: u32,
        npc: u32,
        in_bds: bool,
        branch_taken: bool,
        coprocessor_number: u32,
    ) -> (handler: u32)
        requires
            coprocessor_number < 4,
        ensures
            *final(self) == old(self).exception_spec(cause, pc, npc, in_bds, branch_taken, coprocessor_number),
            handler == old(self).handler_spec(),
            final(self).status == entered_status(old(self).status),
            final(self).cause == (old(self).cause & 0x0fff_ff83u32)
                | (if in_bds { 0x8000_0000u32 } else { 0 })
                | (if in_bds && branch_taken { 0x4000_0000u32 } else { 0 })
                | (coprocessor_number << 28)
                | (cause_code(cause) << 2),
            final(self).epc == if in_bds { vstd::wrapping::u32_specs::wrapping_sub(pc, 4) } else { pc },
            final(self).tar == if in_bds { npc } else { 0 },
            final(self).bpc == old(self).bpc,
            final(self).bda == old(self).bda,
            final(self).dcic == old(self).dcic,
            final(self).bad_vaddr == old(self).bad_vaddr,
            final(self).bdma == old(self).bdma,
            final(self).bpcm == old(self).bpcm,
            handler == if old(self).status & 0x0040_0000 != 0 {
                0xbfc0_0180u32
            } else {
                0x8000_0080u32
            },
    {
        let s = self.status;
        let shifted = (s << 2) & 0x3f;
        let ns = (s & !0x3fu32) | shifted;
        assert((ns & 0x0040_0000 != 0) == (s & 0x0040_0000 != 0)) by (bit_vector)
            requires ns == (s & !0x3fu32) | ((s << 2) & 0x3f);
        self.status = ns;

        let bd: u32 = if in_bds { 0x8000_0000 } else { 0 };
        let bt: u32 = if in_bds && branch_taken { 0x4000_0000 } else { 0 };
        if in_bds {
            self.tar = npc;
            self.epc = pc.wrapping_sub(4);
        } else {
            self.tar = 0;
            self.epc = pc;
        }
        let code = cause.code();
        self.cause = (self.cause & 0x0fff_ff83u32) | bd | bt | (coprocessor_number << 28) | (code << 2);

        if self.status & 0x0040_0000 != 0 {
            0xbfc0_0180
        } else {
            0x8000_0080
        }
    }

    /// Whether Status bit 16 is set: the cache is isolated and mounted in
    /// place of the first 4KB of memory.
    pub fn isolate_cache(&self) -> (r: bool)
        ensures
            r == (self.status & 0x1_0000 != 0),
    {
        self.status & 0x1_0000 != 0
    }
}

} // verus!
