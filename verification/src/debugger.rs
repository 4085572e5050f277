use vstd::prelude::*;

use std::collections::HashMap;

use crate::bus::Devices;
use crate::cpu::{AccessType, Cpu, f_rs};
use crate::memory::{AccessSize, RAM_SIZE, read_le, size_bytes};

verus! {

broadcast use vstd::std_specs::hash::group_hash_axioms;

/// A breakpoint: whether it is removed once hit, and its number in the
/// list.
#[derive(Debug, Clone, Copy, PartialEq, Eq, Structural)]
pub struct Breakpoint {
    pub temporary: bool,
    pub index: usize,
}

/// The groups of registers the debugger shows.
#[derive(Debug, Clone, Copy, PartialEq, Eq, Structural)]
pub enum Registers {
    /// Every group.
    All,
    /// The CPU registers.
    Cpu,
    /// The GTE registers.
    Gte,
    /// The COP0 registers.
    Cop0,
}

/// The breakpoint commands.
#[derive(Debug, Clone, Copy, PartialEq, Eq, Structural)]
pub enum BreakpointCommand {
    /// Adds a breakpoint at `address`: on a memory read, a memory write, or
    /// (with neither) on execution.
    Add { address: u32, read: bool, write: bool, temporary: bool },
    /// Lists the breakpoints.
    List,
    /// Removes the breakpoint numbered `index`.
    Remove { index: usize },
}

/// The commands of the debugger.
#[derive(Debug, Clone)]
pub enum DebuggerCommand {
    /// Steps the CPU by `steps` instructions.
    Step { steps: usize },
    /// Steps by one instruction, running through calls.
    Next,
    /// Runs until a breakpoint.
    Continue,
    /// Runs until `address` (or an earlier breakpoint).
    Until { address: u32 },
    /// Shows a group of registers.
    Registers { module: Registers },
    /// Manages breakpoints.
    Breakpoint { command: BreakpointCommand },
    /// Sets the PC.
    Jump { address: u32 },
    /// Reads `count` units of `size` bytes from `address`, shown in
    /// `format`.
    ReadMemory { address: u32, count: usize, format: String, size: usize },
    /// Writes `value` (`size` bytes) at `address`.
    WriteMemory { address: u32, value: u32, size: usize },
    /// Disassembles `count` instructions from `address` (or the PC).
    Disasm { address: Option<u32>, count: usize },
    /// Saves the RAM to `file`.
    DumpRam { file: String },
    /// Saves the VRAM to `file`, raw or as an image.
    DumpVram { file: String, raw: bool },
    /// Leaves the debugger.
    Quit,
}

/// A command line of the debugger.
#[derive(Debug, Clone)]
pub struct DebuggerArgs {
    pub command: DebuggerCommand,
}

/// Why the debugger was entered.
#[derive(Debug, Clone, Copy, PartialEq, Eq, Structural)]
pub enum BreakReason {
    /// The steps ran out.
    Step,
    /// The user asked to stop.
    CtrlC,
    /// The PC reached a breakpoint (at the address; whether it was
    /// temporary).
    PCBreakpoint(u32, bool),
    /// A watched address was read.
    ReadBreakpoint(u32, bool),
    /// A watched address was written.
    WriteBreakpoint(u32, bool),
}

/// The three lists of breakpoints.
#[derive(Debug, Clone, Copy, PartialEq, Eq, Structural)]
pub enum BreakpointKind {
    Execute,
    Read,
    Write,
}

/// What a command has the debugger show.
#[derive(Debug, Clone)]
pub enum DebuggerOutput {
    /// The instruction at the PC could not be read.
    InstructionUnreadable(u32),
    /// A group of registers.
    ShowRegisters(Registers),
    /// A breakpoint cannot watch both reads and writes.
    BothReadAndWrite,
    /// A breakpoint was added at an address.
    BreakpointAdded(BreakpointKind, u32),
    /// The list of breakpoints.
    ListBreakpoints,
    /// The breakpoint of a number was removed.
    BreakpointRemoved(BreakpointKind, usize),
    /// No breakpoint has the number.
    NoBreakpoint(usize),
    /// The PC was set.
    Jumped(u32),
    /// The words read for disassembly, each at its address with its text
    /// (`None` where the read failed).
    Disassembly(Vec<(u32, Option<(u32, String)>)>),
    /// Memory read at the addresses, in units of the size, to show in the
    /// format.
    Memory(Vec<(u32, Option<u32>)>, AccessSize, String),
    /// A write of a value of a size at an address is starting.
    WritingMemory(u32, u32, usize),
    /// The write of a value at an address succeeded or failed.
    MemoryWritten(u32, u32, bool),
    /// The bytes of the RAM, to save to the file.
    DumpRam(String, Vec<u8>),
    /// The VRAM is to be saved to the file, raw or as an image.
    DumpVram(String, bool),
}

/// Whether `ins` calls a function: JAL, JALR, BLTZAL or BGEZAL.
pub open spec fn is_call_spec(ins: u32) -> bool {
    let opcode = ins >> 26u32;
    ||| opcode == 3
    ||| opcode == 0 && ins & 0x3f == 9
    ||| opcode == 1 && ((ins >> 16u32) & 0x1f) & 0x10 == 0x10
}

/// Whether `ins` calls a function.
pub fn is_call(ins: u32) -> (r: bool)
    ensures
        r == is_call_spec(ins),
{
    let opcode = ins >> 26u32;
    if opcode == 3 {
        true
    } else if opcode == 0 {
        ins & 0x3f == 9
    } else if opcode == 1 {
        let rt = (ins >> 16u32) & 0x1f;
        rt & 0x10 == 0x10
    } else {
        false
    }
}

/// A temporary breakpoint, as `next` and `until` set.
pub open spec fn temporary_breakpoint() -> Breakpoint {
    Breakpoint { temporary: true, index: 0 }
}

/// Some address of `map` whose breakpoint has number `index`, if any.
pub fn find_breakpoint(map: &HashMap<u32, Breakpoint>, index: usize) -> (r: Option<u32>)
    ensures
        match r {
            Some(a) => map@.contains_key(a) && map@[a].index == index,
            None => forall|a: u32| #[trigger] map@.contains_key(a) ==> map@[a].index != index,
        },
{
    for (address, bp) in it: map.iter()
        invariant
            forall|j: int| 0 <= j < it.index() ==> (#[trigger] it.seq()[j]).1.index != index,
    {
        if bp.index == index {
            return Some(*address);
        }
    }
    None
}

/// The value of a hexadecimal digit, if `c` is one.
pub open spec fn hex_digit_spec(c: u8) -> Option<u32> {
    if 0x30 <= c <= 0x39 {
        Some((c - 0x30) as u32)
    } else if 0x61 <= c <= 0x66 {
        Some((c - 0x61 + 10) as u32)
    } else if 0x41 <= c <= 0x46 {
        Some((c - 0x41 + 10) as u32)
    } else {
        None
    }
}

/// The value of a run of hexadecimal digits.
pub open spec fn hex_value(digits: Seq<u8>) -> int
    decreases digits.len(),
{
    if digits.len() == 0 {
        0
    } else {
        hex_value(digits.drop_last()) * 16 + match hex_digit_spec(digits.last()) {
            Some(d) => d as int,
            None => 0,
        }
    }
}

/// Whether every byte is a hexadecimal digit.
pub open spec fn all_hex(s: Seq<u8>) -> bool {
    forall|i: int| 0 <= i < s.len() ==> (#[trigger] hex_digit_spec(s[i])) is Some
}

/// The number of a hexadecimal string with an optional `0x` prefix: after
/// the prefix, an optional `+` and at least one hexadecimal digit, with a
/// value that fits in 32 bits.
pub open spec fn parse_hex_spec(s: Seq<u8>) -> Option<u32> {
    let body = if s.len() >= 2 && s[0] == 0x30 && s[1] == 0x78 { s.subrange(2, s.len() as int) } else { s };
    let digits = if body.len() > 0 && body[0] == 0x2b { body.drop_first() } else { body };
    if digits.len() > 0 && all_hex(digits) && hex_value(digits) <= 0xffff_ffff {
        Some(hex_value(digits) as u32)
    } else {
        None
    }
}

/// The value of a hexadecimal digit.
fn hex_digit(c: u8) -> (r: Option<u32>)
    ensures
        r == hex_digit_spec(c),
{
    if 0x30 <= c && c <= 0x39 {
        Some((c - 0x30) as u32)
    } else if 0x61 <= c && c <= 0x66 {
        Some((c - 0x61 + 10) as u32)
    } else if 0x41 <= c && c <= 0x46 {
        Some((c - 0x41 + 10) as u32)
    } else {
        None
    }
}

/// The value of a run of hex digits is not negative, and a longer run has
/// a value at least that of its prefix.
proof fn lemma_hex_value_grows(digits: Seq<u8>, n: int)
    requires
        0 <= n <= digits.len(),
    ensures
        0 <= hex_value(digits.subrange(0, n)) <= hex_value(digits),
    decreases digits.len() - n,
{
    if n < digits.len() {
        let next = digits.subrange(0, n + 1);
        assert(next.drop_last() =~= digits.subrange(0, n));
        lemma_hex_value_grows(digits, n + 1);
    } else {
        assert(digits.subrange(0, n) =~= digits);
        lemma_hex_value_nonneg(digits);
    }
}

/// The value of a run of hex digits is not negative.
proof fn lemma_hex_value_nonneg(digits: Seq<u8>)
    ensures
        0 <= hex_value(digits),
    decreases digits.len(),
{
    if digits.len() > 0 {
        lemma_hex_value_nonneg(digits.drop_last());
    }
}

/// The text of an instruction word as the disassembler shows it, with `pc`
/// the address after the instruction (where branches count from).
pub uninterp spec fn disassembly(instruction: u32, pc: u32) -> Seq<char>;


/// A digit of lower-case hexadecimal.
pub open spec fn hex_char(d: nat) -> char {
    if d < 10 {
        (48 + d) as char
    } else {
        (87 + d) as char
    }
}

/// `n` in lower-case hexadecimal, without leading zeros ("0" for 0).
pub open spec fn hex_text(n: nat) -> Seq<char>
    decreases n,
{
    if n < 16 {
        seq![hex_char(n)]
    } else {
        hex_text(n / 16) + seq![hex_char(n % 16)]
    }
}

/// What the disassembler adds to an instruction's text from the registers:
/// for a conditional branch (BLTZ/BGEZ, BEQ, BNE, BLEZ, BGTZ, the last two
/// comparing the register as unsigned with 0) a tab and "(taken)" or "(not
/// taken)"; for a load or store a tab and the address it reaches, in
/// parentheses and lower-case hexadecimal; for anything else nothing.
pub open spec fn context_suffix(instruction: u32, registers: Seq<u32>) -> Seq<char> {
    let op = instruction >> 26u32;
    let s = registers[f_rs(instruction)];
    let t = registers[((instruction >> 16u32) & 0x1f) as int];
    let offset = if instruction & 0xffff >= 0x8000 { (instruction & 0xffff) - 0x10000 } else { (instruction & 0xffff) as int };
    let taken = if op == 1 {
        if (instruction >> 16u32) & 1 == 0 { as_signed(s) < 0 } else { as_signed(s) >= 0 }
    } else if op == 4 {
        s == t
    } else if op == 5 {
        s != t
    } else if op == 6 {
        s == 0
    } else {
        s != 0
    };
    if op == 1 || (4 <= op <= 7) {
        if taken { seq!['\t', '(', 't', 'a', 'k', 'e', 'n', ')'] } else {
            seq!['\t', '(', 'n', 'o', 't', ' ', 't', 'a', 'k', 'e', 'n', ')']
        }
    } else if is_memory_opcode(op) {
        seq!['\t', '('] + hex_text(((as_signed(s) + offset) % 0x1_0000_0000) as nat) + seq![')']
    } else {
        Seq::empty()
    }
}

/// Whether an opcode is a load or store, of a register or of the GTE.
pub open spec fn is_memory_opcode(op: u32) -> bool {
    (0x20 <= op <= 0x26) || (0x28 <= op <= 0x2e) || op == 0x32 || op == 0x3a
}

/// A register read as a signed 32-bit number.
pub open spec fn as_signed(v: u32) -> int {
    if v >= 0x8000_0000 { v - 0x1_0000_0000 } else { v as int }
}

/// Whether the address of a load or store, the base register read as signed
/// plus the signed offset, fits in a signed 32-bit number; other
/// instructions have no address.
pub open spec fn context_fits(instruction: u32, registers: Seq<u32>) -> bool {
    let offset = if instruction & 0xffff >= 0x8000 { (instruction & 0xffff) - 0x10000 } else { (instruction & 0xffff) as int };
    is_memory_opcode(instruction >> 26u32) ==> -0x8000_0000 <= as_signed(registers[f_rs(instruction)]) + offset
        <= 0x7fff_ffff
}

/// `psdisasm::Disassembler::disassemble`, with the readable output that the
/// disassembler's default gives: its text is `disassembly` of the word and
/// the address after it.
#[verifier::external_body]
fn disassemble(instruction: u32, pc: u32) -> (r: String)
    ensures
        r@ == disassembly(instruction, pc),
{
    psdisasm::Disassembler { pretty: true }.disassemble(instruction, pc)
}

/// `psdisasm::Disassembler::disassemble_with_context`, with the readable
/// output: its text is that of `disassemble` for the word and `pc`,
/// followed by `context_suffix` of the word and the registers. It adds
/// the base register to the offset of a load or store in 32-bit signed
/// arithmetic, so it is called only where that fits.
#[verifier::external_body]
fn disassemble_with_context(instruction: u32, pc: u32, registers: &[u32; 32]) -> (r: String)
    requires
        context_fits(instruction, registers@),
    ensures
        r@ == disassembly(instruction, pc) + context_suffix(instruction, registers@),
{
    psdisasm::Disassembler { pretty: true }.disassemble_with_context(instruction, pc, registers)
}

/// The disassembly of an instruction word with what the registers say of
/// it, as the debugger shows the next instruction; `None` where the address
/// of a load or store overflows signed 32-bit arithmetic.
pub fn disassemble_in_context(instruction: u32, pc: u32, registers: &[u32; 32]) -> (r: Option<String>)
    ensures
        context_fits(instruction, registers@) ==> (r matches Some(text) && text@ == disassembly(instruction, pc)
            + context_suffix(instruction, registers@)),
        !context_fits(instruction, registers@) ==> r is None,
{
    let op = instruction >> 26u32;
    if (0x20 <= op && op <= 0x26) || (0x28 <= op && op <= 0x2e) || op == 0x32 || op == 0x3a {
        let rs = ((instruction >> 21u32) & 0x1f) as usize;
        proof {
            crate::bits::lemma_field_le(instruction, 21, 0x1f);
        }
        let base = registers[rs] as i64;
        let base: i64 = if base >= 0x8000_0000 { base - 0x1_0000_0000 } else { base };
        let imm = (instruction & 0xffff) as i64;
        let offset: i64 = if imm >= 0x8000 { imm - 0x10000 } else { imm };
        let address = base + offset;
        if address < -0x8000_0000 || address > 0x7fff_ffff {
            return None;
        }
    }
    Some(disassemble_with_context(instruction, pc, registers))
}

/// One more digit: the run up to `i + 1` is all digits, and its value is
/// sixteen times that of the run up to `i`, plus the digit.
proof fn lemma_hex_step(s: Seq<u8>, start: int, i: int, d: u32)
    requires
        0 <= start <= i < s.len(),
        all_hex(s.subrange(start, i)),
        hex_digit_spec(s[i]) == Some(d),
    ensures
        all_hex(s.subrange(start, i + 1)),
        hex_value(s.subrange(start, i + 1)) == hex_value(s.subrange(start, i)) * 16 + d,
{
    let next = s.subrange(start, i + 1);
    assert(next.drop_last() =~= s.subrange(start, i));
    assert(next.last() == s[i]);
    assert forall|k: int| 0 <= k < next.len() implies (#[trigger] hex_digit_spec(next[k])) is Some by {
        if k < next.len() - 1 {
            assert(next[k] == s.subrange(start, i)[k]);
        }
    }
}

/// Parses a hexadecimal address, with or without a `0x` prefix.
pub fn parse_hex(s: &[u8]) -> (r: Option<u32>)
    ensures
        r == parse_hex_spec(s@),
{
    let prefix: usize = if s.len() >= 2 && s[0] == 0x30 && s[1] == 0x78 { 2 } else { 0 };
    let sign: usize = if s.len() > prefix && s[prefix] == 0x2b { 1 } else { 0 };
    let start = prefix + sign;
    let ghost body = if s@.len() >= 2 && s@[0] == 0x30 && s@[1] == 0x78 { s@.subrange(2, s@.len() as int) } else { s@ };
    let ghost digits = if body.len() > 0 && body[0] == 0x2b { body.drop_first() } else { body };
    assert(digits =~= s@.subrange(start as int, s@.len() as int));
    if start >= s.len() {
        return None;
    }
    let mut value: u64 = 0;
    let mut i = start;
    while i < s.len()
        invariant
            start <= i <= s@.len(),
            digits == s@.subrange(start as int, s@.len() as int),
            body == (if s@.len() >= 2 && s@[0] == 0x30 && s@[1] == 0x78 { s@.subrange(2, s@.len() as int) } else { s@ }),
            digits == (if body.len() > 0 && body[0] == 0x2b { body.drop_first() } else { body }),
            all_hex(s@.subrange(start as int, i as int)),
            value == hex_value(s@.subrange(start as int, i as int)),
            value <= 0xffff_ffff,
        decreases s@.len() - i,
    {
        let d = match hex_digit(s[i]) {
            None => {
                assert(hex_digit_spec(digits[i - start]) is None);
                assert(!all_hex(digits));
                return None;
            },
            Some(d) => d,
        };
        proof {
            lemma_hex_step(s@, start as int, i as int, d);
        }
        value = value * 16 + d as u64;
        i = i + 1;
        if value > 0xffff_ffff {
            proof {
                lemma_hex_value_grows(digits, i - start);
                assert(digits.subrange(0, i - start) =~= s@.subrange(start as int, i as int));
            }
            return None;
        }
    }
    assert(s@.subrange(start as int, i as int) =~= digits);
    Some(value as u32)
}

/// The debugger's state: the steps left before it is entered, the three
/// lists of breakpoints, the next breakpoint number and whether the user
/// asked to stop.
pub struct Debugger {
    pub steps: usize,
    pub exec_breakpoints: HashMap<u32, Breakpoint>,
    pub read_breakpoints: HashMap<u32, Breakpoint>,
    pub write_breakpoints: HashMap<u32, Breakpoint>,
    pub breakpoint_index: usize,
    pub triggered: bool,
}

/// The result of a command: `None` to run on, `Some(false)` to stay in the
/// debugger, `Some(true)` to quit; with what to show.
pub struct CommandOutcome {
    pub result: Option<bool>,
    pub output: Vec<DebuggerOutput>,
}

impl Debugger {
    /// A debugger with no breakpoint and no step pending.
    pub fn new() -> (r: Debugger)
        ensures
            r.steps == 0,
            r.exec_breakpoints@ == Map::<u32, Breakpoint>::empty(),
            r.read_breakpoints@ == Map::<u32, Breakpoint>::empty(),
            r.write_breakpoints@ == Map::<u32, Breakpoint>::empty(),
            r.breakpoint_index == 0,
            !r.triggered,
    {
        Debugger {
            steps: 0,
            exec_breakpoints: HashMap::new(),
            read_breakpoints: HashMap::new(),
            write_breakpoints: HashMap::new(),
            breakpoint_index: 0,
            triggered: false,
        }
    }

    /// Whether execution stops at `address`.
    pub fn has_breakpoint(&self, address: u32) -> (r: bool)
        ensures
            r == self.exec_breakpoints@.contains_key(address),
    {
        self.exec_breakpoints.contains_key(&address)
    }

    /// Steps by one instruction, or, when `ins` at `pc` calls a function,
    /// runs to the instruction after the call's delay slot.
    pub fn next_step(&mut self, ins: u32, pc: u32)
        ensures
            is_call_spec(ins) ==> final(self).steps == 0 && final(self).exec_breakpoints@
                == old(self).exec_breakpoints@.insert(
                vstd::wrapping::u32_specs::wrapping_add(pc, 8),
                temporary_breakpoint(),
            ),
            !is_call_spec(ins) ==> final(self).steps == 1 && final(self).exec_breakpoints@
                == old(self).exec_breakpoints@,
            final(self).read_breakpoints@ == old(self).read_breakpoints@,
            final(self).write_breakpoints@ == old(self).write_breakpoints@,
            final(self).breakpoint_index == old(self).breakpoint_index,
            final(self).triggered == old(self).triggered,
    {
        if is_call(ins) {
            self.steps = 0;
            let next_pc = pc.wrapping_add(8);
            self.exec_breakpoints.insert(next_pc, Breakpoint { temporary: true, index: 0 });
        } else {
            self.steps = 1;
        }
    }

    /// Why the debugger should be entered before the next instruction, if
    /// it should: the last of the steps, a stop the user asked for, a
    /// breakpoint at the PC, or one on the address the last load or store
    /// used. A temporary breakpoint is removed when hit.
    pub fn break_reason<D: Devices>(&mut self, cpu: &Cpu<D>) -> (r: Option<BreakReason>)
        ensures
            final(self).steps == (if old(self).steps > 0 { old(self).steps - 1 } else { 0 }),
            final(self).breakpoint_index == old(self).breakpoint_index,
            old(self).steps == 1 ==> r == Some(BreakReason::Step) && final(self).triggered == old(self).triggered
                && final(self).exec_breakpoints@ == old(self).exec_breakpoints@
                && final(self).read_breakpoints@ == old(self).read_breakpoints@
                && final(self).write_breakpoints@ == old(self).write_breakpoints@,
            old(self).steps != 1 && old(self).triggered ==> r == Some(BreakReason::CtrlC) && !final(self).triggered
                && final(self).exec_breakpoints@ == old(self).exec_breakpoints@
                && final(self).read_breakpoints@ == old(self).read_breakpoints@
                && final(self).write_breakpoints@ == old(self).write_breakpoints@,
            old(self).steps != 1 && !old(self).triggered ==> !final(self).triggered && ({
                let pc = cpu.pc;
                let (kind, addr) = cpu.last_memory_operation;
                if old(self).exec_breakpoints@.contains_key(pc) {
                    let temp = old(self).exec_breakpoints@[pc].temporary;
                    &&& r == Some(BreakReason::PCBreakpoint(pc, temp))
                    &&& final(self).exec_breakpoints@ == (if temp { old(self).exec_breakpoints@.remove(pc) } else {
                        old(self).exec_breakpoints@
                    })
                    &&& final(self).read_breakpoints@ == old(self).read_breakpoints@
                    &&& final(self).write_breakpoints@ == old(self).write_breakpoints@
                } else if kind == AccessType::Read && old(self).read_breakpoints@.contains_key(addr) {
                    let temp = old(self).read_breakpoints@[addr].temporary;
                    &&& r == Some(BreakReason::ReadBreakpoint(addr, temp))
                    &&& final(self).read_breakpoints@ == (if temp { old(self).read_breakpoints@.remove(addr) } else {
                        old(self).read_breakpoints@
                    })
                    &&& final(self).exec_breakpoints@ == old(self).exec_breakpoints@
                    &&& final(self).write_breakpoints@ == old(self).write_breakpoints@
                } else if kind == AccessType::Write && old(self).write_breakpoints@.contains_key(addr) {
                    let temp = old(self).write_breakpoints@[addr].temporary;
                    &&& r == Some(BreakReason::WriteBreakpoint(addr, temp))
                    &&& final(self).write_breakpoints@ == (if temp { old(self).write_breakpoints@.remove(addr) } else {
                        old(self).write_breakpoints@
                    })
                    &&& final(self).exec_breakpoints@ == old(self).exec_breakpoints@
                    &&& final(self).read_breakpoints@ == old(self).read_breakpoints@
                } else {
                    &&& r is None
                    &&& final(self).exec_breakpoints@ == old(self).exec_breakpoints@
                    &&& final(self).read_breakpoints@ == old(self).read_breakpoints@
                    &&& final(self).write_breakpoints@ == old(self).write_breakpoints@
                }
            }),
    {
        if self.steps > 0 {
            self.steps = self.steps - 1;
            if self.steps == 0 {
                return Some(BreakReason::Step);
            }
        }
        if self.triggered {
            self.triggered = false;
            return Some(BreakReason::CtrlC);
        }
        let pc = cpu.pc;
        if self.has_breakpoint(pc) {
            let temp = match self.exec_breakpoints.get(&pc) {
                Some(bp) => bp.temporary,
                None => false,
            };
            if temp {
                self.exec_breakpoints.remove(&pc);
            }
            return Some(BreakReason::PCBreakpoint(pc, temp));
        }
        let (kind, addr) = cpu.last_memory_operation;
        if kind == AccessType::Read {
            let hit = match self.read_breakpoints.get(&addr) {
                Some(bp) => Some(bp.temporary),
                None => None,
            };
            if let Some(temp) = hit {
                if temp {
                    self.read_breakpoints.remove(&addr);
                }
                return Some(BreakReason::ReadBreakpoint(addr, temp));
            }
        } else if kind == AccessType::Write {
            let hit = match self.write_breakpoints.get(&addr) {
                Some(bp) => Some(bp.temporary),
                None => None,
            };
            if let Some(temp) = hit {
                if temp {
                    self.write_breakpoints.remove(&addr);
                }
                return Some(BreakReason::WriteBreakpoint(addr, temp));
            }
        }
        None
    }

    /// Adds a breakpoint; a temporary one takes the next number, others
    /// number 0. A breakpoint cannot watch both reads and writes.
    pub fn add_breakpoint(&mut self, address: u32, read: bool, write: bool, temporary: bool) -> (r: DebuggerOutput)
        requires
            temporary && !(read && write) ==> old(self).breakpoint_index < usize::MAX,
        ensures
            final(self).steps == old(self).steps,
            final(self).triggered == old(self).triggered,
            read && write ==> r is BothReadAndWrite && final(self).breakpoint_index == old(self).breakpoint_index
                && final(self).exec_breakpoints@ == old(self).exec_breakpoints@
                && final(self).read_breakpoints@ == old(self).read_breakpoints@
                && final(self).write_breakpoints@ == old(self).write_breakpoints@,
            !(read && write) ==> ({
                let bp = Breakpoint { temporary, index: if temporary { old(self).breakpoint_index } else { 0 } };
                &&& final(self).breakpoint_index == old(self).breakpoint_index + (if temporary { 1int } else { 0 })
                &&& read ==> r == DebuggerOutput::BreakpointAdded(BreakpointKind::Read, address)
                    && final(self).read_breakpoints@ == old(self).read_breakpoints@.insert(address, bp)
                    && final(self).exec_breakpoints@ == old(self).exec_breakpoints@
                    && final(self).write_breakpoints@ == old(self).write_breakpoints@
                &&& write ==> r == DebuggerOutput::BreakpointAdded(BreakpointKind::Write, address)
                    && final(self).write_breakpoints@ == old(self).write_breakpoints@.insert(address, bp)
                    && final(self).exec_breakpoints@ == old(self).exec_breakpoints@
                    && final(self).read_breakpoints@ == old(self).read_breakpoints@
                &&& !read && !write ==> r == DebuggerOutput::BreakpointAdded(BreakpointKind::Execute, address)
                    && final(self).exec_breakpoints@ == old(self).exec_breakpoints@.insert(address, bp)
                    && final(self).read_breakpoints@ == old(self).read_breakpoints@
                    && final(self).write_breakpoints@ == old(self).write_breakpoints@
            }),
    {
        if read && write {
            return DebuggerOutput::BothReadAndWrite;
        }
        let index = if temporary {
            self.breakpoint_index = self.breakpoint_index + 1;
            self.breakpoint_index - 1
        } else {
            0
        };
        let bp = Breakpoint { temporary, index };
        if read {
            self.read_breakpoints.insert(address, bp);
            DebuggerOutput::BreakpointAdded(BreakpointKind::Read, address)
        } else if write {
            self.write_breakpoints.insert(address, bp);
            DebuggerOutput::BreakpointAdded(BreakpointKind::Write, address)
        } else {
            self.exec_breakpoints.insert(address, bp);
            DebuggerOutput::BreakpointAdded(BreakpointKind::Execute, address)
        }
    }

    /// Removes a breakpoint numbered `index`: one of the execute
    /// breakpoints if any has that number, else one of the read
    /// breakpoints, else one of the write breakpoints.
    pub fn remove_breakpoint(&mut self, index: usize) -> (r: DebuggerOutput)
        ensures
            final(self).steps == old(self).steps,
            final(self).triggered == old(self).triggered,
            final(self).breakpoint_index == old(self).breakpoint_index,
            ({
                let e = old(self).exec_breakpoints@;
                let rd = old(self).read_breakpoints@;
                let w = old(self).write_breakpoints@;
                if exists|a: u32| #[trigger] e.contains_key(a) && e[a].index == index {
                    &&& r == DebuggerOutput::BreakpointRemoved(BreakpointKind::Execute, index)
                    &&& exists|a: u32| #[trigger] e.contains_key(a) && e[a].index == index && final(self).exec_breakpoints@ == e.remove(a)
                    &&& final(self).read_breakpoints@ == rd
                    &&& final(self).write_breakpoints@ == w
                } else if exists|a: u32| #[trigger] rd.contains_key(a) && rd[a].index == index {
                    &&& r == DebuggerOutput::BreakpointRemoved(BreakpointKind::Read, index)
                    &&& exists|a: u32| #[trigger] rd.contains_key(a) && rd[a].index == index && final(self).read_breakpoints@ == rd.remove(a)
                    &&& final(self).exec_breakpoints@ == e
                    &&& final(self).write_breakpoints@ == w
                } else if exists|a: u32| #[trigger] w.contains_key(a) && w[a].index == index {
                    &&& r == DebuggerOutput::BreakpointRemoved(BreakpointKind::Write, index)
                    &&& exists|a: u32| #[trigger] w.contains_key(a) && w[a].index == index && final(self).write_breakpoints@ == w.remove(a)
                    &&& final(self).exec_breakpoints@ == e
                    &&& final(self).read_breakpoints@ == rd
                } else {
                    &&& r == DebuggerOutput::NoBreakpoint(index)
                    &&& final(self).exec_breakpoints@ == e
                    &&& final(self).read_breakpoints@ == rd
                    &&& final(self).write_breakpoints@ == w
                }
            }),
    {
        if let Some(address) = find_breakpoint(&self.exec_breakpoints, index) {
            self.exec_breakpoints.remove(&address);
            return DebuggerOutput::BreakpointRemoved(BreakpointKind::Execute, index);
        }
        if let Some(address) = find_breakpoint(&self.read_breakpoints, index) {
            self.read_breakpoints.remove(&address);
            return DebuggerOutput::BreakpointRemoved(BreakpointKind::Read, index);
        }
        if let Some(address) = find_breakpoint(&self.write_breakpoints, index) {
            self.write_breakpoints.remove(&address);
            return DebuggerOutput::BreakpointRemoved(BreakpointKind::Write, index);
        }
        DebuggerOutput::NoBreakpoint(index)
    }

    /// Runs a command: sets the steps or breakpoints, sets the PC, or reads
    /// and writes memory, and says what to show and whether to run on
    /// (`None`), stay (`Some(false)`) or quit (`Some(true)`).
    pub fn handle_command<D: Devices>(&mut self, command: DebuggerCommand, cpu: &mut Cpu<D>) -> (r: CommandOutcome)
        requires
            old(cpu).wf(),
            command matches DebuggerCommand::Breakpoint { command: BreakpointCommand::Add { read, write, temporary, .. } }
                ==> (temporary && !(read && write) ==> old(self).breakpoint_index < usize::MAX),
            command matches DebuggerCommand::Disasm { address, count } ==> count == 0 || (match address {
                Some(a) => a,
                None => old(cpu).pc,
            }) + 4 * (count - 1) <= u32::MAX,
        ensures
            final(cpu).wf(),
            final(cpu).registers == old(cpu).registers,
            final(self).triggered == old(self).triggered,
            match command {
                DebuggerCommand::Quit => r.result == Some(true) && r.output@.len() == 0 && self_unchanged(
                    *old(self),
                    *final(self),
                ) && *final(cpu) == *old(cpu),
                DebuggerCommand::Step { steps } => r.result is None && r.output@.len() == 0 && final(self).steps == steps
                    && breakpoints_unchanged(*old(self), *final(self)) && *final(cpu) == *old(cpu),
                DebuggerCommand::Next => final(cpu).pc == old(cpu).pc && final(self).read_breakpoints@
                    == old(self).read_breakpoints@ && final(self).write_breakpoints@ == old(self).write_breakpoints@
                    && final(self).breakpoint_index == old(self).breakpoint_index && (
                if r.result is None {
                    r.output@.len() == 0 && ((final(self).steps == 1 && final(self).exec_breakpoints@
                        == old(self).exec_breakpoints@) || (final(self).steps == 0 && final(self).exec_breakpoints@
                        == old(self).exec_breakpoints@.insert(
                        vstd::wrapping::u32_specs::wrapping_add(old(cpu).pc, 8),
                        temporary_breakpoint(),
                    )))
                } else {
                    r.result == Some(false) && r.output@.len() == 1 && r.output@[0] == DebuggerOutput::InstructionUnreadable(
                        old(cpu).pc,
                    ) && self_unchanged(*old(self), *final(self))
                }),
                DebuggerCommand::Continue => r.result is None && r.output@.len() == 0 && final(self).steps == 0
                    && breakpoints_unchanged(*old(self), *final(self)) && *final(cpu) == *old(cpu),
                DebuggerCommand::Until { address } => r.result is None && r.output@.len() == 0 && final(self).steps == 0
                    && final(self).exec_breakpoints@ == old(self).exec_breakpoints@.insert(address, temporary_breakpoint())
                    && final(self).read_breakpoints@ == old(self).read_breakpoints@
                    && final(self).write_breakpoints@ == old(self).write_breakpoints@
                    && final(self).breakpoint_index == old(self).breakpoint_index && *final(cpu) == *old(cpu),
                DebuggerCommand::Registers { module } => r.result == Some(false) && r.output@ == seq![
                    DebuggerOutput::ShowRegisters(module),
                ] && self_unchanged(*old(self), *final(self)) && *final(cpu) == *old(cpu),
                DebuggerCommand::Breakpoint { command: BreakpointCommand::Add { .. } } => r.result == Some(false)
                    && r.output@.len() == 1 && final(self).steps == old(self).steps && *final(cpu) == *old(cpu),
                DebuggerCommand::Breakpoint { command: BreakpointCommand::List } => r.result == Some(false)
                    && r.output@ == seq![DebuggerOutput::ListBreakpoints] && self_unchanged(*old(self), *final(self))
                    && *final(cpu) == *old(cpu),
                DebuggerCommand::Breakpoint { command: BreakpointCommand::Remove { .. } } => r.result == Some(false)
                    && r.output@.len() == 1 && final(self).steps == old(self).steps
                    && final(self).breakpoint_index == old(self).breakpoint_index && *final(cpu) == *old(cpu),
                DebuggerCommand::Jump { address } => r.result == Some(false) && r.output@ == seq![
                    DebuggerOutput::Jumped(address),
                ] && self_unchanged(*old(self), *final(self)) && *final(cpu) == (Cpu { pc: address, ..*old(cpu) }),
                DebuggerCommand::Disasm { address, count } => r.result == Some(false) && r.output@.len() == 1
                    && self_unchanged(*old(self), *final(self)) && final(cpu).pc == old(cpu).pc && ({
                    let start = match address {
                        Some(a) => a,
                        None => old(cpu).pc,
                    };
                    &&& r.output@[0] matches DebuggerOutput::Disassembly(words)
                    &&& words@.len() == count
                    &&& forall|i: int| 0 <= i < count ==> (#[trigger] words@[i]).0 == start + 4 * i
                    &&& forall|i: int|
                        0 <= i < count ==> ((#[trigger] words@[i]).1 matches Some((word, text)) ==> text@
                            == disassembly(word, vstd::wrapping::u32_specs::wrapping_add(words@[i].0, 4)))
                    &&& forall|i: int|
                        0 <= i < count && old(cpu).ram_readable((#[trigger] words@[i]).0, AccessSize::Word)
                            ==> (words@[i].1 matches Some((word, _)) && word == old(cpu).ram_value(
                            words@[i].0,
                            AccessSize::Word,
                        ))
                }),
                DebuggerCommand::ReadMemory { address, count, format, size } => r.result == Some(false)
                    && r.output@.len() == 1 && self_unchanged(*old(self), *final(self)) && final(cpu).pc == old(cpu).pc
                    && ({
                    let unit = if size == 1 || size == 2 || size == 4 { size } else { 4 };
                    &&& r.output@[0] matches DebuggerOutput::Memory(values, s, f)
                    &&& f == format && s == command_unit(size) && size_bytes(s) == unit && values@.len() == count
                    &&& forall|i: int|
                        0 <= i < count ==> (#[trigger] values@[i]).0 == (address + unit * i) % 0x1_0000_0000
                    &&& forall|i: int|
                        0 <= i < count && old(cpu).ram_readable((#[trigger] values@[i]).0, s) ==> values@[i].1
                            == Some(old(cpu).ram_value(values@[i].0, s))
                }),
                DebuggerCommand::WriteMemory { address, value, size } => r.result == Some(false)
                    && r.output@.len() == 2 && r.output@[0] == DebuggerOutput::WritingMemory(address, value, size)
                    && self_unchanged(*old(self), *final(self)) && final(cpu).pc == old(cpu).pc && ({
                    let unit = command_unit(size);
                    &&& r.output@[1] matches DebuggerOutput::MemoryWritten(v, a, written)
                    &&& v == value && a == address
                    &&& old(cpu).ram_writable(address, value, unit) ==> written
                        && final(cpu).bus.ram.bytes() == old(cpu).ram_after_write(address, value, unit)
                    &&& !crate::memory::is_aligned(address, unit) ==> !written && final(cpu).bus == old(cpu).bus
                }),
                DebuggerCommand::DumpRam { file } => r.result == Some(false) && r.output@.len() == 1 && (
                r.output@[0] matches DebuggerOutput::DumpRam(f, bytes) && f == file && bytes@ == old(
                    cpu,
                ).bus.ram.bytes()) && self_unchanged(*old(self), *final(self)) && *final(cpu) == *old(cpu),
                DebuggerCommand::DumpVram { file, raw } => r.result == Some(false) && r.output@ == seq![
                    DebuggerOutput::DumpVram(file, raw),
                ] && self_unchanged(*old(self), *final(self)) && *final(cpu) == *old(cpu),
            },
    {
        match command {
            DebuggerCommand::Quit => CommandOutcome { result: Some(true), output: Vec::new() },
            DebuggerCommand::Step { steps } => {
                self.steps = steps;
                CommandOutcome { result: None, output: Vec::new() }
            },
            DebuggerCommand::Next => {
                let pc = cpu.pc;
                match cpu.read_memory(pc, AccessSize::Word) {
                    Ok(ins) => {
                        self.next_step(ins, pc);
                        CommandOutcome { result: None, output: Vec::new() }
                    },
                    Err(_) => CommandOutcome {
                        result: Some(false),
                        output: vec![DebuggerOutput::InstructionUnreadable(pc)],
                    },
                }
            },
            DebuggerCommand::Continue => {
                self.steps = 0;
                CommandOutcome { result: None, output: Vec::new() }
            },
            DebuggerCommand::Until { address } => {
                self.exec_breakpoints.insert(address, Breakpoint { temporary: true, index: 0 });
                self.steps = 0;
                CommandOutcome { result: None, output: Vec::new() }
            },
            DebuggerCommand::Registers { module } => CommandOutcome {
                result: Some(false),
                output: vec![DebuggerOutput::ShowRegisters(module)],
            },
            DebuggerCommand::Breakpoint { command } => {
                let out = match command {
                    BreakpointCommand::Add { address, read, write, temporary } => self.add_breakpoint(
                        address,
                        read,
                        write,
                        temporary,
                    ),
                    BreakpointCommand::List => DebuggerOutput::ListBreakpoints,
                    BreakpointCommand::Remove { index } => self.remove_breakpoint(index),
                };
                CommandOutcome { result: Some(false), output: vec![out] }
            },
            DebuggerCommand::Jump { address } => {
                cpu.pc = address;
                CommandOutcome { result: Some(false), output: vec![DebuggerOutput::Jumped(address)] }
            },
            DebuggerCommand::Disasm { address, count } => {
                let start = match address {
                    Some(a) => a,
                    None => cpu.pc,
                };
                let words = disassemble_words(cpu, start, count);
                CommandOutcome { result: Some(false), output: vec![DebuggerOutput::Disassembly(words)] }
            },
            DebuggerCommand::ReadMemory { address, count, format, size } => {
                let unit = match AccessSize::from_bytes(size) {
                    Ok(s) => s,
                    Err(_) => AccessSize::Word,
                };
                let values = read_units(cpu, address, count, unit);
                CommandOutcome { result: Some(false), output: vec![DebuggerOutput::Memory(values, unit, format)] }
            },
            DebuggerCommand::WriteMemory { address, value, size } => {
                let unit = match AccessSize::from_bytes(size) {
                    Ok(s) => s,
                    Err(_) => AccessSize::Word,
                };
                let ok = cpu.write_memory(address, value, unit).is_ok();
                CommandOutcome {
                    result: Some(false),
                    output: vec![
                        DebuggerOutput::WritingMemory(address, value, size),
                        DebuggerOutput::MemoryWritten(value, address, ok),
                    ],
                }
            },
            DebuggerCommand::DumpRam { file } => {
                let bytes = ram_contents(cpu);
                CommandOutcome { result: Some(false), output: vec![DebuggerOutput::DumpRam(file, bytes)] }
            },
            DebuggerCommand::DumpVram { file, raw } => CommandOutcome {
                result: Some(false),
                output: vec![DebuggerOutput::DumpVram(file, raw)],
            },
        }
    }
}

/// The access size of a memory command of `size` bytes: a word where the
/// size is not 1, 2 or 4.
pub open spec fn command_unit(size: usize) -> AccessSize {
    if size == 1 {
        AccessSize::Byte
    } else if size == 2 {
        AccessSize::HalfWord
    } else {
        AccessSize::Word
    }
}

/// Nothing of the debugger's state changed.
pub open spec fn self_unchanged(a: Debugger, b: Debugger) -> bool {
    &&& a.steps == b.steps
    &&& breakpoints_unchanged(a, b)
}

/// The breakpoints and their numbering did not change.
pub open spec fn breakpoints_unchanged(a: Debugger, b: Debugger) -> bool {
    &&& a.exec_breakpoints@ == b.exec_breakpoints@
    &&& a.read_breakpoints@ == b.read_breakpoints@
    &&& a.write_breakpoints@ == b.write_breakpoints@
    &&& a.breakpoint_index == b.breakpoint_index
}

/// Reads `count` words from `start` on and disassembles each, as at the
/// address after it.
fn disassemble_words<D: Devices>(cpu: &mut Cpu<D>, start: u32, count: usize) -> (r: Vec<(u32, Option<(u32, String)>)>)
    requires
        old(cpu).wf(),
        count == 0 || start + 4 * (count - 1) <= u32::MAX,
    ensures
        final(cpu).wf(),
        final(cpu).registers == old(cpu).registers,
        final(cpu).pc == old(cpu).pc,
        r@.len() == count,
        forall|i: int| 0 <= i < count ==> (#[trigger] r@[i]).0 == start + 4 * i,
        forall|i: int|
            0 <= i < count ==> ((#[trigger] r@[i]).1 matches Some((word, text)) ==> text@ == disassembly(
                word,
                vstd::wrapping::u32_specs::wrapping_add(r@[i].0, 4),
            )),
        forall|i: int|
            0 <= i < count && old(cpu).ram_readable((#[trigger] r@[i]).0, AccessSize::Word) ==> (r@[i].1 matches Some(
                (word, _),
            ) && word == old(cpu).ram_value(r@[i].0, AccessSize::Word)),
{
    let mut words: Vec<(u32, Option<(u32, String)>)> = Vec::new();
    let mut i: usize = 0;
    while i < count
        invariant
            cpu.wf(),
            cpu.registers == old(cpu).registers,
            cpu.pc == old(cpu).pc,
            i <= count,
            count == 0 || start + 4 * (count - 1) <= u32::MAX,
            words@.len() == i,
            forall|k: int| 0 <= k < i ==> (#[trigger] words@[k]).0 == start + 4 * k,
            forall|k: int|
                0 <= k < i ==> ((#[trigger] words@[k]).1 matches Some((word, text)) ==> text@ == disassembly(
                    word,
                    vstd::wrapping::u32_specs::wrapping_add(words@[k].0, 4),
                )),
            cpu.bus.ram.bytes() == old(cpu).bus.ram.bytes(),
            cpu.cop0 == old(cpu).cop0,
            forall|k: int|
                0 <= k < i && old(cpu).ram_readable((#[trigger] words@[k]).0, AccessSize::Word) ==> (words@[k].1 matches Some(
                    (word, _),
                ) && word == old(cpu).ram_value(words@[k].0, AccessSize::Word)),
        decreases count - i,
    {
        let addr = start + (i as u32) * 4;
        let entry = match cpu.read_memory(addr, AccessSize::Word) {
            Ok(w) => Some((w, disassemble(w, addr.wrapping_add(4)))),
            Err(_) => None,
        };
        words.push((addr, entry));
        i = i + 1;
    }
    words
}

/// Reads `count` units of `unit` bytes from `address` on, the address
/// wrapping past the top of memory.
fn read_units<D: Devices>(cpu: &mut Cpu<D>, address: u32, count: usize, unit: AccessSize) -> (r: Vec<(u32, Option<u32>)>)
    requires
        old(cpu).wf(),
    ensures
        final(cpu).wf(),
        final(cpu).registers == old(cpu).registers,
        final(cpu).pc == old(cpu).pc,
        r@.len() == count,
        forall|i: int| 0 <= i < count ==> (#[trigger] r@[i]).0 == (address + size_bytes(unit) * i) % 0x1_0000_0000,
        forall|i: int|
            0 <= i < count && old(cpu).ram_readable((#[trigger] r@[i]).0, unit) ==> r@[i].1 == Some(
                old(cpu).ram_value(r@[i].0, unit),
            ),
{
    let mut values: Vec<(u32, Option<u32>)> = Vec::new();
    let mut addr = address;
    let step = unit.bytes();
    let mut i: usize = 0;
    while i < count
        invariant
            cpu.wf(),
            cpu.registers == old(cpu).registers,
            cpu.pc == old(cpu).pc,
            step == size_bytes(unit),
            i <= count,
            values@.len() == i,
            addr == (address + size_bytes(unit) * i) % 0x1_0000_0000,
            forall|k: int| 0 <= k < i ==> (#[trigger] values@[k]).0 == (address + size_bytes(unit) * k) % 0x1_0000_0000,
            cpu.bus.ram.bytes() == old(cpu).bus.ram.bytes(),
            cpu.cop0 == old(cpu).cop0,
            forall|k: int|
                0 <= k < i && old(cpu).ram_readable((#[trigger] values@[k]).0, unit) ==> values@[k].1 == Some(
                    old(cpu).ram_value(values@[k].0, unit),
                ),
        decreases count - i,
    {
        let value = match cpu.read_memory(addr, unit) {
            Ok(v) => Some(v),
            Err(_) => None,
        };
        values.push((addr, value));
        proof {
            vstd::arithmetic::div_mod::lemma_add_mod_noop(address + size_bytes(unit) * i, size_bytes(unit), 0x1_0000_0000);
            vstd::arithmetic::div_mod::lemma_small_mod(size_bytes(unit) as nat, 0x1_0000_0000);
        }
        addr = addr.wrapping_add(step);
        i = i + 1;
    }
    values
}

/// The bytes of the RAM.
fn ram_contents<D: Devices>(cpu: &Cpu<D>) -> (r: Vec<u8>)
    requires
        cpu.wf(),
    ensures
        r@ == cpu.bus.ram.bytes(),
{
    let mut contents: Vec<u8> = Vec::new();
    let mut i: usize = 0;
    while i < RAM_SIZE
        invariant
            cpu.wf(),
            i <= RAM_SIZE,
            contents@ == cpu.bus.ram.bytes().subrange(0, i as int),
        decreases RAM_SIZE - i,
    {
        let byte = cpu.bus.ram.read(i as u32, AccessSize::Byte) as u8;
        contents.push(byte);
        i = i + 1;
        assert(contents@ =~= cpu.bus.ram.bytes().subrange(0, i as int));
    }
    assert(cpu.bus.ram.bytes().subrange(0, RAM_SIZE as int) =~= cpu.bus.ram.bytes());
    contents
}

/// How a debugger shows a value.
#[derive(Debug, Clone, Copy, PartialEq, Eq, Structural)]
pub enum DisplayMode {
    Binary,
    Octal,
    Decimal,
    Hexadecimal,
    Character,
}

/// The bytes of VRAM pixels, each little-endian.
pub fn vram_raw_bytes(vram: &[u16]) -> (r: Vec<u8>)
    requires
        vram@.len() * 2 <= usize::MAX,
    ensures
        r@.len() == 2 * vram@.len(),
        forall|i: int| 0 <= i < vram@.len() ==> #[trigger] r@[2 * i] == vram@[i] as u8 && r@[2 * i + 1] == (vram@[i]
            >> 8u16) as u8,
{
    let mut contents: Vec<u8> = Vec::new();
    let mut i: usize = 0;
    while i < vram.len()
        invariant
            i <= vram@.len(),
            contents@.len() == 2 * i,
            forall|k: int| 0 <= k < i ==> #[trigger] contents@[2 * k] == vram@[k] as u8 && contents@[2 * k + 1] == (
            vram@[k] >> 8u16) as u8,
        decreases vram@.len() - i,
    {
        let half = vram[i];
        let ghost prev = contents@;
        contents.push(half as u8);
        contents.push((half >> 8u16) as u8);
        assert forall|k: int| 0 <= k < i + 1 implies #[trigger] contents@[2 * k] == vram@[k] as u8 && contents@[2 * k
            + 1] == (vram@[k] >> 8u16) as u8 by {
            if k < i {
                assert(contents@[2 * k] == prev[2 * k]);
                assert(contents@[2 * k + 1] == prev[2 * k + 1]);
            }
        }
        i = i + 1;
    }
    contents
}

/// The 8-bit red, green and blue of a 15-bit pixel: each 5-bit field
/// shifted up by 3.
pub open spec fn pixel_rgb(pixel: u16) -> (u8, u8, u8) {
    (
        ((pixel & 0x1f) << 3u16) as u8,
        (((pixel >> 5u16) & 0x1f) << 3u16) as u8,
        (((pixel >> 10u16) & 0x1f) << 3u16) as u8,
    )
}

/// The RGB bytes of VRAM pixels, three per pixel.
pub fn vram_rgb(vram: &[u16]) -> (r: Vec<u8>)
    requires
        vram@.len() * 3 <= usize::MAX,
    ensures
        r@.len() == 3 * vram@.len(),
        forall|i: int| 0 <= i < vram@.len() ==> (#[trigger] r@[3 * i], r@[3 * i + 1], r@[3 * i + 2]) == pixel_rgb(
            vram@[i],
        ),
{
    let mut buf: Vec<u8> = Vec::new();
    let mut i: usize = 0;
    while i < vram.len()
        invariant
            i <= vram@.len(),
            buf@.len() == 3 * i,
            forall|k: int| 0 <= k < i ==> (#[trigger] buf@[3 * k], buf@[3 * k + 1], buf@[3 * k + 2]) == pixel_rgb(
                vram@[k],
            ),
        decreases vram@.len() - i,
    {
        let pixel = vram[i];
        let r = (pixel & 0x1f) << 3u16;
        let g = ((pixel >> 5u16) & 0x1f) << 3u16;
        let b = ((pixel >> 10u16) & 0x1f) << 3u16;
        let ghost prev = buf@;
        buf.push(r as u8);
        buf.push(g as u8);
        buf.push(b as u8);
        assert forall|k: int| 0 <= k < i + 1 implies (#[trigger] buf@[3 * k], buf@[3 * k + 1], buf@[3 * k + 2])
            == pixel_rgb(vram@[k]) by {
            if k < i {
                assert(buf@[3 * k] == prev[3 * k]);
                assert(buf@[3 * k + 1] == prev[3 * k + 1]);
                assert(buf@[3 * k + 2] == prev[3 * k + 2]);
            }
        }
        i = i + 1;
    }
    buf
}

} // verus!
