//! Tests of the debugger's commands, breakpoints and parsing.

use psemu::bus::NoDevices;
use psemu::cpu::{AccessType, Cpu};
use psemu::debugger::{
    disassemble_in_context,
    is_call, parse_hex, vram_raw_bytes, vram_rgb, BreakReason, BreakpointCommand, BreakpointKind, Debugger,
    DebuggerCommand, DebuggerOutput, Registers,
};
use psemu::memory::AccessSize;

#[test]
fn test_parse_hex() {
    assert_eq!(parse_hex(b"0x8001_0000"), None);
    assert_eq!(parse_hex(b"0x80010000"), Some(0x8001_0000));
    assert_eq!(parse_hex(b"bfc00000"), Some(0xbfc0_0000));
    assert_eq!(parse_hex(b"FFFFFFFF"), Some(0xffff_ffff));
    assert_eq!(parse_hex(b"100000000"), None);
    assert_eq!(parse_hex(b"0x"), None);
    assert_eq!(parse_hex(b""), None);
    assert_eq!(parse_hex(b"+1f"), Some(0x1f));
    assert_eq!(parse_hex(b"xyz"), None);
}

#[test]
fn test_is_call() {
    assert!(is_call(0x0c00_0000));
    assert!(is_call(0x0000_f809));
    assert!(is_call(0x0410_0004));
    assert!(is_call(0x0411_0004));
    assert!(!is_call(0x0400_0004));
    assert!(!is_call(0x0800_0000));
    assert!(!is_call(0x0000_0008));
}

#[test]
fn test_breakpoints_add_and_remove() {
    let mut dbg = Debugger::new();
    assert!(matches!(dbg.add_breakpoint(0x8001_0000, false, false, false), DebuggerOutput::BreakpointAdded(BreakpointKind::Execute, 0x8001_0000)));
    assert!(matches!(dbg.add_breakpoint(0x8002_0000, true, false, true), DebuggerOutput::BreakpointAdded(BreakpointKind::Read, 0x8002_0000)));
    assert!(matches!(dbg.add_breakpoint(0x8003_0000, true, true, false), DebuggerOutput::BothReadAndWrite));
    assert!(dbg.has_breakpoint(0x8001_0000));
    assert!(!dbg.has_breakpoint(0x8002_0000));
    assert_eq!(dbg.breakpoint_index, 1);
    assert_eq!(dbg.read_breakpoints[&0x8002_0000].index, 0);
    assert!(matches!(dbg.remove_breakpoint(0), DebuggerOutput::BreakpointRemoved(BreakpointKind::Execute, 0)));
    assert!(matches!(dbg.remove_breakpoint(0), DebuggerOutput::BreakpointRemoved(BreakpointKind::Read, 0)));
    assert!(matches!(dbg.remove_breakpoint(0), DebuggerOutput::NoBreakpoint(0)));
}

#[test]
fn test_break_reason() {
    let mut cpu: Cpu<NoDevices> = Cpu::new();
    cpu.pc = 0x1000;
    let mut dbg = Debugger::new();
    dbg.steps = 2;
    assert_eq!(dbg.break_reason(&cpu), None);
    assert_eq!(dbg.break_reason(&cpu), Some(BreakReason::Step));
    dbg.triggered = true;
    assert_eq!(dbg.break_reason(&cpu), Some(BreakReason::CtrlC));
    assert!(!dbg.triggered);
    dbg.add_breakpoint(0x1000, false, false, true);
    assert_eq!(dbg.break_reason(&cpu), Some(BreakReason::PCBreakpoint(0x1000, true)));
    assert!(!dbg.has_breakpoint(0x1000));
    dbg.add_breakpoint(0x2000, false, true, false);
    cpu.last_memory_operation = (AccessType::Write, 0x2000);
    assert_eq!(dbg.break_reason(&cpu), Some(BreakReason::WriteBreakpoint(0x2000, false)));
    assert_eq!(dbg.break_reason(&cpu), Some(BreakReason::WriteBreakpoint(0x2000, false)));
    cpu.last_memory_operation = (AccessType::Read, 0x2000);
    assert_eq!(dbg.break_reason(&cpu), None);
}

#[test]
fn test_handle_commands() {
    let mut cpu: Cpu<NoDevices> = Cpu::new();
    cpu.pc = 0x1000;
    cpu.write_memory(0x1000, 0x0c00_0400, AccessSize::Word).unwrap();
    let mut dbg = Debugger::new();

    let out = dbg.handle_command(DebuggerCommand::Step { steps: 5 }, &mut cpu);
    assert_eq!(out.result, None);
    assert_eq!(dbg.steps, 5);

    let out = dbg.handle_command(DebuggerCommand::Next, &mut cpu);
    assert_eq!(out.result, None);
    assert_eq!(dbg.steps, 0);
    assert!(dbg.has_breakpoint(0x1008));

    let out = dbg.handle_command(DebuggerCommand::Until { address: 0x3000 }, &mut cpu);
    assert_eq!(out.result, None);
    assert!(dbg.has_breakpoint(0x3000));

    let out = dbg.handle_command(DebuggerCommand::Registers { module: Registers::Gte }, &mut cpu);
    assert_eq!(out.result, Some(false));
    assert!(matches!(out.output[0], DebuggerOutput::ShowRegisters(Registers::Gte)));

    let out = dbg.handle_command(DebuggerCommand::Jump { address: 0x2000 }, &mut cpu);
    assert_eq!(out.result, Some(false));
    assert_eq!(cpu.pc, 0x2000);

    let out = dbg.handle_command(
        DebuggerCommand::WriteMemory { address: 0x100, value: 0xdead_beef, size: 4 },
        &mut cpu,
    );
    assert!(matches!(out.output[1], DebuggerOutput::MemoryWritten(0xdead_beef, 0x100, true)));

    let out = dbg.handle_command(
        DebuggerCommand::ReadMemory { address: 0x100, count: 3, format: "hex".to_string(), size: 2 },
        &mut cpu,
    );
    match &out.output[0] {
        DebuggerOutput::Memory(values, size, format) => {
            assert_eq!(*size, AccessSize::HalfWord);
            assert_eq!(format, "hex");
            assert_eq!(values, &vec![(0x100, Some(0xbeef)), (0x102, Some(0xdead)), (0x104, Some(0))]);
        },
        _ => panic!("unexpected output"),
    }

    let out = dbg.handle_command(DebuggerCommand::Disasm { address: Some(0xfff), count: 2 }, &mut cpu);
    match &out.output[0] {
        DebuggerOutput::Disassembly(words) => {
            assert_eq!(words.len(), 2);
            assert_eq!((words[0].0, words[1].0), (0xfff, 0x1003));
            assert!(words[0].1.is_none() && words[1].1.is_none());
        },
        _ => panic!("unexpected output"),
    }

    let out = dbg.handle_command(DebuggerCommand::Breakpoint { command: BreakpointCommand::List }, &mut cpu);
    assert!(matches!(out.output[0], DebuggerOutput::ListBreakpoints));

    let out = dbg.handle_command(DebuggerCommand::DumpRam { file: "ram.bin".to_string() }, &mut cpu);
    match &out.output[0] {
        DebuggerOutput::DumpRam(file, bytes) => {
            assert_eq!(file, "ram.bin");
            assert_eq!(bytes.len(), 2 * 1024 * 1024);
            assert_eq!(&bytes[0x100..0x104], &[0xef, 0xbe, 0xad, 0xde]);
        },
        _ => panic!("unexpected output"),
    }

    let out = dbg.handle_command(DebuggerCommand::Quit, &mut cpu);
    assert_eq!(out.result, Some(true));
}

#[test]
fn test_vram_dumps() {
    let vram = [0x7fffu16, 0x001f, 0x03e0, 0x7c00];
    assert_eq!(vram_raw_bytes(&vram), vec![0xff, 0x7f, 0x1f, 0x00, 0xe0, 0x03, 0x00, 0x7c]);
    assert_eq!(vram_rgb(&vram), vec![0xf8, 0xf8, 0xf8, 0xf8, 0, 0, 0, 0xf8, 0, 0, 0, 0xf8]);
}

#[test]
fn test_disassembly_of_memory_and_context() {
    let mut cpu: Cpu<NoDevices> = Cpu::new();
    cpu.write_memory(0x200, 0x8fa8_0004, AccessSize::Word).unwrap();
    cpu.write_memory(0x204, 0, AccessSize::Word).unwrap();
    let mut dbg = Debugger::new();
    let out = dbg.handle_command(DebuggerCommand::Disasm { address: Some(0x200), count: 2 }, &mut cpu);
    match &out.output[0] {
        DebuggerOutput::Disassembly(words) => {
            assert_eq!(words[0], (0x200, Some((0x8fa8_0004, "lw $t0, 4($sp)".to_string()))));
            assert_eq!(words[1], (0x204, Some((0, "nop".to_string()))));
        },
        _ => panic!("unexpected output"),
    }

    let mut registers = [0u32; 32];
    registers[29] = 0x100;
    assert_eq!(disassemble_in_context(0x8fa8_0004, 0x204, &registers), Some("lw $t0, 4($sp)\t(104)".to_string()));
    registers[29] = 0x7fff_ffff;
    assert_eq!(disassemble_in_context(0x8fa8_0004, 0x204, &registers), None);
    assert_eq!(disassemble_in_context(0, 0x204, &registers), Some("nop".to_string()));
}
