//! Tests on concrete values of what holds across calls: the GTE
//! accumulator's clamp, the DMA channel order, the data FIFO's reads, the
//! ADSR envelope's clock, RFE after an exception, and the debugger's memory
//! commands and the CPU's loads as `execute` runs them.

use psemu::bus::NoDevices;
use psemu::cdrom::fifo::DataFifo;
use psemu::cpu::control::{Cop0, ExceptionCause};
use psemu::cpu::Cpu;
use psemu::debugger::{disassemble_in_context, Debugger, DebuggerCommand, DebuggerOutput};
use psemu::dma::Dma;
use psemu::gte::types::Accumulator;
use psemu::gte::Gte;
use psemu::instruction::Instruction;
use psemu::memory::AccessSize;
use psemu::spu::voice::{AdsrEnvelope, AdsrPhase};

#[test]
fn test_accumulator_clamps_to_44_bits() {
    let a = Accumulator::new_with_value(1i64 << 43);
    assert_eq!(a.value, (1i64 << 43) - 1);
    assert!(a.positive_overflow && !a.negative_overflow);
    let b = Accumulator::new_with_value(-(1i64 << 43) - 5);
    assert_eq!(b.value, -(1i64 << 43));
    assert!(b.negative_overflow && !b.positive_overflow);
    let c = Accumulator::new_with_value(-12345);
    assert_eq!(c.value, -12345);
    assert!(!c.positive_overflow && !c.negative_overflow);
}

#[test]
fn test_dma_priorities_take_three_bits() {
    let mut dma = Dma::new();
    // Channel 6 at priority 4, the others at 0: with equal scores the
    // higher channel goes first, and 4 sorts after 0.
    dma.write(0x70, 0x0400_0000, AccessSize::Word);
    assert_eq!(dma.channels_by_priority(), [5, 4, 3, 2, 1, 0, 6]);
    dma.write(0x70, 0, AccessSize::Word);
    assert_eq!(dma.channels_by_priority(), [6, 5, 4, 3, 2, 1, 0]);
}

#[test]
fn test_fifo_consumed_after_as_many_reads_as_bytes() {
    let mut fifo = DataFifo::new();
    assert!(fifo.fully_consumed());
    fifo.copy_from_slice(&[1, 2, 3]);
    assert!(!fifo.fully_consumed());
    assert_eq!(fifo.pop(), 1);
    assert_eq!(fifo.pop(), 2);
    assert!(!fifo.fully_consumed());
    assert_eq!(fifo.pop(), 3);
    assert!(fifo.fully_consumed());
    assert_eq!(fifo.pop(), 3);
    assert!(fifo.fully_consumed());
}

#[test]
fn test_adsr_attack_at_top_moves_on_and_level_stays_in_range() {
    let mut e = AdsrEnvelope::new();
    e.phase = AdsrPhase::Attack;
    e.level = 0x7fff;
    // A sustain level of (1 + 1) * 0x800, below the level: Attack gives way
    // to Decay.
    e.settings = 0x0000_0001;
    e.clock();
    assert_eq!(e.phase, AdsrPhase::Decay);
    assert!(0 <= e.level);
    assert_eq!(e.settings, 1);

    let mut f = AdsrEnvelope::new();
    f.phase = AdsrPhase::Release;
    f.level = 3;
    for _ in 0..100 {
        f.clock();
        assert!(0 <= f.level);
    }
}

#[test]
fn test_rfe_restores_mode_bits_of_exception_entry() {
    let mut cop0 = Cop0::new();
    cop0.status = 0x0040_0005;
    cop0.start_exception(ExceptionCause::Syscall, 0x8000_1000, 0x8000_1004, false, false, 0);
    assert_eq!(cop0.status & 0x3f, 0x14);
    cop0.execute(Instruction(0x4200_0010));
    assert_eq!(cop0.status & 0xf, 0x5);
    assert_eq!(cop0.status & !0x3f, 0x0040_0000);
}

#[test]
fn test_execute_byte_loads_and_stores() {
    let mut cpu: Cpu<NoDevices> = Cpu::new();
    cpu.write_memory(0x100, 0x0000_80ff, AccessSize::Word).unwrap();
    cpu.registers[1] = 0x100;
    cpu.registers[3] = 0x1234_5678;
    // lb $2, 1($1): 0x80 sign-extended.
    assert_eq!(cpu.execute(Instruction(0x8022_0001)), Ok(()));
    assert_eq!(cpu.registers[2], 0xffff_ff80);
    // lbu $2, 1($1): zero-extended.
    assert_eq!(cpu.execute(Instruction(0x9022_0001)), Ok(()));
    assert_eq!(cpu.registers[2], 0x80);
    // sb $3, 2($1)
    assert_eq!(cpu.execute(Instruction(0xa023_0002)), Ok(()));
    assert_eq!(cpu.read_memory(0x100, AccessSize::Word), Ok(0x0078_80ff));
}

#[test]
fn test_debugger_memory_commands_reach_ram() {
    let mut cpu: Cpu<NoDevices> = Cpu::new();
    let mut dbg = Debugger::new();
    let out = dbg.handle_command(DebuggerCommand::WriteMemory { address: 0x204, value: 0xabcd, size: 2 }, &mut cpu);
    assert!(matches!(out.output[1], DebuggerOutput::MemoryWritten(0xabcd, 0x204, true)));
    assert_eq!(cpu.read_memory(0x204, AccessSize::Word), Ok(0xabcd));
    // A misaligned half-word is not written.
    let out = dbg.handle_command(DebuggerCommand::WriteMemory { address: 0x205, value: 0x1111, size: 2 }, &mut cpu);
    assert!(matches!(out.output[1], DebuggerOutput::MemoryWritten(0x1111, 0x205, false)));
    assert_eq!(cpu.read_memory(0x204, AccessSize::Word), Ok(0xabcd));
    // A size other than 1, 2 or 4 reads words.
    let out = dbg.handle_command(
        DebuggerCommand::ReadMemory { address: 0x204, count: 1, format: "hex".to_string(), size: 3 },
        &mut cpu,
    );
    match &out.output[0] {
        DebuggerOutput::Memory(values, size, _) => {
            assert_eq!(*size, AccessSize::Word);
            assert_eq!(values, &vec![(0x204, Some(0xabcd))]);
        },
        _ => panic!("unexpected output"),
    }
}

#[test]
fn test_new_gte_registers_read_zero() {
    let gte = Gte::new();
    assert_eq!(gte.v0.0, [0, 0, 0]);
    assert_eq!(gte.t.0, [0, 0, 0]);
    assert_eq!((gte.otz, gte.sz3, gte.lzcs, gte.r23), (0, 0, 0, 0));
    assert_eq!(gte.rotation.0[2].0, [0, 0, 0]);
}

#[test]
fn test_context_of_branches() {
    let mut registers = [0u32; 32];
    // beq $0, $0: taken.
    assert!(disassemble_in_context(0x1000_0001, 0x204, &registers).unwrap().ends_with("\t(taken)"));
    // bne $0, $0: not taken.
    assert!(disassemble_in_context(0x1400_0001, 0x204, &registers).unwrap().ends_with("\t(not taken)"));
    // blez $1 compares the register as unsigned: 0x8000_0000 is not <= 0.
    registers[1] = 0x8000_0000;
    assert!(disassemble_in_context(0x1820_0001, 0x204, &registers).unwrap().ends_with("\t(not taken)"));
    // bltz $1 reads it as signed: taken.
    assert!(disassemble_in_context(0x0420_0001, 0x204, &registers).unwrap().ends_with("\t(taken)"));
    // An addition has no context.
    assert!(!disassemble_in_context(0x0022_1821, 0x204, &registers).unwrap().contains('\t'));
}

#[test]
fn test_spu_tick_advances_every_voice() {
    let mut spu = psemu::spu::Spu::new();
    // Voice 0 at pitch 0x1000: one decoded sample per output sample.
    spu.write(0x1f80_1c04, 0x1000, AccessSize::HalfWord);
    // Voice 1 at half the pitch.
    spu.write(0x1f80_1c14, 0x0800, AccessSize::HalfWord);
    let (left, right) = spu.tick();
    assert_eq!((left, right), (0, 0));
    assert_eq!((spu.voices[0].current_buffer_idx, spu.voices[0].pitch_counter), (1, 0));
    assert_eq!((spu.voices[1].current_buffer_idx, spu.voices[1].pitch_counter), (0, 0x800));
    spu.tick();
    assert_eq!((spu.voices[1].current_buffer_idx, spu.voices[1].pitch_counter), (1, 0));
    assert_eq!(spu.voices[2].pitch_counter, 0);
}

#[test]
fn test_cop0_commands_other_than_rfe_are_refused() {
    let mut cpu: Cpu<NoDevices> = Cpu::new();
    assert_eq!(
        cpu.execute(Instruction(0x4200_0050)),
        Err(psemu::cpu::CpuFault::UnknownCop0Command(0x50))
    );
    let status = cpu.cop0.status;
    assert_eq!(cpu.execute(Instruction(0x4200_0010)), Ok(()));
    assert_eq!(cpu.cop0.status & !0x3f, status & !0x3f);
}
