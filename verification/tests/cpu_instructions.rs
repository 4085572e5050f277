//! CPU instruction tests: each runs a few instructions placed at 0x1000.

use psemu::bus::NoDevices;
use psemu::cpu::memory::MipsSegment;
use psemu::cpu::Cpu;
use psemu::memory::AccessSize;

/// A CPU with the PC at 0x1000, the given registers set and the given
/// instructions in memory from the PC on.
fn test_cpu(initial_registers: &[(usize, u32)], instructions: &[u32]) -> Cpu<NoDevices> {
    let mut cpu = Cpu::new();
    cpu.pc = 0x1000;

    for &(index, value) in initial_registers.iter() {
        if index < cpu.registers.len() {
            cpu.registers[index] = value;
        } else {
            panic!("Register index out of bounds: {index}");
        }
    }

    for (i, &instr_word) in instructions.iter().enumerate() {
        cpu.write_memory(cpu.pc + (i as u32 * 4), instr_word, AccessSize::Word)
            .expect("Failed to write instruction to bus during test setup");
    }

    cpu
}

/// Advances the CPU by a number of steps.
fn cpu_steps(cpu: &mut Cpu<NoDevices>, steps: usize) {
    for _ in 0..steps {
        cpu.step().expect("step");
    }
}

/// Encodes an I-type instruction.
fn i_type(opcode: u32, rt: usize, rs: usize, immediate: u16) -> u32 {
    (opcode << 26) | ((rs as u32) << 21) | ((rt as u32) << 16) | (immediate as u32)
}

/// Encodes an R-type instruction with a shift amount.
#[allow(dead_code)]
fn r_type_shift(funct: u32, rd: usize, rt: usize, shamt: usize) -> u32 {
    ((rt as u32) << 16) | ((rd as u32) << 11) | ((shamt as u32) << 6) | funct
}

/// Encodes an R-type instruction with three registers.
fn r_type(funct: u32, rd: usize, rt: usize, rs: usize) -> u32 {
    ((rs as u32) << 21) | ((rt as u32) << 16) | ((rd as u32) << 11) | funct
}

/// Encodes a J-type instruction.
fn j_type(opcode: u32, target_pseudo_addr: u32) -> u32 {
    (opcode << 26) | (target_pseudo_addr >> 2)
}

#[test]
fn test_j() {
    let mut cpu = test_cpu(&[], &[j_type(0x02, 0x3000)]);

    cpu_steps(&mut cpu, 2);

    assert_eq!(cpu.pc, 0x3000);
}

#[test]
fn test_jal() {
    let mut cpu = test_cpu(&[], &[j_type(0x03, 0x3000)]);

    cpu_steps(&mut cpu, 2);

    assert_eq!(cpu.pc, 0x3000);
    assert_eq!(cpu.registers[31], 0x1008); // return address
}

#[test]
fn test_jal_in_delay_slot_of_jal() {
    let mut cpu = test_cpu(
        &[],
        &[
            // JAL 0x2000 (RA = 0x1008)
            j_type(0x03, 0x2000),
            // JAL 0x3000 (RA = 0x100c)
            j_type(0x03, 0x3000),
            // NOP (delay slot)
        ],
    );

    cpu_steps(&mut cpu, 3);

    assert_eq!(cpu.pc, 0x3000);
    assert_eq!(cpu.registers[31], 0x100c); // return address
}

#[test]
fn test_jr() {
    let mut cpu = test_cpu(
        &[(1, 0x0000_2000)],
        &[
            // JR r1
            r_type(0x08, 0, 0, 1),
        ],
    );

    cpu_steps(&mut cpu, 2);

    assert_eq!(cpu.pc, 0x0000_2000);
}

#[test]
fn test_jalr_custom_rd() {
    let mut cpu = test_cpu(
        &[(1, 0x3000)],
        &[
            // JALR r1, r2
            r_type(0x09, 2, 0, 1),
        ],
    );

    cpu_steps(&mut cpu, 2);

    assert_eq!(cpu.pc, 0x3000);
    assert_eq!(cpu.registers[2], 0x1008); // return address
    assert_ne!(cpu.registers[31], 0x1008); // $ra should not be used
}

#[test]
fn test_jalr_rd_equal_rs() {
    let mut cpu = test_cpu(
        &[(1, 0x3000)],
        &[
            // JALR r1, r1: the target is read before the link is written
            r_type(0x09, 1, 0, 1),
        ],
    );

    cpu_steps(&mut cpu, 2);

    assert_eq!(cpu.pc, 0x3000);
    assert_eq!(cpu.registers[1], 0x1008);
}

#[test]
fn test_beq_taken() {
    let mut cpu = test_cpu(
        &[(1, 10), (2, 10)],
        &[
            // BEQ r1, r2, offset_taken (4 words = 16 bytes)
            i_type(0x04, 1, 2, 4),
        ],
    );

    cpu_steps(&mut cpu, 2);

    assert_eq!(cpu.pc, 0x1000 + 4 + 16, "BEQ taken PC");
}

#[test]
fn test_beq_taken_negative_offset() {
    let mut cpu = test_cpu(
        &[(1, 10), (2, 10)],
        &[
            // BEQ r1, r2, offset_taken (-32 words = -128 bytes)
            i_type(0x04, 1, 2, 0u16.wrapping_sub(32)),
        ],
    );

    cpu_steps(&mut cpu, 2);

    assert_eq!(cpu.pc, 0x1000 + 4 - 128, "BEQ taken PC");
}

#[test]
fn test_beq_not_taken() {
    let mut cpu = test_cpu(
        &[(1, 10), (2, 20)],
        &[
            // BEQ r1, r2, offset_not_taken (4 words = 16 bytes)
            i_type(0x04, 1, 2, 4),
        ],
    );

    cpu_steps(&mut cpu, 2);

    assert_eq!(cpu.pc, 0x1000 + 8, "BNE not taken PC");
}

#[test]
fn test_bne_taken() {
    let mut cpu = test_cpu(
        &[(1, 10), (2, 20)],
        &[
            // BNE r1, r2, offset_taken (4 words = 16 bytes)
            i_type(0x05, 1, 2, 4),
        ],
    );

    cpu_steps(&mut cpu, 2);

    assert_eq!(cpu.pc, 0x1000 + 4 + 16, "BNE taken PC");
}

#[test]
fn test_bne_not_taken() {
    let mut cpu = test_cpu(
        &[(1, 10), (2, 10)],
        &[
            // BNE r1, r2, offset_not_taken (4 words = 16 bytes)
            i_type(0x05, 1, 2, 4),
        ],
    );

    cpu_steps(&mut cpu, 2);

    assert_eq!(cpu.pc, 0x1000 + 8, "BNE not taken PC");
}

#[test]
fn test_blez_taken_negative() {
    let mut cpu = test_cpu(
        &[(1, -5i32 as u32)],
        &[
            // BLEZ r1, offset_taken (2 words = 8 bytes)
            i_type(0x06, 0, 1, 2),
        ],
    );

    cpu_steps(&mut cpu, 2);

    assert_eq!(cpu.pc, 0x1000 + 4 + 8, "BLEZ taken (negative) PC");
}

#[test]
fn test_blez_taken_zero() {
    let mut cpu = test_cpu(
        &[],
        &[
            // BLEZ r1, offset_taken (2 words = 8 bytes)
            i_type(0x06, 0, 1, 2),
        ],
    );

    cpu_steps(&mut cpu, 2);

    assert_eq!(cpu.pc, 0x1000 + 4 + 8, "BLEZ taken (zero) PC");
}

#[test]
fn test_blez_not_taken_positive() {
    let mut cpu = test_cpu(
        &[(1, 5)],
        &[
            // BLEZ r1, offset_not_taken (2 words = 8 bytes)
            i_type(0x06, 0, 1, 2),
        ],
    );

    cpu_steps(&mut cpu, 2);

    assert_eq!(cpu.pc, 0x1000 + 8, "BLEZ not taken (positive) PC");
}

#[test]
fn test_bgtz_taken_positive() {
    let mut cpu = test_cpu(
        &[(1, 5)],
        &[
            // BGTZ r1, offset_taken (3 words = 12 bytes)
            i_type(0x07, 0, 1, 3),
        ],
    );

    cpu_steps(&mut cpu, 2);

    assert_eq!(cpu.pc, 0x1000 + 4 + (3 << 2), "BGTZ taken (positive) PC");
}

#[test]
fn test_bgtz_not_taken_zero() {
    let mut cpu = test_cpu(
        &[],
        &[
            // BGTZ r1, offset_not_taken (3 words = 12 bytes)
            i_type(0x07, 0, 1, 3),
        ],
    );

    cpu_steps(&mut cpu, 2);

    assert_eq!(cpu.pc, 0x1000 + 8, "BGTZ not taken (zero) PC");
}

#[test]
fn test_bgtz_not_taken_negative() {
    let mut cpu = test_cpu(
        &[(1, -5i32 as u32)],
        &[
            // BGTZ r1, offset_not_taken (3 words = 12 bytes)
            i_type(0x07, 0, 1, 3),
        ],
    );

    cpu_steps(&mut cpu, 2);

    assert_eq!(cpu.pc, 0x1000 + 8, "BGTZ not taken (negative) PC");
}

#[test]
fn test_bltz_taken() {
    let mut cpu = test_cpu(
        &[(1, -1i32 as u32)],
        &[
            // BLTZ (rt = 0) r1, offset
            i_type(0x01, 0, 1, 5),
        ],
    );

    cpu_steps(&mut cpu, 2);

    assert_eq!(cpu.pc, 0x1000 + 4 + (5 << 2), "BLTZ taken PC");
}

#[test]
fn test_bltz_not_taken() {
    let mut cpu = test_cpu(
        &[],
        &[
            // BLTZ (rt = 0) r1, offset
            i_type(0x01, 0, 1, 5),
        ],
    );

    cpu_steps(&mut cpu, 2);

    assert_eq!(cpu.pc, 0x1000 + 8, "BLTZ not taken PC");
}

#[test]
fn test_bgez_taken() {
    let mut cpu = test_cpu(
        &[],
        &[
            // BGEZ (rt = 1) r1, offset
            i_type(0x01, 1, 1, 6),
        ],
    );

    cpu_steps(&mut cpu, 2);

    assert_eq!(cpu.pc, 0x1000 + 4 + 24, "BGEZ taken PC");
}

#[test]
fn test_bgez_not_taken() {
    let mut cpu = test_cpu(
        &[
            (1, -1i32 as u32), // not >= 0
        ],
        &[
            // BGEZ (rt = 1) r1, offset
            i_type(0x01, 1, 1, 6),
        ],
    );

    cpu_steps(&mut cpu, 2);

    assert_eq!(cpu.pc, 0x1000 + 8, "BGEZ not taken PC");
}

#[test]
fn test_bltzal_taken() {
    let mut cpu = test_cpu(
        &[(1, -1i32 as u32)],
        &[
            // BLTZAL (rt = 0x10) r1, offset
            i_type(0x01, 0x10, 1, 7),
        ],
    );

    cpu_steps(&mut cpu, 2);

    assert_eq!(cpu.pc, 0x1000 + 4 + 28, "BLTZAL taken PC");
    assert_eq!(cpu.registers[31], 0x1000 + 8, "BLTZAL RA");
}

#[test]
fn test_bltzal_not_taken() {
    let mut cpu = test_cpu(
        &[],
        &[
            // BLTZAL (rt = 0x10) r1, offset
            i_type(0x01, 0x10, 1, 7),
        ],
    );

    cpu_steps(&mut cpu, 2);

    assert_eq!(cpu.pc, 0x1000 + 8, "BLTZAL not taken PC");

    // RA is set regardless of the branch taken or not.
    assert_ne!(
        cpu.registers[31], 0xdeadbeef,
        "BLTZAL RA not taken, $ra unchanged"
    );
}

#[test]
fn test_bltzal_rs_31() {
    let mut cpu = test_cpu(
        &[(31, -1i32 as u32)],
        &[
            // BLTZAL r31, offset: the test reads r31 before the link
            i_type(0x01, 0x10, 31, 7),
        ],
    );

    cpu_steps(&mut cpu, 2);

    assert_eq!(cpu.pc, 0x1000 + 4 + 28, "BLTZAL taken PC");
    assert_eq!(cpu.registers[31], 0x1000 + 8, "BLTZAL RA");
}

#[test]
fn test_bgezal_taken() {
    let mut cpu = test_cpu(
        &[],
        &[
            // BGEZAL (rt = 0x11) r1, offset
            i_type(0x01, 0x11, 1, 8),
        ],
    );

    cpu_steps(&mut cpu, 2);

    assert_eq!(cpu.pc, 0x1000 + 4 + 32, "BGEZAL taken PC");
    assert_eq!(cpu.registers[31], 0x1000 + 8, "BGEZAL RA");
}

#[test]
fn test_bgezal_not_taken() {
    let mut cpu = test_cpu(
        &[
            (1, -1i32 as u32), // not >= 0
        ],
        &[
            // BGEZAL (rt = 0x11) r1, offset
            i_type(0x01, 0x11, 1, 8),
        ],
    );

    cpu_steps(&mut cpu, 2);

    assert_eq!(cpu.pc, 0x1000 + 8, "BGEZAL not taken PC");
    assert_ne!(
        cpu.registers[31], 0xdeadbeef,
        "BGEZAL RA not taken, $ra unchanged"
    );
}

#[test]
fn test_bgezal_rs_31() {
    let mut cpu = test_cpu(
        &[(31, -1i32 as u32)],
        &[
            // BGEZAL r31, offset: the test reads r31 before the link
            i_type(0x01, 0x11, 31, 8),
        ],
    );

    cpu_steps(&mut cpu, 2);

    assert_eq!(cpu.pc, 0x1000 + 8, "BGEZAL not taken PC");
    assert_eq!(cpu.registers[31], 0x1000 + 8, "BGEZAL RA");
}

#[test]
fn test_weird_encodings() {
    // rt & 0x1e == 0x10 are the AL versions of the branch instructions.
    // any other value, even if 0x1n, is the non-AL version.
    let mut cpu = test_cpu(
        &[(1, -1i32 as u32)],
        &[
            // rt = 0x12: BLTZ without link, taken
            i_type(0x01, 0x12, 1, 4),
        ],
    );
    cpu_steps(&mut cpu, 2);
    assert_eq!(cpu.pc, 0x1000 + 4 + 16);
    assert_eq!(cpu.registers[31], 0);

    let mut cpu = test_cpu(
        &[(1, 5)],
        &[
            // rt = 0x03: BGEZ without link, taken
            i_type(0x01, 0x03, 1, 4),
        ],
    );
    cpu_steps(&mut cpu, 2);
    assert_eq!(cpu.pc, 0x1000 + 4 + 16);
    assert_eq!(cpu.registers[31], 0);

    let mut cpu = test_cpu(
        &[(1, 5)],
        &[
            // rt = 0x11: BGEZAL, taken and linking
            i_type(0x01, 0x11, 1, 4),
        ],
    );
    cpu_steps(&mut cpu, 2);
    assert_eq!(cpu.pc, 0x1000 + 4 + 16);
    assert_eq!(cpu.registers[31], 0x1008);
}

#[test]
fn test_slti() {
    let mut cpu = test_cpu(
        &[(7, 1)],
        &[
            // SLTI r8, r7, 0
            i_type(0x0a, 8, 7, 1),
            // SLTI r8, r7, 1234
            i_type(0x0a, 8, 7, 0),
            // SLTI r8, r7, -1
            i_type(0x0a, 8, 7, 0xffff),
            // SLTI r8, r7, 2
            i_type(0x0a, 8, 7, 2),
        ],
    );

    cpu.step().expect("step");
    assert_eq!(cpu.registers[8], 0);

    cpu.step().expect("step");
    assert_eq!(cpu.registers[8], 0);

    cpu.step().expect("step");
    assert_eq!(cpu.registers[8], 0);

    cpu.step().expect("step");
    assert_eq!(cpu.registers[8], 1);
}

#[test]
fn test_sltiu() {
    let mut cpu = test_cpu(
        &[(7, 1)],
        &[
            // SLTIU r8, r7, 0
            i_type(0x0b, 8, 7, 1),
            // SLTIU r8, r7, 1234
            i_type(0x0b, 8, 7, 0),
            // SLTIU r8, r7, -1
            i_type(0x0b, 8, 7, 0xffff),
        ],
    );

    cpu.step().expect("step");
    assert_eq!(cpu.registers[8], 0);

    cpu.step().expect("step");
    assert_eq!(cpu.registers[8], 0);

    cpu.step().expect("step");
    assert_eq!(cpu.registers[8], 1);
}

#[test]
fn test_andi() {
    let mut cpu = test_cpu(
        &[(7, 0b1100_1101)],
        &[
            // ANDI r8, r7, 0xff
            i_type(0x0c, 8, 7, 0xff),
            // ANDI r8, r7, 0xf0
            i_type(0x0c, 8, 7, 0xf0),
            // ANDI r8, r7, 0xffff
            i_type(0x0c, 8, 7, 0xffff),
        ],
    );

    cpu.step().expect("step");
    assert_eq!(cpu.registers[8], 0b1100_1101);

    cpu.step().expect("step");
    assert_eq!(cpu.registers[8], 0b1100_0000);

    cpu.step().expect("step");
    assert_eq!(cpu.registers[8], 0b1100_1101);
}

#[test]
fn test_ori() {
    let mut cpu = test_cpu(
        &[(7, 0b1100_1101)],
        &[
            // ORI r8, r7, 0xff
            i_type(0x0d, 8, 7, 0xff),
            // ORI r8, r7, 0xf0
            i_type(0x0d, 8, 7, 0xf0),
        ],
    );

    cpu.step().expect("step");
    assert_eq!(cpu.registers[8], 0b1111_1111);

    cpu.step().expect("step");
    assert_eq!(cpu.registers[8], 0b1111_1101);
}

#[test]
fn test_xori() {
    let mut cpu = test_cpu(
        &[(7, 0b1100_1101)],
        &[
            // XORI r8, r7, 0xff
            i_type(0x0e, 8, 7, 0xff),
            // XORI r8, r7, 0xf0
            i_type(0x0e, 8, 7, 0xf0),
        ],
    );

    cpu.step().expect("step");
    assert_eq!(cpu.registers[8], 0b0011_0010);

    cpu.step().expect("step");
    assert_eq!(cpu.registers[8], 0b0011_1101);
}

#[test]
fn test_lui() {
    let mut cpu = test_cpu(
        &[],
        &[
            // LUI r0, 1
            i_type(0x0f, 0, 0, 1),
            // LUI r8, 0
            i_type(0x0f, 8, 0, 0),
            // LUI r9, 1234
            i_type(0x0f, 9, 0, 1234),
            // LUI r10, -1
            i_type(0x0f, 11, 0, 0xffff),
        ],
    );

    cpu_steps(&mut cpu, 4);

    assert_eq!(cpu.registers[0], 0);
    assert_eq!(cpu.registers[8], 0);
    assert_eq!(cpu.registers[9], 1234 << 16);
    assert_eq!(cpu.registers[11], 0xffff << 16);
}

#[test]
fn test_lw() {
    let mut cpu = test_cpu(
        &[(7, 0x4000)],
        &[
            i_type(0x23, 8, 7, 0xfffc), // Load from address 0x3ffc
            i_type(0x23, 9, 7, 4),      // Load from address 0x4008
        ],
    );

    cpu.write_memory(0x3ffc, 0xcafecafe, AccessSize::Word)
        .unwrap();
    cpu.write_memory(0x4004, 0x12345678, AccessSize::Word)
        .unwrap();

    cpu_steps(&mut cpu, 2);

    assert_eq!(cpu.registers[8], 0xcafecafe);
    assert_eq!(cpu.registers[9], 0x12345678);
}

#[test]
fn test_sw() {
    let mut cpu = test_cpu(
        &[(7, 0x4000), (8, 0x12345678)],
        &[i_type(0x2b, 8, 7, 0xfffc)], // Store word at address 0x3ffc
    );

    cpu.step().expect("step");

    // Check if the word was stored correctly
    assert_eq!(
        cpu.read_memory(0x3ffc, AccessSize::Word).unwrap(),
        0x12345678
    );
}

#[test]
fn test_extract_segment() {
    let cpu = Cpu::new();
    assert_eq!(cpu.extract_segment(0x0000_0000), (MipsSegment::Kuseg, 0x0000_0000));
    assert_eq!(cpu.extract_segment(0x8000_0000), (MipsSegment::Kseg0, 0x0000_0000));
    assert_eq!(cpu.extract_segment(0x9fff_ffff), (MipsSegment::Kseg0, 0x1fff_ffff));
    assert_eq!(cpu.extract_segment(0xa000_0000), (MipsSegment::Kseg1, 0x0000_0000));
    assert_eq!(cpu.extract_segment(0xbfff_ffff), (MipsSegment::Kseg1, 0x1fff_ffff));
    assert_eq!(cpu.extract_segment(0xc000_0000), (MipsSegment::Kseg2, 0x0000_0000));
    assert_eq!(cpu.extract_segment(0xe000_0000), (MipsSegment::Kseg2, 0x2000_0000));
    assert_eq!(cpu.extract_segment(0xffff_ffff), (MipsSegment::Kseg2, 0x3fff_ffff));
}
