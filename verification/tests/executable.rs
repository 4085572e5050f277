//! Tests of PS-X EXE loading and of the sample programs' arithmetic.

use psemu::bus::NoDevices;
use psemu::cpu::Cpu;
use psemu::executable::{ExeError, Executable, Header};
use psemu::memory::AccessSize;
use psemu::programs::{factorial, fibonacci_dynamic, fibonacci_recursive};

fn image(file_size: u32, code: &[u8]) -> Vec<u8> {
    let mut bytes = vec![0u8; 0x800];
    bytes[..8].copy_from_slice(b"PS-X EXE");
    let words: [(usize, u32); 8] = [
        (16, 0x8001_0000),
        (20, 0x1234_5678),
        (24, 0x8001_0000),
        (28, file_size),
        (40, 0x8001_0100),
        (44, 8),
        (48, 0x801f_ff00),
        (52, 0xf0),
    ];
    for (offset, word) in words {
        bytes[offset..offset + 4].copy_from_slice(&word.to_le_bytes());
    }
    bytes.extend_from_slice(code);
    bytes
}

#[test]
fn test_header_from_bytes() {
    let bytes = image(4, &[1, 2, 3, 4]);
    let header = Header::from_bytes(&bytes);
    assert_eq!(&header.signature, b"PS-X EXE");
    assert_eq!(header.pc, 0x8001_0000);
    assert_eq!(header.gp, 0x1234_5678);
    assert_eq!(header.file_size, 4);
    assert_eq!(header.bss_start, 0x8001_0100);
    assert_eq!(header.bss_size, 8);
    assert_eq!(header.sp_fp, 0x801f_fff0);
}

#[test]
fn test_from_image_errors() {
    assert_eq!(Executable::from_image(&[0u8; 100]).unwrap_err(), ExeError::TooSmall);
    let mut bad = image(4, &[1, 2, 3, 4]);
    bad[0] = b'X';
    assert_eq!(Executable::from_image(&bad).unwrap_err(), ExeError::InvalidSignature);
    assert_eq!(Executable::from_image(&image(8, &[1, 2, 3, 4])).unwrap_err(), ExeError::Truncated);
    let exe = Executable::from_image(&image(4, &[1, 2, 3, 4, 5])).unwrap();
    assert_eq!(exe.code, vec![1, 2, 3, 4]);
}

#[test]
fn test_load_into() {
    let exe = Executable::from_image(&image(4, &[0xaa, 0xbb, 0xcc, 0xdd])).unwrap();
    let mut cpu: Cpu<NoDevices> = Cpu::new();
    cpu.write_memory(0x8001_0100, 0xffff_ffff, AccessSize::Word).unwrap();
    exe.load_into(&mut cpu).unwrap();
    assert_eq!(cpu.pc, 0x8001_0000);
    assert_eq!(cpu.registers[28], 0x1234_5678);
    assert_eq!(cpu.registers[29], 0x801f_fff0);
    assert_eq!(cpu.registers[30], 0x801f_fff0);
    assert_eq!(cpu.read_memory(0x8001_0000, AccessSize::Word).unwrap(), 0xddcc_bbaa);
    assert_eq!(cpu.read_memory(0x8001_0100, AccessSize::Word).unwrap(), 0);
}

#[test]
fn test_sample_programs() {
    assert_eq!(factorial(0), 1);
    assert_eq!(factorial(10), 3_628_800);
    assert_eq!(factorial(12), 479_001_600);
    assert_eq!(fibonacci_recursive(0), 0);
    assert_eq!(fibonacci_recursive(1), 1);
    assert_eq!(fibonacci_recursive(20), 6765);
    assert_eq!(fibonacci_dynamic(0), 0);
    assert_eq!(fibonacci_dynamic(1), 1);
    assert_eq!(fibonacci_dynamic(30), 832_040);
    assert_eq!(fibonacci_dynamic(47), 2_971_215_073);
}
