//! Tests of the sound processing unit: ADPCM decoding, volumes, voices and
//! registers.

use psemu::memory::AccessSize;
use psemu::spu::voice::AdsrPhase;
use psemu::spu::{apply_volume, decode_adpcm_block, Spu, Voice, SOUND_RAM_SIZE};

#[test]
fn test_apply_volume() {
    assert_eq!(apply_volume(0x4000, 0x4000), 0x2000);
    assert_eq!(apply_volume(100, -0x8000), -100);
    assert_eq!(apply_volume(-1, 1), -1);
    assert_eq!(apply_volume(0x7fff, 0x7fff), 0x7ffe);
    assert_eq!(apply_volume(-0x8000, -0x8000), -0x8000);
}

#[test]
fn test_decode_adpcm_block_without_filter() {
    let mut block = [0u8; 16];
    block[2] = 0x21;
    block[3] = 0x0f;
    let mut decoded = [0i16; 32];
    decoded[28..32].copy_from_slice(&[1, 2, 3, 4]);
    decode_adpcm_block(&block, &mut decoded);
    assert_eq!(&decoded[0..4], &[1, 2, 3, 4]);
    assert_eq!(&decoded[4..8], &[4096, 8192, -4096, 0]);
    assert!(decoded[8..].iter().all(|&s| s == 0));
}

#[test]
fn test_decode_adpcm_block_with_filter_and_shift() {
    let mut block = [0u8; 16];
    // Filter 1 (60/64 of the previous sample), shift 4.
    block[0] = 0x14;
    block[2] = 0x01;
    let mut decoded = [0i16; 32];
    decoded[31] = 640;
    decode_adpcm_block(&block, &mut decoded);
    // 1 << 8, plus (60 * 640 + 32) / 64 = 600.
    assert_eq!(decoded[4], 256 + 600);
    // 0, plus (60 * 856 + 32) / 64 = 803.
    assert_eq!(decoded[5], 803);
}

#[test]
fn test_spu_registers_and_transfer() {
    let mut spu = Spu::new();
    spu.write(0x1f80_1d80, 0x3fff, AccessSize::HalfWord);
    spu.write(0x1f80_1d82, 0x1234, AccessSize::HalfWord);
    assert_eq!(spu.read(0x1f80_1db8, AccessSize::Word), 0x3fff | (0x1234 << 16));

    spu.write(0x1f80_1c04, 0x1000, AccessSize::HalfWord);
    assert_eq!(spu.voices[0].sample_rate, 0x1000);
    assert_eq!(spu.read(0x1f80_1c04, AccessSize::HalfWord), 0x1000);

    spu.write(0x1f80_1daa, 0xc03f, AccessSize::HalfWord);
    assert_eq!(spu.read(0x1f80_1dae, AccessSize::HalfWord), 0x9f);

    spu.write(0x1f80_1da6, 0x10, AccessSize::HalfWord);
    assert_eq!(spu.read(0x1f80_1da6, AccessSize::HalfWord), 0x10);
    spu.write(0x1f80_1da8, 0xbeef, AccessSize::HalfWord);
    assert_eq!((spu.ram[0x80], spu.ram[0x81]), (0xef, 0xbe));
    assert_eq!(spu.data_start_address_internal, 0x82);
}

#[test]
fn test_voice_key_on_and_advance() {
    let mut ram = vec![0u8; SOUND_RAM_SIZE];
    ram[0x102] = 0x21;
    ram[0x112] = 0x03;
    let mut voice = Voice::new(0);
    voice.start_address = 0x100;
    voice.sample_rate = 0x1000;
    voice.key_on(&ram);
    assert_eq!(voice.current_address_internal, 0x110);
    assert_eq!((voice.decode_buffer[4], voice.decode_buffer[5]), (4096, 8192));
    assert_eq!(voice.envelope.phase, AdsrPhase::Attack);
    assert_eq!((voice.current_buffer_idx, voice.pitch_counter), (0, 0));

    voice.advance(&ram);
    assert_eq!((voice.current_buffer_idx, voice.pitch_counter), (1, 0));
    assert_eq!(voice.last4_samples(), [0, 0, 0, 4096]);

    // A rate above 0x4000 moves on four samples; from 26 that crosses into
    // the next block, which is decoded.
    voice.sample_rate = 0x4800;
    voice.current_buffer_idx = 26;
    voice.advance(&ram);
    assert_eq!((voice.current_buffer_idx, voice.pitch_counter), (2, 0));
    assert_eq!(voice.current_address_internal, 0x120);
    assert_eq!(voice.decode_buffer[4], 3 << 12);

    // A rate of 0x800 needs two samples to move on one.
    voice.sample_rate = 0x800;
    voice.advance(&ram);
    assert_eq!((voice.current_buffer_idx, voice.pitch_counter), (2, 0x800));
    voice.advance(&ram);
    assert_eq!((voice.current_buffer_idx, voice.pitch_counter), (3, 0));
}

#[test]
fn test_mix_of_silent_voices() {
    let spu = Spu::new();
    assert_eq!(spu.mix(), (0, 0));
}
