pub mod voice;

use vstd::prelude::*;

use crate::memory::AccessSize;
use voice::{AdsrEnvelope, AdsrPhase};

verus! {

pub const SOUND_RAM_SIZE: usize = 512 * 1024;
pub const NUM_VOICES: usize = 24;

/// One of the 24 SPU voices: an ADPCM sample stream with an envelope.
#[derive(Copy, Clone, Debug)]
pub struct Voice {
    pub n: usize,
    pub envelope: AdsrEnvelope,
    pub sample_rate: u16,
    pub start_address: u32,
    pub repeat_address: u32,
    pub current_address_internal: u32,
    /// Decoded samples: 4 carried over from the previous block, then 28.
    pub decode_buffer: [i16; 32],
    pub pitch_counter: u16,
    pub current_buffer_idx: usize,
    pub current_sample: i16,
    pub volume_left: u16,
    pub volume_right: u16,
}

/// The 16-bit signed range.
pub open spec fn clamp16(v: int) -> int {
    if v < -0x8000 { -0x8000 } else if v > 0x7fff { 0x7fff } else { v }
}

/// What decoding the 16-byte ADPCM block at a voice's current address does
/// (`before` to `after`): the last four samples carry over and 28 new ones
/// are decoded; flag bit 2 of the block makes it the repeat address; flag
/// bit 0 jumps to the repeat address, and without bit 1 also mutes and
/// releases the voice; otherwise the next block follows, wrapping at 512KB.
/// The counters, the registers and the current sample are kept.
pub open spec fn block_decoded(before: Voice, after: Voice, ram: Seq<u8>) -> bool {
    let addr = before.current_address_internal as int;
    let flags = ram[addr + 1];
    let repeat = if flags & 4 != 0 { before.current_address_internal } else { before.repeat_address };
    &&& after.repeat_address == repeat
    &&& if flags & 1 != 0 {
        after.current_address_internal == repeat
    } else {
        after.current_address_internal == ((before.current_address_internal + 16) as u32) & 0x7ffff
    }
    &&& if flags & 1 != 0 && flags & 2 == 0 {
        after.envelope == (AdsrEnvelope { level: 0, phase: AdsrPhase::Release, ..before.envelope })
    } else {
        after.envelope == before.envelope
    }
    &&& forall|i: int| 0 <= i < 4 ==> after.decode_buffer@[i] == before.decode_buffer@[28 + i]
    &&& forall|i: int|
        0 <= i < 28 ==> (#[trigger] after.decode_buffer@[i + 4]) as int == adpcm_decode(
            ram.subrange(addr, addr + 16),
            i,
            after.decode_buffer@[i + 3] as int,
            after.decode_buffer@[i + 2] as int,
        )
    &&& after.start_address == before.start_address
    &&& after.current_buffer_idx == before.current_buffer_idx
    &&& after.pitch_counter == before.pitch_counter
    &&& after.current_sample == before.current_sample
    &&& after.volume_left == before.volume_left
    &&& after.volume_right == before.volume_right
    &&& after.sample_rate == before.sample_rate
    &&& after.n == before.n
}

/// The voice `after` is `before` advanced by one output sample, with `ram`
/// the sound RAM: the pitch counter moves by the pitch step and the envelope
/// is clocked; each whole 0x1000 of the counter moves on to the next decoded
/// sample, and after the 28th the next block is decoded.
pub open spec fn advanced(before: Voice, after: Voice, ram: Seq<u8>) -> bool {
    let total = before.pitch_counter + before.pitch_step();
    let idx = before.current_buffer_idx + total / 0x1000;
    let clocked = Voice { envelope: before.envelope.clocked(), ..before };
    &&& after.pitch_counter == total % 0x1000
    &&& after.current_buffer_idx == idx % 28
    &&& idx < 28 ==> after == (Voice {
        pitch_counter: after.pitch_counter,
        current_buffer_idx: after.current_buffer_idx,
        ..clocked
    })
    &&& idx >= 28 ==> block_decoded(
        clocked,
        Voice { pitch_counter: before.pitch_counter, current_buffer_idx: before.current_buffer_idx, ..after },
        ram,
    )
}

/// What keying on does to a voice, with `ram` the sound RAM: it restarts
/// at its start address, from the first decoded sample, with the block
/// there decoded, and its envelope starts Attack from level 0.
pub open spec fn keyed_on(before: Voice, after: Voice, ram: Seq<u8>) -> bool {
    let start = Voice {
        current_address_internal: before.start_address,
        pitch_counter: 0,
        current_buffer_idx: 0,
        ..before
    };
    let flags = ram[before.start_address + 1];
    let decoded_envelope = if flags & 1 != 0 && flags & 2 == 0 {
        AdsrEnvelope { level: 0, phase: AdsrPhase::Release, ..before.envelope }
    } else {
        before.envelope
    };
    &&& after.envelope == (AdsrEnvelope { level: 0, phase: AdsrPhase::Attack, ..before.envelope })
    &&& block_decoded(start, Voice { envelope: decoded_envelope, ..after }, ram)
}

/// Whether voice `i` has its bit set in `value`, for the voices
/// `first..first + count`.
pub open spec fn key_bit(value: u32, first: int, count: int, i: int) -> bool {
    first <= i < first + count && value & (1u32 << (i - first) as u32) != 0
}

/// The voices after keying on (`on`) or off the voices
/// `first..first + count` whose bit is set in `value`; the others are kept.
pub open spec fn voices_keyed(
    before: Seq<Voice>,
    after: Seq<Voice>,
    value: u32,
    first: int,
    count: int,
    on: bool,
    ram: Seq<u8>,
) -> bool {
    &&& after.len() == before.len()
    &&& forall|i: int| 0 <= i < before.len() && !key_bit(value, first, count, i) ==> #[trigger] after[i] == before[i]
    &&& forall|i: int|
        #[trigger] key_bit(value, first, count, i) ==> (if on {
            keyed_on(before[i], after[i], ram)
        } else {
            after[i] == (Voice { envelope: AdsrEnvelope { phase: AdsrPhase::Release, ..before[i].envelope }, ..before[i] })
        })
}

/// A voice after a write of `value` to its register `reg`: the left and
/// right volumes (0, 2), the sample rate (4), the start address (6, times
/// 8), the low and high halves of the ADSR settings (8, 0xa) and the repeat
/// address (0xe, times 8); other registers ignore writes.
pub open spec fn voice_written(o: Voice, reg: u32, value: u32) -> Voice {
    let low = value & 0xffff;
    if reg == 0 {
        Voice { volume_left: low as u16, ..o }
    } else if reg == 2 {
        Voice { volume_right: low as u16, ..o }
    } else if reg == 4 {
        Voice { sample_rate: low as u16, ..o }
    } else if reg == 6 {
        Voice { start_address: low << 3, ..o }
    } else if reg == 8 {
        Voice {
            envelope: AdsrEnvelope { settings: (o.envelope.settings & 0xffff_0000) | ((value as u16) as u32), ..o.envelope },
            ..o
        }
    } else if reg == 0xa {
        Voice {
            envelope: AdsrEnvelope {
                settings: (o.envelope.settings & 0x0000_ffff) | (((value as u16) as u32) << 16),
                ..o.envelope
            },
            ..o
        }
    } else if reg == 0xe {
        Voice { repeat_address: low << 3, ..o }
    } else {
        o
    }
}

/// Division rounding toward zero, as integer division does in Rust.
pub open spec fn div_trunc(a: int, b: int) -> int {
    if a >= 0 { a / b } else { -((-a) / b) }
}

/// The shift of an ADPCM block header: bits 3..0, where 13 to 15 act as 9.
pub open spec fn adpcm_shift(header: u8) -> int {
    let s = (header & 0x0f) as int;
    if s > 12 { 9 } else { s }
}

/// The filter of an ADPCM block header: bits 6..4, at most 4.
pub open spec fn adpcm_filter(header: u8) -> int {
    let f = ((header >> 4) & 0x07) as int;
    if f > 4 { 4 } else { f }
}

/// The signed 4-bit sample `idx` of a block (two per byte, low nibble
/// first, from byte 2 on).
pub open spec fn adpcm_nibble(block: Seq<u8>, idx: int) -> int {
    let byte = block[2 + idx / 2];
    let nib = (if idx % 2 == 0 { byte & 0x0f } else { (byte >> 4) & 0x0f }) as int;
    if nib >= 8 { nib - 16 } else { nib }
}

/// Sample `idx` of a block decoded from its two predecessors `old` and
/// `older`: the nibble shifted up by 12 - shift, plus the filter's weighted
/// sum of the predecessors, clamped to 16 bits.
pub open spec fn adpcm_decode(block: Seq<u8>, idx: int, old: int, older: int) -> int {
    let shifted = adpcm_nibble(block, idx) * vstd::arithmetic::power2::pow2((12 - adpcm_shift(block[0])) as nat);
    let f = adpcm_filter(block[0]);
    let filtered = if f == 0 {
        shifted
    } else if f == 1 {
        shifted + div_trunc(60 * old + 32, 64)
    } else if f == 2 {
        shifted + div_trunc(115 * old - 52 * older + 32, 64)
    } else if f == 3 {
        shifted + div_trunc(98 * old - 55 * older + 32, 64)
    } else {
        shifted + div_trunc(122 * old - 60 * older + 32, 64)
    };
    clamp16(filtered)
}

/// The volume-scaled sample: (sample * volume) >> 15, truncated to 16 bits
/// (only -0x8000 * -0x8000 needs the truncation).
pub open spec fn apply_volume_spec(sample: i16, volume: i16) -> i16 {
    ((sample * volume) / 0x8000) as i16
}

/// Scales `sample` by `volume`, both signed 16-bit: (sample * volume) >> 15.
pub fn apply_volume(sample: i16, volume: i16) -> (r: i16)
    ensures
        r == apply_volume_spec(sample, volume),
{
    assert(-0x4000_0000 <= (sample as int) * (volume as int) <= 0x4000_0000) by (nonlinear_arith);
    let p: i32 = (sample as i32) * (volume as i32);
    let q: i32 = if p >= 0 { p / 0x8000 } else { -((-p + 0x7fff) / 0x8000) };
    proof {
        lemma_floor_div_pos(p as int);
    }
    #[verifier::truncate]
    (q as i16)
}

proof fn lemma_floor_div_pos(p: int)
    ensures
        p < 0 ==> p / 0x8000 == -((-p + 0x7fff) / 0x8000),
        -0x4000_0000 <= p <= 0x4000_0000 ==> -0x8000 <= p / 0x8000 <= 0x8000,
{
    if p < 0 {
        let q = (-p + 0x7fff) / 0x8000;
        let r = (-p + 0x7fff) % 0x8000;
        assert(-p + 0x7fff == q * 0x8000 + r);
        assert(p == -q * 0x8000 + (0x7fff - r));
    }
}

/// Truncating division by 64 of a value in the i32 range.
fn div64_trunc(a: i32) -> (r: i32)
    requires
        -0x7fff_0000 <= a <= 0x7fff_0000,
    ensures
        r == div_trunc(a as int, 64),
{
    if a >= 0 { a / 64 } else { -((-a) / 64) }
}

/// Decodes a 16-byte ADPCM block into samples 4..32 of `decoded`, after
/// carrying its last four samples (28..32) over to 0..4 as filter history.
pub fn decode_adpcm_block(block: &[u8], decoded: &mut [i16; 32])
    requires
        block@.len() >= 16,
    ensures
        forall|i: int| 0 <= i < 4 ==> final(decoded)@[i] == old(decoded)@[28 + i],
        forall|i: int| 0 <= i < 28 ==> (#[trigger] final(decoded)@[i + 4]) as int == adpcm_decode(
            block@,
            i,
            final(decoded)@[i + 3] as int,
            final(decoded)@[i + 2] as int,
        ),
{
    let header = block[0];
    let shift_raw = header & 0x0f;
    let shift: u8 = if shift_raw > 12 { 9 } else { shift_raw };
    let filter_raw = (header >> 4) & 0x07;
    let filter: u8 = if filter_raw > 4 { 4 } else { filter_raw };

    let ghost orig = decoded@;
    let mut i: usize = 0;
    while i < 4
        invariant
            i <= 4,
            forall|j: int| 0 <= j < i ==> decoded@[j] == orig[28 + j],
            forall|j: int| 4 <= j < 32 ==> decoded@[j] == orig[j],
        decreases 4 - i,
    {
        decoded[i] = decoded[28 + i];
        i = i + 1;
    }

    let k: u32 = (12 - shift) as u32;
    proof {
        lemma_pow2_le_4096(k);
    }
    let factor: i32 = 1i32 << k;

    let mut idx: usize = 0;
    while idx < 28
        invariant
            idx <= 28,
            shift as int == adpcm_shift(block@[0]),
            filter as int == adpcm_filter(block@[0]),
            header == block@[0],
            block@.len() >= 16,
            k == 12 - shift,
            factor == vstd::arithmetic::power2::pow2(k as nat),
            1 <= factor <= 4096,
            forall|j: int| 0 <= j < 4 ==> decoded@[j] == orig[28 + j],
            forall|j: int| 0 <= j < idx ==> (#[trigger] decoded@[j + 4]) as int == adpcm_decode(
                block@,
                j,
                decoded@[j + 3] as int,
                decoded@[j + 2] as int,
            ),
        decreases 28 - idx,
    {
        let old: i16 = decoded[idx + 3];
        let older: i16 = decoded[idx + 2];
        let clamped = decode_sample(block, idx, factor, filter, old, older);
        let ghost before = decoded@;
        decoded[idx + 4] = clamped;
        proof {
            assert forall|j: int| 0 <= j < idx + 1 implies (#[trigger] decoded@[j + 4]) as int == adpcm_decode(
                block@,
                j,
                decoded@[j + 3] as int,
                decoded@[j + 2] as int,
            ) by {
                if j < idx {
                    assert(decoded@[j + 4] == before[j + 4]);
                    assert(decoded@[j + 3] == before[j + 3]);
                    assert(decoded@[j + 2] == before[j + 2]);
                }
            }
        }
        idx = idx + 1;
    }
}

/// One ADPCM sample: nibble `idx` of `block`, shifted by `factor`, plus
/// the filter's weighted sum of the two previous samples, clamped.
fn decode_sample(block: &[u8], idx: usize, factor: i32, filter: u8, old: i16, older: i16) -> (r: i16)
    requires
        block@.len() >= 16,
        idx < 28,
        factor == vstd::arithmetic::power2::pow2((12 - adpcm_shift(block@[0])) as nat),
        1 <= factor <= 4096,
        filter as int == adpcm_filter(block@[0]),
    ensures
        r as int == adpcm_decode(block@, idx as int, old as int, older as int),
{
    let sample_byte = block[2 + idx / 2];
    let nibble: u8 = if idx % 2 == 0 { sample_byte & 0x0f } else { (sample_byte >> 4) & 0x0f };
    proof { crate::bits::lemma_nibbles(sample_byte); }
    let raw: i32 = if nibble >= 8 { nibble as i32 - 16 } else { nibble as i32 };
    assert(-8 * 4096 <= raw * factor <= 7 * 4096) by (nonlinear_arith)
        requires -8 <= raw <= 7, 1 <= factor <= 4096;
    let shifted: i32 = raw * factor;
    let old: i32 = old as i32;
    let older: i32 = older as i32;

    let filtered: i32 = if filter == 0 {
        shifted
    } else if filter == 1 {
        shifted + div64_trunc(60 * old + 32)
    } else if filter == 2 {
        shifted + div64_trunc(115 * old - 52 * older + 32)
    } else if filter == 3 {
        shifted + div64_trunc(98 * old - 55 * older + 32)
    } else {
        shifted + div64_trunc(122 * old - 60 * older + 32)
    };
    assert(adpcm_nibble(block@, idx as int) == raw);

    if filtered < -0x8000 {
        -0x8000
    } else if filtered > 0x7fff {
        0x7fff
    } else {
        filtered as i16
    }
}


/// The highest start or repeat address a voice can hold (a register value
/// of 0xfffe times 8): a 16-byte block there still ends inside sound RAM.
pub const MAX_VOICE_ADDRESS: u32 = 0x7fff0;

impl Voice {
    pub open spec fn wf(&self) -> bool {
        &&& self.current_address_internal <= 0x7ffff
        &&& self.repeat_address <= MAX_VOICE_ADDRESS
        &&& self.start_address <= MAX_VOICE_ADDRESS
        &&& self.current_buffer_idx < 28
        &&& self.envelope.wf()
    }

    /// Voice `n`, silent, with every register zero.
    pub fn new(n: usize) -> (r: Self)
        ensures
            r.wf(),
            r.n == n,
            r.envelope.phase == AdsrPhase::Release && r.envelope.level == 0,
            r.start_address == 0 && r.repeat_address == 0 && r.current_address_internal == 0,
            r.volume_left == 0 && r.volume_right == 0 && r.sample_rate == 0,
            r.current_buffer_idx == 0 && r.pitch_counter == 0,
    {
        Voice {
            n,
            envelope: AdsrEnvelope::new(),
            sample_rate: 0,
            start_address: 0,
            repeat_address: 0,
            current_address_internal: 0,
            decode_buffer: [0i16; 32],
            pitch_counter: 0,
            current_buffer_idx: 0,
            current_sample: 0,
            volume_left: 0,
            volume_right: 0,
        }
    }

    /// Starts the voice: it plays from its start address, with the first
    /// block decoded and the envelope in Attack.
    pub fn key_on(&mut self, ram: &Vec<u8>)
        requires
            old(self).wf(),
            ram@.len() == SOUND_RAM_SIZE,
        ensures
            final(self).wf(),
            keyed_on(*old(self), *final(self), ram@),
    {
        self.current_address_internal = self.start_address;
        self.pitch_counter = 0;
        self.current_buffer_idx = 0;
        self.decode_next_block(ram);
        self.envelope.key_on();
    }

    /// Releases the voice's envelope.
    pub fn key_off(&mut self)
        ensures
            *final(self) == (Voice { envelope: AdsrEnvelope { phase: AdsrPhase::Release, ..old(self).envelope }, ..*old(self) }),
    {
        self.envelope.key_off();
    }

    /// Decodes the 16-byte block at the current address and moves on. Flag
    /// bit 2 of the block marks the loop start (the repeat address becomes
    /// this block); bit 0 marks the loop end (playback jumps to the repeat
    /// address, and without bit 1 the voice is muted and released).
    /// Otherwise the next block follows, wrapping at 512KB.
    pub fn decode_next_block(&mut self, sound_ram: &Vec<u8>)
        requires
            old(self).wf(),
            old(self).current_address_internal <= MAX_VOICE_ADDRESS,
            sound_ram@.len() == SOUND_RAM_SIZE,
        ensures
            final(self).wf(),
            block_decoded(*old(self), *final(self), sound_ram@),
    {
        let addr = self.current_address_internal as usize;
        let block = slice_block(sound_ram, addr);
        decode_adpcm_block(block.as_slice(), &mut self.decode_buffer);

        let flags = block[1];
        let loop_end = flags & 1 != 0;
        let loop_repeat = flags & 2 != 0;
        let loop_start = flags & 4 != 0;

        if loop_start {
            self.repeat_address = self.current_address_internal;
        }

        if loop_end {
            self.current_address_internal = self.repeat_address;
            if !loop_repeat {
                self.envelope.level = 0;
                self.envelope.phase = AdsrPhase::Release;
            }
        } else {
            let next = self.current_address_internal + 16;
            proof { crate::bits::lemma_and_le(next, 0x7ffff); }
            self.current_address_internal = next & 0x7FFFF;
        }
    }

    /// How far the pitch counter moves per output sample: the sample rate,
    /// at most 0x4000.
    pub open spec fn pitch_step(self) -> int {
        if self.sample_rate < 0x4000 {
            self.sample_rate as int
        } else {
            0x4000
        }
    }

    /// Advances the voice by one output sample: the pitch counter moves by
    /// the pitch step and the envelope is clocked; each whole 0x1000 of the
    /// counter moves on to the next decoded sample, and after the 28th the
    /// next block is decoded.
    pub fn advance(&mut self, sound_ram: &Vec<u8>)
        requires
            old(self).wf(),
            old(self).pitch_counter < 0x1000,
            old(self).current_address_internal <= MAX_VOICE_ADDRESS,
            sound_ram@.len() == SOUND_RAM_SIZE,
        ensures
            final(self).wf(),
            advanced(*old(self), *final(self), sound_ram@),
    {
        let step: u16 = if self.sample_rate < 0x4000 { self.sample_rate } else { 0x4000 };
        self.pitch_counter = self.pitch_counter + step;
        self.envelope.clock();
        let ghost start = *self;
        let ghost clocked = Voice { envelope: old(self).envelope.clocked(), ..*old(self) };
        assert(start == (Voice { pitch_counter: start.pitch_counter, ..clocked }));
        let ghost mut k: int = 0;
        while self.pitch_counter >= 0x1000
            invariant
                self.wf(),
                sound_ram@.len() == SOUND_RAM_SIZE,
                start.current_buffer_idx < 28,
                start.current_address_internal <= MAX_VOICE_ADDRESS,
                start.pitch_counter < 0x5000,
                0 <= k <= 4,
                self.pitch_counter as int == start.pitch_counter - 0x1000 * k,
                self.current_buffer_idx == (start.current_buffer_idx + k) % 28,
                start.current_buffer_idx + k < 28 ==> *self == (Voice {
                    pitch_counter: self.pitch_counter,
                    current_buffer_idx: self.current_buffer_idx,
                    ..start
                }),
                start.current_buffer_idx + k >= 28 ==> block_decoded(
                    start,
                    Voice { pitch_counter: start.pitch_counter, current_buffer_idx: start.current_buffer_idx, ..*self },
                    sound_ram@,
                ),
            decreases self.pitch_counter,
        {
            self.pitch_counter = self.pitch_counter - 0x1000;
            self.current_buffer_idx = self.current_buffer_idx + 1;
            proof {
                k = k + 1;
            }
            if self.current_buffer_idx == 28 {
                self.current_buffer_idx = 0;
                let ghost before = *self;
                self.decode_next_block(sound_ram);
                assert(block_decoded(
                    start,
                    Voice { pitch_counter: start.pitch_counter, current_buffer_idx: start.current_buffer_idx, ..*self },
                    sound_ram@,
                )) by {
                    assert(before == (Voice { pitch_counter: before.pitch_counter, current_buffer_idx: 0, ..start }));
                }
            }
        }
        proof {
            assert(k == start.pitch_counter / 0x1000);
            if start.current_buffer_idx + k >= 28 {
                let after = Voice {
                    pitch_counter: start.pitch_counter,
                    current_buffer_idx: start.current_buffer_idx,
                    ..*self
                };
                let target = Voice {
                    pitch_counter: old(self).pitch_counter,
                    current_buffer_idx: old(self).current_buffer_idx,
                    ..*self
                };
                assert(target == (Voice { pitch_counter: clocked.pitch_counter, ..after }));
                assert(block_decoded(clocked, target, sound_ram@));
            }
        }
    }

    /// The current sample through the envelope and the left and right
    /// volumes (each doubled: the register holds half the volume).
    pub fn get_sample(&self) -> (r: (i16, i16))
        requires
            self.volume_left & 0x8000 == 0,
            self.volume_right & 0x8000 == 0,
        ensures
            ({
                let e = apply_volume_spec(self.current_sample, self.envelope.level);
                r == (apply_volume_spec(e, (self.volume_left * 2) as i16), apply_volume_spec(e, (self.volume_right * 2) as i16))
            }),
    {
        let envelope_sample = apply_volume(self.current_sample, self.envelope.level);
        let vl = self.volume_left;
        let vr = self.volume_right;
        proof { crate::bits::lemma_bit15_u16(vl); }
        proof { crate::bits::lemma_bit15_u16(vr); }
        let actual_volume_left = (vl * 2) as i16;
        let actual_volume_right = (vr * 2) as i16;
        (apply_volume(envelope_sample, actual_volume_left), apply_volume(envelope_sample, actual_volume_right))
    }

    /// The four samples the interpolation reads, from the current index on.
    pub fn last4_samples(&self) -> (r: [i16; 4])
        requires
            self.current_buffer_idx < 29,
        ensures
            forall|i: int| 0 <= i < 4 ==> r@[i] == self.decode_buffer@[self.current_buffer_idx + i],
    {
        let i = self.current_buffer_idx;
        [self.decode_buffer[i], self.decode_buffer[i + 1], self.decode_buffer[i + 2], self.decode_buffer[i + 3]]
    }
}

/// The 16 bytes of sound RAM at `addr`.
fn slice_block(ram: &Vec<u8>, addr: usize) -> (r: Vec<u8>)
    requires
        addr + 16 <= ram@.len(),
        ram@.len() == SOUND_RAM_SIZE,
    ensures
        r@ == ram@.subrange(addr as int, addr + 16),
{
    let mut r: Vec<u8> = Vec::new();
    let mut i: usize = 0;
    while i < 16
        invariant
            i <= 16,
            addr + 16 <= ram@.len(),
            ram@.len() == SOUND_RAM_SIZE,
            r@ == ram@.subrange(addr as int, addr + i),
        decreases 16 - i,
    {
        r.push(ram[addr + i]);
        i = i + 1;
    }
    r
}

/// The sound processing unit: 512KB of sound RAM, 24 voices and the
/// control registers.
pub struct Spu {
    pub volume_left: u16,
    pub volume_right: u16,
    pub reverb_vol_left: u16,
    pub reverb_vol_right: u16,
    pub data_start_address: u32,
    pub data_start_address_internal: u32,
    pub ram: Vec<u8>,
    pub voices: Vec<Voice>,
    pub spucnt: u16,
    pub key_on_register: u32,
    pub key_off_register: u32,
    pub transfer_control: u16,
    pub reverb_mode: u32,
}

pub const SPU_BASE: u32 = 0x1f80_1c00;
pub const SPU_END: u32 = 0x1f80_2000;

/// The sum of the left (`left`) or right samples of the first `n` voices.
pub open spec fn mixed(voices: Seq<Voice>, n: int, left: bool) -> int
    decreases n,
{
    if n <= 0 {
        0
    } else {
        let v = voices[n - 1];
        let e = apply_volume_spec(v.current_sample, v.envelope.level);
        let s = if left { apply_volume_spec(e, (v.volume_left * 2) as i16) } else {
            apply_volume_spec(e, (v.volume_right * 2) as i16)
        };
        mixed(voices, n - 1, left) + s
    }
}

/// Whether a write of `value` (of `size`) at `address` is one the SPU
/// handles: voice start and repeat addresses must leave room for a block,
/// the key registers take half-words, and the transfer FIFO takes
/// half-words or words that fit in sound RAM.
pub open spec fn spu_write_ok(spu: Spu, address: u32, value: u32, size: AccessSize) -> bool {
    &&& SPU_BASE <= address < SPU_END
    &&& (address <= 0x1f80_1d7f && (address & 0xf == 6 || address & 0xf == 0xe)) ==> value & 0xffff <= 0xfffe
    &&& (address == 0x1f80_1d88 || address == 0x1f80_1d8a || address == 0x1f80_1d8c || address == 0x1f80_1d8e)
        ==> size == AccessSize::HalfWord
    &&& address == 0x1f80_1da8 ==> match size {
        AccessSize::Byte => false,
        AccessSize::HalfWord => spu.data_start_address_internal + 2 <= SOUND_RAM_SIZE,
        AccessSize::Word => spu.data_start_address_internal + 4 <= SOUND_RAM_SIZE,
    }
}

impl Spu {
    pub open spec fn wf(&self) -> bool {
        &&& self.ram@.len() == SOUND_RAM_SIZE
        &&& self.voices@.len() == NUM_VOICES
        &&& forall|i: int| 0 <= i < NUM_VOICES ==> (#[trigger] self.voices@[i]).wf() && self.voices@[i].n == i
            && self.voices@[i].start_address <= MAX_VOICE_ADDRESS
        &&& self.data_start_address_internal <= SOUND_RAM_SIZE
    }

    /// The SPU at reset: silent, sound RAM zeroed.
    pub fn new() -> (r: Self)
        ensures
            r.wf(),
            r.volume_left == 0 && r.volume_right == 0,
            r.key_on_register == 0 && r.key_off_register == 0,
            r.spucnt == 0 && r.transfer_control == 0 && r.reverb_mode == 0,
            r.data_start_address == 0,
            forall|i: int| 0 <= i < SOUND_RAM_SIZE ==> r.ram@[i] == 0,
    {
        let mut voices: Vec<Voice> = Vec::new();
        let mut n: usize = 0;
        while n < NUM_VOICES
            invariant
                n <= NUM_VOICES,
                voices@.len() == n,
                forall|i: int| 0 <= i < n ==> (#[trigger] voices@[i]).wf() && voices@[i].n == i
                    && voices@[i].start_address <= MAX_VOICE_ADDRESS,
            decreases NUM_VOICES - n,
        {
            voices.push(Voice::new(n));
            n = n + 1;
        }
        Spu {
            volume_left: 0,
            volume_right: 0,
            reverb_vol_left: 0,
            reverb_vol_right: 0,
            data_start_address: 0,
            data_start_address_internal: 0,
            ram: vec![0u8; SOUND_RAM_SIZE],
            voices,
            spucnt: 0,
            key_on_register: 0,
            key_off_register: 0,
            transfer_control: 0,
            reverb_mode: 0,
        }
    }

    /// One output sample: every voice advances by a sample, then the voices
    /// are mixed.
    pub fn tick(&mut self) -> (r: (i16, i16))
        requires
            old(self).wf(),
            forall|i: int|
                0 <= i < NUM_VOICES ==> (#[trigger] old(self).voices@[i]).pitch_counter < 0x1000
                    && old(self).voices@[i].current_address_internal <= MAX_VOICE_ADDRESS
                    && old(self).voices@[i].volume_left & 0x8000 == 0 && old(self).voices@[i].volume_right & 0x8000
                    == 0,
        ensures
            final(self).wf(),
            *final(self) == (Spu { voices: final(self).voices, ..*old(self) }),
            final(self).voices@.len() == NUM_VOICES,
            forall|i: int|
                0 <= i < NUM_VOICES ==> advanced(old(self).voices@[i], #[trigger] final(self).voices@[i], old(self).ram@),
            r.0 == apply_volume_spec(clamp16(mixed(final(self).voices@, 24, true)) as i16, old(self).volume_left as i16),
            r.1 == apply_volume_spec(clamp16(mixed(final(self).voices@, 24, false)) as i16, old(self).volume_right as i16),
    {
        let mut i: usize = 0;
        while i < NUM_VOICES
            invariant
                self.wf(),
                i <= NUM_VOICES,
                *self == (Spu { voices: self.voices, ..*old(self) }),
                forall|j: int|
                    0 <= j < i ==> advanced(old(self).voices@[j], #[trigger] self.voices@[j], old(self).ram@),
                forall|j: int| i <= j < NUM_VOICES ==> #[trigger] self.voices@[j] == old(self).voices@[j],
                forall|j: int|
                    0 <= j < NUM_VOICES ==> (#[trigger] self.voices@[j]).volume_left & 0x8000 == 0
                        && self.voices@[j].volume_right & 0x8000 == 0,
                forall|j: int|
                    0 <= j < NUM_VOICES ==> (#[trigger] old(self).voices@[j]).pitch_counter < 0x1000
                        && old(self).voices@[j].current_address_internal <= MAX_VOICE_ADDRESS,
            decreases NUM_VOICES - i,
        {
            let mut v = self.voices[i];
            assert(v == old(self).voices@[i as int]);
            v.advance(&self.ram);
            proof {
                assert(v.volume_left == old(self).voices@[i as int].volume_left);
                assert(v.volume_right == old(self).voices@[i as int].volume_right);
                assert(v.n == old(self).voices@[i as int].n);
                assert(v.start_address == old(self).voices@[i as int].start_address);
            }
            self.voices.set(i, v);
            i = i + 1;
        }
        self.mix()
    }

    /// Mixes the voices' current samples, clamps the sums to 16 bits and
    /// applies the main volume.
    pub fn mix(&self) -> (r: (i16, i16))
        requires
            self.wf(),
            forall|i: int| 0 <= i < NUM_VOICES ==> (#[trigger] self.voices@[i]).volume_left & 0x8000 == 0
                && self.voices@[i].volume_right & 0x8000 == 0,
        ensures
            r.0 == apply_volume_spec(clamp16(mixed(self.voices@, 24, true)) as i16, self.volume_left as i16),
            r.1 == apply_volume_spec(clamp16(mixed(self.voices@, 24, false)) as i16, self.volume_right as i16),
    {
        let mut left: i32 = 0;
        let mut right: i32 = 0;
        let mut i: usize = 0;
        while i < NUM_VOICES
            invariant
                self.wf(),
                i <= NUM_VOICES,
                forall|j: int| 0 <= j < NUM_VOICES ==> (#[trigger] self.voices@[j]).volume_left & 0x8000 == 0
                    && self.voices@[j].volume_right & 0x8000 == 0,
                left == mixed(self.voices@, i as int, true),
                right == mixed(self.voices@, i as int, false),
                -0x8000 * i <= left <= 0x7fff * i,
                -0x8000 * i <= right <= 0x7fff * i,
            decreases NUM_VOICES - i,
        {
            let (l, r) = self.voices[i].get_sample();
            left = left + l as i32;
            right = right + r as i32;
            i = i + 1;
        }
        let cl: i16 = if left < -0x8000 { -0x8000 } else if left > 0x7fff { 0x7fff } else { left as i16 };
        let cr: i16 = if right < -0x8000 { -0x8000 } else if right > 0x7fff { 0x7fff } else { right as i16 };
        (apply_volume(cl, self.volume_left as i16), apply_volume(cr, self.volume_right as i16))
    }

    /// The value a read of an SPU register gives: a voice's volumes,
    /// sample rate, start and repeat addresses (over 8), ADSR settings
    /// halves and envelope level; the key on/off and reverb mode halves; the
    /// transfer address (over 8); SPUCNT; the transfer control; SPUSTAT
    /// (SPUCNT bits 4..0, with bit 5 moved to 7); the main volume; 0
    /// elsewhere.
    pub open spec fn read_value(&self, address: u32) -> u32 {
        if address <= 0x1f80_1d7f {
            let v = self.voices@[((address - SPU_BASE) / 16) as int];
            let reg = address & 0xf;
            if reg == 0 {
                v.volume_left as u32
            } else if reg == 2 {
                v.volume_right as u32
            } else if reg == 4 {
                v.sample_rate as u32
            } else if reg == 6 {
                v.start_address >> 3
            } else if reg == 8 {
                (v.envelope.settings & 0xffff) as u16 as u32
            } else if reg == 0xa {
                (v.envelope.settings >> 16) as u16 as u32
            } else if reg == 0xc {
                v.envelope.level as u32
            } else if reg == 0xe {
                v.repeat_address >> 3
            } else {
                0
            }
        } else if address == 0x1f80_1d88 {
            self.key_on_register & 0xffff
        } else if address == 0x1f80_1d8a {
            (self.key_on_register >> 16) & 0xffff
        } else if address == 0x1f80_1d8c {
            self.key_off_register & 0xffff
        } else if address == 0x1f80_1d8e {
            self.key_off_register >> 16
        } else if address == 0x1f80_1d98 {
            self.reverb_mode & 0xffff
        } else if address == 0x1f80_1d9a {
            self.reverb_mode >> 16
        } else if address == 0x1f80_1da6 {
            self.data_start_address >> 3
        } else if address == 0x1f80_1daa {
            self.spucnt as u32
        } else if address == 0x1f80_1dac {
            self.transfer_control as u32
        } else if address == 0x1f80_1dae {
            ((self.spucnt & 0x1f) | ((self.spucnt & 0x20) << 2)) as u32
        } else if address == 0x1f80_1db8 {
            (self.volume_left as u32) | ((self.volume_right as u32) << 16)
        } else {
            0
        }
    }

    /// Reads an SPU register: the voice registers (volumes, sample rate,
    /// addresses divided by 8, the ADSR settings and level), the key
    /// registers, the reverb mode, the transfer address, SPUCNT, the
    /// transfer control, SPUSTAT (SPUCNT bits 5..0 with bit 5 moved to 7)
    /// and the main volume. Other registers read 0.
    pub fn read(&self, address: u32, _size: AccessSize) -> (r: u32)
        requires
            self.wf(),
            SPU_BASE <= address < SPU_END,
        ensures
            r == self.read_value(address),
    {
        if address <= 0x1f80_1d7f {
            let voice_index = ((address - SPU_BASE) / 16) as usize;
            let v = &self.voices[voice_index];
            let reg = address & 0xf;
            if reg == 0 {
                v.volume_left as u32
            } else if reg == 2 {
                v.volume_right as u32
            } else if reg == 4 {
                v.sample_rate as u32
            } else if reg == 6 {
                v.start_address >> 3
            } else if reg == 8 {
                v.envelope.read_low() as u32
            } else if reg == 0xa {
                v.envelope.read_high() as u32
            } else if reg == 0xc {
                #[verifier::truncate]
                (v.envelope.level as u32)
            } else if reg == 0xe {
                v.repeat_address >> 3
            } else {
                0
            }
        } else if address == 0x1f80_1d88 {
            self.key_on_register & 0xffff
        } else if address == 0x1f80_1d8a {
            (self.key_on_register >> 16) & 0xffff
        } else if address == 0x1f80_1d8c {
            self.key_off_register & 0xffff
        } else if address == 0x1f80_1d8e {
            self.key_off_register >> 16
        } else if address == 0x1f80_1d98 {
            self.reverb_mode & 0xffff
        } else if address == 0x1f80_1d9a {
            self.reverb_mode >> 16
        } else if address == 0x1f80_1da6 {
            self.data_start_address >> 3
        } else if address == 0x1f80_1daa {
            self.spucnt as u32
        } else if address == 0x1f80_1dac {
            self.transfer_control as u32
        } else if address == 0x1f80_1dae {
            let b7 = (self.spucnt & 0x20) << 2;
            ((self.spucnt & 0x1f) | b7) as u32
        } else if address == 0x1f80_1db8 {
            (self.volume_left as u32) | ((self.volume_right as u32) << 16)
        } else {
            0
        }
    }

    /// Keys on (`on`) or off the voices `first..first + count` whose bit is
    /// set in `value`.
    fn key_voices(&mut self, value: u32, first: usize, count: usize, on: bool)
        requires
            old(self).wf(),
            first + count <= NUM_VOICES,
            count <= 16,
        ensures
            final(self).wf(),
            voices_keyed(old(self).voices@, final(self).voices@, value, first as int, count as int, on, old(self).ram@),
            *final(self) == (Spu { voices: final(self).voices, ..*old(self) }),
    {
        let mut j: usize = 0;
        while j < count
            invariant
                self.wf(),
                first + count <= NUM_VOICES,
                count <= 16,
                j <= count,
                *self == (Spu { voices: self.voices, ..*old(self) }),
                voices_keyed(old(self).voices@, self.voices@, value, first as int, j as int, on, old(self).ram@),
            decreases count - j,
        {
            let ghost prev = self.voices@;
            let idx = first + j;
            assert(key_bit(value, first as int, count as int, idx as int) == (value & (1u32 << j as u32) != 0));
            if value & (1u32 << j as u32) != 0 {
                let mut v = self.voices[idx];
                assert(!key_bit(value, first as int, j as int, idx as int));
                assert(v == old(self).voices@[idx as int]);
                if on {
                    v.key_on(&self.ram);
                } else {
                    v.key_off();
                }
                self.voices.set(idx, v);
            }
            proof {
                let next = (j + 1) as int;
                assert forall|i: int|
                    0 <= i < old(self).voices@.len() && !key_bit(value, first as int, next, i) implies #[trigger] self.voices@[i]
                    == old(self).voices@[i] by {
                    assert(!key_bit(value, first as int, j as int, i));
                }
                assert forall|i: int| #[trigger] key_bit(value, first as int, next, i) implies (if on {
                    keyed_on(old(self).voices@[i], self.voices@[i], old(self).ram@)
                } else {
                    self.voices@[i] == (Voice {
                        envelope: AdsrEnvelope { phase: AdsrPhase::Release, ..old(self).voices@[i].envelope },
                        ..old(self).voices@[i]
                    })
                }) by {
                    if i < idx {
                        assert(key_bit(value, first as int, j as int, i));
                        assert(self.voices@[i] == prev[i]);
                    }
                }
            }
            j = j + 1;
        }
    }

    /// What a write of `value` to an SPU register leaves (`after`): a
    /// voice register as `voice_written` says; the main and reverb volumes;
    /// the key on/off registers, whose set bits key on or off voices 0..16
    /// (low half-word) or 16..24 (high half-word); the reverb mode halves;
    /// the transfer address (times 8); the transfer FIFO, which stores into
    /// sound RAM at the transfer address and advances it (a word wraps at
    /// the end of RAM); SPUCNT; the transfer control. Other registers
    /// ignore writes.
    pub open spec fn write_effect(&self, after: Spu, address: u32, value: u32, size: AccessSize) -> bool {
        let low = value & 0xffff;
        if address <= 0x1f80_1d7f {
            let i = ((address - SPU_BASE) / 16) as int;
            &&& after == (Spu { voices: after.voices, ..*self })
            &&& after.voices@ == self.voices@.update(i, voice_written(self.voices@[i], address & 0xf, value))
        } else if address == 0x1f80_1d80 {
            after == (Spu { volume_left: low as u16, ..*self })
        } else if address == 0x1f80_1d82 {
            after == (Spu { volume_right: low as u16, ..*self })
        } else if address == 0x1f80_1d84 {
            after == (Spu { reverb_vol_left: low as u16, ..*self })
        } else if address == 0x1f80_1d86 {
            after == (Spu { reverb_vol_right: low as u16, ..*self })
        } else if address == 0x1f80_1d88 {
            &&& after == (Spu {
                voices: after.voices,
                key_on_register: (self.key_on_register & 0xffff_0000) | low,
                ..*self
            })
            &&& voices_keyed(self.voices@, after.voices@, value, 0, 16, true, self.ram@)
        } else if address == 0x1f80_1d8a {
            &&& after == (Spu {
                voices: after.voices,
                key_on_register: (self.key_on_register & 0x0000_ffff) | (value << 16),
                ..*self
            })
            &&& voices_keyed(self.voices@, after.voices@, value, 16, 8, true, self.ram@)
        } else if address == 0x1f80_1d8c {
            &&& after == (Spu {
                voices: after.voices,
                key_off_register: (self.key_off_register & 0xffff_0000) | low,
                ..*self
            })
            &&& voices_keyed(self.voices@, after.voices@, value, 0, 16, false, self.ram@)
        } else if address == 0x1f80_1d8e {
            &&& after == (Spu {
                voices: after.voices,
                key_off_register: (self.key_off_register & 0x0000_ffff) | (value << 16),
                ..*self
            })
            &&& voices_keyed(self.voices@, after.voices@, value, 16, 8, false, self.ram@)
        } else if address == 0x1f80_1d98 {
            after == (Spu { reverb_mode: (self.reverb_mode & 0xffff_0000) | low, ..*self })
        } else if address == 0x1f80_1d9a {
            after == (Spu { reverb_mode: (self.reverb_mode & 0x0000_ffff) | (value << 16), ..*self })
        } else if address == 0x1f80_1da6 {
            after == (Spu { data_start_address: (low * 8) as u32, data_start_address_internal: (low * 8) as u32, ..*self })
        } else if address == 0x1f80_1da8 {
            let at = self.data_start_address_internal;
            &&& after == (Spu {
                ram: after.ram,
                data_start_address_internal: after.data_start_address_internal,
                ..*self
            })
            &&& after.ram@ == crate::memory::write_le(self.ram@, at as int, value, size)
            &&& after.data_start_address_internal == (if size == AccessSize::HalfWord {
                at + 2
            } else if at + 4 >= SOUND_RAM_SIZE {
                0
            } else {
                at + 4
            })
        } else if address == 0x1f80_1daa {
            after == (Spu { spucnt: low as u16, ..*self })
        } else if address == 0x1f80_1dac {
            after == (Spu { transfer_control: low as u16, ..*self })
        } else {
            after == *self
        }
    }

    /// Writes an SPU register. Voice registers set the volumes, sample
    /// rate, start and repeat addresses (times 8) and ADSR settings; the key
    /// registers start (key on) or release (key off) the voices of their set
    /// bits, 16 per low half-word and 8 per high one; the transfer FIFO
    /// stores into sound RAM at the transfer address, which advances.
    pub fn write(&mut self, address: u32, value: u32, size: AccessSize)
        requires
            old(self).wf(),
            spu_write_ok(*old(self), address, value, size),
        ensures
            final(self).wf(),
            old(self).write_effect(*final(self), address, value, size),
    {
        if address <= 0x1f80_1d7f {
            let voice_index = ((address - SPU_BASE) / 16) as usize;
            let mut v = self.voices[voice_index];
            let reg = address & 0xf;
            let ghost o = v;
            if reg == 0 {
                v.volume_left = (value & 0xffff) as u16;
            } else if reg == 2 {
                v.volume_right = (value & 0xffff) as u16;
            } else if reg == 4 {
                v.sample_rate = (value & 0xffff) as u16;
            } else if reg == 6 {
                let a = value & 0xffff;
                proof { crate::bits::lemma_times8(a); }
                v.start_address = a << 3;
            } else if reg == 8 {
                v.envelope.write_low(value as u16);
            } else if reg == 0xa {
                v.envelope.write_high(value as u16);
            } else if reg == 0xe {
                let a = value & 0xffff;
                proof { crate::bits::lemma_times8(a); }
                v.repeat_address = a << 3;
            }
            self.voices.set(voice_index, v);
        } else if address == 0x1f80_1d80 {
            self.volume_left = (value & 0xffff) as u16;
        } else if address == 0x1f80_1d82 {
            self.volume_right = (value & 0xffff) as u16;
        } else if address == 0x1f80_1d84 {
            self.reverb_vol_left = (value & 0xffff) as u16;
        } else if address == 0x1f80_1d86 {
            self.reverb_vol_right = (value & 0xffff) as u16;
        } else if address == 0x1f80_1d88 {
            self.key_voices(value, 0, 16, true);
            self.key_on_register = (self.key_on_register & 0xffff_0000) | (value & 0xffff);
        } else if address == 0x1f80_1d8a {
            self.key_voices(value, 16, 8, true);
            self.key_on_register = (self.key_on_register & 0x0000_ffff) | (value << 16);
        } else if address == 0x1f80_1d8c {
            self.key_voices(value, 0, 16, false);
            self.key_off_register = (self.key_off_register & 0xffff_0000) | (value & 0xffff);
        } else if address == 0x1f80_1d8e {
            self.key_voices(value, 16, 8, false);
            self.key_off_register = (self.key_off_register & 0x0000_ffff) | (value << 16);
        } else if address == 0x1f80_1d98 {
            self.reverb_mode = (self.reverb_mode & 0xffff_0000) | (value & 0xffff);
        } else if address == 0x1f80_1d9a {
            self.reverb_mode = (self.reverb_mode & 0x0000_ffff) | (value << 16);
        } else if address == 0x1f80_1da6 {
            let a = value & 0xffff;
            proof { crate::bits::lemma_and_le(value, 0xffff); }
            self.data_start_address = a * 8;
            self.data_start_address_internal = self.data_start_address;
        } else if address == 0x1f80_1da8 {
            let at = self.data_start_address_internal as usize;
            crate::memory::store_le(&mut self.ram, at, value, size);
            match size {
                AccessSize::HalfWord => {
                    self.data_start_address_internal = self.data_start_address_internal + 2;
                },
                _ => {
                    self.data_start_address_internal = self.data_start_address_internal + 4;
                    if self.data_start_address_internal >= 512 * 1024 {
                        self.data_start_address_internal = 0;
                    }
                },
            }
        } else if address == 0x1f80_1daa {
            self.spucnt = (value & 0xffff) as u16;
        } else if address == 0x1f80_1dac {
            self.transfer_control = (value & 0xffff) as u16;
        }
    }
}

proof fn lemma_pow2_le_4096(k: u32)
    requires
        k <= 12,
    ensures
        1i32 << k == vstd::arithmetic::power2::pow2(k as nat),
        1 <= vstd::arithmetic::power2::pow2(k as nat) <= 4096,
{
    vstd::arithmetic::power2::lemma2_to64();
    crate::bits::lemma_small_shifts();
    if k == 0 {} else if k == 1 {} else if k == 2 {} else if k == 3 {} else if k == 4 {}
    else if k == 5 {} else if k == 6 {} else if k == 7 {} else if k == 8 {} else if k == 9 {}
    else if k == 10 {} else if k == 11 {} else {}
}

} // verus!
