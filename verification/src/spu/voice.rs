use vstd::prelude::*;

verus! {

/// Whether the envelope level rises or falls.
#[derive(Debug, Clone, Copy, PartialEq, Eq, Structural)]
pub enum Direction {
    Increasing,
    Decreasing,
}

/// Whether the envelope changes by a fixed step or by a step proportional
/// to its level.
#[derive(Debug, Clone, Copy, PartialEq, Eq, Structural)]
pub enum ChangeRate {
    Linear,
    Exponential,
}

/// The phase of an ADSR envelope.
#[derive(Debug, Clone, Copy, PartialEq, Eq, Structural)]
pub enum AdsrPhase {
    Attack,
    Decay,
    Sustain,
    Release,
}

/// An ADSR (attack, decay, sustain, release) volume envelope, driven by a
/// 32-bit settings register.
#[derive(Debug, Clone, Copy, PartialEq, Eq, Structural)]
pub struct AdsrEnvelope {
    pub phase: AdsrPhase,
    pub level: i16,
    pub sustain_level: u16,
    pub counter: u32,
    pub settings: u32,
}

/// The level at which Decay gives way to Sustain: (settings bits 3..0 + 1)
/// times 0x800.
pub open spec fn sustain_level_spec(settings: u32) -> int {
    ((settings & 0xf) + 1) * 0x800
}

pub open spec fn direction_spec(phase: AdsrPhase, settings: u32) -> Direction {
    match phase {
        AdsrPhase::Attack => Direction::Increasing,
        AdsrPhase::Decay | AdsrPhase::Release => Direction::Decreasing,
        AdsrPhase::Sustain => if settings & 0x4000_0000 != 0 {
            Direction::Decreasing
        } else {
            Direction::Increasing
        },
    }
}

pub open spec fn rate_spec(phase: AdsrPhase, settings: u32) -> ChangeRate {
    let bit: u32 = match phase {
        AdsrPhase::Decay => 0,
        AdsrPhase::Release => 0x20_0000,
        AdsrPhase::Attack => 0x8000,
        AdsrPhase::Sustain => 0x8000_0000,
    };
    if phase == AdsrPhase::Decay || settings & bit != 0 {
        ChangeRate::Exponential
    } else {
        ChangeRate::Linear
    }
}

/// The 5-bit shift of the phase: settings bits 14..10 (attack), 8..4
/// (decay), 28..24 (sustain) or 20..16 (release).
pub open spec fn shift_spec(phase: AdsrPhase, settings: u32) -> u8 {
    let bit: u32 = match phase {
        AdsrPhase::Attack => 10,
        AdsrPhase::Decay => 4,
        AdsrPhase::Sustain => 24,
        AdsrPhase::Release => 16,
    };
    ((settings >> bit) & 0x1f) as u8
}

/// The 2-bit step of the phase: settings bits 9..8 (attack), 21..20
/// (sustain), 0 otherwise.
pub open spec fn step_spec(phase: AdsrPhase, settings: u32) -> u8 {
    match phase {
        AdsrPhase::Decay | AdsrPhase::Release => 0,
        AdsrPhase::Attack => ((settings >> 8) & 3) as u8,
        AdsrPhase::Sustain => ((settings >> 20) & 3) as u8,
    }
}

/// The phase after the transitions checked at each clock: Attack ends at
/// level 0x7fff, and Decay ends at or below the sustain level.
pub open spec fn phase_after_transition(phase: AdsrPhase, level: i16, settings: u32) -> AdsrPhase {
    let p1 = if phase == AdsrPhase::Attack && level == 0x7fff { AdsrPhase::Decay } else { phase };
    if p1 == AdsrPhase::Decay && (level as u16) as int <= sustain_level_spec(settings) {
        AdsrPhase::Sustain
    } else {
        p1
    }
}

/// The shift in effect: exponential increases above level 0x6000 go 4
/// times slower.
pub open spec fn effective_shift(phase: AdsrPhase, level: i16, settings: u32) -> int {
    let s = shift_spec(phase, settings) as int;
    if direction_spec(phase, settings) == Direction::Increasing && rate_spec(phase, settings)
        == ChangeRate::Exponential && level > 0x6000 {
        s + 2
    } else {
        s
    }
}

/// The level change of one update: 7 - step (negated minus one when
/// decreasing), scaled up for shifts below 11, and proportional to the
/// level for exponential decreases.
pub open spec fn level_step(phase: AdsrPhase, level: i16, settings: u32) -> int {
    let dir = direction_spec(phase, settings);
    let base: int = 7 - step_spec(phase, settings);
    let signed = if dir == Direction::Decreasing { -base - 1 } else { base };
    let sh = effective_shift(phase, level, settings);
    let scaled = if sh < 11 { signed * vstd::arithmetic::power2::pow2((11 - sh) as nat) } else { signed };
    if dir == Direction::Decreasing && rate_spec(phase, settings) == ChangeRate::Exponential {
        (scaled * level) / 0x8000
    } else {
        scaled
    }
}

/// How much the counter advances per clock: 0x8000 >> (shift - 11) for
/// shifts of 11 and above, at least 1 except at the slowest setting.
pub open spec fn counter_increment(phase: AdsrPhase, level: i16, settings: u32) -> int {
    let sh = effective_shift(phase, level, settings);
    let cs = if sh > 11 { sh - 11 } else { 0 };
    let inc: int = if cs < 16 { (0x8000nat / vstd::arithmetic::power2::pow2(cs as nat)) as int } else { 0 };
    if inc == 0 && (level_step(phase, level, settings) != 3 || shift_spec(phase, settings) != 31) {
        1
    } else {
        inc
    }
}

pub open spec fn clamp(v: int, lo: int, hi: int) -> int {
    if v < lo { lo } else if v > hi { hi } else { v }
}

impl AdsrEnvelope {
    pub open spec fn wf(&self) -> bool {
        self.counter < 0x8000
    }

    /// The envelope after one sample clock: the phase transitions, the
    /// counter advances, and when it reaches 0x8000 it resets and the level
    /// moves by one step, clamped to the i16 range when increasing and to
    /// 0..0x7fff when decreasing.
    pub open spec fn clocked(self) -> AdsrEnvelope {
        let phase = phase_after_transition(self.phase, self.level, self.settings);
        let counter = self.counter + counter_increment(phase, self.level, self.settings);
        let new_level = self.level + level_step(phase, self.level, self.settings);
        if counter < 0x8000 {
            AdsrEnvelope { phase, counter: counter as u32, ..self }
        } else {
            AdsrEnvelope {
                phase,
                counter: 0,
                level: if direction_spec(phase, self.settings) == Direction::Increasing {
                    clamp(new_level, -0x8000, 0x7fff) as i16
                } else {
                    clamp(new_level, 0, 0x7fff) as i16
                },
                ..self
            }
        }
    }

    /// An envelope in Release at level 0, with all settings 0.
    pub fn new() -> (r: Self)
        ensures
            r.wf(),
            r.phase == AdsrPhase::Release,
            r.level == 0,
            r.counter == 0,
            r.settings == 0,
    {
        AdsrEnvelope { phase: AdsrPhase::Release, level: 0, sustain_level: 0, counter: 0, settings: 0 }
    }

    /// Writes the low half of the settings register.
    pub fn write_low(&mut self, value: u16)
        ensures
            *final(self) == (AdsrEnvelope { settings: (old(self).settings & 0xffff_0000) | value as u32, ..*old(self) }),
    {
        self.settings = (self.settings & 0xFFFF_0000) | (value as u32);
    }

    /// Writes the high half of the settings register.
    pub fn write_high(&mut self, value: u16)
        ensures
            *final(self) == (AdsrEnvelope {
                settings: (old(self).settings & 0x0000_ffff) | ((value as u32) << 16),
                ..*old(self)
            }),
    {
        self.settings = (self.settings & 0x0000_FFFF) | ((value as u32) << 16);
    }

    /// The low half of the settings register.
    pub fn read_low(&self) -> (r: u16)
        ensures
            r == (self.settings & 0xffff) as u16,
    {
        (self.settings & 0xFFFF) as u16
    }

    /// The high half of the settings register.
    pub fn read_high(&self) -> (r: u16)
        ensures
            r == (self.settings >> 16) as u16,
    {
        (self.settings >> 16) as u16
    }

    /// Starts the envelope: Attack from level 0.
    pub fn key_on(&mut self)
        ensures
            *final(self) == (AdsrEnvelope { level: 0, phase: AdsrPhase::Attack, ..*old(self) }),
    {
        self.level = 0;
        self.phase = AdsrPhase::Attack;
    }

    /// Releases the envelope.
    pub fn key_off(&mut self)
        ensures
            *final(self) == (AdsrEnvelope { phase: AdsrPhase::Release, ..*old(self) }),
    {
        self.phase = AdsrPhase::Release;
    }

    pub fn sustain_level(&self) -> (r: u16)
        ensures
            r == sustain_level_spec(self.settings),
    {
        let s = self.settings;
        proof { crate::bits::lemma_and_le(s, 0xf); }
        (((s & 0xf) + 1) * 0x800) as u16
    }

    pub fn check_for_phase_transition(&mut self)
        ensures
            *final(self) == (AdsrEnvelope {
                phase: phase_after_transition(old(self).phase, old(self).level, old(self).settings),
                ..*old(self)
            }),
    {
        if self.phase == AdsrPhase::Attack && self.level == 0x7FFF {
            self.phase = AdsrPhase::Decay;
        }
        if self.phase == AdsrPhase::Decay && (self.level as u16) <= self.sustain_level() {
            self.phase = AdsrPhase::Sustain;
        }
    }

    pub fn direction(&self) -> (r: Direction)
        ensures
            r == direction_spec(self.phase, self.settings),
    {
        match self.phase {
            AdsrPhase::Attack => Direction::Increasing,
            AdsrPhase::Decay | AdsrPhase::Release => Direction::Decreasing,
            AdsrPhase::Sustain => if self.settings & 0x4000_0000 != 0 {
                Direction::Decreasing
            } else {
                Direction::Increasing
            },
        }
    }

    pub fn change_rate(&self) -> (r: ChangeRate)
        ensures
            r == rate_spec(self.phase, self.settings),
    {
        match self.phase {
            AdsrPhase::Decay => ChangeRate::Exponential,
            AdsrPhase::Release => if self.settings & 0x20_0000 != 0 {
                ChangeRate::Exponential
            } else {
                ChangeRate::Linear
            },
            AdsrPhase::Attack => if self.settings & 0x8000 != 0 {
                ChangeRate::Exponential
            } else {
                ChangeRate::Linear
            },
            AdsrPhase::Sustain => if self.settings & 0x8000_0000 != 0 {
                ChangeRate::Exponential
            } else {
                ChangeRate::Linear
            },
        }
    }

    pub fn shift(&self) -> (r: u8)
        ensures
            r == shift_spec(self.phase, self.settings),
            r < 32,
    {
        let bit: u32 = match self.phase {
            AdsrPhase::Attack => 10,
            AdsrPhase::Decay => 4,
            AdsrPhase::Sustain => 24,
            AdsrPhase::Release => 16,
        };
        let s = self.settings;
        proof { crate::bits::lemma_field_le(s, bit as u32, 0x1f); }
        ((s >> bit) & 0x1f) as u8
    }

    pub fn step(&self) -> (r: u8)
        ensures
            r == step_spec(self.phase, self.settings),
            r < 4,
    {
        let s = self.settings;
        proof { crate::bits::lemma_field_le(s, 8, 3); crate::bits::lemma_field_le(s, 20, 3); }
        let val: u32 = match self.phase {
            AdsrPhase::Decay => 0,
            AdsrPhase::Release => 0,
            AdsrPhase::Attack => (s >> 8) & 3,
            AdsrPhase::Sustain => (s >> 20) & 3,
        };
        val as u8
    }

    /// Advances the envelope by one sample clock. After the phase
    /// transitions, the counter advances; when it reaches 0x8000 it resets
    /// and the level moves by one step, clamped to the i16 range when
    /// increasing and to 0..0x7fff when decreasing.
    pub fn clock(&mut self)
        requires
            old(self).wf(),
        ensures
            final(self).wf(),
            *final(self) == old(self).clocked(),
    {
        self.check_for_phase_transition();
        let ghost phase = self.phase;
        let ghost lvl = self.level;
        let ghost st = self.settings;

        let direction = self.direction();
        let rate = self.change_rate();
        let shift = self.shift();
        let mut step: i32 = 7 - (self.step() as i32);

        if direction == Direction::Decreasing {
            step = -step - 1;
        }

        let shift: u8 = if direction == Direction::Increasing && rate == ChangeRate::Exponential
            && self.level > 0x6000 {
            shift + 2
        } else {
            shift
        };

        assert(shift == effective_shift(phase, lvl, st));
        let k: u32 = if shift < 11 { (11 - shift) as u32 } else { 0 };
        proof {
            lemma_pow2_small(k as nat);
        }
        let factor: i32 = 1i32 << k;
        proof {
            lemma_shl_is_pow2(k);
        }
        assert(-8 <= step <= 7);
        assert(-0x4000 <= step * factor <= 0x4000) by (nonlinear_arith)
            requires -8 <= step <= 7, 1 <= factor <= 2048;
        let ghost s0 = step;
        step = step * factor;

        proof {
            let sh = effective_shift(phase, lvl, st);
            let dir = direction_spec(phase, st);
            let base: int = 7 - step_spec(phase, st);
            let signed = if dir == Direction::Decreasing { -base - 1 } else { base };
            let scaled = if sh < 11 { signed * vstd::arithmetic::power2::pow2((11 - sh) as nat) } else { signed };
            assert(s0 == signed);
            assert(step == s0 * factor);
            if sh >= 11 {
                vstd::arithmetic::power2::lemma2_to64();
                assert(factor == 1);
                assert(s0 * factor == s0) by (nonlinear_arith) requires factor == 1;
                assert(step == scaled);
            } else {
                assert(k as nat == (11 - sh) as nat);
                let p = vstd::arithmetic::power2::pow2((11 - sh) as nat);
                assert(factor == p);
                assert(scaled == signed * p);
                assert(step == scaled);
            }
        }
        let prev_level: i32 = self.level as i32;
        if direction == Direction::Decreasing && rate == ChangeRate::Exponential {
            assert(-0x4000 <= step <= 0x4000);
            assert(-0x4000 * 0x8000 <= step * prev_level <= 0x4000 * 0x8000) by (nonlinear_arith)
                requires -0x4000 <= step <= 0x4000, -0x8000 <= prev_level <= 0x7fff;
            let prod = step * prev_level;
            step = if prod >= 0 { prod / 0x8000 } else { -((-prod + 0x7fff) / 0x8000) };
            proof {
                lemma_floor_div(prod as int);
            }
        }

        assert(step == level_step(phase, lvl, st));
        let counter_shift: u8 = if shift > 11 { shift - 11 } else { 0 };
        let mut inc: u32 = if counter_shift < 16 { 0x8000 >> counter_shift } else { 0 };
        proof {
            lemma_shr_is_div(counter_shift as u32);
        }

        if inc == 0 && (step != 3 || self.shift() != 31) {
            inc = 1;
        }

        assert(inc == counter_increment(phase, lvl, st));
        assert(inc <= 0x8000);
        self.counter = self.counter + inc;
        if self.counter & 0x8000 == 0 {
            let c = self.counter;
            proof { if c < 0x10000 { crate::bits::lemma_bit15(c); } }
            return;
        }
        let c = self.counter;
        proof { if c < 0x10000 { crate::bits::lemma_bit15(c); } }

        self.counter = 0;
        let new_level = prev_level + step;
        self.level = if direction == Direction::Increasing {
            if new_level < -0x8000 { -0x8000 } else if new_level > 0x7fff { 0x7fff } else { new_level as i16 }
        } else {
            if new_level < 0 { 0 } else if new_level > 0x7fff { 0x7fff } else { new_level as i16 }
        };
    }
}

/// A clock keeps the envelope's level in 0..=0x7fff and its settings, and
/// an envelope in Attack at the top level leaves Attack for Decay (or, at or
/// below the sustain level, Sustain).
pub proof fn lemma_clock_keeps_level(e: AdsrEnvelope)
    requires
        e.wf(),
        0 <= e.level,
    ensures
        0 <= e.clocked().level,
        e.clocked().settings == e.settings,
        e.phase == AdsrPhase::Attack && e.level == 0x7fff ==> e.clocked().phase == AdsrPhase::Decay
            || e.clocked().phase == AdsrPhase::Sustain,
{
    let phase = phase_after_transition(e.phase, e.level, e.settings);
    if direction_spec(phase, e.settings) == Direction::Increasing {
        let st = step_spec(phase, e.settings);
        crate::bits::lemma_field_le(e.settings, 8, 3);
        crate::bits::lemma_field_le(e.settings, 20, 3);
        assert(st <= 3);
        let base: int = 7 - st;
        let sh = effective_shift(phase, e.level, e.settings);
        if sh < 11 {
            let p = vstd::arithmetic::power2::pow2((11 - sh) as nat);
            vstd::arithmetic::power2::lemma_pow2_pos((11 - sh) as nat);
            vstd::arithmetic::mul::lemma_mul_strictly_positive(base, p as int);
        }
        assert(level_step(phase, e.level, e.settings) >= 0);
    }
}

proof fn lemma_pow2_small(k: nat)
    requires
        k <= 11,
    ensures
        1 <= vstd::arithmetic::power2::pow2(k) <= 2048,
{
    vstd::arithmetic::power2::lemma2_to64();
    if k == 0 {} else if k == 1 {} else if k == 2 {} else if k == 3 {} else if k == 4 {}
    else if k == 5 {} else if k == 6 {} else if k == 7 {} else if k == 8 {} else if k == 9 {}
    else if k == 10 {} else {}
}

proof fn lemma_shl_is_pow2(k: u32)
    requires
        k <= 11,
    ensures
        1i32 << k == vstd::arithmetic::power2::pow2(k as nat),
{
    vstd::arithmetic::power2::lemma2_to64();
    crate::bits::lemma_small_shifts();
    if k == 0 {} else if k == 1 {} else if k == 2 {} else if k == 3 {} else if k == 4 {}
    else if k == 5 {} else if k == 6 {} else if k == 7 {} else if k == 8 {} else if k == 9 {}
    else if k == 10 {} else {}
}

proof fn lemma_shr_is_div(k: u32)
    ensures
        k < 16 ==> 0x8000u32 >> k == 0x8000nat / vstd::arithmetic::power2::pow2(k as nat),
        k < 16 ==> 1 <= 0x8000u32 >> k <= 0x8000,
{
    vstd::arithmetic::power2::lemma2_to64();
    crate::bits::lemma_small_shifts();
    if k == 0 { assert(0x8000nat / vstd::arithmetic::power2::pow2(0) == 0x8000); }
    else if k == 1 { assert(0x8000nat / vstd::arithmetic::power2::pow2(1) == 0x4000); }
    else if k == 2 { assert(0x8000nat / vstd::arithmetic::power2::pow2(2) == 0x2000); }
    else if k == 3 { assert(0x8000nat / vstd::arithmetic::power2::pow2(3) == 0x1000); }
    else if k == 4 { assert(0x8000nat / vstd::arithmetic::power2::pow2(4) == 0x800); }
    else if k == 5 { assert(0x8000nat / vstd::arithmetic::power2::pow2(5) == 0x400); }
    else if k == 6 { assert(0x8000nat / vstd::arithmetic::power2::pow2(6) == 0x200); }
    else if k == 7 { assert(0x8000nat / vstd::arithmetic::power2::pow2(7) == 0x100); }
    else if k == 8 { assert(0x8000nat / vstd::arithmetic::power2::pow2(8) == 0x80); }
    else if k == 9 { assert(0x8000nat / vstd::arithmetic::power2::pow2(9) == 0x40); }
    else if k == 10 { assert(0x8000nat / vstd::arithmetic::power2::pow2(10) == 0x20); }
    else if k == 11 { assert(0x8000nat / vstd::arithmetic::power2::pow2(11) == 0x10); }
    else if k == 12 { assert(0x8000nat / vstd::arithmetic::power2::pow2(12) == 0x8); }
    else if k == 13 { assert(0x8000nat / vstd::arithmetic::power2::pow2(13) == 0x4); }
    else if k == 14 { assert(0x8000nat / vstd::arithmetic::power2::pow2(14) == 0x2); }
    else if k == 15 { assert(0x8000nat / vstd::arithmetic::power2::pow2(15) == 0x1); }
}

/// Floor division by 0x8000 of a negative number, through the division of
/// its (non-negative) negation rounded up.
proof fn lemma_floor_div(p: int)
    ensures
        p < 0 ==> p / 0x8000 == -((-p + 0x7fff) / 0x8000),
{
    if p < 0 {
        let q = (-p + 0x7fff) / 0x8000;
        let r = (-p + 0x7fff) % 0x8000;
        assert(-p + 0x7fff == q * 0x8000 + r);
        assert(p == -q * 0x8000 + (0x7fff - r));
    }
}

} // verus!
