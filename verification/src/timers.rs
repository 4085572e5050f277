use vstd::prelude::*;

verus! {

/// One of the three root counters.
#[derive(Debug, Clone, Copy)]
pub struct Timer {
    pub counter: u16,
    pub target: u16,
    pub is_synchronized: bool,
    pub sync_mode: u8,
    pub reset_at_target: bool,
    pub irq_at_target: bool,
    pub irq_at_overflow: bool,
    pub irq_repeat_mode: bool,
    pub irq_pulse_mode: bool,
    pub clock_source: u8,
    pub irq_neg: bool,
    pub reached_target: bool,
    pub reached_overflow: bool,
}

/// The value the counter runs up to: the target when it resets there (0
/// counting as 0xffff), else 0xffff.
pub open spec fn counter_cap(t: Timer) -> u16 {
    if t.reset_at_target && t.target > 0 { t.target } else { 0xffff }
}

/// The counter and flags after `steps` more ticks: on reaching the cap the
/// counter restarts from 0 with the remaining ticks (truncated to 16 bits)
/// and reports the target (when resetting there) or an overflow.
pub open spec fn add_counter_spec(t: Timer, steps: u64) -> (u16, bool, bool) {
    let cap = counter_cap(t);
    let distance = cap - t.counter;
    if steps >= distance {
        let rest = ((steps - distance) as u64) as u16;
        (rest, !t.reset_at_target, t.reset_at_target)
    } else {
        ((t.counter + steps) as u16, false, false)
    }
}

/// The control register: sync enable (0), sync mode (2..1), reset at
/// target (3), IRQ at target (4) and at overflow (5), IRQ repeat (6) and
/// pulse (7) modes, clock source (9..8), IRQ not requested (10), target
/// reached (11) and overflow reached (12).
pub open spec fn control_value(t: Timer) -> u32 {
    (if t.is_synchronized { 1u32 } else { 0 }) | ((t.sync_mode as u32) << 1)
        | ((if t.reset_at_target { 1u32 } else { 0 }) << 3)
        | ((if t.irq_at_target { 1u32 } else { 0 }) << 4)
        | ((if t.irq_at_overflow { 1u32 } else { 0 }) << 5)
        | ((if t.irq_repeat_mode { 1u32 } else { 0 }) << 6)
        | ((if t.irq_pulse_mode { 1u32 } else { 0 }) << 7)
        | ((t.clock_source as u32) << 8)
        | ((if t.irq_neg { 1u32 } else { 0 }) << 10)
        | ((if t.reached_target { 1u32 } else { 0 }) << 11)
        | ((if t.reached_overflow { 1u32 } else { 0 }) << 12)
}

/// A timer after its counter advanced by `steps` ticks: the flags of what
/// was reached are set, and an IRQ is requested (irq_neg cleared) where
/// enabled.
pub open spec fn advance_spec(t: Timer, steps: u64) -> Timer {
    let (c, of, target) = add_counter_spec(t, steps);
    Timer {
        counter: c,
        reached_overflow: t.reached_overflow || of,
        reached_target: t.reached_target || target,
        irq_neg: if (of && t.irq_at_overflow) || (target && t.irq_at_target) { false } else { t.irq_neg },
        ..t
    }
}

/// Whether counter 0 (or 1, with `blank` the vblank state) skips this
/// run: paused in blanking (mode 0), outside it (mode 2), or waiting for
/// the blanking to start (mode 3).
pub open spec fn sync_paused(t: Timer, in_blank: bool, started_blank: bool) -> bool {
    t.is_synchronized && ((t.sync_mode == 0 && in_blank) || (t.sync_mode == 2 && !in_blank)
        || (t.sync_mode == 3 && !started_blank))
}

/// The counter a synchronised counter 0 or 1 starts this run from: reset
/// when blanking starts in modes 1 and 2.
pub open spec fn sync_start_counter(t: Timer, started_blank: bool) -> u16 {
    if t.is_synchronized && (t.sync_mode == 1 || t.sync_mode == 2) && started_blank { 0 } else { t.counter }
}

/// Counting from a counter above its cap is not handled.
pub open spec fn run_ok(t: Timer, in_blank: bool, started_blank: bool) -> bool {
    !sync_paused(t, in_blank, started_blank) ==> sync_start_counter(t, started_blank) <= counter_cap(t)
}

pub open spec fn run_t2_ok(t: Timer) -> bool {
    !(t.is_synchronized && (t.sync_mode == 0 || t.sync_mode == 3)) ==> t.counter <= counter_cap(t)
}

/// Counter 0 after `cpu_cycles` CPU cycles, or, with a dot clock source
/// (1 or 3), `dotclock_ticks` dot clocks, with whether it counted the dot
/// clocks. With sync enabled, mode 0 pauses it in hblank, mode 1 resets it
/// when hblank starts, mode 2 does both outside/at hblank, mode 3 waits for
/// the next hblank and then turns sync off.
pub open spec fn run_t0_spec(t: Timer, in_hblank: bool, started_hblank: bool, cpu_cycles: u64, dotclock_ticks: u64) -> (
    Timer,
    bool,
) {
    let paused = t.is_synchronized && ((t.sync_mode == 0 && in_hblank) || (t.sync_mode == 2 && !in_hblank) || (
    t.sync_mode == 3 && !started_hblank));
    let t1 = if t.is_synchronized && (t.sync_mode == 1 || t.sync_mode == 2) && started_hblank {
        Timer { counter: 0, ..t }
    } else if t.is_synchronized && t.sync_mode == 3 {
        Timer { is_synchronized: false, ..t }
    } else {
        t
    };
    let dot = !(t.clock_source == 0 || t.clock_source == 2);
    if paused {
        (t, false)
    } else {
        (advance_spec(t1, if dot { dotclock_ticks } else { cpu_cycles }), dot)
    }
}

/// Counter 1 after `cpu_cycles` CPU cycles, or, with an hblank clock source
/// (1 or 3), one tick when hblank starts. Sync modes act as for counter 0
/// but on vblank.
pub open spec fn run_t1_spec(t: Timer, in_vblank: bool, started_hblank: bool, started_vblank: bool, cpu_cycles: u64) -> Timer {
    let paused = t.is_synchronized && ((t.sync_mode == 0 && in_vblank) || (t.sync_mode == 2 && !in_vblank) || (
    t.sync_mode == 3 && !started_vblank));
    let t1 = if t.is_synchronized && (t.sync_mode == 1 || t.sync_mode == 2) && started_vblank {
        Timer { counter: 0, ..t }
    } else if t.is_synchronized && t.sync_mode == 3 {
        Timer { is_synchronized: false, ..t }
    } else {
        t
    };
    if paused {
        t
    } else if t.clock_source == 0 || t.clock_source == 2 {
        advance_spec(t1, cpu_cycles)
    } else if started_hblank {
        advance_spec(t1, 1)
    } else {
        t1
    }
}

/// Counter 2 and the carried CPU cycles after `cpu_cycles` CPU cycles: it
/// counts each of them, or, with clock source 2 or 3, every 8 (the
/// remainder carries over); sync modes 0 and 3 stop it.
pub open spec fn run_t2_spec(t: Timer, buffer: u32, cpu_cycles: u64) -> (Timer, u32) {
    let total = buffer + cpu_cycles;
    if t.is_synchronized && (t.sync_mode == 0 || t.sync_mode == 3) {
        (t, buffer)
    } else if t.clock_source == 0 || t.clock_source == 1 {
        (advance_spec(t, cpu_cycles), buffer)
    } else {
        (advance_spec(t, (total / 8) as u64), (total % 8) as u32)
    }
}

/// Whether `address` is the counter (offset 0), control (4) or target (8)
/// register of timer 0, 1 or 2 (at 0x1f80_1100 + 16 * n).
pub open spec fn timer_register(address: u32) -> bool {
    &&& TIMERS_BASE <= address <= TIMERS_END
    &&& (((address - TIMERS_BASE) as u32) & 0xf) == 0 || (((address - TIMERS_BASE) as u32) & 0xf) == 4 || (((
    address - TIMERS_BASE) as u32) & 0xf) == 8
}

impl Timers {
    /// What a read of a timer register gives (`r`) and leaves (`after`):
    /// the counter, the target, or the control value, whose reading clears
    /// the reached flags; nothing else changes.
    pub open spec fn read_effect(&self, after: Timers, address: u32, r: u32) -> bool {
        let i = (((address - TIMERS_BASE) as u32) >> 4) as int;
        let t = self.timers@[i];
        let reg = ((address - TIMERS_BASE) as u32) & 0xf;
        &&& after == (Timers { timers: after.timers, ..*self })
        &&& reg == 0 ==> r == t.counter as u32 && after.timers@ == self.timers@
        &&& reg == 8 ==> r == t.target as u32 && after.timers@ == self.timers@
        &&& reg == 4 ==> r == control_value(t) && after.timers@ == self.timers@.update(
            i,
            Timer { reached_target: false, reached_overflow: false, ..t },
        )
    }

    /// What a write of `value` to a timer register leaves: its low 16 bits
    /// become the counter or the target, or are decoded as the control
    /// value (which restarts the counter); nothing else changes.
    pub open spec fn write_effect(&self, after: Timers, address: u32, value: u32) -> bool {
        let i = (((address - TIMERS_BASE) as u32) >> 4) as int;
        let t = self.timers@[i];
        let reg = ((address - TIMERS_BASE) as u32) & 0xf;
        let v = value & 0xffff;
        &&& after == (Timers { timers: after.timers, ..*self })
        &&& reg == 0 ==> after.timers@ == self.timers@.update(i, Timer { counter: v as u16, ..t })
        &&& reg == 8 ==> after.timers@ == self.timers@.update(i, Timer { target: v as u16, ..t })
        &&& reg == 4 ==> after.timers@ == self.timers@.update(i, control_decoded(t, v))
    }
}

/// A timer after a write of `value` to its control register.
pub open spec fn control_decoded(t: Timer, value: u32) -> Timer {
    Timer {
        counter: 0,
        is_synchronized: value & 1 != 0,
        sync_mode: ((value >> 1) & 3) as u8,
        reset_at_target: value & 0x08 != 0,
        irq_at_target: value & 0x10 != 0,
        irq_at_overflow: value & 0x20 != 0,
        irq_repeat_mode: value & 0x40 != 0,
        irq_pulse_mode: value & 0x80 != 0,
        clock_source: ((value >> 8) & 3) as u8,
        irq_neg: value & 0x400 != 0,
        reached_target: false,
        reached_overflow: false,
        ..t
    }
}

impl Timer {
    /// A stopped timer with every field zero.
    pub fn new() -> (r: Timer)
        ensures
            r.counter == 0 && r.target == 0 && !r.is_synchronized && r.sync_mode == 0,
            !r.reset_at_target && !r.irq_at_target && !r.irq_at_overflow,
            r.clock_source == 0 && !r.irq_neg && !r.reached_target && !r.reached_overflow,
    {
        Timer {
            counter: 0,
            target: 0,
            is_synchronized: false,
            sync_mode: 0,
            reset_at_target: false,
            irq_at_target: false,
            irq_at_overflow: false,
            irq_repeat_mode: false,
            irq_pulse_mode: false,
            clock_source: 0,
            irq_neg: false,
            reached_target: false,
            reached_overflow: false,
        }
    }

    /// Adds `steps` ticks to the counter. Returns whether it overflowed and
    /// whether it reached the target.
    pub fn add_counter(&mut self, steps: u64) -> (r: (bool, bool))
        requires
            old(self).counter <= counter_cap(*old(self)),
        ensures
            (final(self).counter, r.0, r.1) == add_counter_spec(*old(self), steps),
            *final(self) == (Timer { counter: final(self).counter, ..*old(self) }),
    {
        let mut of = false;
        let mut target = false;
        let cap: u16 = if self.reset_at_target {
            if self.target > 0 { self.target } else { 0xffff }
        } else {
            0xffff
        };

        let distance = cap - self.counter;
        if steps >= distance as u64 {
            let rest = steps - distance as u64;
            self.counter = rest as u16;
            if self.reset_at_target {
                target = true;
            } else {
                of = true;
            }
        } else {
            self.counter = self.counter + steps as u16;
        }
        (of, target)
    }

    /// Advances the counter and records what it reached.
    fn advance(&mut self, steps: u64)
        requires
            old(self).counter <= counter_cap(*old(self)),
        ensures
            *final(self) == advance_spec(*old(self), steps),
    {
        let (of, target) = self.add_counter(steps);
        if of {
            self.reached_overflow = true;
            if self.irq_at_overflow {
                self.irq_neg = false;
            }
        }
        if target {
            self.reached_target = true;
            if self.irq_at_target {
                self.irq_neg = false;
            }
        }
    }

    /// Reads the control register; reading clears the reached flags.
    pub fn read_control(&mut self) -> (r: u32)
        ensures
            r == control_value(*old(self)),
            *final(self) == (Timer { reached_target: false, reached_overflow: false, ..*old(self) }),
    {
        let mut control: u32 = if self.is_synchronized { 1 } else { 0 };
        control = control | ((self.sync_mode as u32) << 1);
        control = control | ((if self.reset_at_target { 1u32 } else { 0 }) << 3);
        control = control | ((if self.irq_at_target { 1u32 } else { 0 }) << 4);
        control = control | ((if self.irq_at_overflow { 1u32 } else { 0 }) << 5);
        control = control | ((if self.irq_repeat_mode { 1u32 } else { 0 }) << 6);
        control = control | ((if self.irq_pulse_mode { 1u32 } else { 0 }) << 7);
        control = control | ((self.clock_source as u32) << 8);
        control = control | ((if self.irq_neg { 1u32 } else { 0 }) << 10);
        control = control | ((if self.reached_target { 1u32 } else { 0 }) << 11);
        control = control | ((if self.reached_overflow { 1u32 } else { 0 }) << 12);
        self.reached_target = false;
        self.reached_overflow = false;
        control
    }

    /// Writes the control register: the counter restarts from 0, the
    /// fields are decoded, and the reached flags are cleared.
    pub fn write_control(&mut self, value: u32)
        ensures
            *final(self) == control_decoded(*old(self), value),
    {
        self.counter = 0;
        self.is_synchronized = (value & 0x01) != 0;
        self.sync_mode = ((value >> 1) & 0x03) as u8;
        self.reset_at_target = (value & 0x08) != 0;
        self.irq_at_target = (value & 0x10) != 0;
        self.irq_at_overflow = (value & 0x20) != 0;
        self.irq_repeat_mode = (value & 0x40) != 0;
        self.irq_pulse_mode = (value & 0x80) != 0;
        self.clock_source = ((value >> 8) & 0x03) as u8;
        self.irq_neg = (value & 0x400) != 0;
        self.reached_target = false;
        self.reached_overflow = false;
    }
}

/// The three root counters: counter 0 can count dot clocks, counter 1
/// scanlines, counter 2 the CPU clock divided by 8.
pub struct Timers {
    pub timers: Vec<Timer>,
    pub last_cpu_cycles: u64,
    pub t2_cpu_cycles_buffer: u32,
    pub in_hblank: bool,
    pub in_vblank: bool,
}

pub const TIMERS_BASE: u32 = 0x1f80_1100;
pub const TIMERS_END: u32 = 0x1f80_112f;

impl Timers {
    pub open spec fn wf(&self) -> bool {
        &&& self.timers@.len() == 3
        &&& self.t2_cpu_cycles_buffer < 8
    }

    /// Whether a clock with the given blanking state counts only counters
    /// that are within their cap.
    pub open spec fn clock_ok(&self, gpu_in_hblank: bool, gpu_in_vblank: bool) -> bool {
        &&& run_ok(self.timers@[0], gpu_in_hblank, gpu_in_hblank && !self.in_hblank)
        &&& run_ok(self.timers@[1], gpu_in_vblank, gpu_in_vblank && !self.in_vblank)
        &&& run_t2_ok(self.timers@[2])
    }

    /// Three stopped counters.
    pub fn new() -> (r: Self)
        ensures
            r.wf(),
            r.last_cpu_cycles == 0,
            !r.in_hblank && !r.in_vblank,
    {
        let mut timers: Vec<Timer> = Vec::new();
        timers.push(Timer::new());
        timers.push(Timer::new());
        timers.push(Timer::new());
        Timers { timers, last_cpu_cycles: 0, t2_cpu_cycles_buffer: 0, in_hblank: false, in_vblank: false }
    }

    /// Whether a clock with the given blanking state would count a counter
    /// that is above its cap, which is not handled.
    pub fn can_clock(&self, gpu_in_hblank: bool, gpu_in_vblank: bool) -> (r: bool)
        requires
            self.wf(),
        ensures
            r == self.clock_ok(gpu_in_hblank, gpu_in_vblank),
    {
        let t0 = self.timers[0];
        let t1 = self.timers[1];
        let t2 = self.timers[2];
        let sh = gpu_in_hblank && !self.in_hblank;
        let sv = gpu_in_vblank && !self.in_vblank;
        Self::run_is_ok(&t0, gpu_in_hblank, sh) && Self::run_is_ok(&t1, gpu_in_vblank, sv)
            && ((t2.is_synchronized && (t2.sync_mode == 0 || t2.sync_mode == 3)) || t2.counter <= Self::cap(&t2))
    }

    fn run_is_ok(t: &Timer, in_blank: bool, started_blank: bool) -> (r: bool)
        ensures
            r == run_ok(*t, in_blank, started_blank),
    {
        let paused = t.is_synchronized && ((t.sync_mode == 0 && in_blank) || (t.sync_mode == 2 && !in_blank)
            || (t.sync_mode == 3 && !started_blank));
        let start: u16 = if t.is_synchronized && (t.sync_mode == 1 || t.sync_mode == 2) && started_blank { 0 } else { t.counter };
        paused || start <= Self::cap(t)
    }

    fn cap(t: &Timer) -> (r: u16)
        ensures
            r == counter_cap(*t),
    {
        if t.reset_at_target && t.target > 0 { t.target } else { 0xffff }
    }

    /// Runs counter 0 for `cpu_cycles` CPU cycles, or, with a dot clock
    /// source (1 or 3), for `dotclock_ticks` whole dot clocks. With sync
    /// enabled, mode 0 pauses it in hblank, mode 1 resets it when hblank
    /// starts, mode 2 does both outside/at hblank, mode 3 waits for the
    /// next hblank and then turns sync off. Returns whether the dot clock
    /// ticks were counted.
    pub fn run_t0(&mut self, cpu_cycles: u64, dotclock_ticks: u64, started_hblank: bool) -> (consumed: bool)
        requires
            old(self).wf(),
            run_ok(old(self).timers@[0], old(self).in_hblank, started_hblank),
        ensures
            final(self).wf(),
            final(self).timers@[1] == old(self).timers@[1],
            final(self).timers@[2] == old(self).timers@[2],
            final(self).in_hblank == old(self).in_hblank,
            final(self).in_vblank == old(self).in_vblank,
            final(self).last_cpu_cycles == old(self).last_cpu_cycles,
            final(self).t2_cpu_cycles_buffer == old(self).t2_cpu_cycles_buffer,
            (final(self).timers@[0], consumed) == run_t0_spec(
                old(self).timers@[0],
                old(self).in_hblank,
                started_hblank,
                cpu_cycles,
                dotclock_ticks,
            ),
    {
        let mut timer = self.timers[0];
        if timer.is_synchronized {
            if timer.sync_mode == 0 {
                if self.in_hblank {
                    return false;
                }
            } else if timer.sync_mode == 1 {
                if started_hblank {
                    timer.counter = 0;
                }
            } else if timer.sync_mode == 2 {
                if !self.in_hblank {
                    return false;
                }
                if started_hblank {
                    timer.counter = 0;
                }
            } else if timer.sync_mode == 3 {
                if started_hblank {
                    timer.is_synchronized = false;
                } else {
                    return false;
                }
            }
        }

        let dot = !(timer.clock_source == 0 || timer.clock_source == 2);
        let steps = if dot { dotclock_ticks } else { cpu_cycles };
        timer.advance(steps);
        self.timers.set(0, timer);
        dot
    }

    /// Runs counter 1 for `cpu_cycles` CPU cycles, or, with an hblank clock
    /// source (1 or 3), one tick when hblank starts. Sync modes act as for
    /// counter 0 but on vblank.
    pub fn run_t1(&mut self, cpu_cycles: u64, started_hblank: bool, started_vblank: bool)
        requires
            old(self).wf(),
            run_ok(old(self).timers@[1], old(self).in_vblank, started_vblank),
        ensures
            final(self).wf(),
            final(self).timers@[0] == old(self).timers@[0],
            final(self).timers@[2] == old(self).timers@[2],
            final(self).in_hblank == old(self).in_hblank,
            final(self).in_vblank == old(self).in_vblank,
            final(self).last_cpu_cycles == old(self).last_cpu_cycles,
            final(self).t2_cpu_cycles_buffer == old(self).t2_cpu_cycles_buffer,
            final(self).timers@[1] == run_t1_spec(
                old(self).timers@[1],
                old(self).in_vblank,
                started_hblank,
                started_vblank,
                cpu_cycles,
            ),
    {
        let mut timer = self.timers[1];
        if timer.is_synchronized {
            if timer.sync_mode == 0 {
                if self.in_vblank {
                    return;
                }
            } else if timer.sync_mode == 1 {
                if started_vblank {
                    timer.counter = 0;
                }
            } else if timer.sync_mode == 2 {
                if !self.in_vblank {
                    return;
                }
                if started_vblank {
                    timer.counter = 0;
                }
            } else if timer.sync_mode == 3 {
                if started_vblank {
                    timer.is_synchronized = false;
                } else {
                    return;
                }
            }
        }

        if timer.clock_source == 0 || timer.clock_source == 2 {
            timer.advance(cpu_cycles);
        } else if started_hblank {
            timer.advance(1);
        }
        self.timers.set(1, timer);
    }

    /// Runs counter 2 for `cpu_cycles` CPU cycles, or, with clock source 2
    /// or 3, for every 8 of them (the remainder carries over). Sync modes 0
    /// and 3 stop it.
    pub fn run_t2(&mut self, cpu_cycles: u64)
        requires
            old(self).wf(),
            run_t2_ok(old(self).timers@[2]),
            cpu_cycles < 0xffff_fff0,
        ensures
            final(self).wf(),
            final(self).timers@[0] == old(self).timers@[0],
            final(self).timers@[1] == old(self).timers@[1],
            final(self).in_hblank == old(self).in_hblank,
            final(self).in_vblank == old(self).in_vblank,
            final(self).last_cpu_cycles == old(self).last_cpu_cycles,
            (final(self).timers@[2], final(self).t2_cpu_cycles_buffer) == run_t2_spec(
                old(self).timers@[2],
                old(self).t2_cpu_cycles_buffer,
                cpu_cycles,
            ),
    {
        let mut timer = self.timers[2];
        if timer.is_synchronized && (timer.sync_mode == 0 || timer.sync_mode == 3) {
            return;
        }
        if timer.clock_source == 0 || timer.clock_source == 1 {
            timer.advance(cpu_cycles);
        } else {
            let total = self.t2_cpu_cycles_buffer + cpu_cycles as u32;
            let t2_cycles = total / 8;
            self.t2_cpu_cycles_buffer = total % 8;
            timer.advance(t2_cycles as u64);
        }
        self.timers.set(2, timer);
    }

    /// Runs the three counters up to the CPU cycle count `cpu_cycles`,
    /// given the GPU's blanking state and the whole dot clocks elapsed.
    /// Returns whether counter 0 counted the dot clocks.
    pub fn clock(&mut self, cpu_cycles: u64, gpu_in_hblank: bool, gpu_in_vblank: bool, dotclock_ticks: u64) -> (consumed: bool)
        requires
            old(self).wf(),
            old(self).clock_ok(gpu_in_hblank, gpu_in_vblank),
            old(self).last_cpu_cycles <= cpu_cycles < old(self).last_cpu_cycles + 0xffff_fff0,
        ensures
            final(self).wf(),
            final(self).last_cpu_cycles == cpu_cycles,
            final(self).in_hblank == gpu_in_hblank,
            final(self).in_vblank == gpu_in_vblank,
            ({
                let started_hblank = gpu_in_hblank && !old(self).in_hblank;
                let started_vblank = gpu_in_vblank && !old(self).in_vblank;
                let elapsed = (cpu_cycles - old(self).last_cpu_cycles) as u64;
                &&& (final(self).timers@[0], consumed) == run_t0_spec(
                    old(self).timers@[0],
                    gpu_in_hblank,
                    started_hblank,
                    elapsed,
                    dotclock_ticks,
                )
                &&& final(self).timers@[1] == run_t1_spec(
                    old(self).timers@[1],
                    gpu_in_vblank,
                    started_hblank,
                    started_vblank,
                    elapsed,
                )
                &&& (final(self).timers@[2], final(self).t2_cpu_cycles_buffer) == run_t2_spec(
                    old(self).timers@[2],
                    old(self).t2_cpu_cycles_buffer,
                    elapsed,
                )
            }),
    {
        let started_hblank = gpu_in_hblank && !self.in_hblank;
        let started_vblank = gpu_in_vblank && !self.in_vblank;
        self.in_hblank = gpu_in_hblank;
        self.in_vblank = gpu_in_vblank;

        let cycles_diff = cpu_cycles - self.last_cpu_cycles;
        self.last_cpu_cycles = cpu_cycles;

        let consumed = self.run_t0(cycles_diff, dotclock_ticks, started_hblank);
        self.run_t1(cycles_diff, started_hblank, started_vblank);
        self.run_t2(cycles_diff);
        consumed
    }

    /// Reads a counter (offset 0), control (4) or target (8) register of
    /// timer 0, 1 or 2 (at 0x1f80_1100 + 16 * n). Reading the control
    /// register clears the reached flags.
    pub fn read(&mut self, address: u32) -> (r: u32)
        requires
            old(self).wf(),
            timer_register(address),
        ensures
            final(self).wf(),
            old(self).read_effect(*final(self), address, r),
    {
        let offset = address - TIMERS_BASE;
        let idx = (offset >> 4) as usize;
        proof { crate::bits::lemma_block_index(offset); }
        let reg = offset & 0xf;
        let mut timer = self.timers[idx];
        if reg == 0 {
            timer.counter as u32
        } else if reg == 4 {
            let v = timer.read_control();
            self.timers.set(idx, timer);
            v
        } else {
            timer.target as u32
        }
    }

    /// Writes a counter (offset 0), control (4) or target (8) register; only
    /// the low 16 bits count.
    pub fn write(&mut self, address: u32, value: u32)
        requires
            old(self).wf(),
            timer_register(address),
        ensures
            final(self).wf(),
            old(self).write_effect(*final(self), address, value),
    {
        let offset = address - TIMERS_BASE;
        let idx = (offset >> 4) as usize;
        proof { crate::bits::lemma_block_index(offset); }
        let reg = offset & 0xf;
        let value = value & 0xffff;
        let mut timer = self.timers[idx];
        if reg == 0 {
            timer.counter = value as u16;
        } else if reg == 4 {
            timer.write_control(value);
        } else {
            timer.target = value as u16;
        }
        self.timers.set(idx, timer);
    }
}

/// An unsynchronised counter 1 on the horizontal-blank clock (source 1 or
/// 3) counts horizontal blanks: a run adds 1 to it, restarting from 0 at
/// its cap, exactly when a horizontal blank starts, and leaves it as it was
/// otherwise, whatever the vertical blank does and however many CPU cycles
/// passed.
pub proof fn lemma_t1_counts_hblanks(t: Timer, in_vblank: bool, started_hblank: bool, started_vblank: bool, cpu_cycles: u64)
    requires
        !t.is_synchronized,
        t.clock_source == 1 || t.clock_source == 3,
        t.counter <= counter_cap(t),
    ensures
        ({
            let r = run_t1_spec(t, in_vblank, started_hblank, started_vblank, cpu_cycles);
            let cap = counter_cap(t);
            r.counter == (if !started_hblank {
                t.counter as int
            } else if t.counter + 1 >= cap {
                t.counter + 1 - cap
            } else {
                t.counter + 1
            })
        }),
{
}
} // verus!
