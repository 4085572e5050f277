use vstd::prelude::*;

use vstd::arithmetic::div_mod::{lemma_fundamental_div_mod, lemma_div_denominator};

verus! {

/// Frames (sectors) per second of disc time.
pub const FRAMES_PER_SECOND: u8 = 75;
/// Seconds per minute of disc time.
pub const SECONDS_PER_MINUTE: u8 = 60;
/// Minutes on the largest disc.
pub const MAX_MINUTES: u8 = 80;
/// Sectors on the largest disc: 80 minutes of 60 seconds of 75 frames.
pub const MAX_SECTORS: u32 = 360000;

/// A position on a disc in minutes, seconds and frames (MSF).
#[derive(Debug, Clone, Copy, PartialEq, Eq, Structural, PartialOrd, Ord, Default)]
pub struct CdTime {
    pub minutes: u8,
    pub seconds: u8,
    pub frames: u8,
}

/// The sector number of a time, with no bound on its fields.
pub open spec fn sector_of(minutes: int, seconds: int, frames: int) -> int {
    (60 * minutes + seconds) * 75 + frames
}

/// The time of sector `n` of the disc.
pub open spec fn time_of_sector(n: int) -> CdTime {
    CdTime { minutes: (n / 4500) as u8, seconds: ((n / 75) % 60) as u8, frames: (n % 75) as u8 }
}

/// `n` reduced into the sectors of the largest disc.
pub open spec fn wrap_sectors(n: int) -> int {
    n % 360000
}

impl CdTime {
    /// Every field is in range: minutes below 80, seconds below 60 and
    /// frames below 75.
    pub open spec fn wf(self) -> bool {
        self.minutes < 80 && self.seconds < 60 && self.frames < 75
    }

    /// The sector number of this time.
    pub open spec fn sector(self) -> int {
        sector_of(self.minutes as int, self.seconds as int, self.frames as int)
    }

    /// Whether this time comes before `other`, comparing minutes, then
    /// seconds, then frames.
    pub open spec fn before(self, other: CdTime) -> bool {
        self.minutes < other.minutes || (self.minutes == other.minutes && (self.seconds
            < other.seconds || (self.seconds == other.seconds && self.frames < other.frames)))
    }

    /// The sum of two times, modulo the 80 minutes of the largest disc.
    pub closed spec fn plus(self, rhs: CdTime) -> CdTime {
        time_of_sector(wrap_sectors(self.sector() + rhs.sector()))
    }

    /// The difference of two times, modulo the 80 minutes of the largest
    /// disc.
    pub closed spec fn minus(self, rhs: CdTime) -> CdTime {
        time_of_sector(wrap_sectors(self.sector() - rhs.sector()))
    }

    /// The start of the disc.
    pub open spec fn zero_spec() -> CdTime {
        CdTime { minutes: 0, seconds: 0, frames: 0 }
    }

    /// The start of the disc.
    pub fn zero() -> (r: CdTime)
        ensures
            r == (CdTime { minutes: 0, seconds: 0, frames: 0 }),
    {
        CdTime { minutes: 0, seconds: 0, frames: 0 }
    }

    /// The time of sector 0 of the data area, after the 2-second lead-in.
    pub fn sector_0_start() -> (r: CdTime)
        ensures
            r == (CdTime { minutes: 0, seconds: 2, frames: 0 }),
    {
        CdTime { minutes: 0, seconds: 2, frames: 0 }
    }

    /// The end of a 60-minute disc.
    pub fn disc_end() -> (r: CdTime)
        ensures
            r == (CdTime { minutes: 60, seconds: 3, frames: 74 }),
    {
        CdTime { minutes: 60, seconds: 3, frames: 74 }
    }

    /// The number of the sector at this time.
    pub fn to_sector_number(self) -> (r: u32)
        ensures
            r == self.sector(),
    {
        (60 * self.minutes as u32 + self.seconds as u32) * 75 + self.frames as u32
    }

    /// A time from its fields, each in range.
    pub fn new(minutes: u8, seconds: u8, frames: u8) -> (r: CdTime)
        requires
            minutes < MAX_MINUTES,
            seconds < SECONDS_PER_MINUTE,
            frames < FRAMES_PER_SECOND,
        ensures
            r == (CdTime { minutes, seconds, frames }),
            r.wf(),
    {
        CdTime { minutes, seconds, frames }
    }

    /// The time of sector `sector_number`, which must lie within 80 minutes.
    pub fn from_sector_number(sector_number: u32) -> (r: CdTime)
        requires
            sector_number < MAX_SECTORS,
        ensures
            r == time_of_sector(sector_number as int),
            r.wf(),
            r.sector() == sector_number,
    {
        proof {
            lemma_time_of_sector(sector_number as int);
        }
        let frames = sector_number % 75;
        let seconds = (sector_number / 75) % 60;
        let minutes = sector_number / 4500;
        CdTime::new(minutes as u8, seconds as u8, frames as u8)
    }

    /// Whether this time comes before `other`.
    pub fn is_before(&self, other: &CdTime) -> (r: bool)
        ensures
            r == self.before(*other),
    {
        self.minutes < other.minutes || (self.minutes == other.minutes && (self.seconds
            < other.seconds || (self.seconds == other.seconds && self.frames < other.frames)))
    }
}

/// Decomposes a sector number below 360000 into minutes, seconds and frames.
pub proof fn lemma_time_of_sector(n: int)
    requires
        0 <= n < 360000,
    ensures
        time_of_sector(n).wf(),
        time_of_sector(n).sector() == n,
        n / 4500 < 80,
        (n / 75) % 60 < 60,
        n % 75 < 75,
{
    lemma_fundamental_div_mod(n, 75);
    lemma_fundamental_div_mod(n / 75, 60);
    lemma_div_denominator(n, 75, 60);
    assert(n / 4500 < 80);
}

/// The sector number of a well-formed time is below 360000, and the time
/// of that sector is the time itself.
pub proof fn lemma_sector_of_time(t: CdTime)
    requires
        t.wf(),
    ensures
        0 <= t.sector() < 360000,
        time_of_sector(t.sector()) == t,
{
    let n = t.sector();
    assert(n == 4500 * t.minutes + 75 * t.seconds + t.frames);
    assert(n / 75 == 60 * t.minutes + t.seconds);
    assert(n % 75 == t.frames);
    assert(n / 4500 == t.minutes as int);
    assert((n / 75) % 60 == t.seconds as int);
}

/// Times are ordered as their sector numbers are: one comes before another
/// exactly when its sector number is smaller, and two are equal exactly when
/// their sector numbers are.
pub proof fn lemma_order_is_sector_order(a: CdTime, b: CdTime)
    requires
        a.wf(),
        b.wf(),
    ensures
        a.before(b) <==> a.sector() < b.sector(),
        a == b <==> a.sector() == b.sector(),
{
    assert(a.sector() == 4500 * a.minutes + 75 * a.seconds + a.frames);
    assert(b.sector() == 4500 * b.minutes + 75 * b.seconds + b.frames);
}

/// The sum of two well-formed times is well formed.
pub proof fn lemma_plus_wf(a: CdTime, b: CdTime)
    requires
        a.wf(),
        b.wf(),
    ensures
        a.plus(b).wf(),
        a.plus(b).sector() == (a.sector() + b.sector()) % 360000,
{
    lemma_sector_of_time(a);
    lemma_sector_of_time(b);
    lemma_time_of_sector((a.sector() + b.sector()) % 360000);
}

/// The difference of two well-formed times is well formed.
pub proof fn lemma_minus_wf(a: CdTime, b: CdTime)
    requires
        a.wf(),
        b.wf(),
    ensures
        a.minus(b).wf(),
        a.minus(b).sector() == (a.sector() - b.sector()) % 360000,
{
    lemma_sector_of_time(a);
    lemma_sector_of_time(b);
    lemma_time_of_sector((a.sector() - b.sector()) % 360000);
}

/// Reducing a sector count within one disc length of the range.
proof fn lemma_wrap(n: int)
    requires
        -360000 <= n < 720000,
    ensures
        wrap_sectors(n) == (if n < 0 { n + 360000 } else if n >= 360000 { n - 360000 } else { n }),
{
}

/// Subtracting what was added gives back the time: `(a + b) - b == a`
/// for well-formed times.
pub proof fn lemma_add_then_sub(a: CdTime, b: CdTime)
    requires
        a.wf(),
        b.wf(),
    ensures
        a.plus(b).minus(b) == a,
{
    lemma_sector_of_time(a);
    lemma_sector_of_time(b);
    let p = wrap_sectors(a.sector() + b.sector());
    lemma_wrap(a.sector() + b.sector());
    lemma_wrap(p - b.sector());
    lemma_time_of_sector(p);
}

/// Adding back what was subtracted gives back the time: `(a - b) + b == a`
/// for well-formed times.
pub proof fn lemma_sub_then_add(a: CdTime, b: CdTime)
    requires
        a.wf(),
        b.wf(),
    ensures
        a.minus(b).plus(b) == a,
{
    lemma_sector_of_time(a);
    lemma_sector_of_time(b);
    let p = wrap_sectors(a.sector() - b.sector());
    lemma_wrap(a.sector() - b.sector());
    lemma_wrap(p + b.sector());
    lemma_time_of_sector(p);
}

/// Adds two digits of base `base` and a carry in; returns the digit and the
/// carry out.
fn add_with_carry(a: u8, b: u8, carry: bool, base: u8) -> (r: (u8, bool))
    requires
        a < base,
        b < base,
        base <= 100,
    ensures
        r.0 == (a + b + (if carry { 1int } else { 0int })) % (base as int),
        r.1 == (a + b + (if carry { 1int } else { 0int }) >= base),
{
    let sum = a + b + if carry { 1u8 } else { 0u8 };
    (sum % base, sum >= base)
}

/// Subtracts digit `b` and a borrow in from digit `a` in base `base`;
/// returns the digit and the borrow out.
fn sub_with_borrow(a: u8, b: u8, borrow: bool, base: u8) -> (r: (u8, bool))
    requires
        a < base,
        b < base,
        base <= 100,
    ensures
        r.1 == (a < b + (if borrow { 1int } else { 0int })),
        r.0 == (if r.1 { base + a - b - (if borrow { 1int } else { 0int }) } else { a - b - (
        if borrow { 1int } else { 0int }) }),
{
    let operand_r = b + if borrow { 1u8 } else { 0u8 };
    if a < operand_r {
        (base - (operand_r - a), true)
    } else {
        (a - operand_r, false)
    }
}

/// The digit-wise sum of two well-formed times is the time of the sum of
/// their sectors, modulo 80 minutes.
proof fn lemma_digit_sum(a: CdTime, b: CdTime, f: int, c1: bool, s: int, c2: bool, m: int)
    requires
        a.wf(),
        b.wf(),
        f == (a.frames + b.frames) % 75,
        c1 == (a.frames + b.frames >= 75),
        s == (a.seconds + b.seconds + (if c1 { 1int } else { 0int })) % 60,
        c2 == (a.seconds + b.seconds + (if c1 { 1int } else { 0int }) >= 60),
        m == (a.minutes + b.minutes + (if c2 { 1int } else { 0int })) % 80,
    ensures
        (CdTime { minutes: m as u8, seconds: s as u8, frames: f as u8 }) == a.plus(b),
{
    let k1: int = if c1 { 1 } else { 0 };
    let k2: int = if c2 { 1 } else { 0 };
    assert(f == a.frames + b.frames - 75 * k1);
    assert(s == a.seconds + b.seconds + k1 - 60 * k2);
    let mm = a.minutes + b.minutes + k2;
    assert(m == if mm >= 80 { mm - 80 } else { mm });
    let total = a.sector() + b.sector();
    assert(total == 4500 * mm + 75 * s + f);
    let w = wrap_sectors(total);
    assert(w == 4500 * m + 75 * s + f);
    let t = CdTime { minutes: m as u8, seconds: s as u8, frames: f as u8 };
    assert(t.wf());
    assert(t.sector() == w);
    lemma_sector_of_time(t);
}

/// The digit-wise difference of two well-formed times is the time of the
/// difference of their sectors, modulo 80 minutes.
proof fn lemma_digit_difference(a: CdTime, b: CdTime, f: int, c1: bool, s: int, c2: bool, m: int)
    requires
        a.wf(),
        b.wf(),
        c1 == (a.frames < b.frames),
        f == (if c1 { 75 + a.frames - b.frames } else { a.frames - b.frames }),
        c2 == (a.seconds < b.seconds + (if c1 { 1int } else { 0int })),
        s == (if c2 { 60 + a.seconds - b.seconds - (if c1 { 1int } else { 0int }) } else {
            a.seconds - b.seconds - (if c1 { 1int } else { 0int })
        }),
        m == (if a.minutes < b.minutes + (if c2 { 1int } else { 0int }) {
            80 + a.minutes - b.minutes - (if c2 { 1int } else { 0int })
        } else {
            a.minutes - b.minutes - (if c2 { 1int } else { 0int })
        }),
    ensures
        (CdTime { minutes: m as u8, seconds: s as u8, frames: f as u8 }) == a.minus(b),
{
    let k1: int = if c1 { 1 } else { 0 };
    let k2: int = if c2 { 1 } else { 0 };
    let diff = a.sector() - b.sector();
    let mm = a.minutes - b.minutes - k2;
    assert(diff == 4500 * mm + 75 * s + f);
    let w = wrap_sectors(diff);
    assert(w == 4500 * m + 75 * s + f);
    let t = CdTime { minutes: m as u8, seconds: s as u8, frames: f as u8 };
    assert(t.wf());
    assert(t.sector() == w);
    lemma_sector_of_time(t);
}

impl core::ops::Add for CdTime {
    type Output = CdTime;

    /// Adds two times digit by digit with carries, wrapping at 80 minutes.
    fn add(self, rhs: CdTime) -> (r: CdTime) {
        let (frames, carried) = add_with_carry(self.frames, rhs.frames, false, FRAMES_PER_SECOND);
        let (seconds, carried2) = add_with_carry(self.seconds, rhs.seconds, carried, SECONDS_PER_MINUTE);
        let (minutes, _) = add_with_carry(self.minutes, rhs.minutes, carried2, MAX_MINUTES);
        proof {
            lemma_digit_sum(self, rhs, frames as int, carried, seconds as int, carried2, minutes as int);
        }
        CdTime { minutes, seconds, frames }
    }
}

impl vstd::std_specs::ops::AddSpecImpl for CdTime {
    open spec fn obeys_add_spec() -> bool {
        true
    }

    open spec fn add_req(self, rhs: CdTime) -> bool {
        self.wf() && rhs.wf()
    }

    open spec fn add_spec(self, rhs: CdTime) -> CdTime {
        self.plus(rhs)
    }
}

impl core::ops::Sub for CdTime {
    type Output = CdTime;

    /// Subtracts two times digit by digit with borrows, wrapping at 80
    /// minutes.
    fn sub(self, rhs: CdTime) -> (r: CdTime) {
        let (frames, borrowed) = sub_with_borrow(self.frames, rhs.frames, false, FRAMES_PER_SECOND);
        let (seconds, borrowed2) = sub_with_borrow(self.seconds, rhs.seconds, borrowed, SECONDS_PER_MINUTE);
        let (minutes, _) = sub_with_borrow(self.minutes, rhs.minutes, borrowed2, MAX_MINUTES);
        proof {
            lemma_digit_difference(self, rhs, frames as int, borrowed, seconds as int, borrowed2, minutes as int);
        }
        CdTime { minutes, seconds, frames }
    }
}

impl vstd::std_specs::ops::SubSpecImpl for CdTime {
    open spec fn obeys_sub_spec() -> bool {
        true
    }

    open spec fn sub_req(self, rhs: CdTime) -> bool {
        self.wf() && rhs.wf()
    }

    open spec fn sub_spec(self, rhs: CdTime) -> CdTime {
        self.minus(rhs)
    }
}

} // verus!
