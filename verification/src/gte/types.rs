use vstd::prelude::*;

verus! {

/// A 44-bit signed accumulator, with sticky flags recording whether a value
/// set into it ever overflowed positively or negatively.
#[derive(Debug, Clone, Copy)]
pub struct Accumulator {
    pub value: i64,
    pub positive_overflow: bool,
    pub negative_overflow: bool,
}

/// The largest value of the 44-bit range.
pub const ACC_MAX: i64 = 0x7ff_ffff_ffff;
/// The smallest value of the 44-bit range.
pub const ACC_MIN: i64 = -0x800_0000_0000;

/// The low 44 bits of `v`, read as a signed 44-bit number.
pub open spec fn sext44(v: i64) -> i64 {
    (v << 20u64) >> 20u64
}

/// Whatever `v` is, its 44-bit reading is in the 44-bit range.
pub proof fn lemma_sext44_range(v: i64)
    ensures
        ACC_MIN <= sext44(v) <= ACC_MAX,
{
    assert(-0x800_0000_0000i64 <= (v << 20u64) >> 20u64 <= 0x7ff_ffff_ffffi64) by (bit_vector);
}

/// `v` clamped to the 44-bit signed range.
pub open spec fn clamp44(v: i64) -> i64 {
    if v > ACC_MAX {
        ACC_MAX
    } else if v < ACC_MIN {
        ACC_MIN
    } else {
        v
    }
}

/// The zero accumulator with clear flags.
pub open spec fn zero_acc() -> Accumulator {
    Accumulator { value: 0, positive_overflow: false, negative_overflow: false }
}

/// Assignment of a value into a register of a given width.
pub trait Settable<T> {
    fn set(&mut self, value: T);
}

impl Accumulator {
    pub open spec fn wf(&self) -> bool {
        ACC_MIN <= self.value <= ACC_MAX
    }

    /// The accumulator after a checked set of `value`: a value beyond the
    /// 44-bit range raises the matching flag and is clamped to the range.
    pub open spec fn set_spec(self, value: i64) -> Accumulator {
        Accumulator {
            value: clamp44(value),
            positive_overflow: self.positive_overflow || value > ACC_MAX,
            negative_overflow: self.negative_overflow || (value <= ACC_MAX && value < ACC_MIN),
        }
    }

    /// A zero accumulator with clear flags.
    pub fn new() -> (r: Self)
        ensures
            r.wf(),
            r == zero_acc(),
    {
        Accumulator { value: 0, positive_overflow: false, negative_overflow: false }
    }

    /// A fresh accumulator set (with overflow checks) to `value`.
    pub fn new_with_value(value: i64) -> (r: Self)
        ensures
            r.wf(),
            r == zero_acc().set_spec(value),
    {
        let mut acc = Self::new();
        acc.set_value(value);
        acc
    }

    /// The low 32 bits of the value.
    pub fn get(&self) -> (r: u32)
        ensures
            r == self.value as u32,
    {
        self.value as u32
    }

    /// A direct write, without overflow check: the value becomes the 32
    /// bits of `value`, zero-extended.
    pub fn write(&mut self, value: i32)
        ensures
            *final(self) == (Accumulator { value: (value as u32) as i64, ..*old(self) }),
            final(self).wf(),
    {
        self.value = (value as u32) as i64;
    }

    /// Drops the `shift_fractional` fraction bits of the value
    /// (arithmetic shift right).
    pub fn commit(&mut self, shift_fractional: usize)
        requires
            old(self).wf(),
            shift_fractional < 64,
        ensures
            *final(self) == (Accumulator { value: old(self).value >> shift_fractional, ..*old(self) }),
            final(self).wf(),
    {
        let v = self.value;
        assert(-0x800_0000_0000i64 <= v <= 0x7ff_ffff_ffffi64 && shift_fractional < 64
            ==> -0x800_0000_0000i64 <= v >> shift_fractional <= 0x7ff_ffff_ffffi64) by (bit_vector);
        self.value = v >> shift_fractional;
    }

    /// Sets the value, clamped to the 44-bit range; a value beyond it
    /// raises the matching overflow flag.
    pub fn set_value(&mut self, value: i64)
        ensures
            *final(self) == old(self).set_spec(value),
            final(self).wf(),
    {
        if value > ACC_MAX {
            self.positive_overflow = true;
            self.value = ACC_MAX;
        } else if value < ACC_MIN {
            self.negative_overflow = true;
            self.value = ACC_MIN;
        } else {
            self.value = value;
        }
    }

    /// Adds `rhs` to the value, with the overflow check of a set.
    pub fn add_i64(&mut self, rhs: i64)
        requires
            old(self).wf(),
            -0x4000_0000_0000_0000 <= rhs <= 0x3fff_ffff_ffff_ffff,
        ensures
            *final(self) == old(self).set_spec((old(self).value + rhs) as i64),
            final(self).wf(),
    {
        self.set_value(self.value + rhs);
    }
}

impl Settable<i64> for Accumulator {
    /// Sets the value, checking it against the 44-bit range.
    fn set(&mut self, value: i64)
        ensures
            *final(self) == old(self).set_spec(value),
    {
        self.set_value(value);
    }
}

impl Settable<i32> for Accumulator {
    /// Sets the value to the 32 bits of `value`, zero-extended.
    fn set(&mut self, value: i32)
        ensures
            *final(self) == (Accumulator { value: (value as u32) as i64, ..*old(self) }),
    {
        self.value = (value as u32) as i64;
    }
}

/// A 3-component vector.
#[derive(Clone, Copy, Debug)]
pub struct Vector<T>(pub [T; 3]);

/// A 3x3 matrix of 16-bit entries, by rows.
#[derive(Clone, Copy, Debug)]
pub struct Matrix(pub [Vector<i16>; 3]);

impl Matrix {
    /// The row at the given index.
    pub fn row(&self, index: usize) -> (r: Vector<i16>)
        requires
            index < 3,
        ensures
            r == self.0@[index as int],
    {
        self.0[index]
    }

    /// Every entry is 0.
    pub open spec fn is_zero(&self) -> bool {
        forall|i: int, j: int| 0 <= i < 3 && 0 <= j < 3 ==> self.0@[i].0@[j] == 0
    }

    /// The zero matrix.
    pub fn zero() -> (r: Matrix)
        ensures
            r.is_zero(),
    {
        Matrix([Vector([0i16; 3]), Vector([0i16; 3]), Vector([0i16; 3])])
    }
}

impl Vector<i16> {
    /// Each component shifted left by `shift` and set into a fresh
    /// accumulator.
    pub fn as_fixed(&self, shift: usize) -> (r: Vector<Accumulator>)
        requires
            shift <= 40,
        ensures
            forall|i: int| 0 <= i < 3 ==> #[trigger] r.0@[i] == zero_acc().set_spec(
                ((self.0@[i] as i64) << shift) as i64),
            forall|i: int| 0 <= i < 3 ==> (#[trigger] r.0@[i]).wf(),
    {
        Vector([
            Accumulator::new_with_value((self.0[0] as i64) << shift),
            Accumulator::new_with_value((self.0[1] as i64) << shift),
            Accumulator::new_with_value((self.0[2] as i64) << shift),
        ])
    }

    /// The component-wise product, in 32 bits.
    pub fn mul_vector(self, rhs: Vector<i16>) -> (r: Vector<i32>)
        ensures
            forall|i: int| 0 <= i < 3 ==> #[trigger] r.0@[i] == self.0@[i] * rhs.0@[i],
    {
        proof {
            assert forall|a: i16, b: i16| -0x4000_0000 <= #[trigger] (a * b) <= 0x4000_0000 by {
                assert(-0x4000_0000 <= a * b <= 0x4000_0000) by (nonlinear_arith)
                    requires -0x8000 <= a <= 0x7fff, -0x8000 <= b <= 0x7fff;
            }
        }
        Vector([
            self.0[0] as i32 * rhs.0[0] as i32,
            self.0[1] as i32 * rhs.0[1] as i32,
            self.0[2] as i32 * rhs.0[2] as i32,
        ])
    }

    /// Each component times `rhs`, in 32 bits.
    pub fn mul_scalar(self, rhs: i16) -> (r: Vector<i32>)
        ensures
            forall|i: int| 0 <= i < 3 ==> #[trigger] r.0@[i] == self.0@[i] * rhs,
    {
        proof {
            assert forall|a: i16| -0x4000_0000 <= #[trigger] (a * rhs) <= 0x4000_0000 by {
                assert(-0x4000_0000 <= a * rhs <= 0x4000_0000) by (nonlinear_arith)
                    requires -0x8000 <= a <= 0x7fff, -0x8000 <= rhs <= 0x7fff;
            }
        }
        Vector([
            self.0[0] as i32 * rhs as i32,
            self.0[1] as i32 * rhs as i32,
            self.0[2] as i32 * rhs as i32,
        ])
    }
}

impl Vector<i32> {
    /// Each component shifted left by `shift` and set into a fresh
    /// accumulator.
    pub fn as_fixed(&self, shift: usize) -> (r: Vector<Accumulator>)
        requires
            shift <= 31,
        ensures
            forall|i: int| 0 <= i < 3 ==> #[trigger] r.0@[i] == zero_acc().set_spec(
                ((self.0@[i] as i64) << shift) as i64),
            forall|i: int| 0 <= i < 3 ==> (#[trigger] r.0@[i]).wf(),
    {
        Vector([
            Accumulator::new_with_value((self.0[0] as i64) << shift),
            Accumulator::new_with_value((self.0[1] as i64) << shift),
            Accumulator::new_with_value((self.0[2] as i64) << shift),
        ])
    }
}

impl Vector<Accumulator> {
    /// The overflow flags of the three accumulators, as laid out in the
    /// GTE flag register: positive overflow of component i at bit 30 - i,
    /// else negative overflow at bit 27 - i.
    pub fn flags(&self) -> (r: u32)
        ensures
            r == acc_flag(self.0@[0], 0) | acc_flag(self.0@[1], 1) | acc_flag(self.0@[2], 2),
    {
        let f0 = Self::flag_of(self.0[0], 0);
        let f1 = Self::flag_of(self.0[1], 1);
        let f2 = Self::flag_of(self.0[2], 2);
        let val = f0 | f1 | f2;
        val
    }

    fn flag_of(acc: Accumulator, i: usize) -> (r: u32)
        requires
            i < 3,
        ensures
            r == acc_flag(acc, i as int),
    {
        if acc.positive_overflow {
            1u32 << (30 - i) as u32
        } else if acc.negative_overflow {
            1u32 << (27 - i) as u32
        } else {
            0
        }
    }

    /// Clears the overflow flags of the three accumulators.
    pub fn reset_flags(&mut self)
        ensures
            forall|i: int| 0 <= i < 3 ==> #[trigger] final(self).0@[i] == (Accumulator {
                positive_overflow: false,
                negative_overflow: false,
                ..old(self).0@[i]
            }),
    {
        let mut i: usize = 0;
        while i < 3
            invariant
                i <= 3,
                forall|j: int| 0 <= j < i ==> #[trigger] self.0@[j] == (Accumulator {
                    positive_overflow: false,
                    negative_overflow: false,
                    ..old(self).0@[j]
                }),
                forall|j: int| i <= j < 3 ==> #[trigger] self.0@[j] == old(self).0@[j],
            decreases 3 - i,
        {
            let mut acc = self.0[i];
            acc.positive_overflow = false;
            acc.negative_overflow = false;
            self.0[i] = acc;
            i = i + 1;
        }
    }

    /// Drops `shift_fractional` fraction bits from the three accumulators.
    pub fn commit(&mut self, shift_fractional: usize)
        requires
            forall|i: int| 0 <= i < 3 ==> (#[trigger] old(self).0@[i]).wf(),
            shift_fractional < 64,
        ensures
            forall|i: int| 0 <= i < 3 ==> #[trigger] final(self).0@[i] == (Accumulator {
                value: old(self).0@[i].value >> shift_fractional,
                ..old(self).0@[i]
            }),
    {
        let mut i: usize = 0;
        while i < 3
            invariant
                i <= 3,
                shift_fractional < 64,
                forall|j: int| 0 <= j < 3 ==> (#[trigger] old(self).0@[j]).wf(),
                forall|j: int| 0 <= j < i ==> #[trigger] self.0@[j] == (Accumulator {
                    value: old(self).0@[j].value >> shift_fractional,
                    ..old(self).0@[j]
                }),
                forall|j: int| i <= j < 3 ==> #[trigger] self.0@[j] == old(self).0@[j],
            decreases 3 - i,
        {
            let mut acc = self.0[i];
            acc.commit(shift_fractional);
            self.0[i] = acc;
            i = i + 1;
        }
    }
}

/// The flag bit of accumulator `i` (0 to 2) in the GTE flag register.
pub open spec fn acc_flag(acc: Accumulator, i: int) -> u32 {
    if acc.positive_overflow {
        1u32 << (30 - i) as u32
    } else if acc.negative_overflow {
        1u32 << (27 - i) as u32
    } else {
        0
    }
}

} // verus!
