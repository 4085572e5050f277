//! The geometry transformation engine (coprocessor 2): its register file
//! and the fixed-point operations it executes.

pub mod division;
pub mod operations;
pub mod types;

use vstd::prelude::*;

use self::types::{Matrix, Vector};

verus! {

broadcast use vstd::array::group_array_axioms;

/// An RGB colour with the GPU command code byte.
#[derive(Clone, Copy, Debug, PartialEq, Eq, Structural)]
pub struct Rgb {
    pub r: u8,
    pub g: u8,
    pub b: u8,
    pub code: u8,
}

/// A screen coordinate pair.
#[derive(Clone, Copy, Debug, PartialEq, Eq, Structural)]
pub struct Xy {
    pub x: i16,
    pub y: i16,
}

/// The GTE state: control registers (matrices, translation vectors, screen
/// parameters) and data registers (input vectors, the XY, Z and colour
/// FIFOs, accumulators and intermediate results).
#[derive(Clone, Copy, Debug)]
pub struct Gte {
    pub current_instruction: u32,
    /// The raw words last written to the control registers.
    pub cr: [u32; 32],
    pub rotation: Matrix,
    pub light: Matrix,
    pub color: Matrix,
    pub t: Vector<i32>,
    pub b: Vector<i32>,
    pub fc: Vector<i32>,
    pub null: Vector<i32>,
    /// Screen offset, signed 15.16 fixed point.
    pub ofx: i32,
    pub ofy: i32,
    /// Projection plane distance, unsigned.
    pub h: u16,
    pub dqa: i16,
    pub dqb: i32,
    pub zsf3: i16,
    pub zsf4: i16,
    pub v0: Vector<i16>,
    pub v1: Vector<i16>,
    pub v2: Vector<i16>,
    pub rgb: Rgb,
    pub otz: u16,
    pub ir0: i16,
    pub ir1: i16,
    pub ir2: i16,
    pub ir3: i16,
    pub sxy0: Xy,
    pub sxy1: Xy,
    pub sxy2: Xy,
    pub sxy3: Xy,
    pub sz0: u16,
    pub sz1: u16,
    pub sz2: u16,
    pub sz3: u16,
    pub rgb0: Rgb,
    pub rgb1: Rgb,
    pub rgb2: Rgb,
    pub mac0: i32,
    pub mac1: i32,
    pub mac2: i32,
    pub mac3: i32,
    pub lzcs: u32,
    pub lzcr: u32,
    pub r23: u32,
    /// The flag register (r63), without its computed error bit.
    pub flags: u32,
}

/// Two signed halfwords packed into a word, low one first.
pub open spec fn pack_xy(lo: i16, hi: i16) -> u32 {
    (lo as u16 as u32) | ((hi as u16 as u32) << 16u32)
}

/// A colour packed into a word: R, G, B and the code from the low byte up.
pub open spec fn pack_rgb(c: Rgb) -> u32 {
    (c.r as u32) | ((c.g as u32) << 8u32) | ((c.b as u32) << 16u32) | ((c.code as u32) << 24u32)
}

/// A colour unpacked from a word.
pub open spec fn unpack_rgb(value: u32) -> Rgb {
    Rgb {
        r: value as u8,
        g: (value >> 8u32) as u8,
        b: (value >> 16u32) as u8,
        code: (value >> 24u32) as u8,
    }
}

/// A coordinate pair unpacked from a word.
pub open spec fn unpack_xy(value: u32) -> Xy {
    Xy { x: value as i16, y: (value >> 16u32) as i16 }
}

/// The count of leading bits equal to the sign bit.
pub open spec fn leading_count(value: u32) -> u32 {
    if (value as i32) >= 0 {
        vstd::std_specs::bits::u32_leading_zeros(value)
    } else {
        vstd::std_specs::bits::u32_leading_ones(value)
    }
}

/// A 5-bit colour component from an IR value already shifted down by 7.
pub open spec fn sat5_spec(cc: i16) -> u8 {
    if cc < 0 {
        0
    } else if cc > 0x1f {
        0x1f
    } else {
        cc as u8
    }
}

/// The flag register as read: bit 31 is set when any error flag is.
pub open spec fn flags_read(flags: u32) -> u32 {
    if flags & 0x7f87e000 != 0 {
        flags | 0x8000_0000
    } else {
        flags
    }
}

/// The bits of each control register that a write keeps.
pub open spec fn cr_mask(register: int) -> u32 {
    if register == 4 || register == 12 || register == 20 || register == 26 || register == 27
        || register == 29 || register == 30 {
        0x0000_ffff
    } else {
        0xffff_ffff
    }
}

/// The vector with component `i` replaced.
pub open spec fn vec_set<T>(v: Vector<T>, i: int, x: T) -> Vector<T> {
    Vector(
        [
            if i == 0 { x } else { v.0[0] },
            if i == 1 { x } else { v.0[1] },
            if i == 2 { x } else { v.0[2] },
        ],
    )
}

/// A matrix with one entry replaced.
pub open spec fn mat_set(m: Matrix, row: int, col: int, x: i16) -> Matrix {
    Matrix(
        [
            if row == 0 { vec_set(m.0[0], col, x) } else { m.0[0] },
            if row == 1 { vec_set(m.0[1], col, x) } else { m.0[1] },
            if row == 2 { vec_set(m.0[2], col, x) } else { m.0[2] },
        ],
    )
}

/// The matrix after a write of `value` to its control word `index` (0 to
/// 4): the nine entries are packed two per word, row by row.
pub open spec fn matrix_word(m: Matrix, index: int, value: u32) -> Matrix {
    let lo = value as i16;
    let hi = (value >> 16u32) as i16;
    if index == 0 {
        mat_set(mat_set(m, 0, 0, lo), 0, 1, hi)
    } else if index == 1 {
        mat_set(mat_set(m, 0, 2, lo), 1, 0, hi)
    } else if index == 2 {
        mat_set(mat_set(m, 1, 1, lo), 1, 2, hi)
    } else if index == 3 {
        mat_set(mat_set(m, 2, 0, lo), 2, 1, hi)
    } else {
        mat_set(m, 2, 2, lo)
    }
}

impl Gte {
    /// The value read from register `register` (0 to 63; control registers
    /// are 32 to 63).
    pub open spec fn read_spec(self, register: int) -> Option<u32> {
        if 0 <= register < 64 {
            Some(
                if register == 0 {
                    pack_xy(self.v0.0[0], self.v0.0[1])
                } else if register == 1 {
                    self.v0.0[2] as u32
                } else if register == 2 {
                    pack_xy(self.v1.0[0], self.v1.0[1])
                } else if register == 3 {
                    self.v1.0[2] as u32
                } else if register == 4 {
                    pack_xy(self.v2.0[0], self.v2.0[1])
                } else if register == 5 {
                    self.v2.0[2] as u32
                } else if register == 6 {
                    pack_rgb(self.rgb)
                } else if register == 7 {
                    self.otz as u32
                } else if register == 8 {
                    self.ir0 as u32
                } else if register == 9 {
                    self.ir1 as u32
                } else if register == 10 {
                    self.ir2 as u32
                } else if register == 11 {
                    self.ir3 as u32
                } else if register == 12 {
                    pack_xy(self.sxy0.x, self.sxy0.y)
                } else if register == 13 {
                    pack_xy(self.sxy1.x, self.sxy1.y)
                } else if register == 14 || register == 15 {
                    pack_xy(self.sxy2.x, self.sxy2.y)
                } else if register == 16 {
                    self.sz0 as u32
                } else if register == 17 {
                    self.sz1 as u32
                } else if register == 18 {
                    self.sz2 as u32
                } else if register == 19 {
                    self.sz3 as u32
                } else if register == 20 {
                    pack_rgb(self.rgb0)
                } else if register == 21 {
                    pack_rgb(self.rgb1)
                } else if register == 22 {
                    pack_rgb(self.rgb2)
                } else if register == 23 {
                    self.r23
                } else if register == 24 {
                    self.mac0 as u32
                } else if register == 25 {
                    self.mac1 as u32
                } else if register == 26 {
                    self.mac2 as u32
                } else if register == 27 {
                    self.mac3 as u32
                } else if register == 28 || register == 29 {
                    (sat5_spec(self.ir1 >> 7u32) as u32) | ((sat5_spec(self.ir2 >> 7u32) as u32)
                        << 5u32) | ((sat5_spec(self.ir3 >> 7u32) as u32) << 10u32)
                } else if register == 30 {
                    self.lzcs
                } else if register == 31 {
                    leading_count(self.lzcs)
                } else if register == 56 {
                    self.ofx as u32
                } else if register == 57 {
                    self.ofy as u32
                } else if register == 58 {
                    self.h as i16 as u32
                } else if register == 59 {
                    self.dqa as u32
                } else if register == 60 {
                    self.dqb as u32
                } else if register == 61 {
                    self.zsf3 as u32
                } else if register == 62 {
                    self.zsf4 as u32
                } else if register == 63 {
                    flags_read(self.flags)
                } else if register == 36 || register == 44 || register == 52 {
                    self.cr[register - 32] as i16 as u32
                } else {
                    self.cr[register - 32]
                },
            )
        } else {
            None
        }
    }

    /// The state after a write of `value` to data register `register`
    /// (0 to 31).
    pub open spec fn write_data_spec(self, register: int, value: u32) -> Gte {
        let lo = value as i16;
        let hi = (value >> 16u32) as i16;
        if register == 0 {
            Gte { v0: Vector([lo, hi, self.v0.0[2]]), ..self }
        } else if register == 1 {
            Gte { v0: vec_set(self.v0, 2, lo), ..self }
        } else if register == 2 {
            Gte { v1: Vector([lo, hi, self.v1.0[2]]), ..self }
        } else if register == 3 {
            Gte { v1: vec_set(self.v1, 2, lo), ..self }
        } else if register == 4 {
            Gte { v2: Vector([lo, hi, self.v2.0[2]]), ..self }
        } else if register == 5 {
            Gte { v2: vec_set(self.v2, 2, lo), ..self }
        } else if register == 6 {
            Gte { rgb: unpack_rgb(value), ..self }
        } else if register == 7 {
            Gte { otz: value as u16, ..self }
        } else if register == 8 {
            Gte { ir0: lo, ..self }
        } else if register == 9 {
            Gte { ir1: lo, ..self }
        } else if register == 10 {
            Gte { ir2: lo, ..self }
        } else if register == 11 {
            Gte { ir3: lo, ..self }
        } else if register == 12 {
            Gte { sxy0: unpack_xy(value), ..self }
        } else if register == 13 {
            Gte { sxy1: unpack_xy(value), ..self }
        } else if register == 14 {
            Gte { sxy2: unpack_xy(value), sxy3: unpack_xy(value), ..self }
        } else if register == 15 {
            Gte {
                sxy0: self.sxy1,
                sxy1: self.sxy2,
                sxy2: unpack_xy(value),
                sxy3: unpack_xy(value),
                ..self
            }
        } else if register == 16 {
            Gte { sz0: value as u16, ..self }
        } else if register == 17 {
            Gte { sz1: value as u16, ..self }
        } else if register == 18 {
            Gte { sz2: value as u16, ..self }
        } else if register == 19 {
            Gte { sz3: value as u16, ..self }
        } else if register == 20 {
            Gte { rgb0: unpack_rgb(value), ..self }
        } else if register == 21 {
            Gte { rgb1: unpack_rgb(value), ..self }
        } else if register == 22 {
            Gte { rgb2: unpack_rgb(value), ..self }
        } else if register == 23 {
            Gte { r23: value, ..self }
        } else if register == 24 {
            Gte { mac0: value as i32, ..self }
        } else if register == 25 {
            Gte { mac1: value as i32, ..self }
        } else if register == 26 {
            Gte { mac2: value as i32, ..self }
        } else if register == 27 {
            Gte { mac3: value as i32, ..self }
        } else if register == 28 {
            Gte {
                ir1: ((value & 0x1f) << 7u32) as i16,
                ir2: (((value >> 5u32) & 0x1f) << 7u32) as i16,
                ir3: (((value >> 10u32) & 0x1f) << 7u32) as i16,
                ..self
            }
        } else if register == 30 {
            Gte { lzcs: value, lzcr: leading_count(value), ..self }
        } else {
            self
        }
    }

    /// The decoded state after a write of the masked `value` to control
    /// register `register` (0 to 31); the raw copy in `cr` is stated
    /// apart.
    pub open spec fn write_cr_decoded(self, register: int, value: u32) -> Gte {
        let index = register % 8;
        if register < 24 && index >= 5 {
            let c = value as i32;
            if register < 8 {
                Gte { t: vec_set(self.t, index - 5, c), ..self }
            } else if register < 16 {
                Gte { b: vec_set(self.b, index - 5, c), ..self }
            } else {
                Gte { fc: vec_set(self.fc, index - 5, c), ..self }
            }
        } else if register < 8 {
            Gte { rotation: matrix_word(self.rotation, index, value), ..self }
        } else if register < 16 {
            Gte { light: matrix_word(self.light, index, value), ..self }
        } else if register < 24 {
            Gte { color: matrix_word(self.color, index, value), ..self }
        } else if register == 24 {
            Gte { ofx: value as i32, ..self }
        } else if register == 25 {
            Gte { ofy: value as i32, ..self }
        } else if register == 26 {
            Gte { h: value as u16, ..self }
        } else if register == 27 {
            Gte { dqa: value as i16, ..self }
        } else if register == 28 {
            Gte { dqb: value as i32, ..self }
        } else if register == 29 {
            Gte { zsf3: value as i16, ..self }
        } else if register == 30 {
            Gte { zsf4: value as i16, ..self }
        } else {
            Gte {
                flags: if value & 0x7f87e000 != 0 {
                    (value & 0x7fff_f000) | 0x8000_0000
                } else {
                    value & 0x7fff_f000
                },
                ..self
            }
        }
    }

    /// FNV-1a style hash of the first `n` registers as read.
    pub open spec fn hash_spec(self, n: nat) -> u64
        decreases n,
    {
        if n == 0 {
            0xcbf29ce484222325
        } else {
            vstd::wrapping::u64_specs::wrapping_mul(
                self.hash_spec((n - 1) as nat) ^ (self.read_spec(n - 1).unwrap() as u64),
                0x100000001b3,
            )
        }
    }

    /// A GTE with every register cleared.
    pub fn new() -> (r: Self)
        ensures
            forall|i: int| 0 <= i < 32 ==> r.cr[i] == 0,
            r.rotation.is_zero() && r.light.is_zero() && r.color.is_zero(),
            r.t.0@ == seq![0i32, 0, 0] && r.b.0@ == seq![0i32, 0, 0] && r.fc.0@ == seq![0i32, 0, 0]
                && r.null.0@ == seq![0i32, 0, 0],
            r.ofx == 0 && r.ofy == 0 && r.h == 0 && r.dqa == 0 && r.dqb == 0 && r.zsf3 == 0 && r.zsf4 == 0,
            r.v0.0@ == seq![0i16, 0, 0] && r.v1.0@ == seq![0i16, 0, 0] && r.v2.0@ == seq![0i16, 0, 0],
            r.rgb == (Rgb { r: 0, g: 0, b: 0, code: 0 }),
            r.rgb0 == r.rgb && r.rgb1 == r.rgb && r.rgb2 == r.rgb,
            r.otz == 0,
            r.sxy0 == (Xy { x: 0, y: 0 }),
            r.sxy1 == r.sxy0 && r.sxy2 == r.sxy0 && r.sxy3 == r.sxy0,
            r.sz0 == 0 && r.sz1 == 0 && r.sz2 == 0 && r.sz3 == 0,
            r.lzcs == 0 && r.lzcr == 0 && r.r23 == 0,
            r.flags == 0,
            r.mac0 == 0 && r.mac1 == 0 && r.mac2 == 0 && r.mac3 == 0,
            r.ir0 == 0 && r.ir1 == 0 && r.ir2 == 0 && r.ir3 == 0,
            r.current_instruction == 0,
    {
        let zero_rgb = Rgb { r: 0, g: 0, b: 0, code: 0 };
        let zero_xy = Xy { x: 0, y: 0 };
        let g = Gte {
            current_instruction: 0,
            cr: [0; 32],
            rotation: Matrix::zero(),
            light: Matrix::zero(),
            color: Matrix::zero(),
            t: Vector([0; 3]),
            b: Vector([0; 3]),
            fc: Vector([0; 3]),
            null: Vector([0; 3]),
            ofx: 0,
            ofy: 0,
            h: 0,
            dqa: 0,
            dqb: 0,
            zsf3: 0,
            zsf4: 0,
            v0: Vector([0; 3]),
            v1: Vector([0; 3]),
            v2: Vector([0; 3]),
            rgb: zero_rgb,
            otz: 0,
            ir0: 0,
            ir1: 0,
            ir2: 0,
            ir3: 0,
            sxy0: zero_xy,
            sxy1: zero_xy,
            sxy2: zero_xy,
            sxy3: zero_xy,
            sz0: 0,
            sz1: 0,
            sz2: 0,
            sz3: 0,
            rgb0: zero_rgb,
            rgb1: zero_rgb,
            rgb2: zero_rgb,
            mac0: 0,
            mac1: 0,
            mac2: 0,
            mac3: 0,
            lzcs: 0,
            lzcr: 0,
            r23: 0,
            flags: 0,
        };
        assert(g.t.0@ =~= seq![0i32, 0, 0]);
        assert(g.b.0@ =~= seq![0i32, 0, 0]);
        assert(g.fc.0@ =~= seq![0i32, 0, 0]);
        assert(g.null.0@ =~= seq![0i32, 0, 0]);
        assert(g.v0.0@ =~= seq![0i16, 0, 0]);
        assert(g.v1.0@ =~= seq![0i16, 0, 0]);
        assert(g.v2.0@ =~= seq![0i16, 0, 0]);
        g
    }

    fn sat5(cc: i16) -> (r: u8)
        ensures
            r == sat5_spec(cc),
    {
        if cc < 0 {
            0
        } else if cc > 0x1f {
            0x1f
        } else {
            cc as u8
        }
    }

    fn leading(value: u32) -> (r: u32)
        ensures
            r == leading_count(value),
    {
        if (value as i32) >= 0 {
            value.leading_zeros()
        } else {
            value.leading_ones()
        }
    }

    /// Reads register `register` (0 to 63); `None` beyond.
    pub fn read(&self, register: usize) -> (r: Option<u32>)
        ensures
            r == self.read_spec(register as int),
    {
        let val = match register {
            0 => pack16(self.v0.0[0], self.v0.0[1]),
            1 => self.v0.0[2] as u32,
            2 => pack16(self.v1.0[0], self.v1.0[1]),
            3 => self.v1.0[2] as u32,
            4 => pack16(self.v2.0[0], self.v2.0[1]),
            5 => self.v2.0[2] as u32,
            6 => pack_color(self.rgb),
            7 => self.otz as u32,
            8 => self.ir0 as u32,
            9 => self.ir1 as u32,
            10 => self.ir2 as u32,
            11 => self.ir3 as u32,
            12 => pack16(self.sxy0.x, self.sxy0.y),
            13 => pack16(self.sxy1.x, self.sxy1.y),
            14 | 15 => pack16(self.sxy2.x, self.sxy2.y),
            16 => self.sz0 as u32,
            17 => self.sz1 as u32,
            18 => self.sz2 as u32,
            19 => self.sz3 as u32,
            20 => pack_color(self.rgb0),
            21 => pack_color(self.rgb1),
            22 => pack_color(self.rgb2),
            23 => self.r23,
            24 => self.mac0 as u32,
            25 => self.mac1 as u32,
            26 => self.mac2 as u32,
            27 => self.mac3 as u32,
            28 | 29 => {
                (Gte::sat5(self.ir1 >> 7u32) as u32) | ((Gte::sat5(self.ir2 >> 7u32) as u32)
                    << 5u32) | ((Gte::sat5(self.ir3 >> 7u32) as u32) << 10u32)
            },
            30 => self.lzcs,
            31 => Gte::leading(self.lzcs),
            56 => self.ofx as u32,
            57 => self.ofy as u32,
            58 => self.h as i16 as u32,
            59 => self.dqa as u32,
            60 => self.dqb as u32,
            61 => self.zsf3 as u32,
            62 => self.zsf4 as u32,
            63 => {
                let val = self.flags;
                if val & 0x7f87e000 != 0 {
                    val | 0x8000_0000
                } else {
                    val
                }
            },
            36 | 44 | 52 => self.cr[register - 32] as i16 as u32,
            32..=63 => self.cr[register - 32],
            _ => return None,
        };
        Some(val)
    }

    /// Every register as read, in order.
    pub fn all_regs(&self) -> (r: [u32; 64])
        ensures
            forall|i: int| 0 <= i < 64 ==> r[i] == self.read_spec(i).unwrap(),
    {
        let mut regs = [0u32; 64];
        let mut i: usize = 0;
        while i < 64
            invariant
                i <= 64,
                forall|j: int| 0 <= j < i ==> regs[j] == self.read_spec(j).unwrap(),
            decreases 64 - i,
        {
            let v = self.read(i);
            regs[i] = match v {
                Some(x) => x,
                None => 0,
            };
            i = i + 1;
        }
        regs
    }

    /// A hash of the state as the 64 registers read it.
    pub fn hash(&self) -> (r: u64)
        ensures
            r == self.hash_spec(64),
    {
        let mut hash: u64 = 0xcbf29ce484222325;
        let mut i: usize = 0;
        while i < 64
            invariant
                i <= 64,
                hash == self.hash_spec(i as nat),
            decreases 64 - i,
        {
            let val = match self.read(i) {
                Some(x) => x,
                None => 0,
            };
            hash = hash ^ (val as u64);
            hash = hash.wrapping_mul(0x100000001b3);
            i = i + 1;
        }
        hash
    }

    /// Writes a data (0 to 31) or control (32 to 63) register.
    pub fn write(&mut self, register: usize, value: u32) -> (r: Result<(), String>)
        requires
            register < 64,
        ensures
            r is Ok,
            register < 32 ==> *final(self) == old(self).write_data_spec(register as int, value),
            register >= 32 ==> final(self).cr@ == old(self).cr@.update(
                register - 32,
                (value & cr_mask(register - 32)) | (old(self).cr[register - 32] & !cr_mask(
                    register - 32,
                )),
            ),
            register >= 32 ==> (Gte { cr: old(self).cr, ..*final(self) })
                == old(self).write_cr_decoded(register - 32, value & cr_mask(register - 32)),
    {
        if register >= 32 {
            return self.write_cr(register - 32, value);
        }
        #[verifier::truncate]
        let lo = value as i16;
        #[verifier::truncate]
        let hi = (value >> 16u32) as i16;
        match register {
            0 => {
                self.v0 = Vector([lo, hi, self.v0.0[2]]);
                assert(self.v0.0@ =~= Vector([lo, hi, old(self).v0.0[2]]).0@);
                assert(self.v0.0 == Vector([lo, hi, old(self).v0.0[2]]).0);
            },
            1 => {
                self.v0.0[2] = lo;
                assert(self.v0.0@ =~= vec_set(old(self).v0, 2, lo).0@);
                assert(self.v0.0 == vec_set(old(self).v0, 2, lo).0);
            },
            2 => {
                self.v1 = Vector([lo, hi, self.v1.0[2]]);
                assert(self.v1.0@ =~= Vector([lo, hi, old(self).v1.0[2]]).0@);
                assert(self.v1.0 == Vector([lo, hi, old(self).v1.0[2]]).0);
            },
            3 => {
                self.v1.0[2] = lo;
                assert(self.v1.0@ =~= vec_set(old(self).v1, 2, lo).0@);
                assert(self.v1.0 == vec_set(old(self).v1, 2, lo).0);
            },
            4 => {
                self.v2 = Vector([lo, hi, self.v2.0[2]]);
                assert(self.v2.0@ =~= Vector([lo, hi, old(self).v2.0[2]]).0@);
                assert(self.v2.0 == Vector([lo, hi, old(self).v2.0[2]]).0);
            },
            5 => {
                self.v2.0[2] = lo;
                assert(self.v2.0@ =~= vec_set(old(self).v2, 2, lo).0@);
                assert(self.v2.0 == vec_set(old(self).v2, 2, lo).0);
            },
            6 => {
                self.rgb = unpack_color(value);
            },
            7 => {
                self.otz = value as u16;
            },
            8 => {
                self.ir0 = lo;
            },
            9 => {
                self.ir1 = lo;
            },
            10 => {
                self.ir2 = lo;
            },
            11 => {
                self.ir3 = lo;
            },
            12 => {
                self.sxy0 = Xy { x: lo, y: hi };
            },
            13 => {
                self.sxy1 = Xy { x: lo, y: hi };
            },
            14 => {
                self.sxy2 = Xy { x: lo, y: hi };
                self.sxy3 = Xy { x: lo, y: hi };
            },
            15 => {
                self.sxy3 = Xy { x: lo, y: hi };
                self.sxy0 = self.sxy1;
                self.sxy1 = self.sxy2;
                self.sxy2 = self.sxy3;
            },
            16 => {
                self.sz0 = value as u16;
            },
            17 => {
                self.sz1 = value as u16;
            },
            18 => {
                self.sz2 = value as u16;
            },
            19 => {
                self.sz3 = value as u16;
            },
            20 => {
                self.rgb0 = unpack_color(value);
            },
            21 => {
                self.rgb1 = unpack_color(value);
            },
            22 => {
                self.rgb2 = unpack_color(value);
            },
            23 => {
                self.r23 = value;
            },
            24 => {
                self.mac0 = value as i32;
            },
            25 => {
                self.mac1 = value as i32;
            },
            26 => {
                self.mac2 = value as i32;
            },
            27 => {
                self.mac3 = value as i32;
            },
            28 => {
                self.ir1 = ((value & 0x1f) << 7u32) as i16;
                self.ir2 = (((value >> 5u32) & 0x1f) << 7u32) as i16;
                self.ir3 = (((value >> 10u32) & 0x1f) << 7u32) as i16;
            },
            30 => {
                self.lzcs = value;
                self.lzcr = Gte::leading(value);
            },
            _ => {},
        }
        Ok(())
    }

    /// Writes control register `register` (0 to 31): the bits the register
    /// has are stored, and the value is decoded into the matrices, vectors
    /// and screen parameters.
    pub fn write_cr(&mut self, register: usize, value: u32) -> (r: Result<(), String>)
        requires
            register < 32,
        ensures
            r is Ok,
            final(self).cr@ == old(self).cr@.update(
                register as int,
                (value & cr_mask(register as int)) | (old(self).cr[register as int] & !cr_mask(
                    register as int,
                )),
            ),
            (Gte { cr: old(self).cr, ..*final(self) }) == old(self).write_cr_decoded(
                register as int,
                value & cr_mask(register as int),
            ),
    {
        let mask: u32 = if register == 4 || register == 12 || register == 20 || register == 26
            || register == 27 || register == 29 || register == 30 {
            0x0000_ffff
        } else {
            0xffff_ffff
        };
        let value = value & mask;
        let old_cr = self.cr;
        self.cr[register] = value | (self.cr[register] & !mask);
        let ghost with_cr = *self;
        assert(self.cr@ =~= old(self).cr@.update(register as int, value | (old(self).cr[register as int] & !mask)));
        if register < 24 {
            let index = register % 8;
            if index >= 5 {
                let c = value as i32;
                if register < 8 {
                    self.t = vector_set(self.t, index - 5, c);
                } else if register < 16 {
                    self.b = vector_set(self.b, index - 5, c);
                } else {
                    self.fc = vector_set(self.fc, index - 5, c);
                }
            } else if register < 8 {
                self.rotation = write_matrix_word(self.rotation, index, value);
            } else if register < 16 {
                self.light = write_matrix_word(self.light, index, value);
            } else {
                self.color = write_matrix_word(self.color, index, value);
            }
        } else {
            match register {
                24 => {
                    self.ofx = value as i32;
                },
                25 => {
                    self.ofy = value as i32;
                },
                26 => {
                    self.h = value as u16;
                },
                27 => {
                    self.dqa = value as i16;
                },
                28 => {
                    self.dqb = value as i32;
                },
                29 => {
                    self.zsf3 = value as i16;
                },
                30 => {
                    self.zsf4 = value as i16;
                },
                _ => {
                    self.flags = value & 0x7fff_f000;
                    if value & 0x7f87e000 != 0 {
                        self.flags = self.flags | 0x8000_0000;
                    }
                },
            }
        }
        assert((Gte { cr: old_cr, ..*self }) == old(self).write_cr_decoded(register as int, value));
        Ok(())
    }
}

fn pack16(lo: i16, hi: i16) -> (r: u32)
    ensures
        r == pack_xy(lo, hi),
{
    (lo as u16 as u32) | ((hi as u16 as u32) << 16u32)
}

fn pack_color(c: Rgb) -> (r: u32)
    ensures
        r == pack_rgb(c),
{
    (c.r as u32) | ((c.g as u32) << 8u32) | ((c.b as u32) << 16u32) | ((c.code as u32) << 24u32)
}

fn unpack_color(value: u32) -> (r: Rgb)
    ensures
        r == unpack_rgb(value),
{
    Rgb {
        r: value as u8,
        g: (value >> 8u32) as u8,
        b: (value >> 16u32) as u8,
        code: (value >> 24u32) as u8,
    }
}

fn vector_set(v: Vector<i32>, i: usize, x: i32) -> (r: Vector<i32>)
    requires
        i < 3,
    ensures
        r == vec_set(v, i as int, x),
{
    let mut w = v;
    w.0[i] = x;
    assert(w.0@ =~= vec_set(v, i as int, x).0@);
    assert(w.0 == vec_set(v, i as int, x).0);
    w
}

fn matrix_set(m: Matrix, row: usize, col: usize, x: i16) -> (r: Matrix)
    requires
        row < 3,
        col < 3,
    ensures
        r == mat_set(m, row as int, col as int, x),
{
    let mut w = m;
    w.0[row].0[col] = x;
    assert(w.0[row as int].0@ =~= vec_set(m.0[row as int], col as int, x).0@);
    assert(w.0[row as int].0 == vec_set(m.0[row as int], col as int, x).0);
    assert(w.0@ =~= mat_set(m, row as int, col as int, x).0@);
    assert(w.0 == mat_set(m, row as int, col as int, x).0);
    w
}

fn write_matrix_word(m: Matrix, index: usize, value: u32) -> (r: Matrix)
    requires
        index < 5,
    ensures
        r == matrix_word(m, index as int, value),
{
    let lo = value as i16;
    let hi = (value >> 16u32) as i16;
    match index {
        0 => matrix_set(matrix_set(m, 0, 0, lo), 0, 1, hi),
        1 => matrix_set(matrix_set(m, 0, 2, lo), 1, 0, hi),
        2 => matrix_set(matrix_set(m, 1, 1, lo), 1, 2, hi),
        3 => matrix_set(matrix_set(m, 2, 0, lo), 2, 1, hi),
        _ => matrix_set(m, 2, 2, lo),
    }
}

} // verus!
