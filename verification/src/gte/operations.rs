//! The GTE commands. Each is specified as a function from the state before
//! to the state after, built from the fixed-point steps the hardware
//! performs: accumulation with 44-bit overflow detection, saturation of the
//! intermediate, screen and colour values, and the flag bits each
//! saturation raises.

use vstd::prelude::*;

use super::division::{division, division_spec};
use super::types::{
    lemma_sext44_range,
    sext44,
    zero_acc,
    Accumulator,
    Matrix,
    Vector,
};
use super::{Gte, Rgb, Xy};
use crate::instruction::Instruction;

verus! {

broadcast use vstd::array::group_array_axioms;

/// The flag register bit `n`.
pub open spec fn bit(n: int) -> u32 {
    1u32 << (n as u32)
}

/// The shift of the `sf` field (bit 19) of a command: 12 or 0.
pub open spec fn sf_of(instr: u32) -> u32 {
    if instr & 0x80000 != 0 {
        12
    } else {
        0
    }
}

/// The `lm` field (bit 10): saturate IR1..IR3 to 0 rather than -0x8000.
pub open spec fn lm_of(instr: u32) -> bool {
    (instr >> 10u32) & 1 != 0
}

/// The lower bound of IR1..IR3 saturation.
pub open spec fn lm_b_min(lm: bool) -> int {
    if lm {
        0
    } else {
        -0x8000
    }
}

/// IR1..IR3 saturation of `value`.
pub open spec fn lm_b_val(value: i32, lm: bool) -> i16 {
    if value < lm_b_min(lm) {
        lm_b_min(lm) as i16
    } else if value > 0x7fff {
        0x7fff
    } else {
        value as i16
    }
}

/// The flag raised by IR saturation `which` (0 to 3) of `value`: bit
/// 24 - which.
pub open spec fn lm_b_flag(which: int, value: i32, lm: bool) -> u32 {
    if value < lm_b_min(lm) || value > 0x7fff {
        bit(24 - which)
    } else {
        0
    }
}

/// Screen coordinate saturation to [-0x400, 0x3ff].
pub open spec fn lm_g_val(value: i32) -> i16 {
    if value < -0x400 {
        -0x400i16
    } else if value > 0x3ff {
        0x3ff
    } else {
        value as i16
    }
}

/// The flag of screen coordinate saturation `which` (0 for X, 1 for Y).
pub open spec fn lm_g_flag(which: int, value: i32) -> u32 {
    if value < -0x400 || value > 0x3ff {
        bit(14 - which)
    } else {
        0
    }
}

/// IR0 saturation to [0, 0x1000].
pub open spec fn lm_h_val(value: i32) -> i16 {
    if value < 0 {
        0
    } else if value > 0x1000 {
        0x1000
    } else {
        value as i16
    }
}

/// The flag of IR0 saturation: bit 12.
pub open spec fn lm_h_flag(value: i32) -> u32 {
    if value < 0 || value > 0x1000 {
        bit(12)
    } else {
        0
    }
}

/// Colour component saturation to [0, 0xff].
pub open spec fn color_val(value: i32) -> u8 {
    if value > 0xff {
        0xff
    } else if value < 0 {
        0
    } else {
        value as u8
    }
}

/// The flag of colour saturation `which` (0 to 2 for R, G, B): bit
/// 21 - which.
pub open spec fn color_flag(which: int, value: i32) -> u32 {
    if value > 0xff || value < 0 {
        bit(21 - which)
    } else {
        0
    }
}

/// SZ3/OTZ saturation to [0, 0xffff]. When chained to a MAC0 result, an
/// overflow already flagged on MAC0 (bits 15 and 16 of `flags`) decides.
pub open spec fn lm_d_val(value: i32, unchained: bool, flags: u32) -> i32 {
    if !unchained && flags & bit(15) != 0 {
        0
    } else if !unchained && flags & bit(16) != 0 {
        0xffff
    } else if value < 0 {
        0
    } else if value > 0xffff {
        0xffff
    } else {
        value
    }
}

/// The flag of SZ3/OTZ saturation: bit 18.
pub open spec fn lm_d_flag(value: i32, unchained: bool, flags: u32) -> u32 {
    if (!unchained && (flags & bit(15) != 0 || flags & bit(16) != 0)) || value < 0 || value
        > 0xffff {
        bit(18)
    } else {
        0
    }
}

/// The flag of a MAC1..MAC3 result beyond 44 bits: bit 30 - which when
/// too large, bit 27 - which when too small.
pub open spec fn a_mv_flag(which: int, value: i64) -> u32 {
    if value >= 0x800_0000_0000 {
        bit(30 - which)
    } else if value < -0x800_0000_0000 {
        bit(27 - which)
    } else {
        0
    }
}

/// The flag of a MAC0 result beyond 32 bits: bit 16 when too large, bit 15
/// when too small.
pub open spec fn mac0_flag(value: i64) -> u32 {
    if value < -0x8000_0000 {
        bit(15)
    } else if value > 0x7fff_ffff {
        bit(16)
    } else {
        0
    }
}

/// The accumulator of a matrix row after its first product, started from
/// the translation component `c` in 20.12 fixed point.
pub open spec fn mmv_first(row: Vector<i16>, v: Vector<i16>, c: i32) -> Accumulator {
    let a0 = zero_acc().set_spec((c * 4096) as i64);
    a0.set_spec((a0.value + row.0[0] * v.0[0]) as i64)
}

/// The accumulator of a matrix row after all three products. With the
/// far-colour translation (`is_fc`) the hardware discards the sum after
/// the first product.
pub open spec fn mmv_last(row: Vector<i16>, v: Vector<i16>, c: i32, is_fc: bool) -> Accumulator {
    let a1 = mmv_first(row, v, c);
    let b = if is_fc {
        a1.set_spec(0)
    } else {
        a1
    };
    let a2 = b.set_spec((b.value + row.0[1] * v.0[1]) as i64);
    a2.set_spec((a2.value + row.0[2] * v.0[2]) as i64)
}

/// The MAC value of a matrix row.
pub open spec fn mmv_row_mac(row: Vector<i16>, v: Vector<i16>, c: i32, sf: u32, is_fc: bool) -> i32 {
    (mmv_last(row, v, c, is_fc).value >> sf) as i32
}

/// The flags a matrix row raises.
pub open spec fn mmv_row_flags(
    which: int,
    row: Vector<i16>,
    v: Vector<i16>,
    c: i32,
    sf: u32,
    is_fc: bool,
) -> u32 {
    let a3 = mmv_last(row, v, c, is_fc);
    let fcf = if is_fc {
        lm_b_flag(which, (mmv_first(row, v, c).value >> sf) as i32, false)
    } else {
        0
    };
    fcf | (if a3.positive_overflow {
        bit(30 - which)
    } else {
        0
    }) | (if a3.negative_overflow {
        bit(27 - which)
    } else {
        0
    })
}

/// The three partial sums of a perspective-transform row, each cut to 44
/// bits, starting from `c` in 20.12 fixed point.
pub open spec fn pt_steps(row: Vector<i16>, v: Vector<i16>, c: i32) -> (i64, i64, i64, i64) {
    let t0 = (c * 4096) as i64;
    let t1 = sext44((t0 + row.0[0] * v.0[0]) as i64);
    let t2 = sext44((t1 + row.0[1] * v.0[1]) as i64);
    let t3 = sext44((t2 + row.0[2] * v.0[2]) as i64);
    (t0, t1, t2, t3)
}

/// The flags a perspective-transform row raises.
pub open spec fn pt_row_flags(which: int, row: Vector<i16>, v: Vector<i16>, c: i32) -> u32 {
    let s = pt_steps(row, v, c);
    a_mv_flag(which, (s.0 + row.0[0] * v.0[0]) as i64) | a_mv_flag(
        which,
        (s.1 + row.0[1] * v.0[1]) as i64,
    ) | a_mv_flag(which, (s.2 + row.0[2] * v.0[2]) as i64)
}

/// One colour component of a depth cue: the MAC value and the flags, from
/// the far colour `fc`, the colour `rgbt` (8.4), the IR value `irt` and
/// IR0.
pub open spec fn dc_component(
    which: int,
    mult: bool,
    fc: i32,
    rgbt: i32,
    irt: i32,
    ir0: i16,
    sf: u32,
) -> (i32, u32) {
    let x1 = if mult {
        (fc * 4096 - rgbt * irt) as i64
    } else {
        (fc * 4096 - rgbt * 4096) as i64
    };
    let m1 = (sext44(x1) >> sf) as i32;
    let lmb = lm_b_val(m1, false);
    let x2 = if mult {
        (rgbt * irt + ir0 * lmb) as i64
    } else {
        (rgbt * 4096 + ir0 * lmb) as i64
    };
    (
        (sext44(x2) >> sf) as i32,
        a_mv_flag(which, x1) | lm_b_flag(which, m1, false) | a_mv_flag(which, x2),
    )
}

/// Whether the low six bits of a command select a GTE operation.
pub open spec fn is_command(op: u32) -> bool {
    op == 0x01 || op == 0x06 || op == 0x0c || op == 0x10 || op == 0x11 || op == 0x12 || op
        == 0x13 || op == 0x14 || op == 0x16 || op == 0x1b || op == 0x1c || op == 0x1e || op
        == 0x20 || op == 0x28 || op == 0x29 || op == 0x2a || op == 0x2d || op == 0x2e || op
        == 0x30 || op == 0x3d || op == 0x3e || op == 0x3f
}

impl Gte {
    pub open spec fn or_flags(self, f: u32) -> Gte {
        Gte { flags: self.flags | f, ..self }
    }

    /// IR1..IR3 as a vector.
    pub open spec fn ir_vec(self) -> Vector<i16> {
        Vector([self.ir1, self.ir2, self.ir3])
    }

    /// IR1..IR3 saturated from MAC1..MAC3.
    pub open spec fn mac_to_ir_spec(self, lm: bool) -> Gte {
        Gte {
            ir1: lm_b_val(self.mac1, lm),
            ir2: lm_b_val(self.mac2, lm),
            ir3: lm_b_val(self.mac3, lm),
            flags: self.flags | lm_b_flag(0, self.mac1, lm) | lm_b_flag(1, self.mac2, lm)
                | lm_b_flag(2, self.mac3, lm),
            ..self
        }
    }

    /// The colour FIFO advanced by the colour of MAC1..MAC3 / 16 with the
    /// code of RGBC.
    pub open spec fn push_rgb_spec(self) -> Gte {
        let r = self.mac1 >> 4u32;
        let g = self.mac2 >> 4u32;
        let b = self.mac3 >> 4u32;
        Gte {
            rgb0: self.rgb1,
            rgb1: self.rgb2,
            rgb2: Rgb { r: color_val(r), g: color_val(g), b: color_val(b), code: self.rgb.code },
            flags: self.flags | color_flag(0, r) | color_flag(1, g) | color_flag(2, b),
            ..self
        }
    }

    /// MAC1..MAC3 = translation + matrix * vector, then IR1..IR3.
    pub open spec fn mmv_spec(
        self,
        m: Matrix,
        v: Vector<i16>,
        c: Vector<i32>,
        sf: u32,
        lm: bool,
        is_fc: bool,
    ) -> Gte {
        Gte {
            mac1: mmv_row_mac(m.0[0], v, c.0[0], sf, is_fc),
            mac2: mmv_row_mac(m.0[1], v, c.0[1], sf, is_fc),
            mac3: mmv_row_mac(m.0[2], v, c.0[2], sf, is_fc),
            flags: self.flags | mmv_row_flags(0, m.0[0], v, c.0[0], sf, is_fc) | mmv_row_flags(
                1,
                m.0[1],
                v,
                c.0[1],
                sf,
                is_fc,
            ) | mmv_row_flags(2, m.0[2], v, c.0[2], sf, is_fc),
            ..self
        }.mac_to_ir_spec(lm)
    }

    /// The perspective transform of one vector up to the Z FIFO.
    pub open spec fn mmv_pt_spec(self, m: Matrix, v: Vector<i16>, c: Vector<i32>, sf: u32, lm: bool) -> Gte {
        let t0 = pt_steps(m.0[0], v, c.0[0]).3;
        let t1 = pt_steps(m.0[1], v, c.0[1]).3;
        let t2 = pt_steps(m.0[2], v, c.0[2]).3;
        let mac1 = (t0 >> sf) as i32;
        let mac2 = (t1 >> sf) as i32;
        let mac3 = (t2 >> sf) as i32;
        let ftv = (t2 >> 12u32) as i32;
        Gte {
            mac1,
            mac2,
            mac3,
            ir1: lm_b_val(mac1, lm),
            ir2: lm_b_val(mac2, lm),
            ir3: lm_b_val(mac3, lm),
            sz0: self.sz1,
            sz1: self.sz2,
            sz2: self.sz3,
            sz3: lm_d_val(ftv, true, 0) as u16,
            flags: self.flags | pt_row_flags(0, m.0[0], v, c.0[0]) | pt_row_flags(
                1,
                m.0[1],
                v,
                c.0[1],
            ) | pt_row_flags(2, m.0[2], v, c.0[2]) | lm_b_flag(0, mac1, lm) | lm_b_flag(
                1,
                mac2,
                lm,
            ) | lm_b_flag(2, ftv, false) | lm_d_flag(ftv, true, 0),
            ..self
        }
    }

    /// The screen coordinates of IR1, IR2 scaled by `q` = H / SZ3, pushed
    /// into the XY FIFO.
    pub open spec fn transform_xy_spec(self, q: u32) -> Gte {
        let x = (self.ofx + self.ir1 * q) as i64;
        let mx = (x >> 16u32) as i32;
        let y = (self.ofy + self.ir2 * q) as i64;
        let my = (y >> 16u32) as i32;
        let p = Xy { x: lm_g_val(mx), y: lm_g_val(my) };
        Gte {
            mac0: my,
            sxy0: self.sxy1,
            sxy1: self.sxy2,
            sxy2: p,
            sxy3: p,
            flags: self.flags | mac0_flag(x) | lm_g_flag(0, mx) | mac0_flag(y) | lm_g_flag(1, my),
            ..self
        }
    }

    /// The depth-cueing factor IR0 = DQB + DQA * q.
    pub open spec fn transform_dq_spec(self, q: u32) -> Gte {
        let d = (self.dqb + self.dqa * q) as i64;
        let e = (d >> 12u32) as i32;
        Gte { mac0: d as i32, ir0: lm_h_val(e), flags: self.flags | mac0_flag(d) | lm_h_flag(e), ..self }
    }

    /// The projection after a perspective transform: divide, then the
    /// screen coordinates, and for the `last` vector the depth cue factor.
    pub open spec fn project_spec(self, last: bool) -> Gte {
        let (q, of) = division_spec(self.h, self.sz3);
        let g = if of {
            self.or_flags(bit(17))
        } else {
            self
        };
        let g = g.transform_xy_spec(q);
        if last {
            g.transform_dq_spec(q)
        } else {
            g
        }
    }

    /// Interpolation between the colour (or the first colour FIFO entry)
    /// and the far colour by IR0, optionally first scaled by IR1..IR3.
    pub open spec fn depth_cue_spec(self, mult: bool, from_fifo: bool, sf: u32, lm: bool) -> Gte {
        let src = if from_fifo {
            self.rgb0
        } else {
            self.rgb
        };
        let c0 = dc_component(0, mult, self.fc.0[0], (src.r * 16) as i32, self.ir1 as i32, self.ir0, sf);
        let c1 = dc_component(1, mult, self.fc.0[1], (src.g * 16) as i32, self.ir2 as i32, self.ir0, sf);
        let c2 = dc_component(2, mult, self.fc.0[2], (src.b * 16) as i32, self.ir3 as i32, self.ir0, sf);
        Gte {
            mac1: c0.0,
            mac2: c1.0,
            mac3: c2.0,
            flags: self.flags | c0.1 | c1.1 | c2.1,
            ..self
        }.mac_to_ir_spec(lm).push_rgb_spec()
    }

    /// The colour scaled by IR1..IR3, then IR and the colour FIFO.
    pub open spec fn color_mult_spec(self, sf: u32, lm: bool) -> Gte {
        Gte {
            mac1: ((self.rgb.r * 16 * self.ir1) as i32) >> sf,
            mac2: ((self.rgb.g * 16 * self.ir2) as i32) >> sf,
            mac3: ((self.rgb.b * 16 * self.ir3) as i32) >> sf,
            ..self
        }.mac_to_ir_spec(lm).push_rgb_spec()
    }

    /// Light matrix times vector `v`, then colour matrix plus background.
    pub open spec fn nc_core_spec(self, v: Vector<i16>, sf: u32, lm: bool) -> Gte {
        let g = self.mmv_spec(self.light, v, self.null, sf, lm, false);
        g.mmv_spec(g.color, g.ir_vec(), g.b, sf, lm, false)
    }

    /// Input vector `i` (0 to 2).
    pub open spec fn vector_spec(self, i: int) -> Vector<i16> {
        if i == 0 {
            self.v0
        } else if i == 1 {
            self.v1
        } else {
            self.v2
        }
    }

    pub open spec fn rtps_spec(self) -> Gte {
        let ci = self.current_instruction;
        self.mmv_pt_spec(self.rotation, self.v0, self.t, sf_of(ci), lm_of(ci)).project_spec(true)
    }

    pub open spec fn rtpt_spec(self) -> Gte {
        let sf = sf_of(self.current_instruction);
        let lm = lm_of(self.current_instruction);
        let g = self.mmv_pt_spec(self.rotation, self.v0, self.t, sf, lm).project_spec(false);
        let g = g.mmv_pt_spec(g.rotation, g.v1, g.t, sf, lm).project_spec(false);
        g.mmv_pt_spec(g.rotation, g.v2, g.t, sf, lm).project_spec(true)
    }

    pub open spec fn nclip_spec(self) -> Gte {
        let x = (self.sxy0.x * (self.sxy1.y - self.sxy2.y) + self.sxy1.x * (self.sxy2.y
            - self.sxy0.y) + self.sxy2.x * (self.sxy0.y - self.sxy1.y)) as i64;
        Gte { mac0: x as i32, flags: self.flags | mac0_flag(x), ..self }
    }

    pub open spec fn op_spec(self) -> Gte {
        let sf = sf_of(self.current_instruction);
        let d1 = self.rotation.0[0].0[0];
        let d2 = self.rotation.0[1].0[1];
        let d3 = self.rotation.0[2].0[2];
        Gte {
            mac1: ((d2 * self.ir3 - d3 * self.ir2) as i32) >> sf,
            mac2: ((d3 * self.ir1 - d1 * self.ir3) as i32) >> sf,
            mac3: ((d1 * self.ir2 - d2 * self.ir1) as i32) >> sf,
            ..self
        }.mac_to_ir_spec(lm_of(self.current_instruction))
    }

    pub open spec fn sqr_spec(self) -> Gte {
        let sf = sf_of(self.current_instruction);
        Gte {
            mac1: ((self.ir1 * self.ir1) as i32) >> sf,
            mac2: ((self.ir2 * self.ir2) as i32) >> sf,
            mac3: ((self.ir3 * self.ir3) as i32) >> sf,
            ..self
        }.mac_to_ir_spec(lm_of(self.current_instruction))
    }

    pub open spec fn intpl_spec(self) -> Gte {
        let sf = sf_of(self.current_instruction);
        let lm = lm_of(self.current_instruction);
        let s1 = self.ir1 * 4096;
        let s2 = self.ir2 * 4096;
        let s3 = self.ir3 * 4096;
        let a1 = (((self.fc.0[0] * 4096 - s1) as i64) >> sf) as i32;
        let a2 = (((self.fc.0[1] * 4096 - s2) as i64) >> sf) as i32;
        let a3 = (((self.fc.0[2] * 4096 - s3) as i64) >> sf) as i32;
        let i1 = lm_b_val(a1, false);
        let i2 = lm_b_val(a2, false);
        let i3 = lm_b_val(a3, false);
        let b1 = (((i1 * self.ir0 + s1) as i64) >> sf) as i32;
        let b2 = (((i2 * self.ir0 + s2) as i64) >> sf) as i32;
        let b3 = (((i3 * self.ir0 + s3) as i64) >> sf) as i32;
        let m1 = lm_b_val(b1, lm) as i32;
        let m2 = lm_b_val(b2, lm) as i32;
        let m3 = lm_b_val(b3, lm) as i32;
        Gte {
            mac1: m1,
            mac2: m2,
            mac3: m3,
            ir1: lm_b_val(m1, lm),
            ir2: lm_b_val(m2, lm),
            ir3: lm_b_val(m3, lm),
            flags: self.flags | lm_b_flag(1, a1, false) | lm_b_flag(2, a2, false) | lm_b_flag(
                3,
                a3,
                false,
            ) | lm_b_flag(1, b1, lm) | lm_b_flag(2, b2, lm) | lm_b_flag(3, b3, lm) | lm_b_flag(
                1,
                m1,
                lm,
            ) | lm_b_flag(2, m2, lm) | lm_b_flag(3, m3, lm),
            ..self
        }.push_rgb_spec()
    }

    /// The matrix MVMVA multiplies by, from its `mx` field; the fourth
    /// selection yields the hardware's garbage matrix.
    pub open spec fn mvmva_matrix(self) -> Matrix {
        let mx = (self.current_instruction >> 17u32) & 3;
        if mx == 0 {
            self.rotation
        } else if mx == 1 {
            self.light
        } else if mx == 2 {
            self.color
        } else {
            let r = self.rgb.r as int * 16;
            let c1 = self.cr[1] as i16;
            let c2 = self.cr[2] as i16;
            Matrix([Vector([(-r) as i16, r as i16, self.ir0]), Vector([c1, c1, c1]), Vector([c2, c2, c2])])
        }
    }

    /// The vector MVMVA multiplies, from its `v` field.
    pub open spec fn mvmva_vector(self) -> Vector<i16> {
        let vi = (self.current_instruction >> 15u32) & 3;
        if vi == 3 {
            self.ir_vec()
        } else {
            self.vector_spec(vi as int)
        }
    }

    /// The translation vector MVMVA adds, from its `cv` field.
    pub open spec fn mvmva_translation(self) -> Vector<i32> {
        let cv = (self.current_instruction >> 13u32) & 3;
        if cv == 0 {
            self.t
        } else if cv == 1 {
            self.b
        } else if cv == 2 {
            self.fc
        } else {
            self.null
        }
    }

    pub open spec fn mvmva_spec(self) -> Gte {
        let ci = self.current_instruction;
        self.mmv_spec(
            self.mvmva_matrix(),
            self.mvmva_vector(),
            self.mvmva_translation(),
            sf_of(ci),
            lm_of(ci),
            (ci >> 13u32) & 3 == 2,
        )
    }

    pub open spec fn ncds_one(self, v: Vector<i16>) -> Gte {
        let sf = sf_of(self.current_instruction);
        let lm = lm_of(self.current_instruction);
        self.nc_core_spec(v, sf, lm).depth_cue_spec(true, false, sf, lm)
    }

    pub open spec fn nccs_one(self, v: Vector<i16>) -> Gte {
        let sf = sf_of(self.current_instruction);
        let lm = lm_of(self.current_instruction);
        self.nc_core_spec(v, sf, lm).color_mult_spec(sf, lm)
    }

    pub open spec fn ncs_one(self, v: Vector<i16>) -> Gte {
        let sf = sf_of(self.current_instruction);
        let lm = lm_of(self.current_instruction);
        self.nc_core_spec(v, sf, lm).push_rgb_spec()
    }

    pub open spec fn cdp_spec(self) -> Gte {
        let sf = sf_of(self.current_instruction);
        let lm = lm_of(self.current_instruction);
        self.mmv_spec(self.color, self.ir_vec(), self.b, sf, lm, false).depth_cue_spec(true, false, sf, lm)
    }

    pub open spec fn cc_spec(self) -> Gte {
        let sf = sf_of(self.current_instruction);
        let lm = lm_of(self.current_instruction);
        self.mmv_spec(self.color, self.ir_vec(), self.b, sf, lm, false).color_mult_spec(sf, lm)
    }

    pub open spec fn avsz3_spec(self) -> Gte {
        let x = (self.zsf3 * (self.sz1 + self.sz2 + self.sz3)) as i64;
        let f = self.flags | mac0_flag(x);
        let m = x as i32;
        Gte {
            mac0: m,
            otz: lm_d_val(m >> 12u32, false, f) as u16,
            flags: f | lm_d_flag(m >> 12u32, false, f),
            ..self
        }
    }

    pub open spec fn avsz4_spec(self) -> Gte {
        let x = (self.zsf4 * (self.sz0 + self.sz1 + self.sz2 + self.sz3)) as i64;
        let f = self.flags | mac0_flag(x);
        let m = x as i32;
        Gte {
            mac0: m,
            otz: lm_d_val(m >> 12u32, false, f) as u16,
            flags: f | lm_d_flag(m >> 12u32, false, f),
            ..self
        }
    }

    pub open spec fn gpf_spec(self) -> Gte {
        let sf = sf_of(self.current_instruction);
        Gte {
            mac1: ((self.ir0 * self.ir1) as i32) >> sf,
            mac2: ((self.ir0 * self.ir2) as i32) >> sf,
            mac3: ((self.ir0 * self.ir3) as i32) >> sf,
            ..self
        }.mac_to_ir_spec(lm_of(self.current_instruction)).push_rgb_spec()
    }

    pub open spec fn gpl_spec(self) -> Gte {
        let sf = sf_of(self.current_instruction);
        let x1 = ((self.mac1 as i64 * pow2_sf(sf) + self.ir1 * self.ir0) as i64) >> sf;
        let x2 = ((self.mac2 as i64 * pow2_sf(sf) + self.ir2 * self.ir0) as i64) >> sf;
        let x3 = ((self.mac3 as i64 * pow2_sf(sf) + self.ir3 * self.ir0) as i64) >> sf;
        Gte {
            mac1: sext44(x1) as i32,
            mac2: sext44(x2) as i32,
            mac3: sext44(x3) as i32,
            flags: self.flags | a_mv_flag(0, x1) | a_mv_flag(1, x2) | a_mv_flag(2, x3),
            ..self
        }.mac_to_ir_spec(lm_of(self.current_instruction)).push_rgb_spec()
    }

    /// The state after command `instr`: the flags are cleared, then the
    /// operation its low six bits select runs.
    pub open spec fn execute_spec(self, instr: u32) -> Gte {
        let g = Gte { flags: 0, current_instruction: instr, ..self };
        let op = instr & 0x3f;
        if op == 0x01 {
            g.rtps_spec()
        } else if op == 0x06 {
            g.nclip_spec()
        } else if op == 0x0c {
            g.op_spec()
        } else if op == 0x10 {
            g.depth_cue_spec(false, false, sf_of(instr), lm_of(instr))
        } else if op == 0x11 {
            g.intpl_spec()
        } else if op == 0x12 {
            g.mvmva_spec()
        } else if op == 0x13 {
            g.ncds_one(g.v0)
        } else if op == 0x14 {
            g.cdp_spec()
        } else if op == 0x16 {
            let g1 = g.ncds_one(g.v0);
            let g2 = g1.ncds_one(g1.v1);
            g2.ncds_one(g2.v2)
        } else if op == 0x1b {
            g.nccs_one(g.v0)
        } else if op == 0x1c {
            g.cc_spec()
        } else if op == 0x1e {
            g.ncs_one(g.v0)
        } else if op == 0x20 {
            let g1 = g.ncs_one(g.v0);
            let g2 = g1.ncs_one(g1.v1);
            g2.ncs_one(g2.v2)
        } else if op == 0x28 {
            g.sqr_spec()
        } else if op == 0x29 {
            g.depth_cue_spec(true, false, sf_of(instr), lm_of(instr))
        } else if op == 0x2a {
            let sf = sf_of(instr);
            let lm = lm_of(instr);
            g.depth_cue_spec(false, true, sf, lm).depth_cue_spec(false, true, sf, lm).depth_cue_spec(
                false,
                true,
                sf,
                lm,
            )
        } else if op == 0x2d {
            g.avsz3_spec()
        } else if op == 0x2e {
            g.avsz4_spec()
        } else if op == 0x30 {
            g.rtpt_spec()
        } else if op == 0x3d {
            g.gpf_spec()
        } else if op == 0x3e {
            g.gpl_spec()
        } else {
            let g1 = g.nccs_one(g.v0);
            let g2 = g1.nccs_one(g1.v1);
            g2.nccs_one(g2.v2)
        }
    }
}

/// 2 to the power `sf` for the two shifts a command can select.
pub open spec fn pow2_sf(sf: u32) -> int {
    if sf == 12 {
        4096
    } else {
        1
    }
}


fn flag_bit(n: u32) -> (r: u32)
    requires
        n < 32,
    ensures
        r == bit(n as int),
{
    1u32 << n
}

fn lm_b_calc(which: u32, value: i32, lm: bool) -> (r: (i16, u32))
    requires
        which <= 3,
    ensures
        r.0 == lm_b_val(value, lm),
        r.1 == lm_b_flag(which as int, value, lm),
{
    let min: i32 = if lm { 0 } else { -0x8000 };
    if value < min {
        (min as i16, flag_bit(24 - which))
    } else if value > 0x7fff {
        (0x7fff, flag_bit(24 - which))
    } else {
        (value as i16, 0)
    }
}

fn lm_g_calc(which: u32, value: i32) -> (r: (i16, u32))
    requires
        which <= 1,
    ensures
        r.0 == lm_g_val(value),
        r.1 == lm_g_flag(which as int, value),
{
    if value < -0x400 {
        (-0x400, flag_bit(14 - which))
    } else if value > 0x3ff {
        (0x3ff, flag_bit(14 - which))
    } else {
        (value as i16, 0)
    }
}

fn lm_h_calc(value: i32) -> (r: (i16, u32))
    ensures
        r.0 == lm_h_val(value),
        r.1 == lm_h_flag(value),
{
    if value < 0 {
        (0, flag_bit(12))
    } else if value > 0x1000 {
        (0x1000, flag_bit(12))
    } else {
        (value as i16, 0)
    }
}

fn color_calc(which: u32, value: i32) -> (r: (u8, u32))
    requires
        which <= 2,
    ensures
        r.0 == color_val(value),
        r.1 == color_flag(which as int, value),
{
    if value > 0xff {
        (0xff, flag_bit(21 - which))
    } else if value < 0 {
        (0, flag_bit(21 - which))
    } else {
        (value as u8, 0)
    }
}

fn lm_d_calc(value: i32, unchained: bool, flags: u32) -> (r: (i32, u32))
    ensures
        r.0 == lm_d_val(value, unchained, flags),
        r.1 == lm_d_flag(value, unchained, flags),
{
    if !unchained && flags & flag_bit(15) != 0 {
        (0, flag_bit(18))
    } else if !unchained && flags & flag_bit(16) != 0 {
        (0xffff, flag_bit(18))
    } else if value < 0 {
        (0, flag_bit(18))
    } else if value > 0xffff {
        (0xffff, flag_bit(18))
    } else {
        (value, 0)
    }
}

/// The 44-bit reading of `value` and the flag of MAC `which + 1`.
fn a_mv_calc(which: u32, value: i64) -> (r: (i64, u32))
    requires
        which <= 2,
    ensures
        r.0 == sext44(value),
        r.1 == a_mv_flag(which as int, value),
{
    let f = if value >= 0x800_0000_0000 {
        flag_bit(30 - which)
    } else if value < -0x800_0000_0000 {
        flag_bit(27 - which)
    } else {
        0
    };
    ((value << 20u64) >> 20u64, f)
}

fn mac0_calc(value: i64) -> (r: u32)
    ensures
        r == mac0_flag(value),
{
    if value < -0x8000_0000 {
        flag_bit(15)
    } else if value > 0x7fff_ffff {
        flag_bit(16)
    } else {
        0
    }
}

/// One row of a matrix-vector product accumulated from translation `c`:
/// the MAC value and the flags.
fn mmv_row(which: u32, row: Vector<i16>, v: Vector<i16>, c: i32, sf: u32, is_fc: bool) -> (r: (i32, u32))
    requires
        which <= 2,
        sf < 64,
    ensures
        r.0 == mmv_row_mac(row, v, c, sf, is_fc),
        r.1 == mmv_row_flags(which as int, row, v, c, sf, is_fc),
{
    let mulr = row.mul_vector(v);
    let mut acc = Accumulator::new();
    acc.set_value(c as i64 * 4096);
    acc.add_i64(mulr.0[0] as i64);
    let mut fcf: u32 = 0;
    if is_fc {
        let first = acc.value >> sf;
        #[verifier::truncate]
        let fv = first as i32;
        let (_, f) = lm_b_calc(which, fv, false);
        fcf = f;
        acc.set_value(0);
    }
    acc.add_i64(mulr.0[1] as i64);
    acc.add_i64(mulr.0[2] as i64);
    let p = if acc.positive_overflow { flag_bit(30 - which) } else { 0 };
    let n = if acc.negative_overflow { flag_bit(27 - which) } else { 0 };
    acc.commit(sf as usize);
    #[verifier::truncate]
    let mac = acc.value as i32;
    (mac, fcf | p | n)
}

/// One row of the perspective transform: the last 44-bit partial sum and
/// the flags.
fn pt_row(which: u32, row: Vector<i16>, v: Vector<i16>, c: i32) -> (r: (i64, u32))
    requires
        which <= 2,
    ensures
        r.0 == pt_steps(row, v, c).3,
        r.1 == pt_row_flags(which as int, row, v, c),
{
    let mulr = row.mul_vector(v);
    let t0 = c as i64 * 4096;
    let (t1, f1) = a_mv_calc(which, t0 + mulr.0[0] as i64);
    proof { lemma_sext44_range((t0 + mulr.0[0]) as i64); }
    let (t2, f2) = a_mv_calc(which, t1 + mulr.0[1] as i64);
    proof { lemma_sext44_range((t1 + mulr.0[1]) as i64); }
    let (t3, f3) = a_mv_calc(which, t2 + mulr.0[2] as i64);
    (t3, f1 | f2 | f3)
}

/// One colour component of a depth cue.
fn dc_calc(which: u32, mult: bool, fc: i32, rgbt: i32, irt: i32, ir0: i16, sf: u32) -> (r: (i32, u32))
    requires
        which <= 2,
        0 <= rgbt <= 0xff0,
        -0x8000 <= irt <= 0x7fff,
        sf < 64,
    ensures
        r == dc_component(which as int, mult, fc, rgbt, irt, ir0, sf),
{
    assert(-0x1000_0000 <= rgbt as i64 * irt as i64 <= 0x1000_0000) by (nonlinear_arith)
        requires 0 <= rgbt <= 0xff0, -0x8000 <= irt <= 0x7fff;
    let x1: i64 = if mult {
        fc as i64 * 4096 - rgbt as i64 * irt as i64
    } else {
        fc as i64 * 4096 - ((rgbt as u32) << 12u32) as i64
    };
    assert(((rgbt as u32) << 12u32) == rgbt * 4096) by (bit_vector)
        requires 0 <= rgbt <= 0xff0;
    let (s1, f1) = a_mv_calc(which, x1);
    proof { lemma_sext44_range(x1); }
    #[verifier::truncate]
    let m1 = (s1 >> sf) as i32;
    let (lmb, f2) = lm_b_calc(which, m1, false);
    assert(-0x4000_0000 <= ir0 as i64 * lmb as i64 <= 0x4000_0000) by (nonlinear_arith)
        requires -0x8000 <= ir0 <= 0x7fff, -0x8000 <= lmb <= 0x7fff;
    let x2: i64 = if mult {
        rgbt as i64 * irt as i64 + ir0 as i64 * lmb as i64
    } else {
        rgbt as i64 * 4096 + ir0 as i64 * lmb as i64
    };
    let (s2, f3) = a_mv_calc(which, x2);
    #[verifier::truncate]
    let m2 = (s2 >> sf) as i32;
    (m2, f1 | f2 | f3)
}

proof fn lemma_mul16(a: int, b: int)
    requires
        -0x8000 <= a <= 0x7fff,
        -0x8000 <= b <= 0x7fff,
    ensures
        -0x3fff_8000 <= a * b <= 0x4000_0000,
{
    assert(-0x3fff_8000 <= a * b <= 0x4000_0000) by (nonlinear_arith)
        requires -0x8000 <= a <= 0x7fff, -0x8000 <= b <= 0x7fff;
}

proof fn lemma_mul_diff(a: int, b: int, c: int)
    requires
        -0x8000 <= a <= 0x7fff,
        -0x8000 <= b <= 0x7fff,
        -0x8000 <= c <= 0x7fff,
    ensures
        -0x8000_0000 <= a * (b - c) <= 0x8000_0000,
{
    assert(-0x8000_0000 <= a * (b - c) <= 0x8000_0000) by (nonlinear_arith)
        requires -0x8000 <= a <= 0x7fff, -0xffff <= b - c <= 0xffff;
}

/// Whether the low six bits of `instr` select a GTE operation.
pub fn valid_command(instr: u32) -> (r: bool)
    ensures
        r == is_command(instr & 0x3f),
{
    let op = instr & 0x3f;
    op == 0x01 || op == 0x06 || op == 0x0c || op == 0x10 || op == 0x11 || op == 0x12 || op
        == 0x13 || op == 0x14 || op == 0x16 || op == 0x1b || op == 0x1c || op == 0x1e || op
        == 0x20 || op == 0x28 || op == 0x29 || op == 0x2a || op == 0x2d || op == 0x2e || op
        == 0x30 || op == 0x3d || op == 0x3e || op == 0x3f
}

impl Gte {
    fn sf(&self) -> (r: u32)
        ensures
            r == sf_of(self.current_instruction),
            r == 0 || r == 12,
    {
        if self.current_instruction & 0x80000 != 0 {
            12
        } else {
            0
        }
    }

    fn lm(&self) -> (r: bool)
        ensures
            r == lm_of(self.current_instruction),
    {
        (self.current_instruction >> 10u32) & 1 != 0
    }

    fn ir_vector(&self) -> (r: Vector<i16>)
        ensures
            r == self.ir_vec(),
    {
        Vector([self.ir1, self.ir2, self.ir3])
    }

    fn vector(&self, i: u32) -> (r: Vector<i16>)
        requires
            i < 3,
        ensures
            r == self.vector_spec(i as int),
    {
        if i == 0 {
            self.v0
        } else if i == 1 {
            self.v1
        } else {
            self.v2
        }
    }

    fn mac_to_ir(&mut self, lm: bool)
        ensures
            *final(self) == old(self).mac_to_ir_spec(lm),
    {
        let (a, fa) = lm_b_calc(0, self.mac1, lm);
        let (b, fb) = lm_b_calc(1, self.mac2, lm);
        let (c, fc) = lm_b_calc(2, self.mac3, lm);
        self.ir1 = a;
        self.ir2 = b;
        self.ir3 = c;
        self.flags = self.flags | fa | fb | fc;
    }

    fn mac_to_rgb_fifo(&mut self)
        ensures
            *final(self) == old(self).push_rgb_spec(),
    {
        let (r, fr) = color_calc(0, self.mac1 >> 4u32);
        let (g, fg) = color_calc(1, self.mac2 >> 4u32);
        let (b, fb) = color_calc(2, self.mac3 >> 4u32);
        self.rgb0 = self.rgb1;
        self.rgb1 = self.rgb2;
        self.rgb2 = Rgb { r, g, b, code: self.rgb.code };
        self.flags = self.flags | fr | fg | fb;
    }

    fn multiply_matrix_by_vector(
        &mut self,
        matrix: Matrix,
        v: Vector<i16>,
        crv: Vector<i32>,
        sf: u32,
        lm: bool,
        is_fc: bool,
    )
        requires
            sf < 64,
        ensures
            *final(self) == old(self).mmv_spec(matrix, v, crv, sf, lm, is_fc),
    {
        let (m1, f1) = mmv_row(0, matrix.row(0), v, crv.0[0], sf, is_fc);
        let (m2, f2) = mmv_row(1, matrix.row(1), v, crv.0[1], sf, is_fc);
        let (m3, f3) = mmv_row(2, matrix.row(2), v, crv.0[2], sf, is_fc);
        self.mac1 = m1;
        self.mac2 = m2;
        self.mac3 = m3;
        self.flags = self.flags | f1 | f2 | f3;
        self.mac_to_ir(lm);
    }

    fn multiply_matrix_by_vector_pt(&mut self, matrix: Matrix, v: Vector<i16>, crv: Vector<i32>, sf: u32, lm: bool)
        requires
            sf < 64,
        ensures
            *final(self) == old(self).mmv_pt_spec(matrix, v, crv, sf, lm),
    {
        let (t0, f0) = pt_row(0, matrix.row(0), v, crv.0[0]);
        let (t1, f1) = pt_row(1, matrix.row(1), v, crv.0[1]);
        let (t2, f2) = pt_row(2, matrix.row(2), v, crv.0[2]);
        proof {
            lemma_sext44_range((pt_steps(matrix.0[0], v, crv.0[0]).2 + matrix.0[0].0[2] * v.0[2]) as i64);
            lemma_sext44_range((pt_steps(matrix.0[1], v, crv.0[1]).2 + matrix.0[1].0[2] * v.0[2]) as i64);
            lemma_sext44_range((pt_steps(matrix.0[2], v, crv.0[2]).2 + matrix.0[2].0[2] * v.0[2]) as i64);
        }
        #[verifier::truncate]
        let mac1 = (t0 >> sf) as i32;
        #[verifier::truncate]
        let mac2 = (t1 >> sf) as i32;
        #[verifier::truncate]
        let mac3 = (t2 >> sf) as i32;
        #[verifier::truncate]
        let ftv = (t2 >> 12u32) as i32;
        self.mac1 = mac1;
        self.mac2 = mac2;
        self.mac3 = mac3;
        self.flags = self.flags | f0 | f1 | f2;
        let (i1, g1) = lm_b_calc(0, mac1, lm);
        let (i2, g2) = lm_b_calc(1, mac2, lm);
        let (_, g3) = lm_b_calc(2, ftv, false);
        let (i3, _) = lm_b_calc(2, mac3, lm);
        self.ir1 = i1;
        self.ir2 = i2;
        self.ir3 = i3;
        self.flags = self.flags | g1 | g2 | g3;
        self.sz0 = self.sz1;
        self.sz1 = self.sz2;
        self.sz2 = self.sz3;
        let (z, fz) = lm_d_calc(ftv, true, self.flags);
        #[verifier::truncate]
        let z16 = z as u16;
        self.sz3 = z16;
        self.flags = self.flags | fz;
    }

    fn transform_xy(&mut self, q: u32)
        ensures
            *final(self) == old(self).transform_xy_spec(q),
    {
        let qq = q as i64;
        let i1 = self.ir1 as i64;
        let i2 = self.ir2 as i64;
        assert(-0x8000_0000_0000 <= i1 * qq <= 0x8000_0000_0000) by (nonlinear_arith)
            requires -0x8000 <= i1 <= 0x7fff, 0 <= qq <= 0xffff_ffff;
        assert(-0x8000_0000_0000 <= i2 * qq <= 0x8000_0000_0000) by (nonlinear_arith)
            requires -0x8000 <= i2 <= 0x7fff, 0 <= qq <= 0xffff_ffff;
        let x = self.ofx as i64 + i1 * qq;
        let fx = mac0_calc(x);
        #[verifier::truncate]
        let mx = (x >> 16u32) as i32;
        let (sx, gx) = lm_g_calc(0, mx);
        let y = self.ofy as i64 + i2 * qq;
        let fy = mac0_calc(y);
        #[verifier::truncate]
        let my = (y >> 16u32) as i32;
        let (sy, gy) = lm_g_calc(1, my);
        self.mac0 = my;
        let p = Xy { x: sx, y: sy };
        self.sxy0 = self.sxy1;
        self.sxy1 = self.sxy2;
        self.sxy2 = p;
        self.sxy3 = p;
        self.flags = self.flags | fx | gx | fy | gy;
    }

    fn transform_dq(&mut self, q: u32)
        ensures
            *final(self) == old(self).transform_dq_spec(q),
    {
        let qq = q as i64;
        let a = self.dqa as i64;
        assert(-0x8000_0000_0000 <= a * qq <= 0x8000_0000_0000) by (nonlinear_arith)
            requires -0x8000 <= a <= 0x7fff, 0 <= qq <= 0xffff_ffff;
        let d = self.dqb as i64 + a * qq;
        let fd = mac0_calc(d);
        #[verifier::truncate]
        let m = d as i32;
        #[verifier::truncate]
        let e = (d >> 12u32) as i32;
        let (i0, fe) = lm_h_calc(e);
        self.mac0 = m;
        self.ir0 = i0;
        self.flags = self.flags | fd | fe;
    }

    fn project(&mut self, last: bool)
        ensures
            *final(self) == old(self).project_spec(last),
    {
        let (q, of) = division(self.h, self.sz3);
        if of {
            self.flags = self.flags | flag_bit(17);
        }
        self.transform_xy(q);
        if last {
            self.transform_dq(q);
        }
    }

    fn depth_cue(&mut self, mult: bool, from_fifo: bool, sf: u32, lm: bool)
        requires
            sf < 64,
        ensures
            *final(self) == old(self).depth_cue_spec(mult, from_fifo, sf, lm),
    {
        let src = if from_fifo { self.rgb0 } else { self.rgb };
        let c0 = dc_calc(0, mult, self.fc.0[0], (src.r as i32) * 16, self.ir1 as i32, self.ir0, sf);
        let c1 = dc_calc(1, mult, self.fc.0[1], (src.g as i32) * 16, self.ir2 as i32, self.ir0, sf);
        let c2 = dc_calc(2, mult, self.fc.0[2], (src.b as i32) * 16, self.ir3 as i32, self.ir0, sf);
        self.mac1 = c0.0;
        self.mac2 = c1.0;
        self.mac3 = c2.0;
        self.flags = self.flags | c0.1 | c1.1 | c2.1;
        self.mac_to_ir(lm);
        self.mac_to_rgb_fifo();
    }

    fn color_mult(&mut self, sf: u32, lm: bool)
        requires
            sf < 32,
        ensures
            *final(self) == old(self).color_mult_spec(sf, lm),
    {
        assert forall|c: u8, i: i16| -0x1000_0000 <= #[trigger] (c * 16 * i) <= 0x1000_0000 by {
            assert(-0x1000_0000 <= c * 16 * i <= 0x1000_0000) by (nonlinear_arith)
                requires 0 <= c <= 255, -0x8000 <= i <= 0x7fff;
        }
        self.mac1 = ((self.rgb.r as i32) * 16 * self.ir1 as i32) >> sf;
        self.mac2 = ((self.rgb.g as i32) * 16 * self.ir2 as i32) >> sf;
        self.mac3 = ((self.rgb.b as i32) * 16 * self.ir3 as i32) >> sf;
        self.mac_to_ir(lm);
        self.mac_to_rgb_fifo();
    }

    fn nc_core(&mut self, v: Vector<i16>, sf: u32, lm: bool)
        requires
            sf < 64,
        ensures
            *final(self) == old(self).nc_core_spec(v, sf, lm),
    {
        self.multiply_matrix_by_vector(self.light, v, self.null, sf, lm, false);
        self.multiply_matrix_by_vector(self.color, self.ir_vector(), self.b, sf, lm, false);
    }

    fn norm_color_depth_cue(&mut self, i: u32)
        requires
            i < 3,
        ensures
            *final(self) == old(self).ncds_one(old(self).vector_spec(i as int)),
    {
        let sf = self.sf();
        let lm = self.lm();
        self.nc_core(self.vector(i), sf, lm);
        self.depth_cue(true, false, sf, lm);
    }

    fn norm_color_color(&mut self, i: u32)
        requires
            i < 3,
        ensures
            *final(self) == old(self).nccs_one(old(self).vector_spec(i as int)),
    {
        let sf = self.sf();
        let lm = self.lm();
        self.nc_core(self.vector(i), sf, lm);
        self.color_mult(sf, lm);
    }

    fn norm_color(&mut self, i: u32)
        requires
            i < 3,
        ensures
            *final(self) == old(self).ncs_one(old(self).vector_spec(i as int)),
    {
        let sf = self.sf();
        let lm = self.lm();
        self.nc_core(self.vector(i), sf, lm);
        self.mac_to_rgb_fifo();
    }

    fn ins_rtps(&mut self)
        ensures
            *final(self) == old(self).rtps_spec(),
    {
        let sf = self.sf();
        let lm = self.lm();
        self.multiply_matrix_by_vector_pt(self.rotation, self.v0, self.t, sf, lm);
        self.project(true);
    }

    fn ins_rtpt(&mut self)
        ensures
            *final(self) == old(self).rtpt_spec(),
    {
        let sf = self.sf();
        let lm = self.lm();
        self.multiply_matrix_by_vector_pt(self.rotation, self.v0, self.t, sf, lm);
        self.project(false);
        self.multiply_matrix_by_vector_pt(self.rotation, self.v1, self.t, sf, lm);
        self.project(false);
        self.multiply_matrix_by_vector_pt(self.rotation, self.v2, self.t, sf, lm);
        self.project(true);
    }

    fn ins_nclip(&mut self)
        ensures
            *final(self) == old(self).nclip_spec(),
    {
        let (x0, y0) = (self.sxy0.x as i64, self.sxy0.y as i64);
        let (x1, y1) = (self.sxy1.x as i64, self.sxy1.y as i64);
        let (x2, y2) = (self.sxy2.x as i64, self.sxy2.y as i64);
        proof {
            lemma_mul_diff(x0 as int, y1 as int, y2 as int);
            lemma_mul_diff(x1 as int, y2 as int, y0 as int);
            lemma_mul_diff(x2 as int, y0 as int, y1 as int);
        }
        let x = x0 * (y1 - y2) + x1 * (y2 - y0) + x2 * (y0 - y1);
        let f = mac0_calc(x);
        #[verifier::truncate]
        let m = x as i32;
        self.mac0 = m;
        self.flags = self.flags | f;
    }

    fn ins_op(&mut self)
        ensures
            *final(self) == old(self).op_spec(),
    {
        let sf = self.sf();
        let d1 = self.rotation.0[0].0[0] as i32;
        let d2 = self.rotation.0[1].0[1] as i32;
        let d3 = self.rotation.0[2].0[2] as i32;
        let i1 = self.ir1 as i32;
        let i2 = self.ir2 as i32;
        let i3 = self.ir3 as i32;
        proof {
            lemma_mul16(d2 as int, i3 as int);
            lemma_mul16(d3 as int, i2 as int);
            lemma_mul16(d3 as int, i1 as int);
            lemma_mul16(d1 as int, i3 as int);
            lemma_mul16(d1 as int, i2 as int);
            lemma_mul16(d2 as int, i1 as int);
        }
        self.mac1 = (d2 * i3 - d3 * i2) >> sf;
        self.mac2 = (d3 * i1 - d1 * i3) >> sf;
        self.mac3 = (d1 * i2 - d2 * i1) >> sf;
        self.mac_to_ir(self.lm());
    }

    fn ins_sqr(&mut self)
        ensures
            *final(self) == old(self).sqr_spec(),
    {
        let sf = self.sf();
        assert forall|a: i16| 0 <= #[trigger] (a * a) <= 0x4000_0000 by {
            assert(0 <= a * a <= 0x4000_0000) by (nonlinear_arith) requires -0x8000 <= a <= 0x7fff;
        }
        self.mac1 = (self.ir1 as i32 * self.ir1 as i32) >> sf;
        self.mac2 = (self.ir2 as i32 * self.ir2 as i32) >> sf;
        self.mac3 = (self.ir3 as i32 * self.ir3 as i32) >> sf;
        self.mac_to_ir(self.lm());
    }

    fn ins_intpl(&mut self)
        ensures
            *final(self) == old(self).intpl_spec(),
    {
        let sf = self.sf();
        let lm = self.lm();
        let s1 = (self.ir1 as i32) * 4096;
        let s2 = (self.ir2 as i32) * 4096;
        let s3 = (self.ir3 as i32) * 4096;
        #[verifier::truncate]
        let a1 = ((self.fc.0[0] as i64 * 4096 - s1 as i64) >> sf) as i32;
        #[verifier::truncate]
        let a2 = ((self.fc.0[1] as i64 * 4096 - s2 as i64) >> sf) as i32;
        #[verifier::truncate]
        let a3 = ((self.fc.0[2] as i64 * 4096 - s3 as i64) >> sf) as i32;
        let (i1, f1) = lm_b_calc(1, a1, false);
        let (i2, f2) = lm_b_calc(2, a2, false);
        let (i3, f3) = lm_b_calc(3, a3, false);
        self.ir1 = i1;
        self.ir2 = i2;
        self.ir3 = i3;
        self.flags = self.flags | f1 | f2 | f3;
        proof {
            lemma_mul16(i1 as int, self.ir0 as int);
            lemma_mul16(i2 as int, self.ir0 as int);
            lemma_mul16(i3 as int, self.ir0 as int);
        }
        #[verifier::truncate]
        let b1 = ((i1 as i64 * self.ir0 as i64 + s1 as i64) >> sf) as i32;
        #[verifier::truncate]
        let b2 = ((i2 as i64 * self.ir0 as i64 + s2 as i64) >> sf) as i32;
        #[verifier::truncate]
        let b3 = ((i3 as i64 * self.ir0 as i64 + s3 as i64) >> sf) as i32;
        let (m1, g1) = lm_b_calc(1, b1, lm);
        let (m2, g2) = lm_b_calc(2, b2, lm);
        let (m3, g3) = lm_b_calc(3, b3, lm);
        self.mac1 = m1 as i32;
        self.mac2 = m2 as i32;
        self.mac3 = m3 as i32;
        self.flags = self.flags | g1 | g2 | g3;
        let (j1, h1) = lm_b_calc(1, self.mac1, lm);
        let (j2, h2) = lm_b_calc(2, self.mac2, lm);
        let (j3, h3) = lm_b_calc(3, self.mac3, lm);
        self.ir1 = j1;
        self.ir2 = j2;
        self.ir3 = j3;
        self.flags = self.flags | h1 | h2 | h3;
        self.mac_to_rgb_fifo();
    }

    fn mvmva_matrix_of(&self) -> (r: Matrix)
        ensures
            r == self.mvmva_matrix(),
    {
        let mx = (self.current_instruction >> 17u32) & 3;
        if mx == 0 {
            self.rotation
        } else if mx == 1 {
            self.light
        } else if mx == 2 {
            self.color
        } else {
            let r = self.rgb.r as i16 * 16;
            #[verifier::truncate]
            let c1 = self.cr[1] as i16;
            #[verifier::truncate]
            let c2 = self.cr[2] as i16;
            Matrix([Vector([-r, r, self.ir0]), Vector([c1, c1, c1]), Vector([c2, c2, c2])])
        }
    }

    fn ins_mvmva(&mut self)
        ensures
            *final(self) == old(self).mvmva_spec(),
    {
        let matrix = self.mvmva_matrix_of();
        let ci = self.current_instruction;
        let vi = (ci >> 15u32) & 3;
        proof { crate::bits::lemma_field_le(ci, 15, 3); }
        let v = if vi == 3 { self.ir_vector() } else { self.vector(vi) };
        let cvi = (self.current_instruction >> 13u32) & 3;
        let cv = if cvi == 0 {
            self.t
        } else if cvi == 1 {
            self.b
        } else if cvi == 2 {
            self.fc
        } else {
            self.null
        };
        let sf = self.sf();
        let lm = self.lm();
        self.multiply_matrix_by_vector(matrix, v, cv, sf, lm, cvi == 2);
    }

    fn ins_avsz3(&mut self)
        ensures
            *final(self) == old(self).avsz3_spec(),
    {
        let z = self.zsf3 as i64;
        let sum = self.sz1 as i64 + self.sz2 as i64 + self.sz3 as i64;
        assert(-0x10_0000_0000 <= z * sum <= 0x10_0000_0000) by (nonlinear_arith)
            requires -0x8000 <= z <= 0x7fff, 0 <= sum <= 0x4_0000;
        let x = z * sum;
        self.flags = self.flags | mac0_calc(x);
        #[verifier::truncate]
        let m = x as i32;
        self.mac0 = m;
        let (o, f) = lm_d_calc(m >> 12u32, false, self.flags);
        #[verifier::truncate]
        let o16 = o as u16;
        self.otz = o16;
        self.flags = self.flags | f;
    }

    fn ins_avsz4(&mut self)
        ensures
            *final(self) == old(self).avsz4_spec(),
    {
        let z = self.zsf4 as i64;
        let sum = self.sz0 as i64 + self.sz1 as i64 + self.sz2 as i64 + self.sz3 as i64;
        assert(-0x10_0000_0000 <= z * sum <= 0x10_0000_0000) by (nonlinear_arith)
            requires -0x8000 <= z <= 0x7fff, 0 <= sum <= 0x4_0000;
        let x = z * sum;
        self.flags = self.flags | mac0_calc(x);
        #[verifier::truncate]
        let m = x as i32;
        self.mac0 = m;
        let (o, f) = lm_d_calc(m >> 12u32, false, self.flags);
        #[verifier::truncate]
        let o16 = o as u16;
        self.otz = o16;
        self.flags = self.flags | f;
    }

    fn ins_gpf(&mut self)
        ensures
            *final(self) == old(self).gpf_spec(),
    {
        let sf = self.sf();
        proof {
            lemma_mul16(self.ir0 as int, self.ir1 as int);
            lemma_mul16(self.ir0 as int, self.ir2 as int);
            lemma_mul16(self.ir0 as int, self.ir3 as int);
        }
        self.mac1 = (self.ir0 as i32 * self.ir1 as i32) >> sf;
        self.mac2 = (self.ir0 as i32 * self.ir2 as i32) >> sf;
        self.mac3 = (self.ir0 as i32 * self.ir3 as i32) >> sf;
        self.mac_to_ir(self.lm());
        self.mac_to_rgb_fifo();
    }

    fn ins_gpl(&mut self)
        ensures
            *final(self) == old(self).gpl_spec(),
    {
        let sf = self.sf();
        let scale: i64 = if sf == 12 { 4096 } else { 1 };
        let p = Vector([self.ir1, self.ir2, self.ir3]).mul_scalar(self.ir0);
        let (x1, f1) = a_mv_calc(0, (self.mac1 as i64 * scale + p.0[0] as i64) >> sf);
        let (x2, f2) = a_mv_calc(1, (self.mac2 as i64 * scale + p.0[1] as i64) >> sf);
        let (x3, f3) = a_mv_calc(2, (self.mac3 as i64 * scale + p.0[2] as i64) >> sf);
        #[verifier::truncate]
        let m1 = x1 as i32;
        #[verifier::truncate]
        let m2 = x2 as i32;
        #[verifier::truncate]
        let m3 = x3 as i32;
        self.mac1 = m1;
        self.mac2 = m2;
        self.mac3 = m3;
        self.flags = self.flags | f1 | f2 | f3;
        self.mac_to_ir(self.lm());
        self.mac_to_rgb_fifo();
    }

    /// Executes command `instr`: clears the flags, then runs the operation
    /// selected by its low six bits.
    pub fn execute(&mut self, instruction: Instruction)
        requires
            is_command(instruction.0 & 0x3f),
        ensures
            *final(self) == old(self).execute_spec(instruction.0),
    {
        let instr = instruction.0;
        let op = instr & 0x3f;
        self.flags = 0;
        self.current_instruction = instr;
        let sf = self.sf();
        let lm = self.lm();
        match op {
            0x01 => self.ins_rtps(),
            0x06 => self.ins_nclip(),
            0x0c => self.ins_op(),
            0x10 => self.depth_cue(false, false, sf, lm),
            0x11 => self.ins_intpl(),
            0x12 => self.ins_mvmva(),
            0x13 => self.norm_color_depth_cue(0),
            0x14 => {
                self.multiply_matrix_by_vector(self.color, self.ir_vector(), self.b, sf, lm, false);
                self.depth_cue(true, false, sf, lm);
            },
            0x16 => {
                self.norm_color_depth_cue(0);
                self.norm_color_depth_cue(1);
                self.norm_color_depth_cue(2);
            },
            0x1b => self.norm_color_color(0),
            0x1c => {
                self.multiply_matrix_by_vector(self.color, self.ir_vector(), self.b, sf, lm, false);
                self.color_mult(sf, lm);
            },
            0x1e => self.norm_color(0),
            0x20 => {
                self.norm_color(0);
                self.norm_color(1);
                self.norm_color(2);
            },
            0x28 => self.ins_sqr(),
            0x29 => self.depth_cue(true, false, sf, lm),
            0x2a => {
                self.depth_cue(false, true, sf, lm);
                self.depth_cue(false, true, sf, lm);
                self.depth_cue(false, true, sf, lm);
            },
            0x2d => self.ins_avsz3(),
            0x2e => self.ins_avsz4(),
            0x30 => self.ins_rtpt(),
            0x3d => self.ins_gpf(),
            0x3e => self.ins_gpl(),
            _ => {
                self.norm_color_color(0);
                self.norm_color_color(1);
                self.norm_color_color(2);
            },
        }
    }
}

/// The MAC0 overflow flags of a value raised into a cleared flag register.
proof fn lemma_mac0_flag_bits()
    by (bit_vector)
    ensures
        (0u32 | (1u32 << 15u32)) & (1u32 << 15u32) != 0,
        (0u32 | (1u32 << 16u32)) & (1u32 << 15u32) == 0,
        (0u32 | (1u32 << 16u32)) & (1u32 << 16u32) != 0,
        (0u32 | 0u32) & (1u32 << 15u32) == 0,
        (0u32 | 0u32) & (1u32 << 16u32) == 0,
{
}

/// AVSZ3 averages the three newest Z values: MAC0 is ZSF3 times
/// SZ1 + SZ2 + SZ3, cut to 32 bits, and OTZ is MAC0 shifted down by 12 and
/// saturated to 0..=0xffff (0 or 0xffff where the product overflows 32
/// bits). The oldest Z value, SZ0, takes no part.
pub proof fn lemma_avsz3_averages_newest_z(g: Gte, instr: u32)
    requires
        instr & 0x3f == 0x2d,
    ensures
        ({
            let r = g.execute_spec(instr);
            let x = g.zsf3 * (g.sz1 + g.sz2 + g.sz3);
            let q = (x as i32) >> 12u32;
            &&& r.mac0 == x as i32
            &&& r.otz == (if x > 0x7fff_ffff {
                0xffff
            } else if x < -0x8000_0000 {
                0
            } else if q < 0 {
                0
            } else if q > 0xffff {
                0xffff
            } else {
                q
            })
            &&& r.sz0 == g.sz0 && r.sz1 == g.sz1 && r.sz2 == g.sz2 && r.sz3 == g.sz3
        }),
{
    let x = g.zsf3 * (g.sz1 + g.sz2 + g.sz3);
    assert(-0x10_0000_0000 <= x <= 0x10_0000_0000) by (nonlinear_arith)
        requires
            x == g.zsf3 * (g.sz1 + g.sz2 + g.sz3),
            -0x8000 <= g.zsf3 <= 0x7fff,
            0 <= g.sz1 + g.sz2 + g.sz3 <= 0x3_0000,
    ;
    lemma_mac0_flag_bits();
    assert(bit(15) == 1u32 << 15u32);
    assert(bit(16) == 1u32 << 16u32);
}

/// AVSZ4 averages all four Z values: MAC0 is ZSF4 times
/// SZ0 + SZ1 + SZ2 + SZ3, cut to 32 bits, and OTZ is MAC0 shifted down by
/// 12 and saturated to 0..=0xffff (0 or 0xffff where the product overflows
/// 32 bits).
pub proof fn lemma_avsz4_averages_all_z(g: Gte, instr: u32)
    requires
        instr & 0x3f == 0x2e,
    ensures
        ({
            let r = g.execute_spec(instr);
            let x = g.zsf4 * (g.sz0 + g.sz1 + g.sz2 + g.sz3);
            let q = (x as i32) >> 12u32;
            &&& r.mac0 == x as i32
            &&& r.otz == (if x > 0x7fff_ffff {
                0xffff
            } else if x < -0x8000_0000 {
                0
            } else if q < 0 {
                0
            } else if q > 0xffff {
                0xffff
            } else {
                q
            })
        }),
{
    let x = g.zsf4 * (g.sz0 + g.sz1 + g.sz2 + g.sz3);
    assert(-0x10_0000_0000 <= x <= 0x10_0000_0000) by (nonlinear_arith)
        requires
            x == g.zsf4 * (g.sz0 + g.sz1 + g.sz2 + g.sz3),
            -0x8000 <= g.zsf4 <= 0x7fff,
            0 <= g.sz0 + g.sz1 + g.sz2 + g.sz3 <= 0x4_0000,
    ;
    lemma_mac0_flag_bits();
    assert(bit(15) == 1u32 << 15u32);
    assert(bit(16) == 1u32 << 16u32);
}
} // verus!
