use vstd::prelude::*;

verus! {

/// Entry `i` (0 to 256) of the reciprocal table of the GTE's divider:
/// max(0, (0x40000 / (i + 0x100) + 1) / 2 - 0x101).
pub open spec fn unr_entry(i: int) -> int {
    let v: int = (0x40000int / (i + 0x100) + 1) / 2 - 0x101;
    if v < 0 { 0 } else { v }
}

/// Dividend and divisor shifted left together until the divisor's top bit
/// (bit 15) is set.
pub open spec fn normalise(n: int, d: int) -> (int, int)
    decreases 0x10000 - d,
{
    if d <= 0 || d >= 0x8000int {
        (n, d)
    } else {
        normalise(2 * n, 2 * d)
    }
}

/// Floor division (the spec language's `/` on a positive divisor).
pub open spec fn floor_div(a: int, b: int) -> int {
    a / b
}

/// The projection division H / SZ3 as the GTE computes it, in 16.16 fixed
/// point with a 17-bit result: when H < 2 * SZ3, one Newton-Raphson step
/// from the reciprocal table on the normalised divisor; otherwise 0x1ffff
/// with the overflow reported.
pub open spec fn division_spec(h: u16, sz3: u16) -> (u32, bool) {
    if (h as int) < (sz3 as int) * 2 {
        let (n, d) = normalise(h as int, sz3 as int);
        let u = unr_entry((d - 0x7fc0) / 128) + 0x101;
        let d1 = floor_div(0x2000080 - d * u, 256);
        let d2 = floor_div(0x80 + d1 * u, 256);
        let q = floor_div(n * d2 + 0x8000, 0x10000);
        ((if q > 0x1ffff { 0x1ffff } else { q }) as u32, false)
    } else {
        (0x1ffff, true)
    }
}

/// Floor division of an i64 by a positive constant.
fn div_floor(a: i64, b: i64) -> (r: i64)
    requires
        0 < b <= 0x10000,
        -0x1000_0000_0000_0000 <= a <= 0x1000_0000_0000_0000,
    ensures
        r == floor_div(a as int, b as int),
{
    if a >= 0 {
        a / b
    } else {
        let q = (-a + b - 1) / b;
        proof {
            let aa: int = a as int;
            let bb: int = b as int;
            let t: int = -aa + bb - 1;
            let qq: int = t / bb;
            let rr: int = t % bb;
            vstd::arithmetic::div_mod::lemma_fundamental_div_mod(t, bb);
            assert(0 <= rr < bb);
            assert(aa == bb * (-qq) + (bb - 1 - rr)) by (nonlinear_arith)
                requires t == bb * qq + rr, t == -aa + bb - 1;
            vstd::arithmetic::div_mod::lemma_fundamental_div_mod_converse(aa, bb, -qq, bb - 1 - rr);
        }
        -q
    }
}

/// Divides `h` by `sz3` as the GTE's unsigned Newton-Raphson divider does.
pub fn division(h: u16, sz3: u16) -> (r: (u32, bool))
    ensures
        r == division_spec(h, sz3),
{
    if (h as u32) < (sz3 as u32) * 2 {
        let mut n: i64 = h as i64;
        let mut d: i64 = sz3 as i64;
        while d < 0x8000
            invariant
                0 < d <= 0xffff,
                0 <= n < 2 * d,
                normalise(n as int, d as int) == normalise(h as int, sz3 as int),
            decreases 0x10000 - d,
        {
            n = n * 2;
            d = d * 2;
        }
        let idx = ((d - 0x7fc0) / 128) as usize;
        let u: i64 = unr_table_entry(idx) as i64 + 0x101;
        assert(0 <= d * u <= 0xffff * 0x200) by (nonlinear_arith)
            requires 0x8000 <= d <= 0xffff, 0x101 <= u <= 0x200;
        let d1 = div_floor(0x2000080 - d * u, 256);
        assert(-0x20000 <= d1 <= 0x20100);
        assert(-0x4000_0000 <= d1 * u <= 0x4000_0000) by (nonlinear_arith)
            requires -0x20000 <= d1 <= 0x20100, 0x101 <= u <= 0x200;
        let d2 = div_floor(0x80 + d1 * u, 256);
        assert(-0x400000 <= d2 <= 0x400000);
        assert(-0x1_0000_0000_0000 <= n * d2 <= 0x1_0000_0000_0000) by (nonlinear_arith)
            requires 0 <= n < 0x20000, -0x400000 <= d2 <= 0x400000;
        let q = div_floor(n * d2 + 0x8000, 0x10000);
        let q = if q > 0x1ffff { 0x1ffff } else { q };
        #[verifier::truncate]
        let r = (q as u32);
        (r, false)
    } else {
        (0x1ffff, true)
    }
}

/// Entry `i` of the reciprocal table.
fn unr_table_entry(i: usize) -> (r: u8)
    requires
        i <= 256,
    ensures
        r == unr_entry(i as int),
{
    assert(0x200 <= 0x40000int / (i + 0x100) <= 0x400) by (nonlinear_arith) requires 0 <= i <= 256;
    let v: i64 = (0x40000 / (i as i64 + 0x100) + 1) / 2 - 0x101;
    if v < 0 { 0 } else { v as u8 }
}

} // verus!
