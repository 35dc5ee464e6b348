//! Two-component fixed-point vectors.
//!
//! `x` grows rightward, `y` grows downward (screen convention), both in
//! thousandths of a pixel. Every operation clamps each component into
//! `[-FX_LIM, FX_LIM]` and is mirrored by a spec function, so vector
//! computations are deterministic integer functions.

use vstd::prelude::*;

use crate::fx::{cl, fx_ok, fxadd, fxmul, fxsub, isqrt64, lemma_tdiv_bound, spec_isqrt, tdiv,
    tdiv64, FX_LIM, FX_ONE};

verus! {

#[derive(Clone, Copy, PartialEq, Eq, Structural, Debug)]
pub struct Vec2 {
    pub x: i64,
    pub y: i64,
}

/// Both components within the working range.
pub open spec fn v_ok(v: Vec2) -> bool {
    fx_ok(v.x as int) && fx_ok(v.y as int)
}

pub open spec fn spec_vadd(a: Vec2, b: Vec2) -> Vec2 {
    Vec2 { x: cl(a.x + b.x) as i64, y: cl(a.y + b.y) as i64 }
}

pub open spec fn spec_vsub(a: Vec2, b: Vec2) -> Vec2 {
    Vec2 { x: cl(a.x - b.x) as i64, y: cl(a.y - b.y) as i64 }
}

pub open spec fn spec_vneg(a: Vec2) -> Vec2 {
    Vec2 { x: cl(-a.x) as i64, y: cl(-a.y) as i64 }
}

/// Scaling by a fixed-point factor `s` (thousandths).
pub open spec fn spec_vscale(a: Vec2, s: i64) -> Vec2 {
    Vec2 {
        x: cl(tdiv(a.x * s, FX_ONE as int)) as i64,
        y: cl(tdiv(a.y * s, FX_ONE as int)) as i64,
    }
}

/// Component-wise `c * m / d` for plain integer ratio `m / d`.
pub open spec fn spec_vmuldiv(a: Vec2, m: i64, d: i64) -> Vec2 {
    Vec2 { x: cl(tdiv(a.x * m, d as int)) as i64, y: cl(tdiv(a.y * m, d as int)) as i64 }
}

pub open spec fn spec_dot(a: Vec2, b: Vec2) -> int {
    a.x * b.x + a.y * b.y
}

/// Euclidean length, rounded down to whole thousandths, clamped.
pub open spec fn spec_norm(a: Vec2) -> i64 {
    cl(spec_isqrt((a.x * a.x + a.y * a.y) as nat) as int) as i64
}

/// Direction of `a` as a unit vector in thousandths; the zero vector is
/// left unchanged (the zero-length normalization policy of this crate).
pub open spec fn spec_vunit(a: Vec2) -> Vec2 {
    let n = spec_norm(a);
    if n == 0 {
        Vec2 { x: 0, y: 0 }
    } else {
        Vec2 {
            x: cl(tdiv(a.x * FX_ONE, n as int)) as i64,
            y: cl(tdiv(a.y * FX_ONE, n as int)) as i64,
        }
    }
}

/// Cosine-like alignment of two vectors in thousandths:
/// `dot(a, b) / (|a| * |b|)`. Zero when either vector has zero length.
pub open spec fn spec_alignment(a: Vec2, b: Vec2) -> i64 {
    let na = spec_norm(a);
    let nb = spec_norm(b);
    if na == 0 || nb == 0 {
        0
    } else {
        cl(tdiv(spec_dot(a, b) * FX_ONE, na * nb)) as i64
    }
}

/// Clamped projection factor of `a` onto `b` in thousandths:
/// `dot(a, b) / |b|^2`, clamped into `[0, 1000]`; zero for zero-length `b`.
pub open spec fn spec_proj_factor(a: Vec2, b: Vec2) -> i64 {
    let n2 = b.x * b.x + b.y * b.y;
    if n2 == 0 {
        0
    } else {
        let t = tdiv(spec_dot(a, b) * FX_ONE, n2);
        if t < 0 {
            0
        } else if t > FX_ONE {
            FX_ONE
        } else {
            t as i64
        }
    }
}

proof fn lemma_mul_range(a: int, b: int, m: int, n: int)
    by (nonlinear_arith)
    requires
        -m <= a <= m,
        -n <= b <= n,
        0 <= m,
        0 <= n,
    ensures
        -(m * n) <= a * b <= m * n,
        (a >= 0 && b >= 0) ==> a * b >= 0,
        (a > 0 && b > 0) ==> a * b > 0,
        a == b ==> a * b >= 0,
{
}

impl Vec2 {
    pub fn new(x: i64, y: i64) -> (r: Vec2)
        ensures
            r == (Vec2 { x, y }),
    {
        Vec2 { x, y }
    }

    pub open spec fn ok(self) -> bool {
        v_ok(self)
    }

    pub fn vadd(self, o: Vec2) -> (r: Vec2)
        requires
            self.ok(),
            o.ok(),
        ensures
            r == spec_vadd(self, o),
            r.ok(),
    {
        Vec2 { x: fxadd(self.x, o.x), y: fxadd(self.y, o.y) }
    }

    pub fn vsub(self, o: Vec2) -> (r: Vec2)
        requires
            self.ok(),
            o.ok(),
        ensures
            r == spec_vsub(self, o),
            r.ok(),
    {
        Vec2 { x: fxsub(self.x, o.x), y: fxsub(self.y, o.y) }
    }

    pub fn vneg(self) -> (r: Vec2)
        requires
            self.ok(),
        ensures
            r == spec_vneg(self),
            r.ok(),
    {
        Vec2 { x: -self.x, y: -self.y }
    }

    pub fn vscale(self, s: i64) -> (r: Vec2)
        requires
            self.ok(),
            fx_ok(s as int),
        ensures
            r == spec_vscale(self, s),
            r.ok(),
    {
        Vec2 { x: fxmul(self.x, s), y: fxmul(self.y, s) }
    }

    pub fn vmuldiv(self, m: i64, d: i64) -> (r: Vec2)
        requires
            self.ok(),
            -1_000_000 <= m <= 1_000_000,
            0 < d,
        ensures
            r == spec_vmuldiv(self, m, d),
            r.ok(),
    {
        proof {
            lemma_mul_range(self.x as int, m as int, FX_LIM as int, 1_000_000);
            lemma_mul_range(self.y as int, m as int, FX_LIM as int, 1_000_000);
            lemma_tdiv_bound(self.x * m, d as int);
            lemma_tdiv_bound(self.y * m, d as int);
        }
        let px: i64 = self.x * m;
        let py: i64 = self.y * m;
        Vec2 { x: crate::fx::clamp64(tdiv64(px, d)), y: crate::fx::clamp64(tdiv64(py, d)) }
    }

    pub fn norm(self) -> (r: i64)
        requires
            self.ok(),
        ensures
            r == spec_norm(self),
            0 <= r <= FX_LIM,
    {
        proof {
            lemma_mul_range(self.x as int, self.x as int, FX_LIM as int, FX_LIM as int);
            lemma_mul_range(self.y as int, self.y as int, FX_LIM as int, FX_LIM as int);
        }
        let sq: i64 = self.x * self.x + self.y * self.y;
        assert(sq >= 0);
        let root = isqrt64(sq as u64);
        crate::fx::clamp64(root as i64)
    }

    pub fn vunit(self) -> (r: Vec2)
        requires
            self.ok(),
        ensures
            r == spec_vunit(self),
            r.ok(),
    {
        let n = self.norm();
        if n == 0 {
            Vec2 { x: 0, y: 0 }
        } else {
            Vec2 { x: crate::fx::fxdiv(self.x, n), y: crate::fx::fxdiv(self.y, n) }
        }
    }

    /// Exact dot product; fits in `i64` for in-range vectors.
    pub fn vdot(self, o: Vec2) -> (r: i64)
        requires
            self.ok(),
            o.ok(),
        ensures
            r == spec_dot(self, o),
    {
        proof {
            lemma_mul_range(self.x as int, o.x as int, FX_LIM as int, FX_LIM as int);
            lemma_mul_range(self.y as int, o.y as int, FX_LIM as int, FX_LIM as int);
        }
        self.x * o.x + self.y * o.y
    }

    pub fn alignment(self, o: Vec2) -> (r: i64)
        requires
            self.ok(),
            o.ok(),
        ensures
            r == spec_alignment(self, o),
            fx_ok(r as int),
    {
        let na = self.norm();
        let nb = o.norm();
        if na == 0 || nb == 0 {
            return 0;
        }
        proof {
            lemma_mul_range(self.x as int, o.x as int, FX_LIM as int, FX_LIM as int);
            lemma_mul_range(self.y as int, o.y as int, FX_LIM as int, FX_LIM as int);
            lemma_mul_range(na as int, nb as int, FX_LIM as int, FX_LIM as int);
        }
        let dt: i64 = self.x * o.x + self.y * o.y;
        proof {
            lemma_mul_range(dt as int, FX_ONE as int, 2_000_000_000_000_000_000, FX_ONE as int);
        }
        let num: i128 = (dt as i128) * (FX_ONE as i128);
        let den: i128 = (na as i128) * (nb as i128);
        crate::fx::clamp128(crate::fx::tdiv128(num, den))
    }

    pub fn proj_factor(self, o: Vec2) -> (r: i64)
        requires
            self.ok(),
            o.ok(),
        ensures
            r == spec_proj_factor(self, o),
            0 <= r <= FX_ONE,
    {
        proof {
            lemma_mul_range(o.x as int, o.x as int, FX_LIM as int, FX_LIM as int);
            lemma_mul_range(o.y as int, o.y as int, FX_LIM as int, FX_LIM as int);
        }
        let n2: i64 = o.x * o.x + o.y * o.y;
        if n2 == 0 {
            return 0;
        }
        proof {
            lemma_mul_range(self.x as int, o.x as int, FX_LIM as int, FX_LIM as int);
            lemma_mul_range(self.y as int, o.y as int, FX_LIM as int, FX_LIM as int);
        }
        let dt: i64 = self.x * o.x + self.y * o.y;
        proof {
            lemma_mul_range(dt as int, FX_ONE as int, 2_000_000_000_000_000_000, FX_ONE as int);
        }
        let num: i128 = (dt as i128) * (FX_ONE as i128);
        let t: i128 = crate::fx::tdiv128(num, n2 as i128);
        if t < 0 {
            0
        } else if t > FX_ONE as i128 {
            FX_ONE
        } else {
            t as i64
        }
    }
}

} // verus!
