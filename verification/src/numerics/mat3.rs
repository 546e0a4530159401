//! 3x3 matrices of fixed-point scalars, stored by rows.

use vstd::prelude::*;
use crate::numerics::fxp::{
    fits_i64, fx_div, fx_mul, lemma_fx_mul_bound, spec_fx_div, spec_fx_mul,
};
use crate::numerics::vec3::{bounded, spec_dot, Vec3, COMP_LIMIT};

verus! {

/// Largest entry magnitude the matrix inverse accepts (ten thousand in
/// whole units -- far beyond any small-craft inertia tensor).
pub const MAT_INV_LIMIT: i64 = 10_000_000_000;

#[derive(Clone, Copy, Debug, PartialEq, Eq, Structural)]
pub struct Mat3 {
    pub r0: Vec3,
    pub r1: Vec3,
    pub r2: Vec3,
}

pub open spec fn m_bounded(m: Mat3, b: int) -> bool {
    &&& bounded(m.r0, b)
    &&& bounded(m.r1, b)
    &&& bounded(m.r2, b)
}

pub open spec fn spec_transpose(m: Mat3) -> Mat3 {
    Mat3 {
        r0: Vec3 { x: m.r0.x, y: m.r1.x, z: m.r2.x },
        r1: Vec3 { x: m.r0.y, y: m.r1.y, z: m.r2.y },
        r2: Vec3 { x: m.r0.z, y: m.r1.z, z: m.r2.z },
    }
}

/// Matrix-vector product: each row's rescaled dot product with `v`.
pub open spec fn spec_matvec(m: Mat3, v: Vec3) -> Vec3 {
    Vec3 {
        x: spec_dot(m.r0, v) as i64,
        y: spec_dot(m.r1, v) as i64,
        z: spec_dot(m.r2, v) as i64,
    }
}

pub open spec fn can_matvec(m: Mat3, v: Vec3) -> bool {
    &&& m_bounded(m, COMP_LIMIT as int)
    &&& bounded(v, COMP_LIMIT as int)
    &&& fits_i64(spec_dot(m.r0, v))
    &&& fits_i64(spec_dot(m.r1, v))
    &&& fits_i64(spec_dot(m.r2, v))
}

/// Matrix product: rows of `a` against columns of `b`.
pub open spec fn spec_matmul(a: Mat3, b: Mat3) -> Mat3 {
    spec_transpose(
        Mat3 {
            r0: spec_matvec(a, Vec3 { x: b.r0.x, y: b.r1.x, z: b.r2.x }),
            r1: spec_matvec(a, Vec3 { x: b.r0.y, y: b.r1.y, z: b.r2.y }),
            r2: spec_matvec(a, Vec3 { x: b.r0.z, y: b.r1.z, z: b.r2.z }),
        },
    )
}

pub open spec fn can_matmul(a: Mat3, b: Mat3) -> bool {
    &&& can_matvec(a, Vec3 { x: b.r0.x, y: b.r1.x, z: b.r2.x })
    &&& can_matvec(a, Vec3 { x: b.r0.y, y: b.r1.y, z: b.r2.y })
    &&& can_matvec(a, Vec3 { x: b.r0.z, y: b.r1.z, z: b.r2.z })
}

/// Determinant by cofactor expansion along the first row, every product
/// rounded to nearest.
pub open spec fn spec_det(m: Mat3) -> int {
    let c0 = spec_fx_mul(m.r1.y as int, m.r2.z as int) - spec_fx_mul(
        m.r1.z as int,
        m.r2.y as int,
    );
    let c1 = spec_fx_mul(m.r1.x as int, m.r2.z as int) - spec_fx_mul(
        m.r1.z as int,
        m.r2.x as int,
    );
    let c2 = spec_fx_mul(m.r1.x as int, m.r2.y as int) - spec_fx_mul(
        m.r1.y as int,
        m.r2.x as int,
    );
    spec_fx_mul(m.r0.x as int, c0) - spec_fx_mul(m.r0.y as int, c1) + spec_fx_mul(
        m.r0.z as int,
        c2,
    )
}

/// The adjugate (transposed cofactor matrix), every product rounded to
/// nearest.
pub open spec fn spec_adjugate(m: Mat3) -> Mat3 {
    let a = m.r0.x as int;
    let b = m.r0.y as int;
    let c = m.r0.z as int;
    let d = m.r1.x as int;
    let e = m.r1.y as int;
    let f = m.r1.z as int;
    let g = m.r2.x as int;
    let h = m.r2.y as int;
    let i = m.r2.z as int;
    Mat3 {
        r0: Vec3 {
            x: (spec_fx_mul(e, i) - spec_fx_mul(f, h)) as i64,
            y: (spec_fx_mul(c, h) - spec_fx_mul(b, i)) as i64,
            z: (spec_fx_mul(b, f) - spec_fx_mul(c, e)) as i64,
        },
        r1: Vec3 {
            x: (spec_fx_mul(f, g) - spec_fx_mul(d, i)) as i64,
            y: (spec_fx_mul(a, i) - spec_fx_mul(c, g)) as i64,
            z: (spec_fx_mul(c, d) - spec_fx_mul(a, f)) as i64,
        },
        r2: Vec3 {
            x: (spec_fx_mul(d, h) - spec_fx_mul(e, g)) as i64,
            y: (spec_fx_mul(b, g) - spec_fx_mul(a, h)) as i64,
            z: (spec_fx_mul(a, e) - spec_fx_mul(b, d)) as i64,
        },
    }
}

/// The inverse: the adjugate divided entry-wise by the determinant.
pub open spec fn spec_inverse(m: Mat3) -> Mat3 {
    let det = spec_det(m);
    let adj = spec_adjugate(m);
    Mat3 {
        r0: Vec3 {
            x: spec_fx_div(adj.r0.x as int, det) as i64,
            y: spec_fx_div(adj.r0.y as int, det) as i64,
            z: spec_fx_div(adj.r0.z as int, det) as i64,
        },
        r1: Vec3 {
            x: spec_fx_div(adj.r1.x as int, det) as i64,
            y: spec_fx_div(adj.r1.y as int, det) as i64,
            z: spec_fx_div(adj.r1.z as int, det) as i64,
        },
        r2: Vec3 {
            x: spec_fx_div(adj.r2.x as int, det) as i64,
            y: spec_fx_div(adj.r2.y as int, det) as i64,
            z: spec_fx_div(adj.r2.z as int, det) as i64,
        },
    }
}

/// When a bounded matrix can be inverted: positive determinant (the
/// positive-definite case this library needs) and entries whose quotients
/// stay in range.
pub open spec fn can_inverse(m: Mat3) -> bool {
    &&& m_bounded(m, MAT_INV_LIMIT as int)
    &&& 1 <= spec_det(m)
    &&& fits_i64(spec_fx_div(spec_adjugate(m).r0.x as int, spec_det(m)))
    &&& fits_i64(spec_fx_div(spec_adjugate(m).r0.y as int, spec_det(m)))
    &&& fits_i64(spec_fx_div(spec_adjugate(m).r0.z as int, spec_det(m)))
    &&& fits_i64(spec_fx_div(spec_adjugate(m).r1.x as int, spec_det(m)))
    &&& fits_i64(spec_fx_div(spec_adjugate(m).r1.y as int, spec_det(m)))
    &&& fits_i64(spec_fx_div(spec_adjugate(m).r1.z as int, spec_det(m)))
    &&& fits_i64(spec_fx_div(spec_adjugate(m).r2.x as int, spec_det(m)))
    &&& fits_i64(spec_fx_div(spec_adjugate(m).r2.y as int, spec_det(m)))
    &&& fits_i64(spec_fx_div(spec_adjugate(m).r2.z as int, spec_det(m)))
}

/// Entry products of a matrix bounded for inversion stay small.
proof fn lemma_inv_prod(x: int, y: int)
    requires
        -MAT_INV_LIMIT <= x <= MAT_INV_LIMIT,
        -MAT_INV_LIMIT <= y <= MAT_INV_LIMIT,
    ensures
        -100_000_000_000_001int <= spec_fx_mul(x, y) <= 100_000_000_000_001int,
{
    lemma_fx_mul_bound(
        x,
        y,
        MAT_INV_LIMIT as int,
        MAT_INV_LIMIT as int,
        100_000_000_000_000_000_000int,
    );
}

impl Mat3 {
    pub fn new(r0: Vec3, r1: Vec3, r2: Vec3) -> (r: Mat3)
        ensures
            r == (Mat3 { r0, r1, r2 }),
    {
        Mat3 { r0, r1, r2 }
    }

    /// The matrix whose columns are the given vectors.
    pub fn from_columns(c0: &Vec3, c1: &Vec3, c2: &Vec3) -> (r: Mat3)
        ensures
            r == (Mat3 {
                r0: Vec3 { x: c0.x, y: c1.x, z: c2.x },
                r1: Vec3 { x: c0.y, y: c1.y, z: c2.y },
                r2: Vec3 { x: c0.z, y: c1.z, z: c2.z },
            }),
    {
        Mat3 {
            r0: Vec3 { x: c0.x, y: c1.x, z: c2.x },
            r1: Vec3 { x: c0.y, y: c1.y, z: c2.y },
            r2: Vec3 { x: c0.z, y: c1.z, z: c2.z },
        }
    }

    /// The diagonal matrix with the given fixed-point entries.
    pub fn diagonal(d0: i64, d1: i64, d2: i64) -> (r: Mat3)
        ensures
            r == (Mat3 {
                r0: Vec3 { x: d0, y: 0i64, z: 0i64 },
                r1: Vec3 { x: 0i64, y: d1, z: 0i64 },
                r2: Vec3 { x: 0i64, y: 0i64, z: d2 },
            }),
    {
        Mat3 {
            r0: Vec3 { x: d0, y: 0, z: 0 },
            r1: Vec3 { x: 0, y: d1, z: 0 },
            r2: Vec3 { x: 0, y: 0, z: d2 },
        }
    }

    pub fn zero() -> (r: Mat3)
        ensures
            r == (Mat3 {
                r0: Vec3 { x: 0i64, y: 0i64, z: 0i64 },
                r1: Vec3 { x: 0i64, y: 0i64, z: 0i64 },
                r2: Vec3 { x: 0i64, y: 0i64, z: 0i64 },
            }),
    {
        Mat3 {
            r0: Vec3 { x: 0, y: 0, z: 0 },
            r1: Vec3 { x: 0, y: 0, z: 0 },
            r2: Vec3 { x: 0, y: 0, z: 0 },
        }
    }

    pub fn transpose(&self) -> (r: Mat3)
        ensures
            r == spec_transpose(*self),
    {
        Mat3 {
            r0: Vec3 { x: self.r0.x, y: self.r1.x, z: self.r2.x },
            r1: Vec3 { x: self.r0.y, y: self.r1.y, z: self.r2.y },
            r2: Vec3 { x: self.r0.z, y: self.r1.z, z: self.r2.z },
        }
    }

    pub fn matvec(&self, v: &Vec3) -> (r: Vec3)
        requires
            can_matvec(*self, *v),
        ensures
            r == spec_matvec(*self, *v),
    {
        Vec3 { x: self.r0.dot(v), y: self.r1.dot(v), z: self.r2.dot(v) }
    }

    /// Inverse by adjugate over determinant, in fixed point.
    pub fn inverse(&self) -> (r: Mat3)
        requires
            can_inverse(*self),
        ensures
            r == spec_inverse(*self),
    {
        let a = self.r0.x;
        let b = self.r0.y;
        let c = self.r0.z;
        let d = self.r1.x;
        let e = self.r1.y;
        let f = self.r1.z;
        let g = self.r2.x;
        let h = self.r2.y;
        let i = self.r2.z;
        proof {
            lemma_inv_prod(e as int, i as int);
            lemma_inv_prod(f as int, h as int);
            lemma_inv_prod(f as int, g as int);
            lemma_inv_prod(d as int, i as int);
            lemma_inv_prod(d as int, h as int);
            lemma_inv_prod(e as int, g as int);
            lemma_inv_prod(c as int, h as int);
            lemma_inv_prod(b as int, i as int);
            lemma_inv_prod(b as int, f as int);
            lemma_inv_prod(c as int, e as int);
            lemma_inv_prod(a as int, i as int);
            lemma_inv_prod(c as int, g as int);
            lemma_inv_prod(c as int, d as int);
            lemma_inv_prod(a as int, f as int);
            lemma_inv_prod(b as int, g as int);
            lemma_inv_prod(a as int, h as int);
            lemma_inv_prod(a as int, e as int);
            lemma_inv_prod(b as int, d as int);
        }
        let c0 = fx_mul(e, i) - fx_mul(f, h);
        let c1 = fx_mul(d, i) - fx_mul(f, g);
        let c2 = fx_mul(d, h) - fx_mul(e, g);
        proof {
            lemma_fx_mul_bound(
                a as int,
                c0 as int,
                MAT_INV_LIMIT as int,
                200_000_000_000_002int,
                2_000_000_000_000_020_000_000_000int,
            );
            lemma_fx_mul_bound(
                b as int,
                c1 as int,
                MAT_INV_LIMIT as int,
                200_000_000_000_002int,
                2_000_000_000_000_020_000_000_000int,
            );
            lemma_fx_mul_bound(
                c as int,
                c2 as int,
                MAT_INV_LIMIT as int,
                200_000_000_000_002int,
                2_000_000_000_000_020_000_000_000int,
            );
        }
        let det = fx_mul(a, c0) - fx_mul(b, c1) + fx_mul(c, c2);
        proof {
            assert(det as int == spec_det(*self));
        }
        let adj00 = fx_mul(e, i) - fx_mul(f, h);
        let adj01 = fx_mul(c, h) - fx_mul(b, i);
        let adj02 = fx_mul(b, f) - fx_mul(c, e);
        let adj10 = fx_mul(f, g) - fx_mul(d, i);
        let adj11 = fx_mul(a, i) - fx_mul(c, g);
        let adj12 = fx_mul(c, d) - fx_mul(a, f);
        let adj20 = fx_mul(d, h) - fx_mul(e, g);
        let adj21 = fx_mul(b, g) - fx_mul(a, h);
        let adj22 = fx_mul(a, e) - fx_mul(b, d);
        Mat3 {
            r0: Vec3 {
                x: fx_div(adj00, det),
                y: fx_div(adj01, det),
                z: fx_div(adj02, det),
            },
            r1: Vec3 {
                x: fx_div(adj10, det),
                y: fx_div(adj11, det),
                z: fx_div(adj12, det),
            },
            r2: Vec3 {
                x: fx_div(adj20, det),
                y: fx_div(adj21, det),
                z: fx_div(adj22, det),
            },
        }
    }

    pub fn matmul(&self, o: &Mat3) -> (r: Mat3)
        requires
            can_matmul(*self, *o),
        ensures
            r == spec_matmul(*self, *o),
    {
        let c0 = self.matvec(&Vec3 { x: o.r0.x, y: o.r1.x, z: o.r2.x });
        let c1 = self.matvec(&Vec3 { x: o.r0.y, y: o.r1.y, z: o.r2.y });
        let c2 = self.matvec(&Vec3 { x: o.r0.z, y: o.r1.z, z: o.r2.z });
        Mat3::from_columns(&c0, &c1, &c2)
    }
}

} // verus!
