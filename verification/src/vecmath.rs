use vstd::prelude::*;

verus! {

/// Fixed-point scale for trigonometric samples: a sine or cosine of 1.0 is
/// stored as `TRIG_ONE`, so every sample lies in `[-TRIG_ONE, TRIG_ONE]`.
pub const TRIG_ONE: i64 = 1000;

/// A three-component vector over the integers. The camera's direction and
/// basis vectors are held in this fixed-point form; only their directions
/// matter to the model, so they are kept unnormalized and exact.
#[derive(Clone, Copy, PartialEq, Eq, Structural, Debug)]
pub struct Vec3I {
    pub x: i64,
    pub y: i64,
    pub z: i64,
}

/// The mathematical value of a `Vec3I`: the same three components as
/// unbounded integers.
pub struct V3 {
    pub x: int,
    pub y: int,
    pub z: int,
}

impl View for Vec3I {
    type V = V3;

    open spec fn view(&self) -> V3 {
        V3 { x: self.x as int, y: self.y as int, z: self.z as int }
    }
}

/// Dot product, exact.
pub open spec fn dot(a: V3, b: V3) -> int {
    a.x * b.x + a.y * b.y + a.z * b.z
}

/// Cross product, exact.
pub open spec fn cross(a: V3, b: V3) -> V3 {
    V3 {
        x: a.y * b.z - a.z * b.y,
        y: a.z * b.x - a.x * b.z,
        z: a.x * b.y - a.y * b.x,
    }
}

/// A cross product is orthogonal to both of its factors. This is the exact
/// algebraic fact behind the camera's orthogonal basis.
pub proof fn lemma_cross_orthogonal(a: V3, b: V3)
    ensures
        dot(a, cross(a, b)) == 0,
        dot(b, cross(a, b)) == 0,
{
    assert(a.x * (a.y * b.z - a.z * b.y) + a.y * (a.z * b.x - a.x * b.z)
        + a.z * (a.x * b.y - a.y * b.x) == 0) by (nonlinear_arith);
    assert(b.x * (a.y * b.z - a.z * b.y) + b.y * (a.z * b.x - a.x * b.z)
        + b.z * (a.x * b.y - a.y * b.x) == 0) by (nonlinear_arith);
}

/// Widening multiplication: the exact product of two machine integers.
pub fn mul_wide(a: i64, b: i64) -> (r: i128)
    ensures
        r == a as int * b as int,
        -(0x8000_0000_0000_0000 * 0x8000_0000_0000_0000) <= r <= 0x8000_0000_0000_0000
            * 0x8000_0000_0000_0000,
{
    proof {
        assert((a as int) * (b as int) <= 0x8000_0000_0000_0000 * 0x8000_0000_0000_0000
            && (a as int) * (b as int) >= -(0x8000_0000_0000_0000 * 0x8000_0000_0000_0000))
            by (nonlinear_arith);
    }
    (a as i128) * (b as i128)
}

/// Largest component magnitude `dot_wide` accepts; keeps the widened sum of
/// products inside the machine range.
pub const DOT_BOUND: i64 = 1_000_000_000_000_000_000;

/// Exact dot product of two machine vectors, widened so it cannot overflow.
pub fn dot_wide(a: &Vec3I, b: &Vec3I) -> (r: i128)
    requires
        -DOT_BOUND <= a.x <= DOT_BOUND,
        -DOT_BOUND <= a.y <= DOT_BOUND,
        -DOT_BOUND <= a.z <= DOT_BOUND,
        -DOT_BOUND <= b.x <= DOT_BOUND,
        -DOT_BOUND <= b.y <= DOT_BOUND,
        -DOT_BOUND <= b.z <= DOT_BOUND,
    ensures
        r == dot(a@, b@),
{
    proof {
        lemma_product_bound(a.x as int, b.x as int, DOT_BOUND as int, DOT_BOUND as int);
        lemma_product_bound(a.y as int, b.y as int, DOT_BOUND as int, DOT_BOUND as int);
        lemma_product_bound(a.z as int, b.z as int, DOT_BOUND as int, DOT_BOUND as int);
    }
    let px: i128 = mul_wide(a.x, b.x);
    let py: i128 = mul_wide(a.y, b.y);
    let pz: i128 = mul_wide(a.z, b.z);
    px + py + pz
}

/// A product of integers bounded by `mx` and `my` in magnitude is bounded by
/// `mx * my`.
pub proof fn lemma_product_bound(x: int, y: int, mx: int, my: int)
    by (nonlinear_arith)
    requires
        0 <= mx,
        0 <= my,
        -mx <= x <= mx,
        -my <= y <= my,
    ensures
        -(mx * my) <= x * y <= mx * my,
{
}

} // verus!
