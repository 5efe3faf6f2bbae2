use vstd::prelude::*;

use crate::matrix::{
    entries_bounded, mat_product, multiply, Mat4, LEFT_FACTOR_BOUND, RIGHT_FACTOR_BOUND,
};
use crate::vecmath::{
    cross, dot, dot_wide, lemma_cross_orthogonal, lemma_product_bound, mul_wide, Vec3I, V3,
    TRIG_ONE,
};

verus! {

/// Pitch is clamped to +/- 89 degrees, in microdegrees, so the look direction
/// never becomes parallel to world-up and the derived basis stays
/// non-degenerate.
pub const PITCH_LIMIT: i64 = 89_000_000;

/// Yaw accumulates freely but saturates at this magnitude (microdegrees), a
/// machine limit that ordinary use never approaches.
pub const ANGLE_SAT: i64 = 1_000_000_000_000_000_000;

/// Largest magnitude of a position component (thousandths of a world unit),
/// a machine limit that keeps the view-matrix arithmetic exact.
pub const POSITION_BOUND: i64 = 1_000_000_000_000;

/// Largest magnitude of a direction or right-vector component.
pub const DIR_BOUND: i64 = 1_000_000;

/// Largest magnitude of an up-vector component.
pub const UP_BOUND: i64 = 2_000_000_000_000;

/// Default mouse sensitivity: 5 degrees per pixel, stated in microdegrees per
/// thousandth of a pixel.
pub const DEFAULT_SENSITIVITY: i64 = 5000;

/// Sine and cosine of the yaw and pitch angles, fixed point scaled by
/// [`TRIG_ONE`]. The caller evaluates the trigonometry (the one step of the
/// pipeline that runs in floating point, outside this crate) and passes the
/// samples in; everything derived from them is exact.
#[derive(Clone, Copy, PartialEq, Eq, Structural, Debug)]
pub struct TrigSample {
    pub sin_yaw: i64,
    pub cos_yaw: i64,
    pub sin_pitch: i64,
    pub cos_pitch: i64,
}

impl TrigSample {
    /// A sine or cosine sample never exceeds one.
    pub open spec fn wf(self) -> bool {
        &&& -TRIG_ONE <= self.sin_yaw <= TRIG_ONE
        &&& -TRIG_ONE <= self.cos_yaw <= TRIG_ONE
        &&& -TRIG_ONE <= self.sin_pitch <= TRIG_ONE
        &&& -TRIG_ONE <= self.cos_pitch <= TRIG_ONE
    }

    /// The sample at yaw 0, pitch 0.
    pub open spec fn zero_orientation() -> TrigSample {
        TrigSample { sin_yaw: 0, cos_yaw: TRIG_ONE, sin_pitch: 0, cos_pitch: TRIG_ONE }
    }
}

/// World-up: the +Y axis.
pub open spec fn world_up() -> V3 {
    V3 { x: 0, y: 1, z: 0 }
}

/// Spherical-to-Cartesian conversion of yaw and pitch, scaled by
/// `TRIG_ONE * TRIG_ONE` so it stays integral. Only the direction of the
/// vector is meaningful; callers that need a unit vector normalize the
/// floating-point rendition outside this crate.
pub open spec fn direction_of(t: TrigSample) -> V3 {
    V3 {
        x: t.cos_yaw * t.cos_pitch,
        y: t.sin_pitch * TRIG_ONE,
        z: t.sin_yaw * t.cos_pitch,
    }
}

/// The camera's right vector: world-up crossed with the look direction.
pub open spec fn right_of(t: TrigSample) -> V3 {
    cross(world_up(), direction_of(t))
}

/// The camera's up vector: look direction crossed with the right vector.
pub open spec fn up_of(t: TrigSample) -> V3 {
    cross(direction_of(t), right_of(t))
}

/// The mathematical value of a [`Camera`].
#[verifier::ext_equal]
pub struct CameraView {
    pub yaw: int,
    pub pitch: int,
    pub sensitivity: int,
    pub position: V3,
    pub direction: V3,
    pub right: V3,
    pub up: V3,
    pub view_mat: Seq<int>,
    pub projection: Seq<int>,
    pub mvp: Seq<int>,
}

/// The free-look camera: orientation angles in microdegrees, the derived
/// orthogonal basis, and the matrices rebuilt from them.
pub struct Camera {
    /// Horizontal look angle, microdegrees; grows without bound under mouse
    /// movement (up to the saturation machine limit).
    pub yaw: i64,
    /// Vertical look angle, microdegrees; always clamped to
    /// `[-PITCH_LIMIT, PITCH_LIMIT]`.
    pub pitch: i64,
    /// Scale applied to raw cursor deltas, microdegrees per thousandth of a
    /// pixel.
    pub sensitivity: i64,
    /// Eye position, thousandths of a world unit.
    pub position: Vec3I,
    /// Derived look direction (unnormalized, exact).
    pub direction: Vec3I,
    /// Derived right vector (unnormalized, exact).
    pub right: Vec3I,
    /// Derived up vector (unnormalized, exact).
    pub up: Vec3I,
    /// Look-at style view matrix built from the basis and position.
    pub view_mat: Mat4,
    /// Fixed perspective projection.
    pub projection: Mat4,
    /// `projection * view` (the model transform is the identity).
    pub mvp: Mat4,
}

impl View for Camera {
    type V = CameraView;

    open spec fn view(&self) -> CameraView {
        CameraView {
            yaw: self.yaw as int,
            pitch: self.pitch as int,
            sensitivity: self.sensitivity as int,
            position: self.position@,
            direction: self.direction@,
            right: self.right@,
            up: self.up@,
            view_mat: self.view_mat@,
            projection: self.projection@,
            mvp: self.mvp@,
        }
    }
}

/// A component-wise magnitude bound on a vector.
pub open spec fn v3_bounded(v: V3, m: int) -> bool {
    &&& -m <= v.x <= m
    &&& -m <= v.y <= m
    &&& -m <= v.z <= m
}

/// Clamp `v` to `[-m, m]`. Pitch clamping and yaw saturation are both this
/// operation, with different bounds.
pub open spec fn clamped(v: int, m: int) -> int {
    if v > m {
        m
    } else if v < -m {
        -m
    } else {
        v
    }
}

impl Camera {
    /// The camera's invariant: pitch clamped, yaw saturated, position and
    /// basis inside the machine bounds that keep the matrix arithmetic
    /// exact, and the matrices fully populated.
    pub open spec fn wf(&self) -> bool {
        &&& -PITCH_LIMIT <= self.pitch <= PITCH_LIMIT
        &&& -ANGLE_SAT <= self.yaw <= ANGLE_SAT
        &&& v3_bounded(self.position@, POSITION_BOUND as int)
        &&& v3_bounded(self.direction@, DIR_BOUND as int)
        &&& v3_bounded(self.right@, DIR_BOUND as int)
        &&& v3_bounded(self.up@, UP_BOUND as int)
        &&& self.view_mat.wf()
        &&& self.projection.wf()
        &&& self.mvp.wf()
    }
}

/// The orientation update a mouse delta causes: yaw grows with horizontal
/// movement, pitch shrinks with downward movement (mouse up looks up), both
/// scaled by the camera's sensitivity; pitch is clamped, yaw saturated.
/// Nothing else changes until the basis is recomputed.
pub open spec fn mouse_delta_applied(c: CameraView, dx: int, dy: int) -> CameraView {
    CameraView {
        yaw: clamped(c.yaw + dx * c.sensitivity, ANGLE_SAT as int),
        pitch: clamped(c.pitch - dy * c.sensitivity, PITCH_LIMIT as int),
        ..c
    }
}

/// The basis update from a trigonometric sample of the current angles.
pub open spec fn basis_set(c: CameraView, t: TrigSample) -> CameraView {
    CameraView { direction: direction_of(t), right: right_of(t), up: up_of(t), ..c }
}

/// The look-at style view matrix: basis vectors as rows, the eye position
/// projected onto them as the translation column, looking down the negated
/// direction.
pub open spec fn view_matrix_of(c: CameraView) -> Seq<int> {
    seq![
        c.right.x,
        c.right.y,
        c.right.z,
        -dot(c.right, c.position),
        c.up.x,
        c.up.y,
        c.up.z,
        -dot(c.up, c.position),
        -c.direction.x,
        -c.direction.y,
        -c.direction.z,
        dot(c.direction, c.position),
        0,
        0,
        0,
        1,
    ]
}

/// The fixed perspective projection, fixed point scaled by 1000: a 90 degree
/// vertical field of view at a 3:4 aspect, near and far planes at 0.1 and
/// 100 world units.
pub open spec fn projection_entries() -> Seq<int> {
    seq![1333, 0, 0, 0, 0, 1000, 0, 0, 0, 0, -1002, -200, 0, 0, -1000, 0]
}

/// The matrix rebuild: view from the current basis and position, the fixed
/// projection, and their product as the model-view-projection (the model
/// transform is the identity).
pub open spec fn recalculated(c: CameraView) -> CameraView {
    CameraView {
        view_mat: view_matrix_of(c),
        projection: projection_entries(),
        mvp: mat_product(projection_entries(), view_matrix_of(c)),
        ..c
    }
}

/// The state a fresh camera is in: zero orientation at the origin, default
/// sensitivity, basis and matrices already consistent with the angles.
pub open spec fn initial_camera() -> CameraView {
    recalculated(
        basis_set(
            CameraView {
                yaw: 0,
                pitch: 0,
                sensitivity: DEFAULT_SENSITIVITY as int,
                position: V3 { x: 0, y: 0, z: 0 },
                direction: V3 { x: 0, y: 0, z: 0 },
                right: V3 { x: 0, y: 0, z: 0 },
                up: V3 { x: 0, y: 0, z: 0 },
                view_mat: crate::matrix::identity_entries(),
                projection: crate::matrix::identity_entries(),
                mvp: crate::matrix::identity_entries(),
            },
            TrigSample::zero_orientation(),
        ),
    )
}

/// Saturating clamp of a wide intermediate into `[-limit, limit]`.
fn clamp_to(v: i128, limit: i64) -> (r: i64)
    requires
        limit >= 0,
    ensures
        r as int == clamped(v as int, limit as int),
{
    if v > limit as i128 {
        limit
    } else if v < -(limit as i128) {
        -limit
    } else {
        v as i64
    }
}

impl Camera {
    /// A camera at the default orientation: yaw and pitch zero, eye at the
    /// origin, looking down +X.
    pub fn new() -> (r: Camera)
        ensures
            r.wf(),
            r@ == initial_camera(),
    {
        let mut c = Camera {
            yaw: 0,
            pitch: 0,
            sensitivity: DEFAULT_SENSITIVITY,
            position: Vec3I { x: 0, y: 0, z: 0 },
            direction: Vec3I { x: 0, y: 0, z: 0 },
            right: Vec3I { x: 0, y: 0, z: 0 },
            up: Vec3I { x: 0, y: 0, z: 0 },
            view_mat: crate::matrix::identity(),
            projection: crate::matrix::identity(),
            mvp: crate::matrix::identity(),
        };
        let t = TrigSample { sin_yaw: 0, cos_yaw: TRIG_ONE, sin_pitch: 0, cos_pitch: TRIG_ONE };
        c.set_basis(&t);
        c.recalculate();
        c
    }

    /// Applies a raw cursor delta (thousandths of a pixel) to the orientation:
    /// the camera scales it by its own sensitivity, accumulates yaw, and
    /// clamps pitch. The basis and matrices are rebuilt by the caller's
    /// following `set_basis` and `recalculate` calls.
    pub fn on_mouse_delta(&mut self, dx: i64, dy: i64)
        requires
            old(self).wf(),
        ensures
            final(self)@ == mouse_delta_applied(old(self)@, dx as int, dy as int),
            final(self).wf(),
    {
        let yaw_raw: i128 = self.yaw as i128 + mul_wide(dx, self.sensitivity);
        let pitch_raw: i128 = self.pitch as i128 - mul_wide(dy, self.sensitivity);
        self.yaw = clamp_to(yaw_raw, ANGLE_SAT);
        self.pitch = clamp_to(pitch_raw, PITCH_LIMIT);
    }

    /// Installs the orthogonal basis derived from a trigonometric sample of
    /// the current angles: the spherical-to-Cartesian direction, then the two
    /// cross products against world-up.
    pub fn set_basis(&mut self, t: &TrigSample)
        requires
            old(self).wf(),
            t.wf(),
        ensures
            final(self)@ == basis_set(old(self)@, *t),
            final(self).wf(),
    {
        proof {
            lemma_product_bound(
                t.cos_yaw as int,
                t.cos_pitch as int,
                TRIG_ONE as int,
                TRIG_ONE as int,
            );
            lemma_product_bound(
                t.sin_yaw as int,
                t.cos_pitch as int,
                TRIG_ONE as int,
                TRIG_ONE as int,
            );
        }
        let dx: i64 = t.cos_yaw * t.cos_pitch;
        let dy: i64 = t.sin_pitch * TRIG_ONE;
        let dz: i64 = t.sin_yaw * t.cos_pitch;
        self.direction = Vec3I { x: dx, y: dy, z: dz };
        self.right = Vec3I { x: dz, y: 0, z: -dx };
        proof {
            lemma_product_bound(dy as int, dx as int, DIR_BOUND as int, DIR_BOUND as int);
            lemma_product_bound(dz as int, dz as int, DIR_BOUND as int, DIR_BOUND as int);
            lemma_product_bound(dx as int, dx as int, DIR_BOUND as int, DIR_BOUND as int);
            lemma_product_bound(dy as int, dz as int, DIR_BOUND as int, DIR_BOUND as int);
        }
        let ux: i128 = -mul_wide(dy, dx);
        let uy: i128 = mul_wide(dz, dz) + mul_wide(dx, dx);
        let uz: i128 = -mul_wide(dy, dz);
        self.up = Vec3I { x: ux as i64, y: uy as i64, z: uz as i64 };
        assert(self.direction@ == direction_of(*t));
        assert(self.right@ == right_of(*t));
        proof {
            let d = direction_of(*t);
            assert(d.y * (-d.x) - d.z * 0 == -(d.y * d.x)) by (nonlinear_arith);
            assert(d.z * d.z - d.x * (-d.x) == d.z * d.z + d.x * d.x) by (nonlinear_arith);
            assert(d.x * 0 - d.y * d.z == -(d.y * d.z)) by (nonlinear_arith);
        }
        assert(self.up@ == up_of(*t));
    }

    /// Rebuilds the view matrix from the basis and position, refreshes the
    /// fixed projection, and forms `mvp = projection * view`. Reads only the
    /// angles' derived basis and the position, so rebuilding twice in a row
    /// changes nothing.
    pub fn recalculate(&mut self)
        requires
            old(self).wf(),
        ensures
            final(self)@ == recalculated(old(self)@),
            final(self).wf(),
    {
        proof {
            lemma_dot_bound(
                self.right@,
                self.position@,
                DIR_BOUND as int,
                POSITION_BOUND as int,
            );
            lemma_dot_bound(self.up@, self.position@, UP_BOUND as int, POSITION_BOUND as int);
            lemma_dot_bound(
                self.direction@,
                self.position@,
                DIR_BOUND as int,
                POSITION_BOUND as int,
            );
        }
        let ntr_r: i128 = -dot_wide(&self.right, &self.position);
        let ntr_u: i128 = -dot_wide(&self.up, &self.position);
        let tr_d: i128 = dot_wide(&self.direction, &self.position);
        let ndx: i128 = -(self.direction.x as i128);
        let ndy: i128 = -(self.direction.y as i128);
        let ndz: i128 = -(self.direction.z as i128);
        let vm: Vec<i128> = vec![
            self.right.x as i128,
            self.right.y as i128,
            self.right.z as i128,
            ntr_r,
            self.up.x as i128,
            self.up.y as i128,
            self.up.z as i128,
            ntr_u,
            ndx,
            ndy,
            ndz,
            tr_d,
            0,
            0,
            0,
            1,
        ];
        let view_mat = Mat4 { m: vm };
        let pm: Vec<i128> = vec![
            1333, 0, 0, 0, 0, 1000, 0, 0, 0, 0, -1002, -200, 0, 0, -1000, 0,
        ];
        let projection = Mat4 { m: pm };
        proof {
            assert(view_mat@ =~= view_matrix_of(self@));
            assert(projection@ =~= projection_entries());
            assert(entries_bounded(projection@, LEFT_FACTOR_BOUND as int));
            assert(entries_bounded(view_mat@, RIGHT_FACTOR_BOUND as int));
        }
        let mvp = multiply(&projection, &view_mat);
        self.view_mat = view_mat;
        self.projection = projection;
        self.mvp = mvp;
        proof {
            assert(self@ =~= recalculated(old(self)@));
        }
    }

    /// Moves the eye. The matrices follow on the next `recalculate`.
    pub fn set_position(&mut self, p: Vec3I)
        requires
            old(self).wf(),
            -POSITION_BOUND <= p.x <= POSITION_BOUND,
            -POSITION_BOUND <= p.y <= POSITION_BOUND,
            -POSITION_BOUND <= p.z <= POSITION_BOUND,
        ensures
            final(self)@ == (CameraView { position: p@, ..old(self)@ }),
            final(self).wf(),
    {
        self.position = p;
    }

    /// An immutable copy of what the renderer consumes: direction, position,
    /// and the combined matrix.
    pub fn snapshot(&self) -> (r: CameraSnapshot)
        requires
            self.wf(),
        ensures
            r.direction == self.direction,
            r.position == self.position,
            r.mvp@ == self.mvp@,
    {
        CameraSnapshot {
            direction: self.direction,
            position: self.position,
            mvp: self.mvp.duplicate(),
        }
    }
}

/// The per-frame camera snapshot the renderer reads.
pub struct CameraSnapshot {
    pub direction: Vec3I,
    pub position: Vec3I,
    pub mvp: Mat4,
}

/// A dot product of vectors bounded by `ma` and `mb` is bounded by
/// `3 * ma * mb`.
pub proof fn lemma_dot_bound(a: V3, b: V3, ma: int, mb: int)
    requires
        0 <= ma,
        0 <= mb,
        v3_bounded(a, ma),
        v3_bounded(b, mb),
    ensures
        -(3 * (ma * mb)) <= dot(a, b) <= 3 * (ma * mb),
{
    lemma_product_bound(a.x, b.x, ma, mb);
    lemma_product_bound(a.y, b.y, ma, mb);
    lemma_product_bound(a.z, b.z, ma, mb);
}

/// For every yaw and pitch, the derived direction, right, and up vectors are
/// mutually orthogonal: each pairwise dot product is exactly zero.
pub proof fn lemma_basis_orthogonal(t: TrigSample)
    ensures
        dot(direction_of(t), right_of(t)) == 0,
        dot(direction_of(t), up_of(t)) == 0,
        dot(right_of(t), up_of(t)) == 0,
{
    lemma_cross_orthogonal(world_up(), direction_of(t));
    lemma_cross_orthogonal(direction_of(t), right_of(t));
}

/// The fixed-point rendition of unit length: on trigonometric samples that
/// satisfy the Pythagorean identity exactly, the derived direction has
/// squared length exactly `TRIG_ONE^4` and the right vector exactly
/// `cos_pitch^2 * TRIG_ONE^2` — the conversion preserves length, and any
/// deviation in practice is the samples' own rounding, which the caller's
/// normalization absorbs.
pub proof fn lemma_basis_lengths_on_exact_samples(t: TrigSample)
    requires
        t.sin_yaw * t.sin_yaw + t.cos_yaw * t.cos_yaw == TRIG_ONE * TRIG_ONE,
        t.sin_pitch * t.sin_pitch + t.cos_pitch * t.cos_pitch == TRIG_ONE * TRIG_ONE,
    ensures
        dot(direction_of(t), direction_of(t)) == (TRIG_ONE * TRIG_ONE) * (TRIG_ONE * TRIG_ONE),
        dot(right_of(t), right_of(t)) == (t.cos_pitch * t.cos_pitch) * (TRIG_ONE * TRIG_ONE),
{
    let sy = t.sin_yaw as int;
    let cy = t.cos_yaw as int;
    let sp = t.sin_pitch as int;
    let cp = t.cos_pitch as int;
    let unit = TRIG_ONE as int * TRIG_ONE as int;
    assert((cy * cp) * (cy * cp) + (sy * cp) * (sy * cp) == (cy * cy + sy * sy) * (cp * cp))
        by (nonlinear_arith);
    assert((sp * TRIG_ONE) * (sp * TRIG_ONE) == (sp * sp) * (TRIG_ONE as int * TRIG_ONE as int))
        by (nonlinear_arith);
    assert(unit * (cp * cp) + (sp * sp) * unit == (cp * cp + sp * sp) * unit)
        by (nonlinear_arith);
    let r = V3 { x: sy * cp, y: 0, z: -(cy * cp) };
    assert(right_of(t) == r);
    assert((sy * cp) * (sy * cp) + (-(cy * cp)) * (-(cy * cp)) == (cp * cp) * (sy * sy + cy
        * cy)) by (nonlinear_arith);
    assert(0 * 0 == 0) by (nonlinear_arith);
    assert(dot(r, r) == (cp * cp) * (sy * sy + cy * cy));
}

/// Why the pitch clamp is load-bearing: whenever the pitch's cosine stays
/// positive — true of every pitch in the clamped range, where the direction
/// cannot become parallel to world-up — and the yaw sample is not degenerate,
/// the right vector never collapses to zero.
pub proof fn lemma_clamped_pitch_keeps_basis_nondegenerate(t: TrigSample)
    requires
        t.cos_pitch >= 1,
        t.sin_yaw != 0 || t.cos_yaw != 0,
    ensures
        right_of(t) != (V3 { x: 0, y: 0, z: 0 }),
{
    if t.sin_yaw != 0 {
        assert(t.sin_yaw * t.cos_pitch != 0) by (nonlinear_arith)
            requires
                t.sin_yaw != 0,
                t.cos_pitch >= 1,
        ;
    } else {
        assert(t.cos_yaw * t.cos_pitch != 0) by (nonlinear_arith)
            requires
                t.cos_yaw != 0,
                t.cos_pitch >= 1,
        ;
    }
}

/// Rebuilding the matrices twice with unchanged angles, basis, and position
/// produces the identical camera state: `recalculate` is idempotent.
pub proof fn lemma_recalculate_idempotent(c: CameraView)
    ensures
        recalculated(recalculated(c)) == recalculated(c),
{
    assert(recalculated(recalculated(c)) =~= recalculated(c));
}

/// However the pitch is driven, after a mouse delta it lies in
/// `[-PITCH_LIMIT, PITCH_LIMIT]` — before any basis recomputation sees it.
pub proof fn lemma_pitch_clamped(c: CameraView, dx: int, dy: int)
    ensures
        -PITCH_LIMIT <= mouse_delta_applied(c, dx, dy).pitch <= PITCH_LIMIT,
{
}

/// At yaw 0 and pitch 0 the camera looks down the positive X axis: the
/// direction vector is `(TRIG_ONE * TRIG_ONE, 0, 0)`, the scaled (1, 0, 0).
pub proof fn lemma_zero_orientation_direction()
    ensures
        direction_of(TrigSample::zero_orientation()) == (V3 {
            x: TRIG_ONE as int * TRIG_ONE as int,
            y: 0,
            z: 0,
        }),
{
}

/// The model transform of the scene is the identity, so the combined matrix
/// `projection * view * model` equals the stored `projection * view`.
pub proof fn lemma_mvp_with_identity_model(c: CameraView)
    ensures
        mat_product(recalculated(c).mvp, crate::matrix::identity_entries()) == recalculated(
            c,
        ).mvp,
{
    crate::matrix::lemma_identity_right(recalculated(c).mvp);
}

} // verus!
