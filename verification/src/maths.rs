//! Vectors, rotations and 4x4 matrices in fixed point.
//!
//! A `Mat4` acts on column vectors; translation therefore sits in its last
//! column. A rotation about an axis is held as the sine and cosine of its
//! angle, both fixed-point raw values, so the whole transform pipeline is
//! exact integer arithmetic. The transformation matrix of an entity is the
//! product translate * rotate_x * rotate_y * rotate_z * scale, composed
//! from the right.

use vstd::prelude::*;

verus! {

use crate::fixed::SCALE;
use crate::fixed::RESCALE_MAX;
use crate::fixed::scale_down;
use crate::fixed::fx_dot4_spec;
use crate::fixed::fx_dot4;
use crate::fixed::lemma_scale_down_exact;
use vstd::arithmetic::div_mod::lemma_div_non_zero;
use vstd::arithmetic::div_mod::lemma_div_nonincreasing;

/// Largest raw magnitude a translation component may take.
pub const POS_MAX: i64 = 1073741824;

/// Largest raw magnitude a uniform scale factor may take.
pub const SCALE_FACTOR_MAX: i64 = 16777216;

/// Largest viewport side length accepted when building a projection.
pub const VIEWPORT_MAX: i32 = 16384;

/// 1 / tan(fov / 2) as a raw value, for the fixed field of view of 70
/// degrees.
pub const Y_SCALE_RAW: i64 = 93603;

/// -(far + near) / (far - near) as a raw value, for the fixed planes
/// near = 0.1 and far = 1000.
pub const PROJ_ZZ_RAW: i64 = -65549;

/// -(2 * far * near) / (far - near) as a raw value, for the same planes.
pub const PROJ_ZW_RAW: i64 = -13108;

/// A point or translation, held as three fixed-point raw values.
#[derive(Clone, Copy, PartialEq, Eq, Structural, Debug)]
pub struct Vec3 {
    pub x: i64,
    pub y: i64,
    pub z: i64,
}

/// A rotation about one axis, held as the sine and cosine of its angle.
#[derive(Clone, Copy, PartialEq, Eq, Structural, Debug)]
pub struct Rot {
    pub sin: i64,
    pub cos: i64,
}

/// A 4x4 matrix of fixed-point raw values, row major: `mRC` is row `R`,
/// column `C`.
#[derive(Clone, Copy, PartialEq, Eq, Structural, Debug)]
pub struct Mat4 {
    pub m00: i64, pub m01: i64, pub m02: i64, pub m03: i64,
    pub m10: i64, pub m11: i64, pub m12: i64, pub m13: i64,
    pub m20: i64, pub m21: i64, pub m22: i64, pub m23: i64,
    pub m30: i64, pub m31: i64, pub m32: i64, pub m33: i64,
}

/// All three components within the translation range.
pub open spec fn vec3_wf(v: Vec3) -> bool {
    &&& -POS_MAX <= v.x <= POS_MAX
    &&& -POS_MAX <= v.y <= POS_MAX
    &&& -POS_MAX <= v.z <= POS_MAX
}

/// Sine and cosine of a real angle never leave one unit in magnitude.
pub open spec fn rot_wf(r: Rot) -> bool {
    &&& -SCALE <= r.sin <= SCALE
    &&& -SCALE <= r.cos <= SCALE
}

/// A scale factor within the accepted range.
pub open spec fn scale_factor_wf(s: i64) -> bool {
    -SCALE_FACTOR_MAX <= s <= SCALE_FACTOR_MAX
}

/// Every entry of `m` has magnitude at most `b`.
pub open spec fn m4_bounded(m: Mat4, b: int) -> bool {
    &&& -b <= m.m00 <= b && -b <= m.m01 <= b && -b <= m.m02 <= b && -b <= m.m03 <= b
    &&& -b <= m.m10 <= b && -b <= m.m11 <= b && -b <= m.m12 <= b && -b <= m.m13 <= b
    &&& -b <= m.m20 <= b && -b <= m.m21 <= b && -b <= m.m22 <= b && -b <= m.m23 <= b
    &&& -b <= m.m30 <= b && -b <= m.m31 <= b && -b <= m.m32 <= b && -b <= m.m33 <= b
}

/// The identity matrix.
pub open spec fn spec_m4_identity() -> Mat4 {
    Mat4 {
        m00: SCALE, m01: 0, m02: 0, m03: 0,
        m10: 0, m11: SCALE, m12: 0, m13: 0,
        m20: 0, m21: 0, m22: SCALE, m23: 0,
        m30: 0, m31: 0, m32: 0, m33: SCALE,
    }
}

/// The translation matrix of `p`: identity with `p` in the last column.
pub open spec fn spec_translation_matrix(p: Vec3) -> Mat4 {
    Mat4 {
        m00: SCALE, m01: 0, m02: 0, m03: p.x,
        m10: 0, m11: SCALE, m12: 0, m13: p.y,
        m20: 0, m21: 0, m22: SCALE, m23: p.z,
        m30: 0, m31: 0, m32: 0, m33: SCALE,
    }
}

/// The rotation matrix about the x axis for an angle of sine `r.sin` and
/// cosine `r.cos`.
pub open spec fn spec_rot_x_matrix(r: Rot) -> Mat4 {
    Mat4 {
        m00: SCALE, m01: 0, m02: 0, m03: 0,
        m10: 0, m11: r.cos, m12: (-(r.sin as int)) as i64, m13: 0,
        m20: 0, m21: r.sin, m22: r.cos, m23: 0,
        m30: 0, m31: 0, m32: 0, m33: SCALE,
    }
}

/// The rotation matrix about the y axis.
pub open spec fn spec_rot_y_matrix(r: Rot) -> Mat4 {
    Mat4 {
        m00: r.cos, m01: 0, m02: r.sin, m03: 0,
        m10: 0, m11: SCALE, m12: 0, m13: 0,
        m20: (-(r.sin as int)) as i64, m21: 0, m22: r.cos, m23: 0,
        m30: 0, m31: 0, m32: 0, m33: SCALE,
    }
}

/// The rotation matrix about the z axis.
pub open spec fn spec_rot_z_matrix(r: Rot) -> Mat4 {
    Mat4 {
        m00: r.cos, m01: (-(r.sin as int)) as i64, m02: 0, m03: 0,
        m10: r.sin, m11: r.cos, m12: 0, m13: 0,
        m20: 0, m21: 0, m22: SCALE, m23: 0,
        m30: 0, m31: 0, m32: 0, m33: SCALE,
    }
}

/// The uniform scaling matrix of factor `s`.
pub open spec fn spec_scale_matrix(s: i64) -> Mat4 {
    Mat4 {
        m00: s, m01: 0, m02: 0, m03: 0,
        m10: 0, m11: s, m12: 0, m13: 0,
        m20: 0, m21: 0, m22: s, m23: 0,
        m30: 0, m31: 0, m32: 0, m33: SCALE,
    }
}

/// The fixed-point matrix product: entry (i, j) is the fixed-point dot
/// product of row i of `a` and column j of `b`.
pub open spec fn spec_m4_mul(a: Mat4, b: Mat4) -> Mat4 {
    Mat4 {
        m00: fx_dot4_spec(a.m00 as int, a.m01 as int, a.m02 as int, a.m03 as int,
                          b.m00 as int, b.m10 as int, b.m20 as int, b.m30 as int) as i64,
        m01: fx_dot4_spec(a.m00 as int, a.m01 as int, a.m02 as int, a.m03 as int,
                          b.m01 as int, b.m11 as int, b.m21 as int, b.m31 as int) as i64,
        m02: fx_dot4_spec(a.m00 as int, a.m01 as int, a.m02 as int, a.m03 as int,
                          b.m02 as int, b.m12 as int, b.m22 as int, b.m32 as int) as i64,
        m03: fx_dot4_spec(a.m00 as int, a.m01 as int, a.m02 as int, a.m03 as int,
                          b.m03 as int, b.m13 as int, b.m23 as int, b.m33 as int) as i64,
        m10: fx_dot4_spec(a.m10 as int, a.m11 as int, a.m12 as int, a.m13 as int,
                          b.m00 as int, b.m10 as int, b.m20 as int, b.m30 as int) as i64,
        m11: fx_dot4_spec(a.m10 as int, a.m11 as int, a.m12 as int, a.m13 as int,
                          b.m01 as int, b.m11 as int, b.m21 as int, b.m31 as int) as i64,
        m12: fx_dot4_spec(a.m10 as int, a.m11 as int, a.m12 as int, a.m13 as int,
                          b.m02 as int, b.m12 as int, b.m22 as int, b.m32 as int) as i64,
        m13: fx_dot4_spec(a.m10 as int, a.m11 as int, a.m12 as int, a.m13 as int,
                          b.m03 as int, b.m13 as int, b.m23 as int, b.m33 as int) as i64,
        m20: fx_dot4_spec(a.m20 as int, a.m21 as int, a.m22 as int, a.m23 as int,
                          b.m00 as int, b.m10 as int, b.m20 as int, b.m30 as int) as i64,
        m21: fx_dot4_spec(a.m20 as int, a.m21 as int, a.m22 as int, a.m23 as int,
                          b.m01 as int, b.m11 as int, b.m21 as int, b.m31 as int) as i64,
        m22: fx_dot4_spec(a.m20 as int, a.m21 as int, a.m22 as int, a.m23 as int,
                          b.m02 as int, b.m12 as int, b.m22 as int, b.m32 as int) as i64,
        m23: fx_dot4_spec(a.m20 as int, a.m21 as int, a.m22 as int, a.m23 as int,
                          b.m03 as int, b.m13 as int, b.m23 as int, b.m33 as int) as i64,
        m30: fx_dot4_spec(a.m30 as int, a.m31 as int, a.m32 as int, a.m33 as int,
                          b.m00 as int, b.m10 as int, b.m20 as int, b.m30 as int) as i64,
        m31: fx_dot4_spec(a.m30 as int, a.m31 as int, a.m32 as int, a.m33 as int,
                          b.m01 as int, b.m11 as int, b.m21 as int, b.m31 as int) as i64,
        m32: fx_dot4_spec(a.m30 as int, a.m31 as int, a.m32 as int, a.m33 as int,
                          b.m02 as int, b.m12 as int, b.m22 as int, b.m32 as int) as i64,
        m33: fx_dot4_spec(a.m30 as int, a.m31 as int, a.m32 as int, a.m33 as int,
                          b.m03 as int, b.m13 as int, b.m23 as int, b.m33 as int) as i64,
    }
}

/// The identity matrix.
pub fn mat4_identity() -> (m: Mat4)
    ensures
        m == spec_m4_identity(),
{
    Mat4 {
        m00: SCALE, m01: 0, m02: 0, m03: 0,
        m10: 0, m11: SCALE, m12: 0, m13: 0,
        m20: 0, m21: 0, m22: SCALE, m23: 0,
        m30: 0, m31: 0, m32: 0, m33: SCALE,
    }
}

/// The translation matrix of `p`.
pub fn translation_matrix(p: &Vec3) -> (m: Mat4)
    ensures
        m == spec_translation_matrix(*p),
{
    Mat4 {
        m00: SCALE, m01: 0, m02: 0, m03: p.x,
        m10: 0, m11: SCALE, m12: 0, m13: p.y,
        m20: 0, m21: 0, m22: SCALE, m23: p.z,
        m30: 0, m31: 0, m32: 0, m33: SCALE,
    }
}

/// The rotation matrix about the x axis.
pub fn rot_x_matrix(r: &Rot) -> (m: Mat4)
    requires
        rot_wf(*r),
    ensures
        m == spec_rot_x_matrix(*r),
{
    Mat4 {
        m00: SCALE, m01: 0, m02: 0, m03: 0,
        m10: 0, m11: r.cos, m12: -r.sin, m13: 0,
        m20: 0, m21: r.sin, m22: r.cos, m23: 0,
        m30: 0, m31: 0, m32: 0, m33: SCALE,
    }
}

/// The rotation matrix about the y axis.
pub fn rot_y_matrix(r: &Rot) -> (m: Mat4)
    requires
        rot_wf(*r),
    ensures
        m == spec_rot_y_matrix(*r),
{
    Mat4 {
        m00: r.cos, m01: 0, m02: r.sin, m03: 0,
        m10: 0, m11: SCALE, m12: 0, m13: 0,
        m20: -r.sin, m21: 0, m22: r.cos, m23: 0,
        m30: 0, m31: 0, m32: 0, m33: SCALE,
    }
}

/// The rotation matrix about the z axis.
pub fn rot_z_matrix(r: &Rot) -> (m: Mat4)
    requires
        rot_wf(*r),
    ensures
        m == spec_rot_z_matrix(*r),
{
    Mat4 {
        m00: r.cos, m01: -r.sin, m02: 0, m03: 0,
        m10: r.sin, m11: r.cos, m12: 0, m13: 0,
        m20: 0, m21: 0, m22: SCALE, m23: 0,
        m30: 0, m31: 0, m32: 0, m33: SCALE,
    }
}

/// The uniform scaling matrix of factor `s`.
pub fn scale_matrix(s: i64) -> (m: Mat4)
    ensures
        m == spec_scale_matrix(s),
{
    Mat4 {
        m00: s, m01: 0, m02: 0, m03: 0,
        m10: 0, m11: s, m12: 0, m13: 0,
        m20: 0, m21: 0, m22: s, m23: 0,
        m30: 0, m31: 0, m32: 0, m33: SCALE,
    }
}

/// The fixed-point matrix product, for operands bounded by `bound_a` and
/// `bound_b`.
pub fn m4_mul(a: &Mat4, b: &Mat4, Ghost(bound_a): Ghost<int>, Ghost(bound_b): Ghost<int>) -> (r: Mat4)
    requires
        0 <= bound_a,
        0 <= bound_b,
        m4_bounded(*a, bound_a),
        m4_bounded(*b, bound_b),
        4 * bound_a * bound_b <= RESCALE_MAX as int,
    ensures
        r == spec_m4_mul(*a, *b),
        m4_bounded(r, (4 * bound_a * bound_b) / (SCALE as int)),
{
    Mat4 {
        m00: fx_dot4(a.m00, a.m01, a.m02, a.m03, b.m00, b.m10, b.m20, b.m30,
                     Ghost(bound_a), Ghost(bound_b)),
        m01: fx_dot4(a.m00, a.m01, a.m02, a.m03, b.m01, b.m11, b.m21, b.m31,
                     Ghost(bound_a), Ghost(bound_b)),
        m02: fx_dot4(a.m00, a.m01, a.m02, a.m03, b.m02, b.m12, b.m22, b.m32,
                     Ghost(bound_a), Ghost(bound_b)),
        m03: fx_dot4(a.m00, a.m01, a.m02, a.m03, b.m03, b.m13, b.m23, b.m33,
                     Ghost(bound_a), Ghost(bound_b)),
        m10: fx_dot4(a.m10, a.m11, a.m12, a.m13, b.m00, b.m10, b.m20, b.m30,
                     Ghost(bound_a), Ghost(bound_b)),
        m11: fx_dot4(a.m10, a.m11, a.m12, a.m13, b.m01, b.m11, b.m21, b.m31,
                     Ghost(bound_a), Ghost(bound_b)),
        m12: fx_dot4(a.m10, a.m11, a.m12, a.m13, b.m02, b.m12, b.m22, b.m32,
                     Ghost(bound_a), Ghost(bound_b)),
        m13: fx_dot4(a.m10, a.m11, a.m12, a.m13, b.m03, b.m13, b.m23, b.m33,
                     Ghost(bound_a), Ghost(bound_b)),
        m20: fx_dot4(a.m20, a.m21, a.m22, a.m23, b.m00, b.m10, b.m20, b.m30,
                     Ghost(bound_a), Ghost(bound_b)),
        m21: fx_dot4(a.m20, a.m21, a.m22, a.m23, b.m01, b.m11, b.m21, b.m31,
                     Ghost(bound_a), Ghost(bound_b)),
        m22: fx_dot4(a.m20, a.m21, a.m22, a.m23, b.m02, b.m12, b.m22, b.m32,
                     Ghost(bound_a), Ghost(bound_b)),
        m23: fx_dot4(a.m20, a.m21, a.m22, a.m23, b.m03, b.m13, b.m23, b.m33,
                     Ghost(bound_a), Ghost(bound_b)),
        m30: fx_dot4(a.m30, a.m31, a.m32, a.m33, b.m00, b.m10, b.m20, b.m30,
                     Ghost(bound_a), Ghost(bound_b)),
        m31: fx_dot4(a.m30, a.m31, a.m32, a.m33, b.m01, b.m11, b.m21, b.m31,
                     Ghost(bound_a), Ghost(bound_b)),
        m32: fx_dot4(a.m30, a.m31, a.m32, a.m33, b.m02, b.m12, b.m22, b.m32,
                     Ghost(bound_a), Ghost(bound_b)),
        m33: fx_dot4(a.m30, a.m31, a.m32, a.m33, b.m03, b.m13, b.m23, b.m33,
                     Ghost(bound_a), Ghost(bound_b)),
    }
}

/// The zero translation.
pub open spec fn spec_vec3_zero() -> Vec3 {
    Vec3 { x: 0, y: 0, z: 0 }
}

/// The rotation by a zero angle: sine zero, cosine one.
pub open spec fn spec_rot_identity() -> Rot {
    Rot { sin: 0, cos: SCALE }
}

/// The model-to-world matrix of an instance: the product
/// translate * rotate_x * rotate_y * rotate_z * scale, composed from the
/// right.
pub open spec fn spec_transformation_matrix(p: Vec3, rx: Rot, ry: Rot, rz: Rot, s: i64) -> Mat4 {
    spec_m4_mul(
        spec_translation_matrix(p),
        spec_m4_mul(
            spec_rot_x_matrix(rx),
            spec_m4_mul(spec_rot_y_matrix(ry), spec_m4_mul(spec_rot_z_matrix(rz), spec_scale_matrix(s))),
        ),
    )
}

/// The model-to-world matrix of an instance at `translation`, rotated
/// about the three axes and scaled uniformly by `scale`.
pub fn create_transformation_matrix(
    translation: &Vec3,
    rx: &Rot,
    ry: &Rot,
    rz: &Rot,
    scale: i64,
) -> (m: Mat4)
    requires
        vec3_wf(*translation),
        rot_wf(*rx),
        rot_wf(*ry),
        rot_wf(*rz),
        scale_factor_wf(scale),
    ensures
        m == spec_transformation_matrix(*translation, *rx, *ry, *rz, scale),
{
    let t = translation_matrix(translation);
    let mx = rot_x_matrix(rx);
    let my = rot_y_matrix(ry);
    let mz = rot_z_matrix(rz);
    let ms = scale_matrix(scale);
    let m1 = m4_mul(&mz, &ms, Ghost(SCALE as int), Ghost(SCALE_FACTOR_MAX as int));
    assert(m4_bounded(m1, 67108864));
    let m2 = m4_mul(&my, &m1, Ghost(SCALE as int), Ghost(67108864int));
    assert(m4_bounded(m2, 268435456));
    let m3 = m4_mul(&mx, &m2, Ghost(SCALE as int), Ghost(268435456int));
    assert(m4_bounded(m3, 1073741824));
    m4_mul(&t, &m3, Ghost(POS_MAX as int), Ghost(1073741824int))
}

/// The ratio of `w` to `h` as a raw fixed-point value.
pub open spec fn spec_aspect(w: int, h: int) -> int {
    (w * (SCALE as int)) / h
}

/// The first diagonal entry of the projection: the y scale divided by the
/// aspect ratio.
pub open spec fn spec_x_scale(w: int, h: int) -> int {
    ((Y_SCALE_RAW as int) * (SCALE as int)) / spec_aspect(w, h)
}

/// The perspective projection matrix for a viewport of `w` by `h`, with
/// the fixed field of view and near and far planes.
pub open spec fn spec_projection_matrix(w: int, h: int) -> Mat4 {
    Mat4 {
        m00: spec_x_scale(w, h) as i64, m01: 0, m02: 0, m03: 0,
        m10: 0, m11: Y_SCALE_RAW, m12: 0, m13: 0,
        m20: 0, m21: 0, m22: PROJ_ZZ_RAW, m23: PROJ_ZW_RAW,
        m30: 0, m31: 0, m32: ((-65536) as i64), m33: 0,
    }
}

/// The shape of a perspective projection: positive x and y scales on the
/// diagonal, a negative z row, minus one in the w row, and zeroes
/// everywhere else.
pub open spec fn is_perspective_matrix(m: Mat4) -> bool {
    &&& m.m00 > 0
    &&& m.m11 > 0
    &&& m.m22 < 0
    &&& m.m23 < 0
    &&& m.m32 == -65536
    &&& m.m33 == 0
    &&& m.m01 == 0 && m.m02 == 0 && m.m03 == 0
    &&& m.m10 == 0 && m.m12 == 0 && m.m13 == 0
    &&& m.m20 == 0 && m.m21 == 0
    &&& m.m30 == 0 && m.m31 == 0
}

/// The perspective projection matrix for a viewport of `width` by
/// `height`.
pub fn create_projection_matrix_perspective(width: i32, height: i32) -> (m: Mat4)
    requires
        0 < width <= VIEWPORT_MAX,
        0 < height <= VIEWPORT_MAX,
    ensures
        m == spec_projection_matrix(width as int, height as int),
{
    let wide: u64 = (width as u64) * 65536;
    let aspect: u64 = wide / (height as u64);
    proof {
        lemma_div_non_zero(width as int * 65536, height as int);
        lemma_div_nonincreasing(width as int * 65536, height as int);
    }
    let numer: u64 = (Y_SCALE_RAW as u64) * 65536;
    let x_scale: u64 = numer / aspect;
    proof {
        lemma_div_non_zero(numer as int, aspect as int);
        lemma_div_nonincreasing(numer as int, aspect as int);
    }
    Mat4 {
        m00: x_scale as i64, m01: 0, m02: 0, m03: 0,
        m10: 0, m11: Y_SCALE_RAW, m12: 0, m13: 0,
        m20: 0, m21: 0, m22: PROJ_ZZ_RAW, m23: PROJ_ZW_RAW,
        m30: 0, m31: 0, m32: -65536, m33: 0,
    }
}

/// Multiplying by the identity on the left returns the other factor
/// unchanged: the fixed-point rescaling is lossless on exact multiples of
/// `SCALE`.
pub proof fn lemma_m4_mul_identity_left(m: Mat4)
    ensures
        spec_m4_mul(spec_m4_identity(), m) == m,
{
    lemma_scale_down_exact(m.m00 as int);
    lemma_scale_down_exact(m.m01 as int);
    lemma_scale_down_exact(m.m02 as int);
    lemma_scale_down_exact(m.m03 as int);
    lemma_scale_down_exact(m.m10 as int);
    lemma_scale_down_exact(m.m11 as int);
    lemma_scale_down_exact(m.m12 as int);
    lemma_scale_down_exact(m.m13 as int);
    lemma_scale_down_exact(m.m20 as int);
    lemma_scale_down_exact(m.m21 as int);
    lemma_scale_down_exact(m.m22 as int);
    lemma_scale_down_exact(m.m23 as int);
    lemma_scale_down_exact(m.m30 as int);
    lemma_scale_down_exact(m.m31 as int);
    lemma_scale_down_exact(m.m32 as int);
    lemma_scale_down_exact(m.m33 as int);
}

/// Multiplying by the identity on the right returns the other factor
/// unchanged.
pub proof fn lemma_m4_mul_identity_right(m: Mat4)
    ensures
        spec_m4_mul(m, spec_m4_identity()) == m,
{
    lemma_scale_down_exact(m.m00 as int);
    lemma_scale_down_exact(m.m01 as int);
    lemma_scale_down_exact(m.m02 as int);
    lemma_scale_down_exact(m.m03 as int);
    lemma_scale_down_exact(m.m10 as int);
    lemma_scale_down_exact(m.m11 as int);
    lemma_scale_down_exact(m.m12 as int);
    lemma_scale_down_exact(m.m13 as int);
    lemma_scale_down_exact(m.m20 as int);
    lemma_scale_down_exact(m.m21 as int);
    lemma_scale_down_exact(m.m22 as int);
    lemma_scale_down_exact(m.m23 as int);
    lemma_scale_down_exact(m.m30 as int);
    lemma_scale_down_exact(m.m31 as int);
    lemma_scale_down_exact(m.m32 as int);
    lemma_scale_down_exact(m.m33 as int);
}

/// For the zero position, zero rotations about all three axes and a unit
/// scale, the transformation matrix is exactly the identity.
pub proof fn lemma_identity_transformation()
    ensures
        spec_transformation_matrix(
            spec_vec3_zero(),
            spec_rot_identity(),
            spec_rot_identity(),
            spec_rot_identity(),
            SCALE,
        ) == spec_m4_identity(),
{
    let id = spec_m4_identity();
    assert(spec_scale_matrix(SCALE) == id);
    assert(spec_rot_z_matrix(spec_rot_identity()) == id);
    assert(spec_rot_y_matrix(spec_rot_identity()) == id);
    assert(spec_rot_x_matrix(spec_rot_identity()) == id);
    assert(spec_translation_matrix(spec_vec3_zero()) == id);
    lemma_m4_mul_identity_left(id);
}

/// For a position `p` with zero rotations and a unit scale, the
/// transformation matrix is exactly the translation matrix of `p`: its
/// last column holds `p`.
pub proof fn lemma_translation_transformation(p: Vec3)
    ensures
        spec_transformation_matrix(
            p,
            spec_rot_identity(),
            spec_rot_identity(),
            spec_rot_identity(),
            SCALE,
        ) == spec_translation_matrix(p),
        spec_transformation_matrix(
            p,
            spec_rot_identity(),
            spec_rot_identity(),
            spec_rot_identity(),
            SCALE,
        ).m03 == p.x,
        spec_transformation_matrix(
            p,
            spec_rot_identity(),
            spec_rot_identity(),
            spec_rot_identity(),
            SCALE,
        ).m13 == p.y,
        spec_transformation_matrix(
            p,
            spec_rot_identity(),
            spec_rot_identity(),
            spec_rot_identity(),
            SCALE,
        ).m23 == p.z,
{
    let id = spec_m4_identity();
    assert(spec_scale_matrix(SCALE) == id);
    assert(spec_rot_z_matrix(spec_rot_identity()) == id);
    assert(spec_rot_y_matrix(spec_rot_identity()) == id);
    assert(spec_rot_x_matrix(spec_rot_identity()) == id);
    lemma_m4_mul_identity_left(id);
    lemma_m4_mul_identity_right(spec_translation_matrix(p));
}

/// The projection matrix of any accepted viewport has the shape of a
/// perspective matrix, and its first diagonal entry is the fixed y scale
/// divided by the aspect ratio, the fixed-point quotient of width by
/// height.
pub proof fn lemma_projection_is_perspective(w: int, h: int)
    requires
        0 < w <= VIEWPORT_MAX as int,
        0 < h <= VIEWPORT_MAX as int,
    ensures
        is_perspective_matrix(spec_projection_matrix(w, h)),
        spec_projection_matrix(w, h).m00 as int == ((Y_SCALE_RAW as int) * (SCALE as int))
            / spec_aspect(w, h),
        spec_aspect(w, h) == (w * (SCALE as int)) / h,
{
    lemma_div_non_zero(w * 65536, h);
    lemma_div_nonincreasing(w * 65536, h);
    assert(1 <= spec_aspect(w, h) <= 1073741824);
    lemma_div_non_zero((Y_SCALE_RAW as int) * (SCALE as int), spec_aspect(w, h));
    lemma_div_nonincreasing((Y_SCALE_RAW as int) * (SCALE as int), spec_aspect(w, h));
    assert(1 <= spec_x_scale(w, h) <= 6134366208);
}

} // verus!
