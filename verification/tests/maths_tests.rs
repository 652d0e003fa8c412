use entity_renderer::SCALE;
use entity_renderer::fixed::fx_mul;
use entity_renderer::maths::Mat4;
use entity_renderer::maths::Rot;
use entity_renderer::maths::Vec3;
use entity_renderer::maths::create_projection_matrix_perspective;
use entity_renderer::maths::create_transformation_matrix;
use entity_renderer::maths::mat4_identity;
use entity_renderer::maths::translation_matrix;

fn rot_zero() -> Rot {
    Rot { sin: 0, cos: SCALE }
}

#[test]
fn fx_mul_is_exact_on_whole_units() {
    assert_eq!(fx_mul(3 * SCALE, 2 * SCALE), 6 * SCALE);
    assert_eq!(fx_mul(-3 * SCALE, 2 * SCALE), -6 * SCALE);
    assert_eq!(fx_mul(SCALE / 2, SCALE / 2), SCALE / 4);
}

#[test]
fn fx_mul_rounds_toward_zero() {
    assert_eq!(fx_mul(1, 1), 0);
    assert_eq!(fx_mul(-1, 1), 0);
    assert_eq!(fx_mul(SCALE + 1, 1), 1);
    assert_eq!(fx_mul(-(SCALE + 1), 1), -1);
}

#[test]
fn identity_pose_gives_identity_matrix() {
    let p = Vec3 { x: 0, y: 0, z: 0 };
    let m = create_transformation_matrix(&p, &rot_zero(), &rot_zero(), &rot_zero(), SCALE);
    assert_eq!(m, mat4_identity());
}

#[test]
fn translation_column_holds_the_position() {
    let p = Vec3 { x: 2 * SCALE, y: -3 * SCALE, z: SCALE / 2 };
    let m = create_transformation_matrix(&p, &rot_zero(), &rot_zero(), &rot_zero(), SCALE);
    assert_eq!(m, translation_matrix(&p));
    assert_eq!(m.m03, 2 * SCALE);
    assert_eq!(m.m13, -3 * SCALE);
    assert_eq!(m.m23, SCALE / 2);
}

#[test]
fn quarter_turn_about_z() {
    let p = Vec3 { x: 0, y: 0, z: 0 };
    let quarter = Rot { sin: SCALE, cos: 0 };
    let m = create_transformation_matrix(&p, &rot_zero(), &rot_zero(), &quarter, SCALE);
    let expected = Mat4 {
        m00: 0, m01: -SCALE, m02: 0, m03: 0,
        m10: SCALE, m11: 0, m12: 0, m13: 0,
        m20: 0, m21: 0, m22: SCALE, m23: 0,
        m30: 0, m31: 0, m32: 0, m33: SCALE,
    };
    assert_eq!(m, expected);
}

#[test]
fn uniform_scaling_fills_the_diagonal() {
    let p = Vec3 { x: 0, y: 0, z: 0 };
    let m = create_transformation_matrix(&p, &rot_zero(), &rot_zero(), &rot_zero(), 2 * SCALE);
    assert_eq!(m.m00, 2 * SCALE);
    assert_eq!(m.m11, 2 * SCALE);
    assert_eq!(m.m22, 2 * SCALE);
    assert_eq!(m.m33, SCALE);
    assert_eq!(m.m03, 0);
}

#[test]
fn scaled_translation_combines_both() {
    let p = Vec3 { x: 5 * SCALE, y: 0, z: -SCALE };
    let m = create_transformation_matrix(&p, &rot_zero(), &rot_zero(), &rot_zero(), 3 * SCALE);
    assert_eq!(m.m00, 3 * SCALE);
    assert_eq!(m.m11, 3 * SCALE);
    assert_eq!(m.m22, 3 * SCALE);
    assert_eq!(m.m03, 5 * SCALE);
    assert_eq!(m.m13, 0);
    assert_eq!(m.m23, -SCALE);
    assert_eq!(m.m33, SCALE);
}

#[test]
fn projection_exact_entries_for_800_by_600() {
    let m = create_projection_matrix_perspective(800, 600);
    // aspect = 800 * 65536 / 600 = 87381; x scale = 93603 * 65536 / 87381.
    assert_eq!(m.m00, 70202);
    assert_eq!(m.m11, 93603);
    assert_eq!(m.m22, -65549);
    assert_eq!(m.m23, -13108);
    assert_eq!(m.m32, -65536);
    assert_eq!(m.m33, 0);
}

#[test]
fn projection_square_viewport_has_equal_scales() {
    let m = create_projection_matrix_perspective(800, 800);
    assert_eq!(m.m00, m.m11);
    assert_eq!(m.m00, 93603);
}

#[test]
fn projection_has_perspective_shape() {
    let m = create_projection_matrix_perspective(1280, 720);
    assert!(m.m00 > 0);
    assert!(m.m11 > 0);
    assert!(m.m22 < 0);
    assert!(m.m23 < 0);
    assert_eq!(m.m32, -65536);
    assert_eq!(m.m33, 0);
    assert_eq!(
        (m.m01, m.m02, m.m03, m.m10, m.m12, m.m13, m.m20, m.m21, m.m30, m.m31),
        (0, 0, 0, 0, 0, 0, 0, 0, 0, 0)
    );
}
