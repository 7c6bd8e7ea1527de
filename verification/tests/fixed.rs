use standing::fixed::{identity, mat_mul, neg3, nonuniform_scale, translation, Vec3, FP_ONE};

#[test]
fn translation_times_its_negation_is_identity() {
    let v = Vec3 { x: 3 * FP_ONE, y: -7 * FP_ONE + 5, z: 12345 };
    let t = translation(&v);
    let t_inv = translation(&neg3(&v));
    assert_eq!(mat_mul(&t, &t_inv), identity());
    assert_eq!(mat_mul(&t_inv, &t), identity());
}

#[test]
fn translation_after_scale_keeps_both() {
    let pos = Vec3 { x: 2 * FP_ONE, y: -FP_ONE, z: FP_ONE / 4 };
    let scale = Vec3 { x: 2 * FP_ONE, y: FP_ONE / 2, z: FP_ONE };
    let model = mat_mul(&translation(&pos), &nonuniform_scale(&scale));
    // Diagonal carries the scale, last column the translation.
    assert_eq!(model.m00, 2 * FP_ONE);
    assert_eq!(model.m11, FP_ONE / 2);
    assert_eq!(model.m22, FP_ONE);
    assert_eq!(model.m33, FP_ONE);
    assert_eq!(model.m03, 2 * FP_ONE);
    assert_eq!(model.m13, -FP_ONE);
    assert_eq!(model.m23, FP_ONE / 4);
    assert_eq!(model.m01, 0);
    assert_eq!(model.m30, 0);
}

#[test]
fn composing_translations_adds_vectors() {
    let a = Vec3 { x: FP_ONE, y: 2 * FP_ONE, z: 0 };
    let b = Vec3 { x: 5 * FP_ONE, y: -FP_ONE, z: 3 * FP_ONE };
    let sum = Vec3 { x: 6 * FP_ONE, y: FP_ONE, z: 3 * FP_ONE };
    let left = mat_mul(&translation(&a), &translation(&b));
    assert_eq!(left, translation(&sum));
}

#[test]
fn scaling_by_one_is_identity() {
    let one = Vec3 { x: FP_ONE, y: FP_ONE, z: FP_ONE };
    assert_eq!(nonuniform_scale(&one), identity());
}
