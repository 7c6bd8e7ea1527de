use standing::app_config::{AppConfig, RawConfig, RawStringConfig};
use standing::fixed::{identity, mat_mul, neg3, translation, Vec3, FP_ONE};
use standing::scene::{compose_frame, compose_locals};

fn raw_with_two_strings() -> RawConfig {
    RawConfig {
        num_components: Some(100),
        temporal_freq_uhz: Some(200_000),
        spatial_freq_per_unit: Some(3 * FP_ONE / 2),
        amplitude: Some(FP_ONE),
        component_pqs: Some(vec![
            vec![0, 0],
            vec![FP_ONE, 0],
            vec![FP_ONE, FP_ONE],
            vec![0, FP_ONE],
        ]),
        pv: Some(vec![0, FP_ONE / 5, 0]),
        qv: Some(vec![0, 0, -5 * FP_ONE / 2]),
        clear_colour: Some(vec![6554, 6554, 19661, FP_ONE]),
        strings: Some(vec![
            RawStringConfig {
                colour: Some(vec![FP_ONE, FP_ONE, 0, FP_ONE]),
                pos: Some(vec![0, 0, 0]),
                scale: Some(vec![2 * FP_ONE, FP_ONE / 5, FP_ONE]),
            },
            RawStringConfig {
                colour: Some(vec![0, FP_ONE, FP_ONE, FP_ONE]),
                pos: Some(vec![FP_ONE, 2 * FP_ONE, 3 * FP_ONE]),
                scale: Some(vec![FP_ONE, FP_ONE, FP_ONE]),
            },
        ]),
        light_pos: Some(vec![-10 * FP_ONE, 10 * FP_ONE, 20 * FP_ONE]),
        camera_pos: Some(vec![0, 3 * FP_ONE / 20, 10 * FP_ONE]),
        camera_fov_deg: Some(15 * FP_ONE),
        camera_near: Some(FP_ONE),
        camera_far: Some(20 * FP_ONE),
        report_interval_ns: Some(1_000_000_000),
    }
}

#[test]
fn frame_has_one_block_per_string_in_order() {
    let config = AppConfig::new(raw_with_two_strings()).unwrap();
    let projection = identity();
    let blocks = compose_frame(&config, &projection, 42);
    assert_eq!(blocks.len(), 2);
    assert_eq!(blocks[0].colour, config.strings[0].string_colour);
    assert_eq!(blocks[1].colour, config.strings[1].string_colour);
    // Shared per-frame values reach every block unchanged.
    for b in &blocks {
        assert_eq!(b.phase, 42);
        assert_eq!(b.freq, 3 * FP_ONE / 2);
        assert_eq!(b.ampl, FP_ONE);
        assert_eq!(b.pv, config.pv);
        assert_eq!(b.qv, config.qv);
        assert_eq!(b.light, config.light_source_location);
        assert_eq!(b.view, blocks[0].view);
    }
}

#[test]
fn view_is_projection_times_inverse_camera_translation() {
    let config = AppConfig::new(raw_with_two_strings()).unwrap();
    let projection = identity();
    let blocks = compose_frame(&config, &projection, 0);
    let expected = mat_mul(&projection, &translation(&neg3(&config.camera_pos)));
    assert_eq!(blocks[0].view, expected);
    // With the identity projection, the view undoes the camera placement.
    assert_eq!(
        mat_mul(&translation(&config.camera_pos), &blocks[0].view),
        identity()
    );
}

#[test]
fn model_carries_scale_and_translation() {
    let config = AppConfig::new(raw_with_two_strings()).unwrap();
    let blocks = compose_frame(&config, &identity(), 0);
    let m = &blocks[1].model;
    assert_eq!(m.m03, FP_ONE);
    assert_eq!(m.m13, 2 * FP_ONE);
    assert_eq!(m.m23, 3 * FP_ONE);
    assert_eq!(m.m00, FP_ONE);
    assert_eq!(m.m11, FP_ONE);
    assert_eq!(m.m22, FP_ONE);
}

#[test]
fn camera_shift_equals_scene_translation() {
    // Composing with a camera moved by whole units equals composing with
    // the old camera and translating the scene the other way.
    let config = AppConfig::new(raw_with_two_strings()).unwrap();
    let projection = identity();
    let v = Vec3 { x: 2 * FP_ONE, y: -FP_ONE, z: 5 * FP_ONE };
    let moved = Vec3 {
        x: config.camera_pos.x + v.x,
        y: config.camera_pos.y + v.y,
        z: config.camera_pos.z + v.z,
    };
    let s = compose_locals(
        &projection,
        &moved,
        &config.strings[0],
        &config.pv,
        &config.qv,
        &config.light_source_location,
        0,
        config.spatial_freq_per_unit,
        config.amplitude,
    );
    let base = compose_locals(
        &projection,
        &config.camera_pos,
        &config.strings[0],
        &config.pv,
        &config.qv,
        &config.light_source_location,
        0,
        config.spatial_freq_per_unit,
        config.amplitude,
    );
    assert_eq!(s.view, mat_mul(&base.view, &translation(&neg3(&v))));
}
