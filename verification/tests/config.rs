use standing::app_config::{
    AppConfig, ConfigField, ConfigIssue, IssueKind, RawConfig, RawStringConfig,
};
use standing::fixed::FP_ONE;

fn good_raw() -> RawConfig {
    RawConfig {
        num_components: Some(100),
        temporal_freq_uhz: Some(200_000),
        spatial_freq_per_unit: Some(3 * FP_ONE / 2),
        amplitude: Some(FP_ONE),
        component_pqs: Some(vec![
            vec![0, 0],
            vec![FP_ONE, 0],
            vec![FP_ONE, FP_ONE],
            vec![0, FP_ONE],
        ]),
        pv: Some(vec![0, FP_ONE / 5, 0]),
        qv: Some(vec![0, 0, -5 * FP_ONE / 2]),
        clear_colour: Some(vec![6554, 6554, 19661, FP_ONE]),
        strings: Some(vec![RawStringConfig {
            colour: Some(vec![FP_ONE, FP_ONE, 0, FP_ONE]),
            pos: Some(vec![0, 0, 0]),
            scale: Some(vec![2 * FP_ONE, FP_ONE / 5, FP_ONE]),
        }]),
        light_pos: Some(vec![-10 * FP_ONE, 10 * FP_ONE, 20 * FP_ONE]),
        camera_pos: Some(vec![0, 3 * FP_ONE / 20, 10 * FP_ONE]),
        camera_fov_deg: Some(15 * FP_ONE),
        camera_near: Some(FP_ONE),
        camera_far: Some(20 * FP_ONE),
        report_interval_ns: Some(1_000_000_000),
    }
}

#[test]
fn well_formed_document_round_trips() {
    let c = AppConfig::new(good_raw()).unwrap();
    assert_eq!(c.num_components, 100);
    assert_eq!(c.temporal_freq_uhz, 200_000);
    assert_eq!(c.spatial_freq_per_unit, 3 * FP_ONE / 2);
    assert_eq!(c.amplitude, FP_ONE);
    assert_eq!(c.component_pqs, vec![
        (0, 0),
        (FP_ONE, 0),
        (FP_ONE, FP_ONE),
        (0, FP_ONE),
    ]);
    assert_eq!((c.pv.x, c.pv.y, c.pv.z), (0, FP_ONE / 5, 0));
    assert_eq!((c.qv.x, c.qv.y, c.qv.z), (0, 0, -5 * FP_ONE / 2));
    assert_eq!(c.clear_colour.b, 19661);
    assert_eq!(c.strings.len(), 1);
    assert_eq!(c.strings[0].string_colour.r, FP_ONE);
    assert_eq!(c.strings[0].string_scale.y, FP_ONE / 5);
    assert_eq!(c.light_source_location.x, -10 * FP_ONE);
    assert_eq!(c.camera_pos.z, 10 * FP_ONE);
    assert_eq!(c.camera_fov_deg, 15 * FP_ONE);
    assert_eq!(c.camera_near, FP_ONE);
    assert_eq!(c.camera_far, 20 * FP_ONE);
    assert_eq!(c.report_interval_ns, 1_000_000_000);
}

fn one(field: ConfigField, kind: IssueKind) -> Vec<ConfigIssue> {
    vec![ConfigIssue { field, kind }]
}

#[test]
fn missing_field_is_reported() {
    let mut raw = good_raw();
    raw.temporal_freq_uhz = None;
    let e = AppConfig::new(raw).unwrap_err();
    assert_eq!(e, one(ConfigField::TemporalFreq, IssueKind::Missing));
}

#[test]
fn wrong_arity_is_reported() {
    let mut raw = good_raw();
    raw.pv = Some(vec![1, 2]);
    let e = AppConfig::new(raw).unwrap_err();
    assert_eq!(e, one(ConfigField::Pv, IssueKind::WrongArity));
}

#[test]
fn polygon_pair_arity_is_reported() {
    let mut raw = good_raw();
    raw.component_pqs = Some(vec![vec![0, 0], vec![1, 2, 3], vec![4, 5]]);
    let e = AppConfig::new(raw).unwrap_err();
    assert_eq!(e, one(ConfigField::ComponentPqs, IssueKind::WrongArity));
}

#[test]
fn too_small_polygon_is_reported() {
    let mut raw = good_raw();
    raw.component_pqs = Some(vec![vec![0, 0], vec![1, 1]]);
    let e = AppConfig::new(raw).unwrap_err();
    assert_eq!(e, one(ConfigField::ComponentPqs, IssueKind::TooFew));
}

#[test]
fn empty_string_list_is_reported() {
    let mut raw = good_raw();
    raw.strings = Some(vec![]);
    let e = AppConfig::new(raw).unwrap_err();
    assert_eq!(e, one(ConfigField::Strings, IssueKind::TooFew));
}

#[test]
fn out_of_range_camera_is_reported() {
    let mut raw = good_raw();
    raw.camera_pos = Some(vec![0, 0, i64::MAX]);
    let e = AppConfig::new(raw).unwrap_err();
    assert_eq!(e, one(ConfigField::CameraPos, IssueKind::OutOfRange));
}

#[test]
fn out_of_range_segment_count_is_reported() {
    let mut raw = good_raw();
    raw.num_components = Some(0);
    let e = AppConfig::new(raw).unwrap_err();
    assert_eq!(e, one(ConfigField::NumComponents, IssueKind::OutOfRange));
}

#[test]
fn non_positive_near_is_reported() {
    let mut raw = good_raw();
    raw.camera_near = Some(0);
    let e = AppConfig::new(raw).unwrap_err();
    assert_eq!(e, one(ConfigField::CameraNear, IssueKind::NotPositive));
}

#[test]
fn near_not_below_far_is_reported() {
    let mut raw = good_raw();
    raw.camera_near = Some(20 * FP_ONE);
    raw.camera_far = Some(20 * FP_ONE);
    let e = AppConfig::new(raw).unwrap_err();
    assert_eq!(e, one(ConfigField::CameraFar, IssueKind::NearNotBelowFar));
}

#[test]
fn bad_string_entry_is_reported() {
    let mut raw = good_raw();
    raw.strings = Some(vec![
        RawStringConfig {
            colour: Some(vec![FP_ONE, FP_ONE, 0, FP_ONE]),
            pos: Some(vec![0, 0, 0]),
            scale: Some(vec![2 * FP_ONE, FP_ONE / 5, FP_ONE]),
        },
        RawStringConfig {
            colour: Some(vec![1, 2, 3]),
            pos: None,
            scale: Some(vec![FP_ONE, FP_ONE, FP_ONE]),
        },
    ]);
    let e = AppConfig::new(raw).unwrap_err();
    assert_eq!(
        e,
        vec![
            ConfigIssue { field: ConfigField::StringColour, kind: IssueKind::WrongArity },
            ConfigIssue { field: ConfigField::StringPos, kind: IssueKind::Missing },
        ]
    );
}

#[test]
fn string_entry_round_trips() {
    let sc = standing::app_config::StringConfig::new(&RawStringConfig {
        colour: Some(vec![FP_ONE, 0, FP_ONE, FP_ONE]),
        pos: Some(vec![1, 2, 3]),
        scale: Some(vec![-4, 5, 6]),
    })
    .unwrap();
    assert_eq!(sc.string_colour.g, 0);
    assert_eq!((sc.string_pos_1.x, sc.string_pos_1.y, sc.string_pos_1.z), (1, 2, 3));
    assert_eq!((sc.string_scale.x, sc.string_scale.y, sc.string_scale.z), (-4, 5, 6));
}

#[test]
fn string_entry_reports_each_field() {
    let e = standing::app_config::StringConfig::new(&RawStringConfig {
        colour: None,
        pos: Some(vec![1, 2]),
        scale: Some(vec![0, 0, i64::MIN]),
    })
    .unwrap_err();
    assert_eq!(
        e,
        vec![
            ConfigIssue { field: ConfigField::StringColour, kind: IssueKind::Missing },
            ConfigIssue { field: ConfigField::StringPos, kind: IssueKind::WrongArity },
            ConfigIssue { field: ConfigField::StringScale, kind: IssueKind::OutOfRange },
        ]
    );
}

#[test]
fn all_problems_are_collected_in_field_order() {
    let mut raw = good_raw();
    raw.num_components = None;
    raw.qv = Some(vec![1]);
    raw.camera_far = Some(-1);
    let e = AppConfig::new(raw).unwrap_err();
    assert_eq!(
        e,
        vec![
            ConfigIssue { field: ConfigField::NumComponents, kind: IssueKind::Missing },
            ConfigIssue { field: ConfigField::Qv, kind: IssueKind::WrongArity },
            ConfigIssue { field: ConfigField::CameraFar, kind: IssueKind::NotPositive },
            ConfigIssue { field: ConfigField::CameraFar, kind: IssueKind::NearNotBelowFar },
        ]
    );
}
