//! Scene configuration: a validated, immutable model of the external
//! configuration document.
//!
//! The shell reads the document and hands over a [`RawConfig`]: every
//! field still optional, every vector still an untyped list, every number
//! already converted to the library's fixed-point or integer units.
//! [`AppConfig::new`] checks presence, arity and range of every field and
//! either returns the model or the complete list of problems found — it
//! does not stop at the first.

use vstd::prelude::*;
use crate::fixed::{vec3_in_range, Rgba, Vec3, FP_BOUND};

verus! {

/// Which configuration field an issue is about.
#[derive(Clone, Copy, Debug, PartialEq, Eq, Structural)]
pub enum ConfigField {
    NumComponents,
    TemporalFreq,
    SpatialFreq,
    Amplitude,
    ComponentPqs,
    Pv,
    Qv,
    ClearColour,
    Strings,
    StringColour,
    StringPos,
    StringScale,
    LightPos,
    CameraPos,
    CameraFov,
    CameraNear,
    CameraFar,
    ReportInterval,
}

/// What is wrong with the field.
#[derive(Clone, Copy, Debug, PartialEq, Eq, Structural)]
pub enum IssueKind {
    /// The field is absent.
    Missing,
    /// A vector has the wrong number of components.
    WrongArity,
    /// A value lies outside the fixed-point working range.
    OutOfRange,
    /// A list has fewer entries than the model needs.
    TooFew,
    /// A value that must be strictly positive is not.
    NotPositive,
    /// The near plane does not lie strictly before the far plane.
    NearNotBelowFar,
}

/// One problem found in the configuration document.
#[derive(Clone, Copy, Debug, PartialEq, Eq, Structural)]
pub struct ConfigIssue {
    pub field: ConfigField,
    pub kind: IssueKind,
}

/// One string entry as read from the document, nothing checked yet.
pub struct RawStringConfig {
    /// RGBA colour, expected arity 4.
    pub colour: Option<Vec<i64>>,
    /// World position, expected arity 3.
    pub pos: Option<Vec<i64>>,
    /// Non-uniform scale, expected arity 3.
    pub scale: Option<Vec<i64>>,
}

/// The whole document as read, nothing checked yet.  Scalars that were
/// floating-point in the document arrive in fixed-point units
/// ([`crate::fixed::FP_ONE`] per 1.0); the temporal frequency arrives in
/// microhertz and the report interval in nanoseconds.
pub struct RawConfig {
    pub num_components: Option<i64>,
    pub temporal_freq_uhz: Option<i64>,
    pub spatial_freq_per_unit: Option<i64>,
    pub amplitude: Option<i64>,
    pub component_pqs: Option<Vec<Vec<i64>>>,
    pub pv: Option<Vec<i64>>,
    pub qv: Option<Vec<i64>>,
    pub clear_colour: Option<Vec<i64>>,
    pub strings: Option<Vec<RawStringConfig>>,
    pub light_pos: Option<Vec<i64>>,
    pub camera_pos: Option<Vec<i64>>,
    pub camera_fov_deg: Option<i64>,
    pub camera_near: Option<i64>,
    pub camera_far: Option<i64>,
    pub report_interval_ns: Option<i64>,
}

/// One rendered string: its colour, placement and scale.  A scale with a
/// zero component is allowed: it silently collapses the ribbon (a
/// degenerate case, not an error).
#[derive(Debug)]
pub struct StringConfig {
    /// String colour.
    pub string_colour: Rgba,
    /// String position (translation of the local origin into world space).
    pub string_pos_1: Vec3,
    /// String scale (non-uniform, applied before the translation).
    pub string_scale: Vec3,
}

/// The validated configuration model, immutable for the process lifetime.
#[derive(Debug)]
pub struct AppConfig {
    /// Number of segments in the string.
    pub num_components: usize,
    /// Cross-section polygon of the string, as (p, q) pairs.
    pub component_pqs: Vec<(i64, i64)>,
    /// P vector for the cross-section.
    pub pv: Vec3,
    /// Q vector for the cross-section.
    pub qv: Vec3,
    /// Background colour.
    pub clear_colour: Rgba,
    /// The rendered strings, at least one.
    pub strings: Vec<StringConfig>,
    /// Light source location (sets the direction only: from here toward the origin).
    pub light_source_location: Vec3,
    /// Location of the (perspective) camera.
    pub camera_pos: Vec3,
    /// Field of view of the camera, fixed-point degrees.
    pub camera_fov_deg: i64,
    /// Camera near plane distance, fixed-point.
    pub camera_near: i64,
    /// Camera far plane distance, fixed-point.
    pub camera_far: i64,
    /// Temporal frequency, microhertz (negative runs the wave backwards).
    pub temporal_freq_uhz: i64,
    /// Spatial frequency, fixed-point waves per unit.
    pub spatial_freq_per_unit: i64,
    /// Wave amplitude before the model transformation, fixed-point.
    pub amplitude: i64,
    /// Interval between console FPS reports, nanoseconds.
    pub report_interval_ns: i64,
}

pub open spec fn issue(f: ConfigField, k: IssueKind) -> ConfigIssue {
    ConfigIssue { field: f, kind: k }
}

/// Issues of a scalar that only needs to be present.
pub open spec fn scalar_issues(f: ConfigField, o: Option<i64>) -> Seq<ConfigIssue> {
    match o {
        Option::None => seq![issue(f, IssueKind::Missing)],
        Option::Some(v) => Seq::empty(),
    }
}

/// Issues of a scalar that must be present and strictly positive.
pub open spec fn positive_issues(f: ConfigField, o: Option<i64>) -> Seq<ConfigIssue> {
    match o {
        Option::None => seq![issue(f, IssueKind::Missing)],
        Option::Some(v) => if v > 0 {
            Seq::empty()
        } else {
            seq![issue(f, IssueKind::NotPositive)]
        },
    }
}

/// Issues of the segment count: present and within the working range.
pub open spec fn count_issues(o: Option<i64>) -> Seq<ConfigIssue> {
    match o {
        Option::None => seq![issue(ConfigField::NumComponents, IssueKind::Missing)],
        Option::Some(v) => if 1 <= v <= FP_BOUND {
            Seq::empty()
        } else {
            seq![issue(ConfigField::NumComponents, IssueKind::OutOfRange)]
        },
    }
}

/// Issues of a plain 3-vector field.
pub open spec fn vec3_issues(f: ConfigField, o: Option<Vec<i64>>) -> Seq<ConfigIssue> {
    match o {
        Option::None => seq![issue(f, IssueKind::Missing)],
        Option::Some(v) => if v@.len() == 3 {
            Seq::empty()
        } else {
            seq![issue(f, IssueKind::WrongArity)]
        },
    }
}

/// Issues of a 3-vector field whose components enter matrix products and
/// must therefore stay within the fixed-point working range.
pub open spec fn vec3_bounded_issues(f: ConfigField, o: Option<Vec<i64>>) -> Seq<ConfigIssue> {
    match o {
        Option::None => seq![issue(f, IssueKind::Missing)],
        Option::Some(v) => if v@.len() != 3 {
            seq![issue(f, IssueKind::WrongArity)]
        } else if -FP_BOUND <= v@[0] <= FP_BOUND && -FP_BOUND <= v@[1] <= FP_BOUND && -FP_BOUND
            <= v@[2] <= FP_BOUND {
            Seq::empty()
        } else {
            seq![issue(f, IssueKind::OutOfRange)]
        },
    }
}

/// Issues of a 4-vector (colour) field.
pub open spec fn vec4_issues(f: ConfigField, o: Option<Vec<i64>>) -> Seq<ConfigIssue> {
    match o {
        Option::None => seq![issue(f, IssueKind::Missing)],
        Option::Some(v) => if v@.len() == 4 {
            Seq::empty()
        } else {
            seq![issue(f, IssueKind::WrongArity)]
        },
    }
}

/// Issues of the cross-section polygon: present, at least a triangle,
/// every entry a pair.
pub open spec fn pqs_issues(o: Option<Vec<Vec<i64>>>) -> Seq<ConfigIssue> {
    match o {
        Option::None => seq![issue(ConfigField::ComponentPqs, IssueKind::Missing)],
        Option::Some(l) => (if l@.len() >= 3 {
            Seq::empty()
        } else {
            seq![issue(ConfigField::ComponentPqs, IssueKind::TooFew)]
        }) + (if exists|j: int| 0 <= j < l@.len() && (#[trigger] l@[j])@.len() != 2 {
            seq![issue(ConfigField::ComponentPqs, IssueKind::WrongArity)]
        } else {
            Seq::empty()
        }),
    }
}

/// Issues of one string entry, in field order.
pub open spec fn string_issues(s: RawStringConfig) -> Seq<ConfigIssue> {
    vec4_issues(ConfigField::StringColour, s.colour) + vec3_bounded_issues(
        ConfigField::StringPos,
        s.pos,
    ) + vec3_bounded_issues(ConfigField::StringScale, s.scale)
}

/// Issues of the first `j` string entries.
pub open spec fn strings_issues_upto(ss: Seq<RawStringConfig>, j: int) -> Seq<ConfigIssue>
    decreases j,
{
    if j <= 0 {
        Seq::empty()
    } else {
        strings_issues_upto(ss, j - 1) + string_issues(ss[j - 1])
    }
}

/// Issues of the string list: present, at least one entry, each entry valid.
pub open spec fn strings_area_issues(o: Option<Vec<RawStringConfig>>) -> Seq<ConfigIssue> {
    match o {
        Option::None => seq![issue(ConfigField::Strings, IssueKind::Missing)],
        Option::Some(ss) => (if ss@.len() >= 1 {
            Seq::empty()
        } else {
            seq![issue(ConfigField::Strings, IssueKind::TooFew)]
        }) + strings_issues_upto(ss@, ss@.len() as int),
    }
}

/// Issue of the near/far ordering, checked once both are present.
pub open spec fn nearfar_issues(near: Option<i64>, far: Option<i64>) -> Seq<ConfigIssue> {
    match (near, far) {
        (Option::Some(n), Option::Some(f)) => if n < f {
            Seq::empty()
        } else {
            seq![issue(ConfigField::CameraFar, IssueKind::NearNotBelowFar)]
        },
        _ => Seq::empty(),
    }
}

/// Every problem of the document, in the order the fields are declared,
/// strings expanded entry by entry.
pub open spec fn issues_of(raw: RawConfig) -> Seq<ConfigIssue> {
    count_issues(raw.num_components) + scalar_issues(
        ConfigField::TemporalFreq,
        raw.temporal_freq_uhz,
    ) + scalar_issues(ConfigField::SpatialFreq, raw.spatial_freq_per_unit) + scalar_issues(
        ConfigField::Amplitude,
        raw.amplitude,
    ) + pqs_issues(raw.component_pqs) + vec3_issues(ConfigField::Pv, raw.pv) + vec3_issues(
        ConfigField::Qv,
        raw.qv,
    ) + vec4_issues(ConfigField::ClearColour, raw.clear_colour) + strings_area_issues(raw.strings)
        + vec3_issues(ConfigField::LightPos, raw.light_pos) + vec3_bounded_issues(
        ConfigField::CameraPos,
        raw.camera_pos,
    ) + positive_issues(ConfigField::CameraFov, raw.camera_fov_deg) + positive_issues(
        ConfigField::CameraNear,
        raw.camera_near,
    ) + positive_issues(ConfigField::CameraFar, raw.camera_far) + nearfar_issues(
        raw.camera_near,
        raw.camera_far,
    ) + positive_issues(ConfigField::ReportInterval, raw.report_interval_ns)
}

/// If the collected issues of the first `j` strings are none, each
/// single string is free of issues.
proof fn lemma_strings_all_empty(ss: Seq<RawStringConfig>, j: int)
    requires
        strings_issues_upto(ss, j).len() == 0,
    ensures
        forall|m: int| 0 <= m < j ==> string_issues(#[trigger] ss[m]).len() == 0,
    decreases j,
{
    if j > 0 {
        lemma_strings_all_empty(ss, j - 1);
    }
}

/// The 3-vector a length-3 list denotes.
pub open spec fn vec3_of(v: Vec<i64>) -> Vec3 {
    Vec3 { x: v@[0], y: v@[1], z: v@[2] }
}

/// The colour a length-4 list denotes.
pub open spec fn rgba_of(v: Vec<i64>) -> Rgba {
    Rgba { r: v@[0], g: v@[1], b: v@[2], a: v@[3] }
}

/// The (p, q) pair a length-2 list denotes.
pub open spec fn pair_of(v: Vec<i64>) -> (i64, i64) {
    (v@[0], v@[1])
}

/// The built string faithfully mirrors the raw entry.
pub open spec fn string_ok(rs: RawStringConfig, sc: StringConfig) -> bool {
    &&& match rs.colour {
        Option::Some(v) => sc.string_colour == rgba_of(v),
        Option::None => false,
    }
    &&& match rs.pos {
        Option::Some(v) => sc.string_pos_1 == vec3_of(v),
        Option::None => false,
    }
    &&& match rs.scale {
        Option::Some(v) => sc.string_scale == vec3_of(v),
        Option::None => false,
    }
}

/// The built model faithfully mirrors the raw document: every numeric
/// field carries exactly the value that was read.
pub open spec fn config_ok(raw: RawConfig, c: AppConfig) -> bool {
    &&& match raw.num_components {
        Option::Some(v) => c.num_components == v as usize,
        Option::None => false,
    }
    &&& match raw.temporal_freq_uhz {
        Option::Some(v) => c.temporal_freq_uhz == v,
        Option::None => false,
    }
    &&& match raw.spatial_freq_per_unit {
        Option::Some(v) => c.spatial_freq_per_unit == v,
        Option::None => false,
    }
    &&& match raw.amplitude {
        Option::Some(v) => c.amplitude == v,
        Option::None => false,
    }
    &&& match raw.component_pqs {
        Option::Some(l) => c.component_pqs@.len() == l@.len() && (forall|j: int|
            0 <= j < l@.len() ==> c.component_pqs@[j] == pair_of(#[trigger] l@[j])),
        Option::None => false,
    }
    &&& match raw.pv {
        Option::Some(v) => c.pv == vec3_of(v),
        Option::None => false,
    }
    &&& match raw.qv {
        Option::Some(v) => c.qv == vec3_of(v),
        Option::None => false,
    }
    &&& match raw.clear_colour {
        Option::Some(v) => c.clear_colour == rgba_of(v),
        Option::None => false,
    }
    &&& match raw.strings {
        Option::Some(ss) => c.strings@.len() == ss@.len() && (forall|j: int|
            0 <= j < ss@.len() ==> string_ok(#[trigger] ss@[j], c.strings@[j])),
        Option::None => false,
    }
    &&& match raw.light_pos {
        Option::Some(v) => c.light_source_location == vec3_of(v),
        Option::None => false,
    }
    &&& match raw.camera_pos {
        Option::Some(v) => c.camera_pos == vec3_of(v),
        Option::None => false,
    }
    &&& match raw.camera_fov_deg {
        Option::Some(v) => c.camera_fov_deg == v,
        Option::None => false,
    }
    &&& match raw.camera_near {
        Option::Some(v) => c.camera_near == v,
        Option::None => false,
    }
    &&& match raw.camera_far {
        Option::Some(v) => c.camera_far == v,
        Option::None => false,
    }
    &&& match raw.report_interval_ns {
        Option::Some(v) => c.report_interval_ns == v,
        Option::None => false,
    }
}

impl AppConfig {
    /// The invariants validation establishes: sizes, positivity, plane
    /// order, and every value that enters matrix arithmetic in range.
    pub open spec fn wf(self) -> bool {
        &&& 1 <= self.num_components <= FP_BOUND
        &&& 3 <= self.component_pqs@.len()
        &&& 1 <= self.strings@.len()
        &&& vec3_in_range(self.camera_pos@)
        &&& forall|j: int|
            0 <= j < self.strings@.len() ==> vec3_in_range(
                (#[trigger] self.strings@[j]).string_pos_1@,
            ) && vec3_in_range(self.strings@[j].string_scale@)
        &&& 0 < self.camera_fov_deg
        &&& 0 < self.camera_near < self.camera_far
        &&& 0 < self.report_interval_ns
    }
}

/// Read a (p, q) pair out of a list, or report that the arity is wrong.
pub fn get_vec2(v: &Vec<i64>) -> (r: Option<(i64, i64)>)
    ensures
        match r {
            Some(p) => v@.len() == 2 && p == pair_of(*v),
            None => v@.len() != 2,
        },
{
    if v.len() == 2 {
        Some((v[0], v[1]))
    } else {
        None
    }
}

/// Read a 3-vector field: the value (or a zero default) and its issues.
pub fn get_vec3(field: ConfigField, o: &Option<Vec<i64>>) -> (r: (Vec3, Vec<ConfigIssue>))
    ensures
        r.1@ == vec3_issues(field, *o),
        r.1@.len() == 0 ==> match *o {
            Option::Some(v) => r.0 == vec3_of(v),
            Option::None => false,
        },
{
    match o {
        Option::Some(v) => {
            if v.len() == 3 {
                (Vec3 { x: v[0], y: v[1], z: v[2] }, Vec::new())
            } else {
                let mut is: Vec<ConfigIssue> = Vec::new();
                is.push(ConfigIssue { field, kind: IssueKind::WrongArity });
                (Vec3 { x: 0, y: 0, z: 0 }, is)
            }
        },
        Option::None => {
            let mut is: Vec<ConfigIssue> = Vec::new();
            is.push(ConfigIssue { field, kind: IssueKind::Missing });
            (Vec3 { x: 0, y: 0, z: 0 }, is)
        },
    }
}

/// Read a 3-vector field that must also lie in the fixed-point range.
pub fn get_vec3_bounded(field: ConfigField, o: &Option<Vec<i64>>) -> (r: (Vec3, Vec<ConfigIssue>))
    ensures
        r.1@ == vec3_bounded_issues(field, *o),
        r.1@.len() == 0 ==> match *o {
            Option::Some(v) => r.0 == vec3_of(v) && vec3_in_range(r.0@),
            Option::None => false,
        },
{
    match o {
        Option::Some(v) => {
            if v.len() != 3 {
                let mut is: Vec<ConfigIssue> = Vec::new();
                is.push(ConfigIssue { field, kind: IssueKind::WrongArity });
                (Vec3 { x: 0, y: 0, z: 0 }, is)
            } else if -FP_BOUND <= v[0] && v[0] <= FP_BOUND && -FP_BOUND <= v[1] && v[1] <= FP_BOUND
                && -FP_BOUND <= v[2] && v[2] <= FP_BOUND {
                (Vec3 { x: v[0], y: v[1], z: v[2] }, Vec::new())
            } else {
                let mut is: Vec<ConfigIssue> = Vec::new();
                is.push(ConfigIssue { field, kind: IssueKind::OutOfRange });
                (Vec3 { x: 0, y: 0, z: 0 }, is)
            }
        },
        Option::None => {
            let mut is: Vec<ConfigIssue> = Vec::new();
            is.push(ConfigIssue { field, kind: IssueKind::Missing });
            (Vec3 { x: 0, y: 0, z: 0 }, is)
        },
    }
}

/// Read a colour field: the value (or a zero default) and its issues.
pub fn get_vec4(field: ConfigField, o: &Option<Vec<i64>>) -> (r: (Rgba, Vec<ConfigIssue>))
    ensures
        r.1@ == vec4_issues(field, *o),
        r.1@.len() == 0 ==> match *o {
            Option::Some(v) => r.0 == rgba_of(v),
            Option::None => false,
        },
{
    match o {
        Option::Some(v) => {
            if v.len() == 4 {
                (Rgba { r: v[0], g: v[1], b: v[2], a: v[3] }, Vec::new())
            } else {
                let mut is: Vec<ConfigIssue> = Vec::new();
                is.push(ConfigIssue { field, kind: IssueKind::WrongArity });
                (Rgba { r: 0, g: 0, b: 0, a: 0 }, is)
            }
        },
        Option::None => {
            let mut is: Vec<ConfigIssue> = Vec::new();
            is.push(ConfigIssue { field, kind: IssueKind::Missing });
            (Rgba { r: 0, g: 0, b: 0, a: 0 }, is)
        },
    }
}

/// Read a scalar that only needs to be present.
fn get_scalar(field: ConfigField, o: &Option<i64>) -> (r: (i64, Vec<ConfigIssue>))
    ensures
        r.1@ == scalar_issues(field, *o),
        r.1@.len() == 0 ==> *o == Some(r.0),
{
    match o {
        Option::Some(v) => (*v, Vec::new()),
        Option::None => {
            let mut is: Vec<ConfigIssue> = Vec::new();
            is.push(ConfigIssue { field, kind: IssueKind::Missing });
            (0, is)
        },
    }
}

/// Read a scalar that must be present and strictly positive.
fn get_positive(field: ConfigField, o: &Option<i64>) -> (r: (i64, Vec<ConfigIssue>))
    ensures
        r.1@ == positive_issues(field, *o),
        r.1@.len() == 0 ==> *o == Some(r.0) && r.0 > 0,
{
    match o {
        Option::Some(v) => {
            if *v > 0 {
                (*v, Vec::new())
            } else {
                let mut is: Vec<ConfigIssue> = Vec::new();
                is.push(ConfigIssue { field, kind: IssueKind::NotPositive });
                (1, is)
            }
        },
        Option::None => {
            let mut is: Vec<ConfigIssue> = Vec::new();
            is.push(ConfigIssue { field, kind: IssueKind::Missing });
            (1, is)
        },
    }
}

impl StringConfig {
    /// Validate one string entry: the built string, or every issue found,
    /// in field order.
    pub fn new(raw: &RawStringConfig) -> (r: Result<StringConfig, Vec<ConfigIssue>>)
        ensures
            match r {
                Ok(sc) => string_issues(*raw).len() == 0 && string_ok(*raw, sc) && vec3_in_range(
                    sc.string_pos_1@,
                ) && vec3_in_range(sc.string_scale@),
                Err(e) => e@ == string_issues(*raw) && e@.len() > 0,
            },
    {
        let (colour, mut i1) = get_vec4(ConfigField::StringColour, &raw.colour);
        let (pos, mut i2) = get_vec3_bounded(ConfigField::StringPos, &raw.pos);
        let (scale, mut i3) = get_vec3_bounded(ConfigField::StringScale, &raw.scale);
        let mut issues = i1;
        issues.append(&mut i2);
        issues.append(&mut i3);
        if issues.len() > 0 {
            return Err(issues);
        }
        Ok(StringConfig { string_colour: colour, string_pos_1: pos, string_scale: scale })
    }
}

impl AppConfig {
    /// Validate the whole raw document.  Returns the model exactly when
    /// the document is free of problems; otherwise returns every problem
    /// found, in field order.
    pub fn new(raw: RawConfig) -> (r: Result<AppConfig, Vec<ConfigIssue>>)
        ensures
            match r {
                Ok(c) => issues_of(raw).len() == 0 && config_ok(raw, c) && c.wf(),
                Err(e) => e@ == issues_of(raw) && e@.len() > 0,
            },
    {
        let mut issues: Vec<ConfigIssue> = Vec::new();

        // Segment count: present and within the working range.
        let num_components: usize = match &raw.num_components {
            Option::Some(v) => {
                if 1 <= *v && *v <= FP_BOUND {
                    *v as usize
                } else {
                    issues.push(ConfigIssue {
                        field: ConfigField::NumComponents,
                        kind: IssueKind::OutOfRange,
                    });
                    1
                }
            },
            Option::None => {
                issues.push(ConfigIssue {
                    field: ConfigField::NumComponents,
                    kind: IssueKind::Missing,
                });
                1
            },
        };
        assert(issues@ =~= count_issues(raw.num_components));

        let (temporal_freq_uhz, mut i_tf) = get_scalar(
            ConfigField::TemporalFreq,
            &raw.temporal_freq_uhz,
        );
        issues.append(&mut i_tf);
        let (spatial_freq_per_unit, mut i_sf) = get_scalar(
            ConfigField::SpatialFreq,
            &raw.spatial_freq_per_unit,
        );
        issues.append(&mut i_sf);
        let (amplitude, mut i_amp) = get_scalar(ConfigField::Amplitude, &raw.amplitude);
        issues.append(&mut i_amp);
        let ghost pre_pqs = issues@;

        // Cross-section polygon: at least a triangle of pairs.
        let mut component_pqs: Vec<(i64, i64)> = Vec::new();
        match &raw.component_pqs {
            Option::Some(l) => {
                let mut bad_arity = false;
                let mut j: usize = 0;
                while j < l.len()
                    invariant
                        0 <= j <= l@.len(),
                        component_pqs@.len() == j,
                        bad_arity == exists|m: int|
                            0 <= m < j && (#[trigger] l@[m])@.len() != 2,
                        !bad_arity ==> forall|m: int|
                            0 <= m < j ==> component_pqs@[m] == pair_of(#[trigger] l@[m]),
                    decreases l@.len() - j,
                {
                    match get_vec2(&l[j]) {
                        Option::Some(p) => {
                            component_pqs.push(p);
                        },
                        Option::None => {
                            component_pqs.push((0, 0));
                            bad_arity = true;
                            assert(l@[j as int]@.len() != 2);
                        },
                    }
                    j = j + 1;
                }
                if l.len() < 3 {
                    issues.push(ConfigIssue {
                        field: ConfigField::ComponentPqs,
                        kind: IssueKind::TooFew,
                    });
                }
                if bad_arity {
                    issues.push(ConfigIssue {
                        field: ConfigField::ComponentPqs,
                        kind: IssueKind::WrongArity,
                    });
                }
            },
            Option::None => {
                issues.push(ConfigIssue {
                    field: ConfigField::ComponentPqs,
                    kind: IssueKind::Missing,
                });
            },
        };
        assert(issues@ =~= pre_pqs + pqs_issues(raw.component_pqs));

        let (pv, mut i_pv) = get_vec3(ConfigField::Pv, &raw.pv);
        issues.append(&mut i_pv);
        let (qv, mut i_qv) = get_vec3(ConfigField::Qv, &raw.qv);
        issues.append(&mut i_qv);
        let (clear_colour, mut i_cc) = get_vec4(ConfigField::ClearColour, &raw.clear_colour);
        issues.append(&mut i_cc);
        let ghost pre_strings = issues@;

        // The rendered strings: at least one, each entry validated.
        let mut strings: Vec<StringConfig> = Vec::new();
        match &raw.strings {
            Option::Some(ss) => {
                if ss.len() < 1 {
                    issues.push(ConfigIssue {
                        field: ConfigField::Strings,
                        kind: IssueKind::TooFew,
                    });
                }
                let ghost pre_loop = issues@;
                let mut j: usize = 0;
                while j < ss.len()
                    invariant
                        0 <= j <= ss@.len(),
                        strings@.len() == j,
                        issues@ == pre_loop + strings_issues_upto(ss@, j as int),
                        forall|m: int|
                            0 <= m < j ==> (string_issues(#[trigger] ss@[m]).len() == 0 ==> (
                            string_ok(ss@[m], strings@[m]) && vec3_in_range(
                                strings@[m].string_pos_1@,
                            ) && vec3_in_range(strings@[m].string_scale@))),
                    decreases ss@.len() - j,
                {
                    match StringConfig::new(&ss[j]) {
                        Ok(sc) => {
                            strings.push(sc);
                        },
                        Err(mut si) => {
                            issues.append(&mut si);
                            strings.push(
                                StringConfig {
                                    string_colour: Rgba { r: 0, g: 0, b: 0, a: 0 },
                                    string_pos_1: Vec3 { x: 0, y: 0, z: 0 },
                                    string_scale: Vec3 { x: 0, y: 0, z: 0 },
                                },
                            );
                        },
                    }
                    assert(strings_issues_upto(ss@, j + 1) == strings_issues_upto(ss@, j as int)
                        + string_issues(ss@[j as int]));
                    assert(issues@ =~= pre_loop + strings_issues_upto(ss@, j + 1));
                    j = j + 1;
                }
            },
            Option::None => {
                issues.push(ConfigIssue { field: ConfigField::Strings, kind: IssueKind::Missing });
            },
        };
        assert(issues@ =~= pre_strings + strings_area_issues(raw.strings));

        let (light_source_location, mut i_light) = get_vec3(ConfigField::LightPos, &raw.light_pos);
        issues.append(&mut i_light);
        let (camera_pos, mut i_cam) = get_vec3_bounded(ConfigField::CameraPos, &raw.camera_pos);
        issues.append(&mut i_cam);
        let (camera_fov_deg, mut i_fov) = get_positive(ConfigField::CameraFov, &raw.camera_fov_deg);
        issues.append(&mut i_fov);
        let (camera_near, mut i_near) = get_positive(ConfigField::CameraNear, &raw.camera_near);
        issues.append(&mut i_near);
        let (camera_far, mut i_far) = get_positive(ConfigField::CameraFar, &raw.camera_far);
        issues.append(&mut i_far);
        let ghost pre_nearfar = issues@;

        // Plane order, once both planes are present.
        match (&raw.camera_near, &raw.camera_far) {
            (Option::Some(n), Option::Some(f)) => {
                if !(*n < *f) {
                    issues.push(ConfigIssue {
                        field: ConfigField::CameraFar,
                        kind: IssueKind::NearNotBelowFar,
                    });
                }
            },
            _ => {},
        };
        assert(issues@ =~= pre_nearfar + nearfar_issues(raw.camera_near, raw.camera_far));

        let (report_interval_ns, mut i_rep) = get_positive(
            ConfigField::ReportInterval,
            &raw.report_interval_ns,
        );
        issues.append(&mut i_rep);
        assert(issues@ =~= issues_of(raw));

        if issues.len() > 0 {
            return Err(issues);
        }
        proof {
            match raw.strings {
                Option::Some(ss) => {
                    assert(strings_area_issues(raw.strings).len() == 0);
                    lemma_strings_all_empty(ss@, ss@.len() as int);
                },
                Option::None => {},
            }
            assert forall|j: int|
                0 <= j < strings@.len() implies vec3_in_range(
                (#[trigger] strings@[j]).string_pos_1@,
            ) && vec3_in_range(strings@[j].string_scale@) by {
                match raw.strings {
                    Option::Some(ss) => {
                        assert(string_issues(ss@[j]).len() == 0);
                    },
                    Option::None => {},
                }
            }
        }
        Ok(
            AppConfig {
                num_components,
                component_pqs,
                pv,
                qv,
                clear_colour,
                strings,
                light_source_location,
                camera_pos,
                camera_fov_deg,
                camera_near,
                camera_far,
                temporal_freq_uhz,
                spatial_freq_per_unit,
                amplitude,
                report_interval_ns,
            },
        )
    }
}

} // verus!
