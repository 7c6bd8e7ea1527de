//! Scene composition: one uniform block per rendered string, per frame.
//!
//! The composer is a pure mapping: from the configuration, the current
//! projection matrix, and the wave phase of the instant, it produces the
//! per-draw parameter block the GPU program consumes.  The model matrix
//! places and scales one string; the view matrix is the projection times
//! the inverse of the camera placement (a pure translation — the camera
//! never rotates; see [`lemma_view_uses_camera_inverse`]).

use vstd::prelude::*;
use crate::app_config::{AppConfig, StringConfig};
use crate::fixed::{
    lemma_neg_whole_units, lemma_translation_inverse, lemma_translation_shift, mat4_in_range, mat_mul,
    neg3, nonuniform_scale, spec_identity, spec_mul, spec_scale, spec_translation, translation,
    vec3_add, vec3_in_range, vec3_neg, Mat4, Mat4View, Rgba, Vec3, Vec3View, FP_ONE,
};

verus! {

/// The per-draw uniform block: transforms, colour, cross-section axes,
/// wave parameters and light direction, laid out as the GPU program
/// expects them.
#[derive(Clone, Copy, Debug, PartialEq, Eq, Structural)]
pub struct Locals {
    /// Transform into world coordinates: translation times scale.
    pub model: Mat4,
    /// Projection from world into clip coordinates through the camera.
    pub view: Mat4,
    /// Colour of the string.
    pub colour: Rgba,
    /// Cross-section P axis.
    pub pv: Vec3,
    /// Wave phase at x = 0, in femtocycles of one turn.
    pub phase: i64,
    /// Cross-section Q axis.
    pub qv: Vec3,
    /// Spatial frequency, fixed-point waves per unit.
    pub freq: i64,
    /// Light direction for the Gouraud shading.
    pub light: Vec3,
    /// Wave amplitude, fixed-point.
    pub ampl: i64,
}

/// The model matrix of a string: translate to its position, after
/// scaling by its non-uniform scale.
pub open spec fn spec_model_matrix(pos: Vec3View, scale: Vec3View) -> Mat4View {
    spec_mul(spec_translation(pos), spec_scale(scale))
}

/// The view matrix: the projection times the inverse of the pure
/// translation that places the camera.
pub open spec fn spec_view_matrix(projection: Mat4View, camera: Vec3View) -> Mat4View {
    spec_mul(projection, spec_translation(vec3_neg(camera)))
}

/// The uniform block composed for one string.
pub open spec fn locals_ok(
    r: Locals,
    projection: Mat4View,
    camera: Vec3View,
    s: StringConfig,
    pv: Vec3,
    qv: Vec3,
    light: Vec3,
    phase: i64,
    freq: i64,
    ampl: i64,
) -> bool {
    &&& r.model@ == spec_model_matrix(s.string_pos_1@, s.string_scale@)
    &&& r.view@ == spec_view_matrix(projection, camera)
    &&& r.colour == s.string_colour
    &&& r.pv == pv
    &&& r.qv == qv
    &&& r.light == light
    &&& r.phase == phase
    &&& r.freq == freq
    &&& r.ampl == ampl
}

/// Compose the uniform block for one string.
pub fn compose_locals(
    projection: &Mat4,
    camera_pos: &Vec3,
    s: &StringConfig,
    pv: &Vec3,
    qv: &Vec3,
    light: &Vec3,
    phase: i64,
    freq: i64,
    ampl: i64,
) -> (r: Locals)
    requires
        mat4_in_range(projection@),
        vec3_in_range(camera_pos@),
        vec3_in_range(s.string_pos_1@),
        vec3_in_range(s.string_scale@),
    ensures
        locals_ok(r, projection@, camera_pos@, *s, *pv, *qv, *light, phase, freq, ampl),
{
    let model = mat_mul(&translation(&s.string_pos_1), &nonuniform_scale(&s.string_scale));
    let view = mat_mul(projection, &translation(&neg3(camera_pos)));
    Locals {
        model,
        view,
        colour: s.string_colour,
        pv: *pv,
        phase,
        qv: *qv,
        freq,
        light: *light,
        ampl,
    }
}

/// Compose the frame's uniform blocks: one per configured string, in
/// configuration order, all sharing the same view, axes, wave phase and
/// light.
pub fn compose_frame(config: &AppConfig, projection: &Mat4, phase: i64) -> (r: Vec<Locals>)
    requires
        config.wf(),
        mat4_in_range(projection@),
    ensures
        r@.len() == config.strings@.len(),
        forall|j: int|
            0 <= j < r@.len() ==> locals_ok(
                #[trigger] r@[j],
                projection@,
                config.camera_pos@,
                config.strings@[j],
                config.pv,
                config.qv,
                config.light_source_location,
                phase,
                config.spatial_freq_per_unit,
                config.amplitude,
            ),
{
    let mut blocks: Vec<Locals> = Vec::new();
    let mut j: usize = 0;
    while j < config.strings.len()
        invariant
            0 <= j <= config.strings@.len(),
            blocks@.len() == j,
            config.wf(),
            mat4_in_range(projection@),
            forall|m: int|
                0 <= m < j ==> locals_ok(
                    #[trigger] blocks@[m],
                    projection@,
                    config.camera_pos@,
                    config.strings@[m],
                    config.pv,
                    config.qv,
                    config.light_source_location,
                    phase,
                    config.spatial_freq_per_unit,
                    config.amplitude,
                ),
        decreases config.strings@.len() - j,
    {
        let block = compose_locals(
            projection,
            &config.camera_pos,
            &config.strings[j],
            &config.pv,
            &config.qv,
            &config.light_source_location,
            phase,
            config.spatial_freq_per_unit,
            config.amplitude,
        );
        blocks.push(block);
        j = j + 1;
    }
    blocks
}

/// The view matrix is the projection times the inverse of the camera's
/// placement: the translation by the negated camera position undoes the
/// translation by the camera position exactly.
pub proof fn lemma_view_uses_camera_inverse(projection: Mat4View, camera: Vec3View)
    ensures
        spec_view_matrix(projection, camera) == spec_mul(
            projection,
            spec_translation(vec3_neg(camera)),
        ),
        spec_mul(spec_translation(camera), spec_translation(vec3_neg(camera)))
            == spec_identity(),
        spec_mul(spec_translation(vec3_neg(camera)), spec_translation(camera))
            == spec_identity(),
{
    lemma_translation_inverse(camera);
}

/// Camera-space invariance: moving the camera by `v` and recomposing the
/// view is the same as keeping the camera and translating the whole
/// scene by `-v` — for any move by whole fixed-point units.
pub proof fn lemma_camera_shift(projection: Mat4View, camera: Vec3View, v: Vec3View)
    requires
        v.x % (FP_ONE as int) == 0,
        v.y % (FP_ONE as int) == 0,
        v.z % (FP_ONE as int) == 0,
    ensures
        spec_view_matrix(projection, vec3_add(camera, v)) == spec_mul(
            spec_view_matrix(projection, camera),
            spec_translation(vec3_neg(v)),
        ),
{
    lemma_neg_whole_units(v);
    lemma_translation_shift(projection, vec3_neg(camera), vec3_neg(v));
    assert(vec3_neg(vec3_add(camera, v)) == vec3_add(vec3_neg(camera), vec3_neg(v)));
}

} // verus!
