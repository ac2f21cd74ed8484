//! Extraction: a read-only projection of the live particles into drawable
//! quads for a renderer.

use vstd::prelude::*;

use crate::fixed::{atan2_spec, fp_atan2, SCALE};
use crate::material::{animation_of, sheet_mode_wf, ParticleMaterial, TextureSheetMode, UvRect};
use crate::particle::{rotation_query_spec, Particle};
use crate::render_mode::ParticleRenderMode;
use crate::rgba::Rgba;
use crate::rng::ParticleRng;
use crate::store::ParticleSystem;
use crate::transform::{transform_ok, transform_point_spec, Transform};
use crate::vec3::{vec3_sub_spec, Vec3};

verus! {

/// One renderable quad.
#[derive(Clone, Copy, Debug, PartialEq, Eq, Structural)]
pub struct DrawableQuad {
    /// Center, in world coordinates.
    pub position: Vec3,
    /// Edge length.
    pub size: i64,
    /// Planar rotation of the quad.
    pub rotation: i64,
    /// Turn toward the camera around Y, for vertical billboards; zero in
    /// every other render mode.
    pub yaw: i64,
    /// Tint.
    pub color: Rgba,
    /// Texture cell.
    pub uv: UvRect,
}

/// Why extraction can fail: only a texture sheet that does not fit its
/// atlas (an asset misconfiguration).
#[derive(Clone, Copy, Debug, PartialEq, Eq, Structural)]
pub enum ExtractError {
    /// The sheet's resolve mode does not fit the atlas.
    BadTextureSheet,
}

impl ExtractError {
    /// A short description of the error.
    pub fn message(&self) -> &'static str {
        "texture sheet mode does not fit its atlas"
    }
}

/// The full UV rectangle, used for single-image materials.
pub open spec fn full_uv_spec() -> UvRect {
    UvRect { min_x: 0, min_y: 0, max_x: SCALE, max_y: SCALE }
}

/// Whether a material can be extracted: an image always, a sheet only
/// when its mode fits its atlas.
pub open spec fn material_extractable(m: ParticleMaterial) -> bool {
    match m {
        ParticleMaterial::Image(_) => true,
        ParticleMaterial::TextureSheet(s) => sheet_mode_wf(
            s.mode,
            s.texture_atlas.textures@.len() as int,
        ),
    }
}

/// The world-space position of a stored particle: already world-space, or
/// mapped through the owning transform.
pub open spec fn world_position_spec(p: Particle, world_space: bool, t: Transform) -> Vec3 {
    if world_space {
        p.translation
    } else {
        transform_point_spec(t, p.translation)
    }
}

/// The camera-facing yaw of a quad in vertical-billboard mode.
pub open spec fn vertical_yaw_spec(position: Vec3, camera: Transform) -> int {
    let d = vec3_sub_spec(position, camera.translation);
    atan2_spec(d.x as int, d.z as int)
}

/// A quad's texture cell agrees with the material: the full rectangle for
/// an image, the mode's cell for a sheet (some cell, for a random mode).
pub open spec fn quad_uv_ok(m: ParticleMaterial, p: Particle, uv: UvRect) -> bool {
    match m {
        ParticleMaterial::Image(_) => uv == full_uv_spec(),
        ParticleMaterial::TextureSheet(s) => {
            let atlas = s.texture_atlas.textures@;
            match s.mode {
                TextureSheetMode::FixedIndex(i) => uv == atlas[i as int],
                TextureSheetMode::RandomIndex => exists|i: int|
                    0 <= i < atlas.len() && uv == #[trigger] atlas[i],
                _ => (animation_of(s.mode) matches Some(a) && uv == atlas[
                    crate::material::animation_index_spec(
                        a,
                        atlas.len() as int,
                        crate::material::animation_delta_spec(a, s.mode, p),
                    )
                ]),
            }
        },
    }
}

/// Checks that a sheet mode fits an atlas of `len` cells.
fn check_sheet_mode(mode: &TextureSheetMode, len: usize) -> (ok: bool)
    ensures
        ok == sheet_mode_wf(*mode, len as int),
{
    if len < 1 {
        return false;
    }
    match mode {
        TextureSheetMode::FixedIndex(i) => *i < len,
        TextureSheetMode::RandomIndex => true,
        TextureSheetMode::AnimateOverTime(a) => a.ratio >= 0 && a.ratio <= crate::fixed::FP_MAX,
        TextureSheetMode::AnimateOverLifetime(a) => a.ratio >= 0 && a.ratio
            <= crate::fixed::FP_MAX,
        TextureSheetMode::AnimateOverSpeed(a) => a.ratio >= 0 && a.ratio <= crate::fixed::FP_MAX,
    }
}

/// Projects the live particles into drawable quads.
///
/// Succeeds if and only if the material fits its atlas; a misconfigured
/// sheet is an asset error surfaced at the point of use.
pub fn extract(
    system: &ParticleSystem,
    system_transform: &Transform,
    camera: &Transform,
    material: &ParticleMaterial,
    render_mode: &ParticleRenderMode,
    rng: &mut ParticleRng,
) -> (r: Result<Vec<DrawableQuad>, ExtractError>)
    requires
        system.wf(),
        transform_ok(*system_transform),
        transform_ok(*camera),
    ensures
        r is Ok <==> material_extractable(*material),
        r matches Ok(quads) ==> ({
            &&& quads@.len() == system.particles_seq().len()
            &&& forall|i: int|
                0 <= i < quads@.len() ==> ({
                    let p = system.particles_seq()[i];
                    let q = #[trigger] quads@[i];
                    &&& q.position == world_position_spec(
                        p,
                        system.is_world_space(),
                        *system_transform,
                    )
                    &&& q.size == p.size
                    &&& q.color == p.color
                    &&& q.rotation as int == rotation_query_spec(p)
                    &&& ((*render_mode) is VerticalBillboard ==> q.yaw as int == vertical_yaw_spec(
                        q.position,
                        *camera,
                    ))
                    &&& (!((*render_mode) is VerticalBillboard) ==> q.yaw == 0)
                    &&& quad_uv_ok(*material, p, q.uv)
                })
        }),
{
    // Validate the material once, before touching any particle.
    match material {
        ParticleMaterial::Image(_) => {},
        ParticleMaterial::TextureSheet(sheet) => {
            if !check_sheet_mode(&sheet.mode, sheet.texture_atlas.textures.len()) {
                return Err(ExtractError::BadTextureSheet);
            }
        },
    }
    let n = system.len();
    let mut quads: Vec<DrawableQuad> = Vec::new();
    let mut i: usize = 0;
    while i < n
        invariant
            0 <= i <= n,
            n == system.particles_seq().len(),
            system.wf(),
            transform_ok(*system_transform),
            transform_ok(*camera),
            material_extractable(*material),
            quads@.len() == i,
            forall|j: int|
                0 <= j < i ==> ({
                    let p = system.particles_seq()[j];
                    let q = #[trigger] quads@[j];
                    &&& q.position == world_position_spec(
                        p,
                        system.is_world_space(),
                        *system_transform,
                    )
                    &&& q.size == p.size
                    &&& q.color == p.color
                    &&& q.rotation as int == rotation_query_spec(p)
                    &&& ((*render_mode) is VerticalBillboard ==> q.yaw as int == vertical_yaw_spec(
                        q.position,
                        *camera,
                    ))
                    &&& (!((*render_mode) is VerticalBillboard) ==> q.yaw == 0)
                    &&& quad_uv_ok(*material, p, q.uv)
                }),
        decreases n - i,
    {
        let p = system.get(i);
        let position = if system.in_world_space() {
            p.translation
        } else {
            system_transform.apply_point(p.translation)
        };
        let rotation = p.rotation();
        let yaw = match render_mode {
            ParticleRenderMode::VerticalBillboard => {
                let d = position.sub(camera.translation);
                fp_atan2(d.x, d.z)
            },
            _ => 0,
        };
        let uv = match material {
            ParticleMaterial::Image(_) => UvRect {
                min_x: 0,
                min_y: 0,
                max_x: SCALE,
                max_y: SCALE,
            },
            ParticleMaterial::TextureSheet(sheet) => sheet.mode.rect(
                &sheet.texture_atlas,
                p,
                rng,
            ),
        };
        let quad = DrawableQuad { position, size: p.size, rotation, yaw, color: p.color, uv };
        quads.push(quad);
        i = i + 1;
    }
    Ok(quads)
}

} // verus!
