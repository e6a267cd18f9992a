//! The path integrator: recursive radiance estimation along a ray.
//!
//! Each level adds the direct contribution of the single point light
//! (occlusion-tested with a shadow ray) and, while the bounce budget and the
//! path's energy allow, the contribution of one recursively sampled indirect
//! bounce. A zero-probability sample contributes zero throughput instead of
//! dividing: an unsampleable transport path is a valid outcome, never an
//! error.

use crate::config::{Config, ConfigI};
use crate::fx::{fx_abs, fx_abs_s, fx_mul, fx_mul_s, Fx};
use crate::geom::{any_hit, closest_hit, closest_hit_s, scene_misses_s, Scene};
use crate::intersect::{BasicRay, Hit, HitI, Ray};
use crate::material::{brdf, dielectric_brdf_s, dielectric_sample_s, sample_wi};
use crate::rng::{unit_fx_s, SeededRng};
use crate::vec3::{
    v3_add_s, v3_comp_max_s, v3_comp_mul_s, v3_div_k_s, v3_dot_s, v3_mag_s, v3_neg_s,
    v3_normalize_s, v3_scale_s, v3_sub_s, v3_zero_s, V3i, Vec3,
};
use vstd::prelude::*;

verus! {

/// Direct contribution of the point light at a hit: zero when the surface
/// faces away from the light or an occluder blocks the shadow ray, else
/// `emission * brdf(wl, wo) (n . wl) / dist^2`.
pub open spec fn direct_light_s(
    hit: HitI,
    hit_pos: V3i,
    wo: V3i,
    scene: Seq<crate::geom::Sphere>,
    cfg: ConfigI,
) -> V3i {
    let dist = v3_mag_s(v3_sub_s(cfg.light_pos, hit_pos));
    let wl = v3_normalize_s(v3_sub_s(cfg.light_pos, hit_pos));
    if v3_dot_s(hit.normal, wl) <= 0 {
        v3_zero_s()
    } else if !scene_misses_s(scene, v3_add_s(hit_pos, v3_scale_s(wl, cfg.ray_epsilon)), wl) {
        v3_zero_s()
    } else {
        let weight = v3_div_k_s(
            v3_scale_s(dielectric_brdf_s(wl, wo, hit.normal, hit.mat), v3_dot_s(hit.normal, wl)),
            fx_mul_s(dist, dist),
        );
        v3_comp_mul_s(cfg.light_emission, weight)
    }
}

/// Direct light at a hit point, with the shadow ray cast through `any_hit`.
pub fn direct_light(hit: &Hit, hit_pos: Vec3, wo: Vec3, scene: &Scene, cfg: &Config) -> (r: Vec3)
    ensures
        r@ == direct_light_s(hit@, hit_pos@, wo@, scene@, cfg@),
{
    let dist = cfg.light_pos.minus(hit_pos).magnitude();
    let wl = cfg.light_pos.minus(hit_pos).normalize();
    if hit.normal.dot(wl).raw <= 0 {
        return Vec3::zeros();
    }
    let shadow_ray = BasicRay { origin: hit_pos.plus(wl.scale(cfg.ray_epsilon)), dir: wl };
    let occluder = any_hit(&shadow_ray, scene);
    match occluder {
        Option::Some(_) => Vec3::zeros(),
        Option::None => {
            let weight = brdf(wl, wo, hit.normal, &hit.mat).scale(hit.normal.dot(wl)).div_k(
                fx_mul(dist, dist),
            );
            cfg.light_emission.comp_mul(weight)
        },
    }
}

/// The radiance estimate as a function of the ray, the scene, the
/// configuration and the stretch of the generator stream it consumes,
/// starting at position `i`. Each level draws three uniforms (lobe
/// selection and two sample coordinates); a level adds the direct light of
/// the closest hit modulated by the accumulated throughput, and recurses
/// once -- consuming the stream three positions further on -- while the
/// bounce budget lasts and the new throughput's largest channel clears the
/// cutoff. A zero-density sample contributes zero throughput, never a
/// division.
pub open spec fn trace_s(
    origin: V3i,
    dir: V3i,
    bounces: int,
    throughput: V3i,
    scene: Seq<crate::geom::Sphere>,
    cfg: ConfigI,
    seed: u64,
    i: int,
) -> V3i
    decreases bounces,
{
    match closest_hit_s(scene, origin, dir) {
        Option::None => v3_comp_mul_s(cfg.background, throughput),
        Option::Some(hit) => {
            let wo = v3_neg_s(dir);
            let hit_pos = v3_add_s(origin, v3_scale_s(dir, hit.t));
            let radiance = direct_light_s(hit, hit_pos, wo, scene, cfg);
            let sample = dielectric_sample_s(
                wo,
                hit.normal,
                hit.mat,
                unit_fx_s(seed, i),
                unit_fx_s(seed, i + 1),
                unit_fx_s(seed, i + 2),
            );
            let cos = fx_abs_s(v3_dot_s(sample.wi, hit.normal));
            let tp = if sample.pdf != 0 {
                v3_comp_mul_s(throughput, v3_div_k_s(v3_scale_s(sample.brdf, cos), sample.pdf))
            } else {
                v3_zero_s()
            };
            let res = v3_comp_mul_s(radiance, throughput);
            if bounces > 0 && v3_comp_max_s(tp) > cfg.cutoff {
                v3_add_s(
                    res,
                    trace_s(
                        v3_add_s(hit_pos, v3_scale_s(sample.wi, cfg.ray_epsilon)),
                        sample.wi,
                        bounces - 1,
                        tp,
                        scene,
                        cfg,
                        seed,
                        i + 3,
                    ),
                )
            } else {
                res
            }
        },
    }
}

/// Estimate the radiance along a ray.
///
/// The result is exactly `trace_s` of the ray, the scene and the stretch of
/// the generator's stream that begins at the generator's position: a ray
/// that misses every primitive returns exactly the background color
/// modulated by the ray's throughput, and on a hit the estimate is the
/// direct light modulated by the throughput, plus one recursive indirect
/// bounce while the bounce budget lasts and the new throughput's largest
/// channel stays above the configured cutoff.
#[verifier::rlimit(60)]
pub fn trace(ray: Ray, rng: &mut SeededRng, scene: &Scene, cfg: &Config) -> (r: Vec3)
    ensures
        r@ == trace_s(
            ray.origin@,
            ray.dir@,
            ray.bounces as int,
            ray.throughput@,
            scene@,
            cfg@,
            old(rng).seed(),
            old(rng).next_i(),
        ),
        final(rng).seed() == old(rng).seed(),
        scene_misses_s(scene@, ray.origin@, ray.dir@) ==> r@ == v3_comp_mul_s(
            cfg@.background,
            ray.throughput@,
        ),
    decreases ray.bounces,
{
    let found = closest_hit(&ray, scene);
    match found {
        Option::Some(hit) => {
            let wo = ray.dir.neg();
            let hit_pos = ray.origin.plus(ray.dir.scale(hit.t));
            let radiance = direct_light(&hit, hit_pos, wo, scene, cfg);
            let sample = sample_wi(rng, wo, hit.normal, hit.mat);
            let cosineterm = fx_abs(sample.wi.dot(hit.normal));
            // A probability of zero marks an impossible sample whose BRDF is
            // meaningless: its path contributes zero throughput.
            let throughput = if sample.pdf.raw != 0 {
                ray.throughput.comp_mul(sample.brdf.scale(cosineterm).div_k(sample.pdf))
            } else {
                Vec3::zeros()
            };
            let mut result = radiance.comp_mul(ray.throughput);
            if ray.bounces > 0 && throughput.comp_max().raw > cfg.cutoff.raw {
                let indirect = Ray {
                    origin: hit_pos.plus(sample.wi.scale(cfg.ray_epsilon)),
                    dir: sample.wi,
                    bounces: ray.bounces - 1,
                    throughput,
                };
                result = result.plus(trace(indirect, rng, scene, cfg));
            }
            result
        },
        Option::None => cfg.background.comp_mul(ray.throughput),
    }
}

} // verus!
