use pathtracer::fx::{Fx, FX_HALF, FX_ONE};
use pathtracer::material::{
    brdf, dielectric_reflection_sample_wi, dielectric_refraction_sample_wi, diffuse_sample_wi,
    sample_wi, Mat,
};
use pathtracer::rng::rng_from_seed;
use pathtracer::vec3::Vec3;

fn fx(raw: i64) -> Fx {
    Fx { raw }
}

fn v3(x: i64, y: i64, z: i64) -> Vec3 {
    Vec3 { x: fx(x), y: fx(y), z: fx(z) }
}

#[test]
fn presets_have_the_documented_fields() {
    let m = Mat::mirror();
    assert_eq!(m.color.x.raw, 0);
    assert_eq!(m.fresnel.x.raw, FX_ONE);
    assert_eq!(m.fresnel.y.raw, FX_ONE);
    assert_eq!(m.fresnel.z.raw, FX_ONE);
    assert_eq!(m.shininess, 6000);
    let d = Mat::diffuse(v3(13107, 26214, 52429));
    assert_eq!(d.color.y.raw, 26214);
    assert_eq!(d.fresnel.x.raw, 0);
    assert_eq!(d.shininess, 0);
}

#[test]
fn diffuse_brdf_is_color_over_pi() {
    // Head-on directions on a diffuse material: the reflection lobe's
    // Fresnel term vanishes, leaving exactly color / pi per channel.
    let m = Mat::diffuse(v3(13107, 26214, 52429));
    let up = v3(0, 0, FX_ONE);
    let r = brdf(up, up, up, &m);
    assert_eq!(r.x.raw, 4172);
    assert_eq!(r.y.raw, 8344);
    assert_eq!(r.z.raw, 16688);
}

#[test]
fn brdf_is_zero_on_the_wrong_side() {
    let m = Mat::diffuse(v3(13107, 26214, 52429));
    let up = v3(0, 0, FX_ONE);
    let down = v3(0, 0, -FX_ONE);
    let r = brdf(up, down, up, &m);
    assert_eq!(r.x.raw, 0);
    assert_eq!(r.y.raw, 0);
    assert_eq!(r.z.raw, 0);
}

#[test]
fn diffuse_sampler_deterministic_values() {
    // With both uniforms at zero the cosine-weighted sample is the normal
    // itself, with pdf cos(0)/pi == 1/pi.
    let m = Mat::diffuse(v3(13107, 26214, 52429));
    let up = v3(0, 0, FX_ONE);
    let s = diffuse_sample_wi(up, up, &m, fx(0), fx(0));
    assert_eq!(s.wi.x.raw, 0);
    assert_eq!(s.wi.y.raw, 0);
    assert_eq!(s.wi.z.raw, FX_ONE);
    assert_eq!(s.pdf.raw, 20861);
    assert_eq!(s.brdf.x.raw, 4172);
    assert_eq!(s.brdf.y.raw, 8344);
    assert_eq!(s.brdf.z.raw, 16688);
}

#[test]
fn reflection_sampler_deterministic_values() {
    // With the cosine draw at one, the half-vector is the normal and the
    // sampled direction mirrors the outgoing one; shininess zero gives
    // pdf_wh == 1/(2 pi), scaled down by 4 (wo . wh).
    let m = Mat::diffuse(v3(13107, 26214, 52429));
    let up = v3(0, 0, FX_ONE);
    let s = dielectric_reflection_sample_wi(up, up, &m, fx(0), fx(FX_ONE));
    assert_eq!(s.wi.x.raw, 0);
    assert_eq!(s.wi.y.raw, 0);
    assert_eq!(s.wi.z.raw, FX_ONE);
    assert_eq!(s.pdf.raw, 2607);
    // fresnel is zero head-on, so the reflection lobe's value vanishes
    assert_eq!(s.brdf.x.raw, 0);
    assert_eq!(s.brdf.z.raw, 0);
}

#[test]
fn refraction_sampler_keeps_diffuse_pdf() {
    let m = Mat::diffuse(v3(13107, 26214, 52429));
    let up = v3(0, 0, FX_ONE);
    let d = diffuse_sample_wi(up, up, &m, fx(0), fx(0));
    let r = dielectric_refraction_sample_wi(up, up, &m, fx(0), fx(0));
    assert_eq!(r.pdf.raw, d.pdf.raw);
    assert_eq!(r.wi.z.raw, d.wi.z.raw);
    // head-on the Fresnel attenuation vanishes, so the brdf is unchanged
    assert_eq!(r.brdf.z.raw, d.brdf.z.raw);
}

#[test]
fn sampled_pdf_carries_branch_scaling() {
    // For a diffuse material the roulette probability is exactly 1/2, and
    // every pdf that sample_wi hands back is a branch pdf scaled by 1/2;
    // in particular it is at most half of the unscaled maximum 1/pi or the
    // reflection bound, and never negative.
    let m = Mat::diffuse(v3(13107, 26214, 52429));
    let up = v3(0, 0, FX_ONE);
    let mut rng = rng_from_seed(11);
    let mut saw_positive = false;
    for _ in 0..200 {
        let s = sample_wi(&mut rng, up, up, m);
        assert!(s.pdf.raw >= 0);
        if s.pdf.raw > 0 {
            saw_positive = true;
        }
        // the refraction branch tops out at (1/pi) * (1 - p) with p == 1/2
        if s.brdf.z.raw > 0 {
            assert!(s.pdf.raw <= 20861 * (FX_HALF as i64) / (FX_ONE as i64) + 1);
        }
    }
    assert!(saw_positive);
}

#[test]
fn diffuse_estimator_converges_to_albedo() {
    // Monte Carlo unbiasedness: E[brdf * cos / pdf] over the sampler equals
    // the material's total reflectance, approximately its color.
    let m = Mat::diffuse(v3(13107, 26214, 52429));
    let up = v3(0, 0, FX_ONE);
    let mut rng = rng_from_seed(7);
    let n = 20000;
    let mut acc = [0.0f64; 3];
    for _ in 0..n {
        let s = sample_wi(&mut rng, up, up, m);
        if s.pdf.raw <= 0 {
            continue;
        }
        let pdf = s.pdf.raw as f64 / FX_ONE as f64;
        let cos = (s.wi.z.raw as f64 / FX_ONE as f64).abs();
        let b = [s.brdf.x.raw, s.brdf.y.raw, s.brdf.z.raw];
        for c in 0..3 {
            acc[c] += (b[c] as f64 / FX_ONE as f64) * cos / pdf;
        }
    }
    let est = [acc[0] / n as f64, acc[1] / n as f64, acc[2] / n as f64];
    let want = [0.2f64, 0.4, 0.8];
    for c in 0..3 {
        assert!(
            (est[c] - want[c]).abs() < 0.08,
            "channel {} estimate {} too far from {}",
            c,
            est[c],
            want[c]
        );
    }
}
