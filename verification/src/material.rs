//! The two-lobe dielectric material model.
//!
//! A material couples a specular microfacet reflection lobe (Torrance-Sparrow
//! style: Schlick Fresnel, normalized Blinn-Phong distribution, geometric
//! attenuation) with a Lambertian diffuse base attenuated by the energy the
//! specular lobe did not take. Importance sampling picks one lobe by Russian
//! roulette and scales the returned probability density by the probability of
//! the branch taken.

use crate::fx::{
    fx_add, fx_add_s, fx_cos, fx_cos_s, fx_div, fx_div_s, fx_from_int, fx_from_int_s, fx_abs, fx_max, fx_max_s, fx_min_s,
    fx_mul, fx_mul_s, fx_pow, fx_pow_s, fx_root, fx_root_s, fx_sin, fx_sin_s, fx_sqrt, fx_sqrt_s,
    fx_sub, fx_sub_s, iabs, lemma_fx_mul_mono, lemma_fx_mul_unit, Fx, FX_FOUR, FX_HALF, FX_INV_PI, FX_ONE,
    FX_TENTH, FX_TWO, FX_TWO_PI,
};
use crate::rng::{rng_unit, unit_fx_s, SeededRng};
use crate::vec3::{
    v3_add_s, v3_comp_min_s, v3_comp_mul_s, v3_cross_s, v3_dot_s, v3_neg_s, v3_normalize_s,
    v3_reflect_s, v3_repeat_s, v3_scale_s, v3_sub_s, v3_zero_s, V3i, Vec3,
};
use vstd::arithmetic::div_mod::lemma_div_is_ordered;
use vstd::arithmetic::mul::lemma_mul_inequality;
use vstd::prelude::*;

verus! {

/// Mathematical view of a material.
pub struct MatI {
    pub color: V3i,
    pub fresnel: V3i,
    pub shininess: int,
}

/// A surface material: base color, Fresnel reflectance at normal incidence,
/// and the shininess exponent of the specular lobe.
#[derive(Clone, Copy, Debug, PartialEq, Eq, Structural)]
pub struct Mat {
    pub color: Vec3,
    pub fresnel: Vec3,
    pub shininess: u32,
}

impl View for Mat {
    type V = MatI;

    open spec fn view(&self) -> MatI {
        MatI { color: self.color@, fresnel: self.fresnel@, shininess: self.shininess as int }
    }
}

/// Color and Fresnel components lie in `[0, 1]`.
pub open spec fn mat_wf_s(m: MatI) -> bool {
    &&& 0 <= m.color.x <= FX_ONE
    &&& 0 <= m.color.y <= FX_ONE
    &&& 0 <= m.color.z <= FX_ONE
    &&& 0 <= m.fresnel.x <= FX_ONE
    &&& 0 <= m.fresnel.y <= FX_ONE
    &&& 0 <= m.fresnel.z <= FX_ONE
    &&& 0 <= m.shininess
}

/// Mathematical view of a sampled direction.
pub struct DirSampleI {
    pub wi: V3i,
    pub pdf: int,
    pub brdf: V3i,
}

/// The result of `sample_wi`: a sampled incoming direction, its probability
/// density with respect to solid angle (zero marks an invalid sample), and
/// the BRDF evaluated for that direction pair.
#[derive(Clone, Copy, Debug, PartialEq, Eq, Structural)]
pub struct DirSample {
    pub wi: Vec3,
    pub pdf: Fx,
    pub brdf: Vec3,
}

impl View for DirSample {
    type V = DirSampleI;

    open spec fn view(&self) -> DirSampleI {
        DirSampleI { wi: self.wi@, pdf: self.pdf@, brdf: self.brdf@ }
    }
}

impl Mat {
    /// The "mirror" preset: full reflectance and a very concentrated lobe.
    pub fn mirror() -> (r: Mat)
        ensures
            r@ == (MatI {
                color: v3_zero_s(),
                fresnel: v3_repeat_s(FX_ONE as int),
                shininess: 6000,
            }),
            mat_wf_s(r@),
    {
        Mat {
            color: Vec3::zeros(),
            fresnel: Vec3::repeat(Fx { raw: FX_ONE }),
            shininess: 6000,
        }
    }

    /// The "diffuse" preset: no specular reflectance at all.
    pub fn diffuse(color: Vec3) -> (r: Mat)
        ensures
            r@ == (MatI { color: color@, fresnel: v3_zero_s(), shininess: 0 }),
    {
        Mat { color, fresnel: Vec3::zeros(), shininess: 0 }
    }
}

/// Schlick's approximation of the Fresnel term:
/// `R0 + (1 - R0) (1 - wh . wi)^5`.
pub open spec fn fresnel_schlick_s(wi: V3i, wh: V3i, fresnel: V3i) -> V3i {
    v3_add_s(
        fresnel,
        v3_scale_s(
            v3_sub_s(v3_repeat_s(FX_ONE as int), fresnel),
            fx_pow_s(fx_sub_s(FX_ONE as int, v3_dot_s(wh, wi)), 5),
        ),
    )
}

/// Normalized Blinn-Phong microfacet distribution:
/// `(s + 2) / (2 pi) * (n . wh)^s`.
pub open spec fn microfacet_d_s(wh: V3i, n: V3i, shininess: int) -> int {
    fx_mul_s(
        fx_div_s(fx_from_int_s(shininess + 2), FX_TWO_PI as int),
        fx_pow_s(v3_dot_s(n, wh), shininess as nat),
    )
}

/// Geometric attenuation of the microfacets:
/// `min(1, 2 (n.wh)(n.wo) / (wo.wh), 2 (n.wh)(n.wi) / (wo.wh))`.
pub open spec fn geom_atten_s(wi: V3i, wo: V3i, wh: V3i, n: V3i) -> int {
    fx_min_s(
        FX_ONE as int,
        fx_min_s(
            fx_div_s(
                fx_mul_s(fx_mul_s(FX_TWO as int, v3_dot_s(n, wh)), v3_dot_s(n, wo)),
                v3_dot_s(wo, wh),
            ),
            fx_div_s(
                fx_mul_s(fx_mul_s(FX_TWO as int, v3_dot_s(n, wh)), v3_dot_s(n, wi)),
                v3_dot_s(wo, wh),
            ),
        ),
    )
}

/// Specular reflection BRDF: `F D G / (4 (n.wo)(n.wi))`, zero when the
/// outgoing direction is on the wrong side of the shading normal.
pub open spec fn refl_brdf_s(wi: V3i, wo: V3i, n: V3i, m: MatI) -> V3i {
    if v3_dot_s(wo, n) < 0 {
        v3_zero_s()
    } else {
        let wh = v3_normalize_s(v3_add_s(wo, wi));
        v3_scale_s(
            fresnel_schlick_s(wi, wh, m.fresnel),
            fx_div_s(
                fx_mul_s(microfacet_d_s(wh, n, m.shininess), geom_atten_s(wi, wo, wh, n)),
                fx_mul_s(FX_FOUR as int, fx_mul_s(v3_dot_s(n, wo), v3_dot_s(n, wi))),
            ),
        )
    }
}

/// Lambertian BRDF `color / pi`, valid only when both directions are on the
/// normal's side.
pub open spec fn diffuse_brdf_s(wi: V3i, wo: V3i, n: V3i, m: MatI) -> V3i {
    if v3_dot_s(wo, n) >= 0 && v3_dot_s(wi, n) >= 0 {
        v3_scale_s(m.color, FX_INV_PI as int)
    } else {
        v3_zero_s()
    }
}

/// Energy conservation between the lobes: the diffuse base only receives the
/// light the specular lobe did not reflect, `(1 - F)` componentwise.
pub open spec fn attenuate_refr_s(wi: V3i, wo: V3i, brdf: V3i, m: MatI) -> V3i {
    let wh = v3_normalize_s(v3_add_s(wo, wi));
    v3_comp_mul_s(
        v3_sub_s(v3_repeat_s(FX_ONE as int), fresnel_schlick_s(wi, wh, m.fresnel)),
        brdf,
    )
}

/// Diffuse/refraction lobe BRDF.
pub open spec fn refr_brdf_s(wi: V3i, wo: V3i, n: V3i, m: MatI) -> V3i {
    attenuate_refr_s(wi, wo, diffuse_brdf_s(wi, wo, n, m), m)
}

/// The full two-lobe BRDF.
pub open spec fn dielectric_brdf_s(wi: V3i, wo: V3i, n: V3i, m: MatI) -> V3i {
    v3_add_s(refl_brdf_s(wi, wo, n, m), refr_brdf_s(wi, wo, n, m))
}

fn fresnel_schlick(wi: Vec3, wh: Vec3, fresnel: Vec3) -> (r: Vec3)
    ensures
        r@ == fresnel_schlick_s(wi@, wh@, fresnel@),
{
    let one = Vec3::repeat(Fx { raw: FX_ONE });
    fresnel.plus(
        one.minus(fresnel).scale(fx_pow(fx_sub(Fx { raw: FX_ONE }, wh.dot(wi)), 5)),
    )
}

fn microfacet_d(wh: Vec3, n: Vec3, shininess: u32) -> (r: Fx)
    ensures
        r@ == microfacet_d_s(wh@, n@, shininess as int),
{
    fx_mul(
        fx_div(fx_from_int((shininess as i64) + 2), Fx { raw: FX_TWO_PI }),
        fx_pow(n.dot(wh), shininess as u64),
    )
}

fn geom_atten(wi: Vec3, wo: Vec3, wh: Vec3, n: Vec3) -> (r: Fx)
    ensures
        r@ == geom_atten_s(wi@, wo@, wh@, n@),
{
    let a = fx_div(
        fx_mul(fx_mul(Fx { raw: FX_TWO }, n.dot(wh)), n.dot(wo)),
        wo.dot(wh),
    );
    let b = fx_div(
        fx_mul(fx_mul(Fx { raw: FX_TWO }, n.dot(wh)), n.dot(wi)),
        wo.dot(wh),
    );
    let inner = if a.raw <= b.raw {
        a
    } else {
        b
    };
    if FX_ONE <= inner.raw {
        Fx { raw: FX_ONE }
    } else {
        inner
    }
}

fn dielectric_reflection_brdf(wi: Vec3, wo: Vec3, n: Vec3, mat: &Mat) -> (r: Vec3)
    ensures
        r@ == refl_brdf_s(wi@, wo@, n@, mat@),
{
    if wo.dot(n).raw < 0 {
        Vec3::zeros()
    } else {
        let wh = wo.plus(wi).normalize();
        fresnel_schlick(wi, wh, mat.fresnel).scale(
            fx_div(
                fx_mul(microfacet_d(wh, n, mat.shininess), geom_atten(wi, wo, wh, n)),
                fx_mul(Fx { raw: FX_FOUR }, fx_mul(n.dot(wo), n.dot(wi))),
            ),
        )
    }
}

fn diffuse_brdf(wi: Vec3, wo: Vec3, n: Vec3, mat: &Mat) -> (r: Vec3)
    ensures
        r@ == diffuse_brdf_s(wi@, wo@, n@, mat@),
{
    if wo.dot(n).raw >= 0 && wi.dot(n).raw >= 0 {
        mat.color.scale(Fx { raw: FX_INV_PI })
    } else {
        Vec3::zeros()
    }
}

fn attenuate_diffuse_refraction(wi: Vec3, wo: Vec3, brdf_v: Vec3, mat: &Mat) -> (r: Vec3)
    ensures
        r@ == attenuate_refr_s(wi@, wo@, brdf_v@, mat@),
{
    let wh = wo.plus(wi).normalize();
    let one = Vec3::repeat(Fx { raw: FX_ONE });
    one.minus(fresnel_schlick(wi, wh, mat.fresnel)).comp_mul(brdf_v)
}

fn dielectric_refraction_brdf(wi: Vec3, wo: Vec3, n: Vec3, mat: &Mat) -> (r: Vec3)
    ensures
        r@ == refr_brdf_s(wi@, wo@, n@, mat@),
{
    attenuate_diffuse_refraction(wi, wo, diffuse_brdf(wi, wo, n, mat), mat)
}

/// Evaluate the full two-lobe BRDF for a direction pair.
pub fn brdf(wi: Vec3, wo: Vec3, n: Vec3, mat: &Mat) -> (r: Vec3)
    ensures
        r@ == dielectric_brdf_s(wi@, wo@, n@, mat@),
{
    dielectric_reflection_brdf(wi, wo, n, mat).plus(dielectric_refraction_brdf(wi, wo, n, mat))
}

/// Probability of sampling the reflection lobe:
/// `1/2 + min(R0 components) / 2`.
pub open spec fn roulette_p_s(m: MatI) -> int {
    fx_add_s(FX_HALF as int, fx_div_s(v3_comp_min_s(m.fresnel), FX_TWO as int))
}

/// Cosine-weighted hemisphere sample around `+z` from two uniform values.
pub open spec fn cosine_hemisphere_s(x1: int, x2: int) -> V3i {
    let r1 = fx_mul_s(FX_TWO_PI as int, x1);
    let r2s = fx_sqrt_s(x2);
    V3i {
        x: fx_mul_s(fx_cos_s(r1), r2s),
        y: fx_mul_s(fx_sin_s(r1), r2s),
        z: fx_sqrt_s(fx_sub_s(FX_ONE as int, x2)),
    }
}

/// Transform a vector sampled around `+z` so that it is sampled around the
/// given normal instead.
pub open spec fn onb_transform_s(normal: V3i, w: V3i) -> V3i {
    let w_up = if iabs(normal.x) > FX_TENTH {
        V3i { x: 0, y: FX_ONE as int, z: 0 }
    } else {
        V3i { x: FX_ONE as int, y: 0, z: 0 }
    };
    let tangent = v3_normalize_s(v3_cross_s(normal, w_up));
    let bitangent = v3_normalize_s(v3_cross_s(normal, tangent));
    v3_add_s(
        v3_add_s(v3_scale_s(tangent, w.x), v3_scale_s(bitangent, w.y)),
        v3_scale_s(normal, w.z),
    )
}

/// Cosine-weighted diffuse sample: direction, matching pdf `max(0, n.wi)/pi`,
/// and the diffuse BRDF for the pair.
pub open spec fn diffuse_sample_s(wo: V3i, n: V3i, m: MatI, x1: int, x2: int) -> DirSampleI {
    let wi = onb_transform_s(n, cosine_hemisphere_s(x1, x2));
    DirSampleI {
        wi,
        pdf: fx_mul_s(fx_max_s(0, v3_dot_s(n, wi)), FX_INV_PI as int),
        brdf: diffuse_brdf_s(wi, wo, n, m),
    }
}

/// Sample of the diffuse base taken as the refraction branch: the diffuse
/// sample with its BRDF attenuated by `(1 - F)`.
pub open spec fn refr_sample_s(wo: V3i, n: V3i, m: MatI, x1: int, x2: int) -> DirSampleI {
    let d = diffuse_sample_s(wo, n, m, x1, x2);
    DirSampleI { wi: d.wi, pdf: d.pdf, brdf: attenuate_refr_s(d.wi, wo, d.brdf, m) }
}

/// Power-cosine importance sample of the reflection lobe: a half-vector with
/// `cos theta = x2^(1/(s+1))`, the reflection of `-wo` about it, and the pdf
/// `(s+1)(n.wh)^s / (2 pi) / (4 (wo.wh))`. The sample is marked invalid
/// (pdf zero) when the direction ends up on the wrong side of the normal or
/// when the density does not come out positive, so a pdf is never negative.
pub open spec fn refl_sample_s(wo: V3i, n: V3i, m: MatI, x1: int, x2: int) -> DirSampleI {
    let phi = fx_mul_s(FX_TWO_PI as int, x1);
    let ct = fx_root_s(x2, (m.shininess + 1) as nat);
    let st = fx_sqrt_s(fx_sub_s(FX_ONE as int, fx_mul_s(ct, ct)));
    let wh = onb_transform_s(
        n,
        V3i { x: fx_mul_s(st, fx_cos_s(phi)), y: fx_mul_s(st, fx_sin_s(phi)), z: ct },
    );
    let pdf_wh = fx_div_s(
        fx_mul_s(fx_from_int_s(m.shininess + 1), fx_pow_s(v3_dot_s(n, wh), m.shininess as nat)),
        FX_TWO_PI as int,
    );
    let wi = v3_reflect_s(v3_neg_s(wo), wh);
    let pdf0 = fx_div_s(pdf_wh, fx_mul_s(FX_FOUR as int, v3_dot_s(wo, wh)));
    let pdf = if v3_dot_s(wi, n) >= 0 && pdf0 > 0 {
        pdf0
    } else {
        0
    };
    DirSampleI { wi, pdf, brdf: refl_brdf_s(wi, wo, n, m) }
}

/// Russian-roulette combination of the two lobes: the branch picked by
/// `xsel`, with its pdf scaled by the probability of taking that branch.
pub open spec fn dielectric_sample_s(
    wo: V3i,
    n: V3i,
    m: MatI,
    xsel: int,
    x1: int,
    x2: int,
) -> DirSampleI {
    let p = roulette_p_s(m);
    if xsel < p {
        let d = refl_sample_s(wo, n, m, x1, x2);
        DirSampleI { wi: d.wi, pdf: fx_mul_s(d.pdf, p), brdf: d.brdf }
    } else {
        let d = refr_sample_s(wo, n, m, x1, x2);
        DirSampleI { wi: d.wi, pdf: fx_mul_s(d.pdf, fx_sub_s(FX_ONE as int, p)), brdf: d.brdf }
    }
}

fn cosine_sample_hemisphere(x1: Fx, x2: Fx) -> (r: Vec3)
    requires
        0 <= x1@ <= FX_ONE,
        0 <= x2@ <= FX_ONE,
    ensures
        r@ == cosine_hemisphere_s(x1@, x2@),
{
    proof {
        lemma_fx_mul_unit(FX_TWO_PI as int, x1@);
    }
    let r1 = fx_mul(Fx { raw: FX_TWO_PI }, x1);
    let r2s = fx_sqrt(x2);
    Vec3 {
        x: fx_mul(fx_cos(r1), r2s),
        y: fx_mul(fx_sin(r1), r2s),
        z: fx_sqrt(fx_sub(Fx { raw: FX_ONE }, x2)),
    }
}

fn orthonormal_basis_inverse_transform(normal: Vec3, w: Vec3) -> (r: Vec3)
    ensures
        r@ == onb_transform_s(normal@, w@),
{
    let w_up = if fx_abs(normal.x).raw > FX_TENTH {
        Vec3::new(Fx { raw: 0 }, Fx { raw: FX_ONE }, Fx { raw: 0 })
    } else {
        Vec3::new(Fx { raw: FX_ONE }, Fx { raw: 0 }, Fx { raw: 0 })
    };
    let tangent = normal.cross(w_up).normalize();
    let bitangent = normal.cross(tangent).normalize();
    tangent.scale(w.x).plus(bitangent.scale(w.y)).plus(normal.scale(w.z))
}

/// Diffuse lobe sampling from explicit uniform values.
pub fn diffuse_sample_wi(wo: Vec3, n: Vec3, mat: &Mat, x1: Fx, x2: Fx) -> (r: DirSample)
    requires
        0 <= x1@ <= FX_ONE,
        0 <= x2@ <= FX_ONE,
    ensures
        r@ == diffuse_sample_s(wo@, n@, mat@, x1@, x2@),
{
    let wi = orthonormal_basis_inverse_transform(n, cosine_sample_hemisphere(x1, x2));
    DirSample {
        wi,
        pdf: fx_mul(fx_max(Fx { raw: 0 }, n.dot(wi)), Fx { raw: FX_INV_PI }),
        brdf: diffuse_brdf(wi, wo, n, mat),
    }
}

/// Refraction-branch sampling from explicit uniform values.
pub fn dielectric_refraction_sample_wi(wo: Vec3, n: Vec3, mat: &Mat, x1: Fx, x2: Fx) -> (r:
    DirSample)
    requires
        0 <= x1@ <= FX_ONE,
        0 <= x2@ <= FX_ONE,
    ensures
        r@ == refr_sample_s(wo@, n@, mat@, x1@, x2@),
{
    let d = diffuse_sample_wi(wo, n, mat, x1, x2);
    DirSample { wi: d.wi, pdf: d.pdf, brdf: attenuate_diffuse_refraction(d.wi, wo, d.brdf, mat) }
}

/// Reflection-lobe sampling from explicit uniform values.
pub fn dielectric_reflection_sample_wi(wo: Vec3, n: Vec3, mat: &Mat, x1: Fx, x2: Fx) -> (r:
    DirSample)
    requires
        0 <= x1@ <= FX_ONE,
        0 <= x2@ <= FX_ONE,
    ensures
        r@ == refl_sample_s(wo@, n@, mat@, x1@, x2@),
{
    proof {
        lemma_fx_mul_unit(FX_TWO_PI as int, x1@);
    }
    let phi = fx_mul(Fx { raw: FX_TWO_PI }, x1);
    let ct = fx_root(x2, (mat.shininess as u64) + 1);
    let st = fx_sqrt(fx_sub(Fx { raw: FX_ONE }, fx_mul(ct, ct)));
    let wh = orthonormal_basis_inverse_transform(
        n,
        Vec3 { x: fx_mul(st, fx_cos(phi)), y: fx_mul(st, fx_sin(phi)), z: ct },
    );
    let pdf_wh = fx_div(
        fx_mul(
            fx_from_int((mat.shininess as i64) + 1),
            fx_pow(n.dot(wh), mat.shininess as u64),
        ),
        Fx { raw: FX_TWO_PI },
    );
    let wi = wo.neg().reflect(wh);
    let pdf0 = fx_div(pdf_wh, fx_mul(Fx { raw: FX_FOUR }, wo.dot(wh)));
    let pdf = if wi.dot(n).raw >= 0 && pdf0.raw > 0 {
        pdf0
    } else {
        Fx { raw: 0 }
    };
    DirSample { wi, pdf, brdf: dielectric_reflection_brdf(wi, wo, n, mat) }
}

fn roulette_p(mat: &Mat) -> (r: Fx)
    ensures
        r@ == roulette_p_s(mat@),
{
    fx_add(Fx { raw: FX_HALF }, fx_div(mat.fresnel.comp_min(), Fx { raw: FX_TWO }))
}

/// Sample an incoming direction for the material: a Russian-roulette choice
/// between the two lobes, driven by the per-pixel generator. The result is
/// exactly the deterministic sample of the three uniform values drawn from
/// the generator's stream, and a well-formed material never yields a
/// negative density.
pub fn sample_wi(rng: &mut SeededRng, wo: Vec3, n: Vec3, mat: Mat) -> (r: DirSample)
    ensures
        r@ == dielectric_sample_s(
            wo@,
            n@,
            mat@,
            unit_fx_s(old(rng).seed(), old(rng).next_i()),
            unit_fx_s(old(rng).seed(), old(rng).next_i() + 1),
            unit_fx_s(old(rng).seed(), old(rng).next_i() + 2),
        ),
        final(rng).seed() == old(rng).seed(),
        final(rng).next_i() == old(rng).next_i() + 3,
        mat_wf_s(mat@) ==> r@.pdf >= 0,
{
    let p = roulette_p(&mat);
    let xsel = rng_unit(rng);
    let x1 = rng_unit(rng);
    let x2 = rng_unit(rng);
    let r = if xsel.raw < p.raw {
        let d = dielectric_reflection_sample_wi(wo, n, &mat, x1, x2);
        DirSample { wi: d.wi, pdf: fx_mul(d.pdf, p), brdf: d.brdf }
    } else {
        let d = dielectric_refraction_sample_wi(wo, n, &mat, x1, x2);
        DirSample { wi: d.wi, pdf: fx_mul(d.pdf, fx_sub(Fx { raw: FX_ONE }, p)), brdf: d.brdf }
    };
    proof {
        assert(r@ == dielectric_sample_s(wo@, n@, mat@, xsel@, x1@, x2@));
        if mat_wf_s(mat@) {
            lemma_sample_pdf_nonneg(wo@, n@, mat@, xsel@, x1@, x2@);
        }
    }
    r
}

/// A well-formed material's sample never carries a negative density: an
/// invalid reflection sample is marked with a zero pdf, the diffuse density
/// is a product of non-negative factors, and the branch scaling by `p` or
/// `1 - p` preserves the sign.
pub proof fn lemma_sample_pdf_nonneg(wo: V3i, n: V3i, m: MatI, xsel: int, x1: int, x2: int)
    requires
        mat_wf_s(m),
    ensures
        dielectric_sample_s(wo, n, m, xsel, x1, x2).pdf >= 0,
{
    lemma_roulette_p_bounds(m);
    let p = roulette_p_s(m);
    if xsel < p {
        let d = refl_sample_s(wo, n, m, x1, x2);
        lemma_fx_mul_mono(0, d.pdf, p);
    } else {
        let d = refr_sample_s(wo, n, m, x1, x2);
        lemma_fx_mul_mono(0, fx_max_s(0, v3_dot_s(n, d.wi)), FX_INV_PI as int);
        lemma_fx_mul_mono(0, d.pdf, fx_sub_s(FX_ONE as int, p));
    }
}

/// The Russian-roulette branch probability always lies in `[1/2, 1]` for a
/// well-formed material.
pub proof fn lemma_roulette_p_bounds(m: MatI)
    requires
        mat_wf_s(m),
    ensures
        FX_HALF <= roulette_p_s(m) <= FX_ONE,
{
    let c = v3_comp_min_s(m.fresnel);
    assert(0 <= c <= FX_ONE);
    if c != 0 {
        lemma_mul_inequality(c, FX_ONE as int, FX_ONE as int);
        lemma_mul_inequality(0, c, FX_ONE as int);
        lemma_div_is_ordered(0, c * (FX_ONE as int), FX_TWO as int);
        lemma_div_is_ordered(c * (FX_ONE as int), (FX_ONE as int) * (FX_ONE as int), FX_TWO as int);
    }
}

/// The pdf handed back by lobe selection always carries the scaling of the
/// branch that was taken: the reflection sample's pdf times `p`, or the
/// refraction sample's pdf times `1 - p`.
pub proof fn lemma_sample_pdf_scaling(wo: V3i, n: V3i, m: MatI, xsel: int, x1: int, x2: int)
    ensures
        xsel < roulette_p_s(m) ==> dielectric_sample_s(wo, n, m, xsel, x1, x2).pdf == fx_mul_s(
            refl_sample_s(wo, n, m, x1, x2).pdf,
            roulette_p_s(m),
        ),
        xsel >= roulette_p_s(m) ==> dielectric_sample_s(wo, n, m, xsel, x1, x2).pdf == fx_mul_s(
            refr_sample_s(wo, n, m, x1, x2).pdf,
            fx_sub_s(FX_ONE as int, roulette_p_s(m)),
        ),
{
}

} // verus!
