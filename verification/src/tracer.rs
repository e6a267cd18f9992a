//! The frame dispatcher and progressive accumulation buffer.
//!
//! Each frame the dispatcher derives the trace resolution from the target
//! resolution and the subsampling divisor, generates one primary ray per
//! pixel from the camera snapshot, traces the rows in parallel (each row is
//! an independent pure computation seeded from the frame seed and its row
//! index), and folds the resulting samples into the owned accumulation
//! buffer. The buffer holds per-pixel sums of samples; the displayed value
//! is the running mean, so a fixed seed sequence reproduces the arithmetic
//! mean of the individual frames exactly.

use crate::config::{Config, ConfigI};
use crate::fx::{
    fx_add_s, fx_div, fx_div_s, fx_from_int, fx_from_int_s, fx_min_s, Fx, FX_HALF, FX_MAX, FX_ONE,
};
use crate::geom::{Scene, Sphere};
use crate::integrate::{trace, trace_s};
use crate::intersect::Ray;
use crate::rng::{random_seed_value, rng_from_seed, rng_next, stream_of};
use crate::vec3::{
    v3_add_s, v3_div_k_s, v3_normalize_s, v3_repeat_s, v3_scale_s, v3_zero_s, V3i, Vec3,
};
use vstd::wrapping::u64_specs;
use rayon::iter::{IntoParallelIterator, ParallelIterator};
use vstd::prelude::*;

verus! {

/// A target or trace resolution in pixels.
#[derive(Clone, Copy, Debug, PartialEq, Eq, Structural)]
pub struct Dims {
    pub w: u32,
    pub h: u32,
}

/// Mathematical view of a camera snapshot.
pub struct CamVecsI {
    pub pos: V3i,
    pub screen_origin: V3i,
    pub x_axis: V3i,
    pub y_axis: V3i,
}

/// A camera snapshot, produced by the external camera collaborator: the
/// camera position and the three screen vectors, such that the world
/// direction for normalized screen coordinates `(u, v)` is
/// `normalize(screen_origin + u * x_axis + v * y_axis)`.
#[derive(Clone, Copy, Debug, PartialEq, Eq, Structural)]
pub struct CamVecs {
    pub pos: Vec3,
    pub screen_origin: Vec3,
    pub x_axis: Vec3,
    pub y_axis: Vec3,
}

impl View for CamVecs {
    type V = CamVecsI;

    open spec fn view(&self) -> CamVecsI {
        CamVecsI {
            pos: self.pos@,
            screen_origin: self.screen_origin@,
            x_axis: self.x_axis@,
            y_axis: self.y_axis@,
        }
    }
}

/// The sentinel color of cells that were exposed by a resize and not yet
/// written: a glaring out-of-range magenta.
pub open spec fn err_color_s() -> V3i {
    V3i { x: 65536000000, y: 0, z: 65536000000 }
}

/// The sentinel color as a value.
pub fn err_color() -> (r: Vec3)
    ensures
        r@ == err_color_s(),
{
    Vec3 { x: Fx { raw: 65536000000 }, y: Fx { raw: 0 }, z: Fx { raw: 65536000000 } }
}

/// A radiance channel as a display-ready byte: clamped to `[0, 1]` and
/// scaled to `[0, 255]`, rounding down.
pub open spec fn byte_of_s(v: int) -> int {
    let c = if v < 0 {
        0
    } else if v > FX_ONE {
        FX_ONE as int
    } else {
        v
    };
    (c * 255) / (FX_ONE as int)
}

/// One display-ready channel of a radiance value.
pub fn to_byte(v: Fx) -> (r: u8)
    ensures
        r as int == byte_of_s(v@),
{
    let c: i64 = if v.raw < 0 {
        0
    } else if v.raw > FX_ONE {
        FX_ONE
    } else {
        v.raw
    };
    ((c * 255) / FX_ONE) as u8
}

/// A pixel as display-ready 8-bit channels.
pub fn to_rgb8(p: Vec3) -> (r: (u8, u8, u8))
    ensures
        r.0 as int == byte_of_s(p@.x),
        r.1 as int == byte_of_s(p@.y),
        r.2 as int == byte_of_s(p@.z),
{
    (to_byte(p.x), to_byte(p.y), to_byte(p.z))
}

/// One accumulation step for one pixel: the first sample after a reset
/// replaces the cell, later samples are added to the running sum.
pub open spec fn accum_pixel_s(prev: V3i, sample: V3i, n: int) -> V3i {
    if n == 0 {
        sample
    } else {
        v3_add_s(prev, sample)
    }
}

/// The displayed value of a cell holding the sum of `n` samples: the sum
/// divided by `n` (the sum itself while no sample is accumulated).
pub open spec fn pixel_out_s(sum: V3i, n: int) -> V3i {
    if n == 0 {
        sum
    } else {
        v3_div_k_s(sum, fx_from_int_s(fx_min_s(n, FX_MAX as int)))
    }
}

/// The trace resolution for one axis: the target divided by the subsampling
/// divisor, at least one.
pub open spec fn trace_dim_s(d: int, sub: int) -> int {
    let q = d / sub;
    if q == 0 {
        1
    } else {
        q
    }
}

/// The accumulation count a frame is folded with: zero after any restart
/// (accumulation disabled, camera movement with the reset toggle set, or a
/// change of trace resolution), the current count otherwise.
pub open spec fn frame_n1_s(pre: Tracer, cam: CamVecs, dims: Dims) -> int {
    let tw = trace_dim_s(dims.w as int, pre.subsampling as int);
    let th = trace_dim_s(dims.h as int, pre.subsampling as int);
    let moved = pre.reset_on_move && pre.prev_cam != cam;
    let n0: int = if pre.accum_n_max == 0 || moved {
        0
    } else {
        pre.accum_n as int
    };
    if tw != pre.dims.w as int || th != pre.dims.h as int {
        0
    } else {
        n0
    }
}

/// The frame is static: a cap is set and already reached, so nothing is
/// traced and the buffer is untouched.
pub open spec fn frame_static_s(pre: Tracer, cam: CamVecs, dims: Dims) -> bool {
    pre.accum_n_max > 0 && frame_n1_s(pre, cam, dims) >= pre.accum_n_max as int
}

/// All components of a vector lie in the representable fixed-point range.
pub open spec fn v3_wf_s(v: V3i) -> bool {
    &&& -FX_MAX <= v.x <= FX_MAX
    &&& -FX_MAX <= v.y <= FX_MAX
    &&& -FX_MAX <= v.z <= FX_MAX
}

/// The saturating fixed-point sum of a sequence of samples.
pub open spec fn fx_sum_s(frames: Seq<V3i>) -> V3i
    decreases frames.len(),
{
    if frames.len() == 0 {
        v3_zero_s()
    } else {
        v3_add_s(fx_sum_s(frames.drop_last()), frames.last())
    }
}

/// The accumulator cell after the given per-frame samples are folded in,
/// starting from a reset accumulator: frame `k` is applied with count `k`.
pub open spec fn accum_run_s(frames: Seq<V3i>) -> V3i
    decreases frames.len(),
{
    if frames.len() == 0 {
        v3_zero_s()
    } else {
        accum_pixel_s(accum_run_s(frames.drop_last()), frames.last(), frames.len() - 1)
    }
}

/// Progressive accumulation computes the arithmetic mean: folding N
/// per-frame samples into a reset accumulator leaves exactly their
/// fixed-point sum in the cell, so the displayed value is the sum divided by
/// N -- the same value as averaging N independently kept single-sample
/// frames.
pub proof fn lemma_progressive_mean(frames: Seq<V3i>)
    requires
        frames.len() >= 1,
        forall|i: int| 0 <= i < frames.len() ==> v3_wf_s(#[trigger] frames[i]),
    ensures
        accum_run_s(frames) == fx_sum_s(frames),
        pixel_out_s(accum_run_s(frames), frames.len() as int) == v3_div_k_s(
            fx_sum_s(frames),
            fx_from_int_s(fx_min_s(frames.len() as int, FX_MAX as int)),
        ),
    decreases frames.len(),
{
    if frames.len() == 1 {
        let s = frames[0];
        assert(frames.drop_last().len() == 0);
        assert(frames.last() == s);
        assert(fx_sum_s(frames.drop_last()) == v3_zero_s());
        assert(fx_sum_s(frames) == v3_add_s(v3_zero_s(), s));
        assert(fx_add_s(0, s.x) == s.x);
        assert(fx_add_s(0, s.y) == s.y);
        assert(fx_add_s(0, s.z) == s.z);
        assert(accum_run_s(frames) == s);
    } else {
        lemma_progressive_mean(frames.drop_last());
        assert(frames.last() == frames[frames.len() - 1]);
    }
}

/// Every radiance value lies in the representable fixed-point range: each
/// branch of the estimate ends in a clipped operation.
pub proof fn lemma_trace_s_wf(
    origin: V3i,
    dir: V3i,
    bounces: int,
    throughput: V3i,
    scene: Seq<Sphere>,
    cfg: ConfigI,
    seed: u64,
    i: int,
)
    ensures
        v3_wf_s(trace_s(origin, dir, bounces, throughput, scene, cfg, seed, i)),
{
    assert(v3_wf_s(trace_s(origin, dir, bounces, throughput, scene, cfg, seed, i)));
}

/// Deterministic seeding makes progressive accumulation the arithmetic mean
/// of the seeded frames: the colors one pixel receives from the frame seeds
/// `0 .. n-1` fold to exactly their fixed-point sum, so the displayed value
/// is their fixed-point mean -- the same value as averaging the `n`
/// single-sample frames computed alone with those seeds.
pub proof fn lemma_deterministic_frames_mean(
    x: int,
    y: int,
    tw: int,
    th: int,
    cam: CamVecsI,
    scene: Seq<Sphere>,
    cfg: ConfigI,
    n: nat,
)
    requires
        n >= 1,
    ensures
        ({
            let colors = Seq::new(n, |k: int| pixel_color_s(x, y, tw, th, cam, scene, k as u64, cfg));
            accum_run_s(colors) == fx_sum_s(colors) && pixel_out_s(accum_run_s(colors), n as int)
                == v3_div_k_s(
                fx_sum_s(colors),
                fx_from_int_s(fx_min_s(n as int, FX_MAX as int)),
            )
        }),
{
    let colors = Seq::new(n, |k: int| pixel_color_s(x, y, tw, th, cam, scene, k as u64, cfg));
    assert forall|j: int| 0 <= j < colors.len() implies v3_wf_s(#[trigger] colors[j]) by {
        let sd = j as u64;
        let row_seed = stream_of(u64_specs::wrapping_add(sd, y as u64), 0);
        let pix_seed = u64_specs::wrapping_add(row_seed, x as u64);
        lemma_trace_s_wf(
            cam.pos,
            primary_dir_s(cam, pixel_coord_s(x, tw), pixel_coord_s(y, th)),
            cfg.max_bounces,
            v3_repeat_s(FX_ONE as int),
            scene,
            cfg,
            pix_seed,
            0,
        );
        assert(colors[j] == pixel_color_s(x, y, tw, th, cam, scene, sd, cfg));
    }
    lemma_progressive_mean(colors);
}

/// The path tracer's frame-to-frame state: the accumulation buffer (sums of
/// per-pixel samples), the seeding and reset toggles, the subsampling
/// divisor, the accumulation count and cap, the current trace resolution and
/// the previous frame's camera (for movement detection).
pub struct Tracer {
    pub pixel_buf: Vec<Vec3>,
    pub random_seed: bool,
    pub subsampling: u8,
    pub accum_n_max: u64,
    pub accum_n: u64,
    pub reset_on_move: bool,
    pub dims: Dims,
    pub prev_cam: CamVecs,
    pub cfg: Config,
}

/// Fold one frame of samples into the accumulation buffer: with a reset
/// count the samples replace the cells, otherwise they are added.
pub fn accumulate_frame(buf: &mut Vec<Vec3>, samples: &Vec<Vec3>, n: u64)
    requires
        old(buf)@.len() == samples@.len(),
    ensures
        final(buf)@.len() == samples@.len(),
        forall|k: int|
            0 <= k < samples@.len() ==> (#[trigger] final(buf)@[k])@ == accum_pixel_s(
                old(buf)@[k]@,
                samples@[k]@,
                n as int,
            ),
{
    let mut k: usize = 0;
    while k < samples.len()
        invariant
            buf@.len() == samples@.len(),
            k <= samples@.len(),
            forall|j: int|
                0 <= j < k ==> (#[trigger] buf@[j])@ == accum_pixel_s(
                    old(buf)@[j]@,
                    samples@[j]@,
                    n as int,
                ),
            forall|j: int| k <= j < samples@.len() ==> #[trigger] buf@[j] == old(buf)@[j],
        decreases samples@.len() - k,
    {
        if n == 0 {
            buf[k] = samples[k];
        } else {
            buf[k] = buf[k].plus(samples[k]);
        }
        k = k + 1;
    }
}

/// The normalized pixel-center coordinate `(x + 1/2) / extent`.
pub open spec fn pixel_coord_s(x: int, extent: int) -> int {
    fx_div_s(fx_add_s(fx_from_int_s(x), FX_HALF as int), fx_from_int_s(extent))
}

/// The world direction of the primary ray through normalized screen
/// coordinates `(u, v)`: `normalize(screen_origin + u x_axis + v y_axis)`.
pub open spec fn primary_dir_s(cam: CamVecsI, u: int, v: int) -> V3i {
    v3_normalize_s(
        v3_add_s(v3_add_s(cam.screen_origin, v3_scale_s(cam.x_axis, u)), v3_scale_s(cam.y_axis, v)),
    )
}

/// The traced color of pixel `(x, y)` of a frame: the radiance along the
/// primary ray through the pixel center, with the configured bounce budget
/// and unit throughput, consuming the stream of a generator seeded purely
/// from the frame seed, the row index and the column index.
pub open spec fn pixel_color_s(
    x: int,
    y: int,
    tw: int,
    th: int,
    cam: CamVecsI,
    scene: Seq<Sphere>,
    seed: u64,
    cfg: ConfigI,
) -> V3i {
    let row_seed = stream_of(u64_specs::wrapping_add(seed, y as u64), 0);
    let pix_seed = u64_specs::wrapping_add(row_seed, x as u64);
    trace_s(
        cam.pos,
        primary_dir_s(cam, pixel_coord_s(x, tw), pixel_coord_s(y, th)),
        cfg.max_bounces,
        v3_repeat_s(FX_ONE as int),
        scene,
        cfg,
        pix_seed,
        0,
    )
}

/// One row of traced pixels. The primary ray of pixel `(x, y)` goes through
/// the pixel center `((x + 1/2) / w, (y + 1/2) / h)` of the camera's screen,
/// and its generator is seeded from the frame seed, the row index and the
/// column index alone, so a row is reproducible for a fixed seed: each pixel
/// is exactly `pixel_color_s`.
pub fn trace_row(
    y: usize,
    tw: usize,
    th: usize,
    cam: &CamVecs,
    scene: &Scene,
    seed: u64,
    cfg: &Config,
) -> (row: Vec<Vec3>)
    requires
        tw <= 4294967295,
        th <= 4294967295,
        y < th,
    ensures
        row@.len() == tw,
        forall|x: int|
            0 <= x < tw ==> (#[trigger] row@[x])@ == pixel_color_s(
                x,
                y as int,
                tw as int,
                th as int,
                cam@,
                scene@,
                seed,
                cfg@,
            ),
{
    let mut srng = rng_from_seed(seed.wrapping_add(y as u64));
    let row_seed = rng_next(&mut srng);
    let v = fx_div(
        fx_add_half(fx_from_int(y as i64)),
        fx_from_int(th as i64),
    );
    let mut row: Vec<Vec3> = Vec::new();
    let mut x: usize = 0;
    while x < tw
        invariant
            row@.len() == x,
            x <= tw,
            tw <= 4294967295,
            y < th,
            v@ == pixel_coord_s(y as int, th as int),
            row_seed == stream_of(u64_specs::wrapping_add(seed, y as u64), 0),
            forall|j: int|
                0 <= j < x ==> (#[trigger] row@[j])@ == pixel_color_s(
                    j,
                    y as int,
                    tw as int,
                    th as int,
                    cam@,
                    scene@,
                    seed,
                    cfg@,
                ),
        decreases tw - x,
    {
        let u = fx_div(
            fx_add_half(fx_from_int(x as i64)),
            fx_from_int(tw as i64),
        );
        let dir = cam.screen_origin.plus(cam.x_axis.scale(u)).plus(cam.y_axis.scale(v))
            .normalize();
        let ray = Ray {
            origin: cam.pos,
            dir,
            bounces: cfg.max_bounces,
            throughput: Vec3::repeat(Fx { raw: FX_ONE }),
        };
        let mut prng = rng_from_seed(row_seed.wrapping_add(x as u64));
        let c = trace(ray, &mut prng, scene, cfg);
        row.push(c);
        x = x + 1;
    }
    row
}

/// Half a pixel's offset.
fn fx_add_half(a: Fx) -> (r: Fx)
    ensures
        r@ == fx_add_s(a@, FX_HALF as int),
{
    crate::fx::fx_add(a, Fx { raw: FX_HALF })
}

/// Relies on rayon's `into_par_iter().map(..).collect()`: the collected
/// vector has one entry per row index, in index order, and each entry is the
/// closure's result for that index. The closure only calls the verified
/// `trace_row`, whose requires are met (`y` ranges over `0..th`) and whose
/// contract gives each row's length and pixel values.
#[verifier::external_body]
fn par_trace_rows(
    tw: usize,
    th: usize,
    cam: &CamVecs,
    scene: &Scene,
    seed: u64,
    cfg: &Config,
) -> (rows: Vec<Vec<Vec3>>)
    requires
        tw <= 4294967295,
        th <= 4294967295,
    ensures
        rows@.len() == th,
        forall|y: int| 0 <= y < th ==> (#[trigger] rows@[y])@.len() == tw,
        forall|y: int, x: int|
            0 <= y < th && 0 <= x < tw ==> (#[trigger] rows@[y]@[x])@ == pixel_color_s(
                x,
                y,
                tw as int,
                th as int,
                cam@,
                scene@,
                seed,
                cfg@,
            ),
{
    (0..th).into_par_iter().map(|y| trace_row(y, tw, th, cam, scene, seed, cfg)).collect()
}

/// Every cell of the frame holds one accumulation step: the previous sum
/// (ignored on a reset count) folded with the traced color of that cell's
/// pixel, for the given frame seed. Marked opaque so that frame contracts
/// stay small; `lemma_frame_cells` and `lemma_frame_cells_reset` reveal it.
#[verifier::opaque]
pub open spec fn frame_cells_ok(
    buf: Seq<Vec3>,
    prev: Seq<Vec3>,
    n1: int,
    tw: int,
    th: int,
    cam: CamVecsI,
    scene: Seq<Sphere>,
    seed: u64,
    cfg: ConfigI,
) -> bool {
    forall|k: int|
        0 <= k < th * tw ==> (#[trigger] buf[k])@ == accum_pixel_s(
            if n1 == 0 {
                v3_zero_s()
            } else {
                prev[k]@
            },
            pixel_color_s(k % tw, k / tw, tw, th, cam, scene, seed, cfg),
            n1,
        )
}

proof fn lemma_rowmajor_bound(j: int, xx: int, y: int, tw: int)
    requires
        0 <= j < y,
        0 <= xx < tw,
    ensures
        0 <= j * tw + xx < y * tw,
{
    assert(0 <= j * tw + xx && j * tw + xx < y * tw) by (nonlinear_arith)
        requires
            0 <= j < y,
            0 <= xx < tw,
    ;
}

/// Bridge from the accumulation step and the row-major sample layout to
/// `frame_cells_ok`: if every cell is the accumulation of its flattened
/// sample and every flattened sample is the traced color of its pixel, then
/// every cell satisfies the frame contract.
proof fn lemma_frame_cells(
    buf: Seq<Vec3>,
    prev0: Seq<Vec3>,
    prev: Seq<Vec3>,
    flat: Seq<Vec3>,
    n1: int,
    tw: int,
    th: int,
    cam: CamVecsI,
    scene: Seq<Sphere>,
    sd: u64,
    cfg: ConfigI,
)
    requires
        tw >= 1,
        th >= 1,
        flat.len() == th * tw,
        forall|k: int|
            0 <= k < flat.len() ==> (#[trigger] buf[k])@ == accum_pixel_s(
                prev0[k]@,
                flat[k]@,
                n1,
            ),
        n1 != 0 ==> prev0 == prev,
        forall|y: int, x: int|
            0 <= y < th && 0 <= x < tw ==> (#[trigger] flat[y * tw + x])@ == pixel_color_s(
                x,
                y,
                tw,
                th,
                cam,
                scene,
                sd,
                cfg,
            ),
    ensures
        frame_cells_ok(buf, prev, n1, tw, th, cam, scene, sd, cfg),
{
    reveal(frame_cells_ok);
    assert forall|k: int| 0 <= k < th * tw implies (#[trigger] buf[k])@ == accum_pixel_s(
        if n1 == 0 {
            v3_zero_s()
        } else {
            prev[k]@
        },
        pixel_color_s(k % tw, k / tw, tw, th, cam, scene, sd, cfg),
        n1,
    ) by {
        vstd::arithmetic::div_mod::lemma_fundamental_div_mod(k, tw);
        vstd::arithmetic::div_mod::lemma_mod_division_less_than_divisor(k, tw);
        vstd::arithmetic::div_mod::lemma_div_pos_is_pos(k, tw);
        vstd::arithmetic::mul::lemma_mul_is_commutative(th, tw);
        vstd::arithmetic::div_mod::lemma_multiply_divide_lt(k, tw, th);
        vstd::arithmetic::mul::lemma_mul_is_commutative(tw, k / tw);
        assert((k / tw) * tw + k % tw == k);
        assert(flat[k]@ == pixel_color_s(k % tw, k / tw, tw, th, cam, scene, sd, cfg));
    }
}

/// On a reset count the previous buffer does not enter the frame contract.
proof fn lemma_frame_cells_reset(
    buf: Seq<Vec3>,
    prev_a: Seq<Vec3>,
    prev_b: Seq<Vec3>,
    tw: int,
    th: int,
    cam: CamVecsI,
    scene: Seq<Sphere>,
    sd: u64,
    cfg: ConfigI,
)
    requires
        frame_cells_ok(buf, prev_a, 0, tw, th, cam, scene, sd, cfg),
    ensures
        frame_cells_ok(buf, prev_b, 0, tw, th, cam, scene, sd, cfg),
{
    reveal(frame_cells_ok);
    assert forall|k: int| 0 <= k < th * tw implies (#[trigger] buf[k])@ == accum_pixel_s(
        v3_zero_s(),
        pixel_color_s(k % tw, k / tw, tw, th, cam, scene, sd, cfg),
        0,
    ) by {
        assert(buf[k]@ == accum_pixel_s(
            v3_zero_s(),
            pixel_color_s(k % tw, k / tw, tw, th, cam, scene, sd, cfg),
            0,
        ));
    }
}

/// Concatenate the rows into one row-major sample buffer.
fn flatten_rows(rows: &Vec<Vec<Vec3>>, tw: usize, th: usize) -> (r: Vec<Vec3>)
    requires
        rows@.len() == th,
        forall|y: int| 0 <= y < th ==> (#[trigger] rows@[y])@.len() == tw,
        (th as int) * (tw as int) <= usize::MAX as int,
    ensures
        r@.len() == (th as int) * (tw as int),
        forall|y: int, x: int|
            0 <= y < th && 0 <= x < tw ==> r@[y * (tw as int) + x] == #[trigger] rows@[y]@[x],
{
    let mut r: Vec<Vec3> = Vec::new();
    let mut y: usize = 0;
    proof {
        vstd::arithmetic::mul::lemma_mul_inequality(0, th as int, tw as int);
    }
    while y < th
        invariant
            y <= th,
            rows@.len() == th,
            forall|j: int| 0 <= j < th ==> (#[trigger] rows@[j])@.len() == tw,
            (th as int) * (tw as int) <= usize::MAX as int,
            r@.len() == (y as int) * (tw as int),
            forall|j: int, x: int|
                0 <= j < y && 0 <= x < tw ==> r@[j * (tw as int) + x] == #[trigger] rows@[j]@[x],
        decreases th - y,
    {
        let row = &rows[y];
        let mut x: usize = 0;
        while x < tw
            invariant
                y < th,
                x <= tw,
                rows@.len() == th,
                forall|j: int| 0 <= j < th ==> (#[trigger] rows@[j])@.len() == tw,
                row == &rows[y as int],
                r@.len() == (y as int) * (tw as int) + x,
                forall|j: int, xx: int|
                    0 <= j < y && 0 <= xx < tw ==> r@[j * (tw as int) + xx] == #[trigger] rows@[
                        j
                    ]@[xx],
                forall|xx: int|
                    0 <= xx < x ==> r@[(y as int) * (tw as int) + xx] == #[trigger] rows@[
                        y as int
                    ]@[xx],
            decreases tw - x,
        {
            r.push(row[x]);
            x = x + 1;
            proof {
                assert forall|j: int, xx: int|
                    0 <= j < y && 0 <= xx < tw implies r@[j * (tw as int) + xx] == rows@[j]@[xx] by {
                    lemma_rowmajor_bound(j, xx, y as int, tw as int);
                }
            }
        }
        proof {
            assert(((y as int) + 1) * (tw as int) == (y as int) * (tw as int) + (tw as int))
                by (nonlinear_arith);
            assert forall|j: int, xx: int|
                0 <= j < y + 1 && 0 <= xx < tw implies r@[j * (tw as int) + xx] == rows@[j]@[xx] by {
                if j < y {
                    lemma_rowmajor_bound(j, xx, (y + 1) as int, tw as int);
                }
            }
        }
        y = y + 1;
    }
    r
}

impl Tracer {
    /// The buffer always matches the current trace resolution, and the
    /// subsampling divisor is positive.
    pub open spec fn wf(&self) -> bool {
        &&& self.subsampling >= 1
        &&& self.pixel_buf@.len() == (self.dims.w as int) * (self.dims.h as int)
    }

    /// A fresh tracer: empty buffer, random seeding, subsampling of four,
    /// accumulation disabled, the default configuration.
    pub fn new() -> (r: Tracer)
        ensures
            r.wf(),
            r.pixel_buf@.len() == 0,
            r.random_seed == true,
            r.subsampling == 4,
            r.accum_n_max == 0,
            r.accum_n == 0,
            r.reset_on_move == false,
            r.dims == (Dims { w: 0, h: 0 }),
            r.cfg@ == crate::config::preset_config_s(),
    {
        Tracer {
            pixel_buf: Vec::new(),
            random_seed: true,
            subsampling: 4,
            accum_n_max: 0,
            accum_n: 0,
            reset_on_move: false,
            dims: Dims { w: 0, h: 0 },
            prev_cam: CamVecs {
                pos: Vec3::zeros(),
                screen_origin: Vec3::zeros(),
                x_axis: Vec3::zeros(),
                y_axis: Vec3::zeros(),
            },
            cfg: Config::preset(),
        }
    }

    /// Restart accumulation: the next frame overwrites the buffer.
    pub fn reset_accum(&mut self)
        ensures
            *final(self) == (Tracer { accum_n: 0, ..*old(self) }),
    {
        self.accum_n = 0;
    }

    /// Switch between a fresh random seed per frame and the deterministic
    /// counter seed; restarts accumulation.
    pub fn toggle_random_seed(&mut self)
        ensures
            *final(self) == (Tracer {
                random_seed: !old(self).random_seed,
                accum_n: 0,
                ..*old(self)
            }),
    {
        self.random_seed = !self.random_seed;
        self.reset_accum()
    }

    /// Toggle "restart accumulation when the camera moves"; restarts
    /// accumulation.
    pub fn toggle_reset_on_move(&mut self)
        ensures
            *final(self) == (Tracer {
                reset_on_move: !old(self).reset_on_move,
                accum_n: 0,
                ..*old(self)
            }),
    {
        self.reset_on_move = !self.reset_on_move;
        self.reset_accum()
    }

    /// Toggle progressive accumulation between "off" (cap zero) and
    /// "unbounded"; restarts accumulation.
    pub fn toggle_accum(&mut self)
        ensures
            *final(self) == (Tracer {
                accum_n_max: if old(self).accum_n_max == 0 {
                    18446744073709551615u64
                } else {
                    0
                },
                accum_n: 0,
                ..*old(self)
            }),
    {
        self.accum_n_max = if self.accum_n_max == 0 {
            18446744073709551615u64
        } else {
            0
        };
        self.reset_accum()
    }

    /// Lower the accumulation cap by one, saturating at zero; restarts
    /// accumulation.
    pub fn decrease_accum_n_max(&mut self)
        ensures
            *final(self) == (Tracer {
                accum_n_max: if old(self).accum_n_max == 0 {
                    0
                } else {
                    (old(self).accum_n_max - 1) as u64
                },
                accum_n: 0,
                ..*old(self)
            }),
    {
        if self.accum_n_max > 0 {
            self.accum_n_max = self.accum_n_max - 1;
        }
        self.reset_accum()
    }

    /// Raise the accumulation cap by one, saturating at the maximum;
    /// restarts accumulation.
    pub fn increase_accum_n_max(&mut self)
        ensures
            *final(self) == (Tracer {
                accum_n_max: if old(self).accum_n_max == 18446744073709551615u64 {
                    18446744073709551615u64
                } else {
                    (old(self).accum_n_max + 1) as u64
                },
                accum_n: 0,
                ..*old(self)
            }),
    {
        if self.accum_n_max < 18446744073709551615u64 {
            self.accum_n_max = self.accum_n_max + 1;
        }
        self.reset_accum()
    }

    /// Lower the subsampling divisor by one, never below one; restarts
    /// accumulation.
    pub fn decrease_subsampling_denom(&mut self)
        requires
            old(self).wf(),
        ensures
            *final(self) == (Tracer {
                subsampling: if old(self).subsampling <= 1 {
                    1
                } else {
                    (old(self).subsampling - 1) as u8
                },
                accum_n: 0,
                ..*old(self)
            }),
            final(self).wf(),
    {
        if self.subsampling > 1 {
            self.subsampling = self.subsampling - 1;
        }
        self.reset_accum()
    }

    /// Raise the subsampling divisor by one, saturating; restarts
    /// accumulation.
    pub fn increase_subsampling_denom(&mut self)
        requires
            old(self).wf(),
        ensures
            *final(self) == (Tracer {
                subsampling: if old(self).subsampling == 255 {
                    255
                } else {
                    (old(self).subsampling + 1) as u8
                },
                accum_n: 0,
                ..*old(self)
            }),
            final(self).wf(),
    {
        if self.subsampling < 255 {
            self.subsampling = self.subsampling + 1;
        }
        self.reset_accum()
    }

    /// The current subsampling divisor.
    pub fn subsampling(&self) -> (r: u8)
        ensures
            r == self.subsampling,
    {
        self.subsampling
    }

    /// Resize the buffer to the given trace resolution: existing cells keep
    /// their contents, newly exposed cells hold the sentinel error color
    /// until first written, and accumulation restarts.
    pub fn resize_pixel_buf(&mut self, dims: Dims)
        requires
            old(self).wf(),
            dims.w >= 1,
            dims.h >= 1,
            (dims.w as int) * (dims.h as int) <= usize::MAX as int,
        ensures
            final(self).wf(),
            final(self).dims == dims,
            final(self).accum_n == 0,
            final(self).pixel_buf@.len() == (dims.w as int) * (dims.h as int),
            forall|k: int|
                0 <= k < old(self).pixel_buf@.len() && k < final(self).pixel_buf@.len()
                    ==> final(self).pixel_buf@[k] == old(self).pixel_buf@[k],
            forall|k: int|
                old(self).pixel_buf@.len() <= k < final(self).pixel_buf@.len() ==> (
                #[trigger] final(self).pixel_buf@[k])@ == err_color_s(),
            final(self).random_seed == old(self).random_seed,
            final(self).subsampling == old(self).subsampling,
            final(self).accum_n_max == old(self).accum_n_max,
            final(self).reset_on_move == old(self).reset_on_move,
            final(self).prev_cam == old(self).prev_cam,
            final(self).cfg == old(self).cfg,
    {
        proof {
            vstd::arithmetic::mul::lemma_mul_nonnegative(dims.w as int, dims.h as int);
        }
        let n: usize = (dims.w as usize) * (dims.h as usize);
        let mut buf: Vec<Vec3> = Vec::new();
        let mut k: usize = 0;
        while k < n
            invariant
                k <= n,
                buf@.len() == k,
                self.pixel_buf@ == old(self).pixel_buf@,
                forall|j: int|
                    0 <= j < k && j < self.pixel_buf@.len() ==> #[trigger] buf@[j] == self.pixel_buf@[j],
                forall|j: int|
                    self.pixel_buf@.len() <= j < k ==> (#[trigger] buf@[j])@ == err_color_s(),
            decreases n - k,
        {
            if k < self.pixel_buf.len() {
                let c = self.pixel_buf[k];
                buf.push(c);
            } else {
                buf.push(err_color());
            }
            k = k + 1;
        }
        self.pixel_buf = buf;
        self.dims = dims;
        self.accum_n = 0;
    }

    /// The displayed pixel buffer: the running mean of the accumulated
    /// samples, row-major at the current trace resolution.
    pub fn pixels(&self) -> (r: Vec<Vec3>)
        ensures
            r@.len() == self.pixel_buf@.len(),
            forall|k: int|
                0 <= k < r@.len() ==> (#[trigger] r@[k])@ == pixel_out_s(
                    self.pixel_buf@[k]@,
                    self.accum_n as int,
                ),
    {
        let mut r: Vec<Vec3> = Vec::new();
        let n = self.accum_n;
        let divisor: i64 = if n > 9223372036854775807u64 {
            9223372036854775807i64
        } else {
            n as i64
        };
        let d = fx_from_int(divisor);
        let mut k: usize = 0;
        while k < self.pixel_buf.len()
            invariant
                k <= self.pixel_buf@.len(),
                r@.len() == k,
                n == self.accum_n,
                d@ == fx_from_int_s(fx_min_s(n as int, FX_MAX as int)),
                forall|j: int|
                    0 <= j < k ==> (#[trigger] r@[j])@ == pixel_out_s(
                        self.pixel_buf@[j]@,
                        self.accum_n as int,
                    ),
            decreases self.pixel_buf@.len() - k,
        {
            let c = self.pixel_buf[k];
            if n == 0 {
                r.push(c);
            } else {
                r.push(c.div_k(d));
            }
            k = k + 1;
        }
        r
    }

    /// Trace one frame at the trace resolution derived from `dims` and the
    /// subsampling divisor, and fold it into the accumulation buffer.
    ///
    /// Accumulation restarts when it is disabled (cap zero), when the camera
    /// moved and the reset-on-move toggle is set, or when the trace
    /// resolution changed. Once the cap is reached the frame is static:
    /// nothing is traced and the buffer is untouched. Otherwise every cell
    /// receives the traced color of its pixel for this frame's seed -- the
    /// accumulation counter itself under deterministic seeding, so a frame
    /// is reproducible by contract -- where the first sample after a restart
    /// replaces the cell and later samples are summed.
    #[verifier::rlimit(100)]
    #[verifier::spinoff_prover]
    pub fn trace_frame(&mut self, cam: &CamVecs, dims: Dims, scene: &Scene)
        requires
            old(self).wf(),
            dims.w >= 1,
            dims.h >= 1,
            (dims.w as int) * (dims.h as int) <= usize::MAX as int,
        ensures
            final(self).wf(),
            final(self).random_seed == old(self).random_seed,
            final(self).reset_on_move == old(self).reset_on_move,
            final(self).accum_n_max == old(self).accum_n_max,
            final(self).subsampling == old(self).subsampling,
            final(self).cfg == old(self).cfg,
            final(self).prev_cam == *cam,
            final(self).dims.w as int == trace_dim_s(dims.w as int, old(self).subsampling as int),
            final(self).dims.h as int == trace_dim_s(dims.h as int, old(self).subsampling as int),
            frame_static_s(*old(self), *cam, dims) ==> final(self).accum_n as int
                == frame_n1_s(*old(self), *cam, dims),
            frame_static_s(*old(self), *cam, dims) ==> final(self).pixel_buf@ == old(
                self,
            ).pixel_buf@,
            !frame_static_s(*old(self), *cam, dims) ==> final(self).accum_n as int == (if old(
                self,
            ).accum_n_max > 0 {
                frame_n1_s(*old(self), *cam, dims) + 1
            } else {
                frame_n1_s(*old(self), *cam, dims)
            }),
            !frame_static_s(*old(self), *cam, dims) ==> final(self).pixel_buf@.len()
                == trace_dim_s(dims.w as int, old(self).subsampling as int) * trace_dim_s(
                dims.h as int,
                old(self).subsampling as int,
            ),
            !frame_static_s(*old(self), *cam, dims) ==> exists|sd: u64|
                (old(self).random_seed == false ==> sd as int == frame_n1_s(
                    *old(self),
                    *cam,
                    dims,
                )) && frame_cells_ok(
                    final(self).pixel_buf@,
                    old(self).pixel_buf@,
                    frame_n1_s(*old(self), *cam, dims),
                    trace_dim_s(dims.w as int, old(self).subsampling as int),
                    trace_dim_s(dims.h as int, old(self).subsampling as int),
                    cam@,
                    scene@,
                    sd,
                    old(self).cfg@,
                ),
    {
        if self.accum_n_max == 0 || (self.reset_on_move && !(*cam == self.prev_cam)) {
            self.reset_accum();
        }
        self.prev_cam = *cam;
        let sub = self.subsampling as u32;
        let qw = dims.w / sub;
        let tw: u32 = if qw == 0 {
            1
        } else {
            qw
        };
        let qh = dims.h / sub;
        let th: u32 = if qh == 0 {
            1
        } else {
            qh
        };
        proof {
            vstd::arithmetic::div_mod::lemma_div_nonincreasing(dims.w as int, sub as int);
            vstd::arithmetic::div_mod::lemma_div_nonincreasing(dims.h as int, sub as int);
            assert((th as int) * (tw as int) <= (dims.w as int) * (dims.h as int) && (th as int)
                * (tw as int) == (tw as int) * (th as int)) by (nonlinear_arith)
                requires
                    1 <= tw as int <= dims.w as int,
                    1 <= th as int <= dims.h as int,
            ;
        }
        let ndims = Dims { w: tw, h: th };
        if !(ndims == self.dims) {
            self.resize_pixel_buf(ndims);
        }
        if self.accum_n_max > 0 && self.accum_n >= self.accum_n_max {
            return ;
        }
        let ghost prev_mid = self.pixel_buf@;
        let ghost n_mid = self.accum_n;
        self.render_frame(cam, scene);
        proof {
            let sd0 = choose|sd: u64|
                (self.random_seed == false ==> sd == n_mid) && frame_cells_ok(
                    self.pixel_buf@,
                    prev_mid,
                    n_mid as int,
                    tw as int,
                    th as int,
                    cam@,
                    scene@,
                    sd,
                    self.cfg@,
                );
            if n_mid == 0 {
                lemma_frame_cells_reset(
                    self.pixel_buf@,
                    prev_mid,
                    old(self).pixel_buf@,
                    tw as int,
                    th as int,
                    cam@,
                    scene@,
                    sd0,
                    self.cfg@,
                );
            }
            assert(n_mid as int == frame_n1_s(*old(self), *cam, dims));
            assert(tw as int == trace_dim_s(dims.w as int, old(self).subsampling as int));
            assert(th as int == trace_dim_s(dims.h as int, old(self).subsampling as int));
            assert(self.cfg == old(self).cfg);
            assert(frame_cells_ok(
                self.pixel_buf@,
                old(self).pixel_buf@,
                frame_n1_s(*old(self), *cam, dims),
                trace_dim_s(dims.w as int, old(self).subsampling as int),
                trace_dim_s(dims.h as int, old(self).subsampling as int),
                cam@,
                scene@,
                sd0,
                old(self).cfg@,
            ));
            assert(old(self).random_seed == false ==> sd0 as int == frame_n1_s(
                *old(self),
                *cam,
                dims,
            ));
            assert(exists|sd: u64|
                (old(self).random_seed == false ==> sd as int == frame_n1_s(
                    *old(self),
                    *cam,
                    dims,
                )) && frame_cells_ok(
                    self.pixel_buf@,
                    old(self).pixel_buf@,
                    frame_n1_s(*old(self), *cam, dims),
                    trace_dim_s(dims.w as int, old(self).subsampling as int),
                    trace_dim_s(dims.h as int, old(self).subsampling as int),
                    cam@,
                    scene@,
                    sd,
                    old(self).cfg@,
                ));
        }
    }

    /// Trace the frame at the current resolution and fold it into the
    /// buffer: every cell receives the accumulation step of its pixel's
    /// traced color, for the frame seed (the accumulation counter when
    /// deterministic seeding is selected, a fresh random value otherwise),
    /// and the counter advances while a cap is set.
    fn render_frame(&mut self, cam: &CamVecs, scene: &Scene)
        requires
            old(self).wf(),
            old(self).dims.w >= 1,
            old(self).dims.h >= 1,
            (old(self).dims.h as int) * (old(self).dims.w as int) <= usize::MAX as int,
            old(self).accum_n_max == 0 || old(self).accum_n < old(self).accum_n_max,
        ensures
            final(self).wf(),
            final(self).random_seed == old(self).random_seed,
            final(self).reset_on_move == old(self).reset_on_move,
            final(self).accum_n_max == old(self).accum_n_max,
            final(self).subsampling == old(self).subsampling,
            final(self).cfg == old(self).cfg,
            final(self).prev_cam == old(self).prev_cam,
            final(self).dims == old(self).dims,
            final(self).accum_n as int == (if old(self).accum_n_max > 0 {
                old(self).accum_n + 1
            } else {
                old(self).accum_n as int
            }),
            final(self).pixel_buf@.len() == old(self).pixel_buf@.len(),
            exists|sd: u64|
                (old(self).random_seed == false ==> sd == old(self).accum_n) && frame_cells_ok(
                    final(self).pixel_buf@,
                    old(self).pixel_buf@,
                    old(self).accum_n as int,
                    old(self).dims.w as int,
                    old(self).dims.h as int,
                    cam@,
                    scene@,
                    sd,
                    old(self).cfg@,
                ),
    {
        let tw = self.dims.w;
        let th = self.dims.h;
        let seed: u64 = if self.random_seed {
            random_seed_value()
        } else {
            self.accum_n
        };
        let rows = par_trace_rows(tw as usize, th as usize, cam, scene, seed, &self.cfg);
        let flat = flatten_rows(&rows, tw as usize, th as usize);
        let n1 = self.accum_n;
        proof {
            vstd::arithmetic::mul::lemma_mul_is_commutative(tw as int, th as int);
        }
        accumulate_frame(&mut self.pixel_buf, &flat, n1);
        if self.accum_n < self.accum_n_max {
            self.accum_n = self.accum_n + 1;
        }
        proof {
            assert forall|y: int, x: int|
                0 <= y < th as int && 0 <= x < tw as int implies (#[trigger] flat@[y * (tw as int)
                + x])@ == pixel_color_s(
                x,
                y,
                tw as int,
                th as int,
                cam@,
                scene@,
                seed,
                old(self).cfg@,
            ) by {
                assert(flat@[y * (tw as int) + x] == rows@[y]@[x]);
                assert((rows@[y]@[x])@ == pixel_color_s(
                    x,
                    y,
                    tw as int,
                    th as int,
                    cam@,
                    scene@,
                    seed,
                    old(self).cfg@,
                ));
            }
            lemma_frame_cells(
                self.pixel_buf@,
                old(self).pixel_buf@,
                old(self).pixel_buf@,
                flat@,
                n1 as int,
                tw as int,
                th as int,
                cam@,
                scene@,
                seed,
                old(self).cfg@,
            );
        }
    }
}

} // verus!
