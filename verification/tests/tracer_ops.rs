use pathtracer::config::Config;
use pathtracer::fx::{fx_from_int, Fx, FX_ONE};
use pathtracer::geom::Sphere;
use pathtracer::integrate::trace;
use pathtracer::intersect::Ray;
use pathtracer::material::Mat;
use pathtracer::rng::rng_from_seed;
use pathtracer::tracer::{to_rgb8, trace_row, CamVecs, Dims, Tracer};
use pathtracer::vec3::Vec3;

fn fx(raw: i64) -> Fx {
    Fx { raw }
}

fn v3(x: i64, y: i64, z: i64) -> Vec3 {
    Vec3 { x: fx(x), y: fx(y), z: fx(z) }
}

fn demo_scene() -> Vec<Sphere> {
    vec![
        Sphere { centre: v3(0, 0, 0), radius: fx(FX_ONE), mat: Mat::diffuse(v3(0, 0, FX_ONE)) },
        Sphere {
            centre: v3(0, -101 * FX_ONE, 0),
            radius: fx(100 * FX_ONE),
            mat: Mat::diffuse(v3(19661, 19661, 19661)),
        },
    ]
}

fn demo_cam() -> CamVecs {
    CamVecs {
        pos: v3(0, 2 * FX_ONE, 8 * FX_ONE),
        screen_origin: v3(-FX_ONE / 2, -FX_ONE / 2, -FX_ONE),
        x_axis: v3(FX_ONE, 0, 0),
        y_axis: v3(0, FX_ONE, 0),
    }
}

#[test]
fn missing_ray_returns_background_times_throughput() {
    // An empty scene: the radiance is exactly the background color
    // modulated componentwise by the ray's throughput of one half.
    let cfg = Config::preset();
    let scene: Vec<Sphere> = vec![];
    let mut rng = rng_from_seed(1);
    let ray = Ray {
        origin: v3(0, 0, 0),
        dir: v3(0, 0, FX_ONE),
        bounces: 3,
        throughput: Vec3::repeat(fx(FX_ONE / 2)),
    };
    let c = trace(ray, &mut rng, &scene, &cfg);
    assert_eq!(c.x.raw, 16384);
    assert_eq!(c.y.raw, 22937);
    assert_eq!(c.z.raw, 32768);
}

#[test]
fn apex_ray_sees_blue_and_sky_ray_sees_background() {
    // End to end: a blue diffuse unit sphere with a ground sphere below and
    // the configured light above and in front. A ray straight down at the
    // sphere's apex picks up blue radiance; a ray up into the empty sky
    // returns exactly the background.
    let cfg = Config::preset();
    let scene = demo_scene();
    let mut rng = rng_from_seed(42);
    let apex_ray = Ray {
        origin: v3(0, 2 * FX_ONE, 0),
        dir: v3(0, -FX_ONE, 0),
        bounces: 3,
        throughput: Vec3::repeat(fx(FX_ONE)),
    };
    let c = trace(apex_ray, &mut rng, &scene, &cfg);
    assert!(c.z.raw > 0, "blue channel was {}", c.z.raw);

    let sky_ray = Ray {
        origin: v3(0, 2 * FX_ONE, 0),
        dir: v3(0, FX_ONE, 0),
        bounces: 3,
        throughput: Vec3::repeat(fx(FX_ONE)),
    };
    let c = trace(sky_ray, &mut rng, &scene, &cfg);
    assert_eq!(c.x.raw, 32768);
    assert_eq!(c.y.raw, 45875);
    assert_eq!(c.z.raw, FX_ONE);
}

#[test]
fn accumulated_frames_equal_mean_of_single_frames() {
    // Progressive accumulation with deterministic seeding: three frames
    // blended by the dispatcher equal the fixed-point mean of the three
    // single-sample frames recomputed row by row with the same seeds.
    let scene = demo_scene();
    let cam = demo_cam();
    let dims = Dims { w: 4, h: 3 };
    let mut t = Tracer::new();
    t.toggle_random_seed();  // deterministic counter seeding
    t.toggle_accum();  // unbounded accumulation
    t.decrease_subsampling_denom();
    t.decrease_subsampling_denom();
    t.decrease_subsampling_denom();  // divisor 1
    assert_eq!(t.subsampling(), 1);
    let n_frames: u64 = 3;
    for _ in 0..n_frames {
        t.trace_frame(&cam, dims, &scene);
    }
    let got = t.pixels();
    assert_eq!(got.len(), 12);

    let cfg = Config::preset();
    let mut sums: Vec<Vec3> = vec![v3(0, 0, 0); 12];
    for k in 0..n_frames {
        for y in 0..3usize {
            let row = trace_row(y, 4, 3, &cam, &scene, k, &cfg);
            for x in 0..4usize {
                let i = y * 4 + x;
                sums[i] = if k == 0 { row[x] } else { sums[i].plus(row[x]) };
            }
        }
    }
    let d = fx_from_int(n_frames as i64);
    for i in 0..12usize {
        let want = sums[i].div_k(d);
        assert_eq!(got[i].x.raw, want.x.raw, "pixel {} red", i);
        assert_eq!(got[i].y.raw, want.y.raw, "pixel {} green", i);
        assert_eq!(got[i].z.raw, want.z.raw, "pixel {} blue", i);
    }
}

#[test]
fn resize_keeps_length_and_fills_new_cells_with_sentinel() {
    let mut t = Tracer::new();
    t.resize_pixel_buf(Dims { w: 2, h: 3 });
    assert_eq!(t.pixel_buf.len(), 6);
    for p in &t.pixel_buf {
        assert_eq!(p.x.raw, 65536000000);
        assert_eq!(p.y.raw, 0);
        assert_eq!(p.z.raw, 65536000000);
    }
    // Render one frame so the cells hold real radiance, then grow: the old
    // cells keep their values, the new ones hold the sentinel until written.
    let scene = demo_scene();
    let cam = demo_cam();
    let mut t = Tracer::new();
    t.toggle_random_seed();
    t.decrease_subsampling_denom();
    t.decrease_subsampling_denom();
    t.decrease_subsampling_denom();
    t.trace_frame(&cam, Dims { w: 3, h: 3 }, &scene);
    assert_eq!(t.pixel_buf.len(), 9);
    let before: Vec<i64> = t.pixel_buf.iter().map(|p| p.x.raw).collect();
    t.resize_pixel_buf(Dims { w: 4, h: 4 });
    assert_eq!(t.pixel_buf.len(), 16);
    for i in 0..9usize {
        assert_eq!(t.pixel_buf[i].x.raw, before[i]);
    }
    for i in 9..16usize {
        assert_eq!(t.pixel_buf[i].x.raw, 65536000000);
        assert_eq!(t.pixel_buf[i].z.raw, 65536000000);
    }
    assert_eq!(t.accum_n, 0);
}

#[test]
fn subsampling_divides_the_trace_resolution() {
    // The dispatcher really traces target / subsampling pixels: with the
    // default divisor of four, an 8x6 target becomes a 2x1 buffer.
    let scene = demo_scene();
    let cam = demo_cam();
    let mut t = Tracer::new();
    assert_eq!(t.subsampling(), 4);
    t.trace_frame(&cam, Dims { w: 8, h: 6 }, &scene);
    assert_eq!(t.pixels().len(), 2);
}

#[test]
fn toggles_and_caps_saturate() {
    let mut t = Tracer::new();
    assert_eq!(t.accum_n_max, 0);
    t.toggle_accum();
    assert_eq!(t.accum_n_max, u64::MAX);
    t.toggle_accum();
    assert_eq!(t.accum_n_max, 0);
    t.decrease_accum_n_max();
    assert_eq!(t.accum_n_max, 0);
    t.increase_accum_n_max();
    assert_eq!(t.accum_n_max, 1);
    let mut t = Tracer::new();
    for _ in 0..10 {
        t.decrease_subsampling_denom();
    }
    assert_eq!(t.subsampling(), 1);
    t.increase_subsampling_denom();
    assert_eq!(t.subsampling(), 2);
    assert!(t.random_seed);
    t.toggle_random_seed();
    assert!(!t.random_seed);
    assert!(!t.reset_on_move);
    t.toggle_reset_on_move();
    assert!(t.reset_on_move);
}

#[test]
fn capped_accumulation_freezes_the_buffer() {
    // Once the accumulation count reaches the cap, further frames leave the
    // buffer untouched.
    let scene = demo_scene();
    let cam = demo_cam();
    let mut t = Tracer::new();
    t.toggle_random_seed();
    t.increase_accum_n_max();
    t.increase_accum_n_max();  // cap == 2
    t.decrease_subsampling_denom();
    t.decrease_subsampling_denom();
    t.decrease_subsampling_denom();
    let dims = Dims { w: 2, h: 2 };
    t.trace_frame(&cam, dims, &scene);
    t.trace_frame(&cam, dims, &scene);
    assert_eq!(t.accum_n, 2);
    let frozen: Vec<i64> = t.pixel_buf.iter().map(|p| p.z.raw).collect();
    t.trace_frame(&cam, dims, &scene);
    assert_eq!(t.accum_n, 2);
    let after: Vec<i64> = t.pixel_buf.iter().map(|p| p.z.raw).collect();
    assert_eq!(frozen, after);
}

#[test]
fn rows_are_reproducible_for_a_fixed_seed() {
    // The per-pixel generator is derived from (frame seed, row, column)
    // alone, so recomputing a row with the same seed gives the same pixels.
    let scene = demo_scene();
    let cam = demo_cam();
    let cfg = Config::preset();
    let a = trace_row(1, 5, 3, &cam, &scene, 123, &cfg);
    let b = trace_row(1, 5, 3, &cam, &scene, 123, &cfg);
    assert_eq!(a.len(), 5);
    for i in 0..5usize {
        assert_eq!(a[i].x.raw, b[i].x.raw);
        assert_eq!(a[i].y.raw, b[i].y.raw);
        assert_eq!(a[i].z.raw, b[i].z.raw);
    }
}

#[test]
fn display_bytes_clamp_and_scale() {
    assert_eq!(to_rgb8(v3(0, FX_ONE, FX_ONE / 2)), (0, 255, 127));
    assert_eq!(to_rgb8(v3(-FX_ONE, 2 * FX_ONE, 65536000000)), (0, 255, 255));
    // one quarter scales to 63 (255 / 4 rounded down)
    assert_eq!(to_rgb8(v3(FX_ONE / 4, 0, 0)).0, 63);
}
