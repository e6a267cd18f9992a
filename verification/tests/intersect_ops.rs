use pathtracer::fx::{Fx, FX_ONE};
use pathtracer::geom::{any_hit, closest_hit, Sphere};
use pathtracer::intersect::{BasicRay, Ray};
use pathtracer::material::Mat;
use pathtracer::vec3::Vec3;

fn fx(raw: i64) -> Fx {
    Fx { raw }
}

fn v3(x: i64, y: i64, z: i64) -> Vec3 {
    Vec3 { x: fx(x), y: fx(y), z: fx(z) }
}

fn unit_sphere() -> Sphere {
    Sphere { centre: v3(0, 0, 0), radius: fx(FX_ONE), mat: Mat::diffuse(v3(0, 0, FX_ONE)) }
}

#[test]
fn head_on_hit_distance_and_normal() {
    // Origin 5 units before a unit sphere, aimed at its centre:
    // t == distance_to_centre - radius == 4 exactly, normal is the unit
    // vector pointing back at the ray.
    let s = unit_sphere();
    let ray = BasicRay { origin: v3(0, 0, -5 * FX_ONE), dir: v3(0, 0, FX_ONE) };
    let hit = s.intersect(&ray).expect("head-on ray must hit");
    assert_eq!(hit.t.raw, 4 * FX_ONE);
    assert_eq!(hit.normal.x.raw, 0);
    assert_eq!(hit.normal.y.raw, 0);
    assert_eq!(hit.normal.z.raw, -FX_ONE);
    assert_eq!(hit.normal.magnitude().raw, FX_ONE);
}

#[test]
fn tangent_and_missing_rays_return_none() {
    let s = unit_sphere();
    // Grazing just above the sphere: the discriminant lands barely below
    // zero, so there is no hit.
    let tangent = BasicRay { origin: v3(0, FX_ONE + 1, -5 * FX_ONE), dir: v3(0, 0, FX_ONE) };
    assert!(s.intersect(&tangent).is_none());
    // Clearly missing: pointing away from the sphere entirely.
    let missing = BasicRay { origin: v3(0, 0, -5 * FX_ONE), dir: v3(0, FX_ONE, 0) };
    assert!(s.intersect(&missing).is_none());
}

#[test]
fn origin_inside_sphere_uses_larger_root() {
    let s = unit_sphere();
    let ray = BasicRay { origin: v3(0, 0, 0), dir: v3(0, 0, FX_ONE) };
    let hit = s.intersect(&ray).expect("ray from the centre must exit the sphere");
    assert_eq!(hit.t.raw, FX_ONE);
}

#[test]
fn sphere_behind_ray_is_not_hit() {
    let s = unit_sphere();
    let ray = BasicRay { origin: v3(0, 0, 5 * FX_ONE), dir: v3(0, 0, FX_ONE) };
    assert!(s.intersect(&ray).is_none());
}

#[test]
fn closest_hit_returns_global_minimum() {
    // Two spheres on the ray's path: the reported hit equals the nearer
    // sphere's own intersection and is no farther than the other's,
    // whichever order the scene lists them in.
    let near = Sphere {
        centre: v3(0, 0, 3 * FX_ONE),
        radius: fx(FX_ONE),
        mat: Mat::diffuse(v3(FX_ONE, 0, 0)),
    };
    let far = Sphere {
        centre: v3(0, 0, 6 * FX_ONE),
        radius: fx(FX_ONE),
        mat: Mat::diffuse(v3(0, FX_ONE, 0)),
    };
    let ray = Ray {
        origin: v3(0, 0, 0),
        dir: v3(0, 0, FX_ONE),
        bounces: 0,
        throughput: Vec3::repeat(fx(FX_ONE)),
    };
    let bray = BasicRay { origin: ray.origin, dir: ray.dir };
    let t_near = near.intersect(&bray).unwrap().t.raw;
    let t_far = far.intersect(&bray).unwrap().t.raw;
    assert!(t_near < t_far);

    let scene = vec![far, near];
    let best = closest_hit(&ray, &scene).expect("both spheres lie on the ray");
    assert_eq!(best.t.raw, t_near);
    assert!(best.t.raw <= t_far);

    let scene_rev = vec![near, far];
    let best_rev = closest_hit(&ray, &scene_rev).expect("both spheres lie on the ray");
    assert_eq!(best_rev.t.raw, t_near);
}

#[test]
fn closest_hit_on_empty_scene_is_none() {
    let ray = Ray {
        origin: v3(0, 0, 0),
        dir: v3(0, 0, FX_ONE),
        bounces: 0,
        throughput: Vec3::repeat(fx(FX_ONE)),
    };
    let scene: Vec<Sphere> = vec![];
    assert!(closest_hit(&ray, &scene).is_none());
}

#[test]
fn any_hit_reports_occlusion() {
    let s = unit_sphere();
    let scene = vec![s];
    let blocked = BasicRay { origin: v3(0, 0, -5 * FX_ONE), dir: v3(0, 0, FX_ONE) };
    assert!(any_hit(&blocked, &scene).is_some());
    let free = BasicRay { origin: v3(0, 0, -5 * FX_ONE), dir: v3(0, -FX_ONE, 0) };
    assert!(any_hit(&free, &scene).is_none());
}
