use raytracer::material::{Dielectric, Lambertian, Scatter};
use raytracer::sphere::Sphere;
use raytracer::path::{advance, begin, Ending, Event, Step};
use raytracer::ray::Ray;
use raytracer::scene::nearest_hit;

#[test]
fn ray_keeps_origin_and_direction() {
    let r = Ray::new((1, 2, 3), (0, 0, -1));
    assert_eq!(r.orig, (1, 2, 3));
    assert_eq!(r.dir, (0, 0, -1));
}

#[test]
fn lambertian_keeps_albedo() {
    let m = Lambertian::new([0.5f64, 0.5, 0.5]);
    assert_eq!(m.albedo, [0.5, 0.5, 0.5]);
}

#[test]
fn scatter_keeps_ray_and_attenuation() {
    let s = Scatter::new(Ray::new([0.0f64; 3], [1.0f64, 0.0, 0.0]), [1.0f64, 1.0, 1.0]);
    assert_eq!(s.ray.dir, [1.0, 0.0, 0.0]);
    assert_eq!(s.attenuation, [1.0, 1.0, 1.0]);
}

#[test]
fn nearest_hit_of_no_surfaces_is_none() {
    assert_eq!(nearest_hit(&vec![]), None);
}

#[test]
fn nearest_hit_when_all_miss_is_none() {
    assert_eq!(nearest_hit(&vec![None, None, None]), None);
}

#[test]
fn nearest_hit_picks_least_key() {
    assert_eq!(nearest_hit(&vec![Some(40), None, Some(7), Some(12)]), Some(2));
    assert_eq!(nearest_hit(&vec![Some(3), Some(9)]), Some(0));
    assert_eq!(nearest_hit(&vec![None, Some(u64::MAX)]), Some(1));
}

#[test]
fn nearest_hit_on_tie_keeps_first() {
    assert_eq!(nearest_hit(&vec![Some(9), Some(5), None, Some(5)]), Some(1));
}

#[test]
fn nearest_hit_matches_brute_force_on_distances() {
    // Positive distances order as their bit patterns do.
    let ts = [3.25f64, 0.75, 100.0, 0.7501];
    let reports: Vec<Option<u64>> = ts.iter().map(|t| Some(t.to_bits())).collect();
    let mut best = 0;
    for i in 1..ts.len() {
        if ts[i] < ts[best] {
            best = i;
        }
    }
    assert_eq!(nearest_hit(&reports), Some(best));
    assert_eq!(best, 1);
}

#[test]
fn begin_with_no_depth_is_dark() {
    assert_eq!(begin(0), Step::Stop(Ending::Dark));
    assert_eq!(begin(-3), Step::Stop(Ending::Dark));
    assert_eq!(begin(50), Step::Trace(50));
}

#[test]
fn advance_on_each_event() {
    assert_eq!(advance(5, Event::Missed), Step::Stop(Ending::Sky));
    assert_eq!(advance(5, Event::Absorbed), Step::Stop(Ending::Dark));
    assert_eq!(advance(5, Event::Scattered), Step::Trace(4));
    assert_eq!(advance(1, Event::Scattered), Step::Stop(Ending::Dark));
    assert_eq!(advance(1, Event::Missed), Step::Stop(Ending::Sky));
}

#[test]
fn path_that_always_scatters_stops_after_max_depth() {
    let max_depth = 50;
    let mut step = begin(max_depth);
    let mut traced = 0;
    while let Step::Trace(d) = step {
        traced += 1;
        step = advance(d, Event::Scattered);
    }
    assert_eq!(traced, 50);
    assert_eq!(step, Step::Stop(Ending::Dark));
}

#[test]
fn dielectric_keeps_index() {
    assert_eq!(Dielectric::new(1.5f64).ir, 1.5);
}

#[test]
fn sphere_keeps_center_radius_and_material() {
    // A negative radius is kept as given: it models a hollow shell.
    let s = Sphere::new([0.0f64, 0.0, -1.0], -0.4f64, Dielectric::new(1.5f64));
    assert_eq!(s.center, [0.0, 0.0, -1.0]);
    assert_eq!(s.radius, -0.4);
    assert_eq!(s.material.ir, 1.5);
}
