use vstd::prelude::*;
use crate::ray::Ray;

verus! {

/// What a material does with a ray that reaches it, when the ray is not
/// absorbed: the ray that leaves the surface, and the colour by which the light
/// it carries is attenuated.
#[derive(Clone, Copy)]
pub struct Scatter<V> {
    pub ray: Ray<V>,
    pub attenuation: V,
}

impl<V> Scatter<V> {
    /// The scattered `ray`, attenuated by `attenuation`.
    pub fn new(ray: Ray<V>, attenuation: V) -> (r: Scatter<V>)
        ensures
            r.ray == ray,
            r.attenuation == attenuation,
    {
        Scatter { ray, attenuation }
    }
}

/// A diffuse material that reflects a fixed share of the light: its albedo.
#[derive(Clone, Copy)]
pub struct Lambertian<C> {
    pub albedo: C,
}

impl<C> Lambertian<C> {
    /// The diffuse material of albedo `albedo`.
    pub fn new(albedo: C) -> (r: Lambertian<C>)
        ensures
            r.albedo == albedo,
    {
        Lambertian { albedo }
    }
}

/// A clear refractive material such as glass, of index of refraction `ir`.
#[derive(Clone, Copy)]
pub struct Dielectric<S> {
    pub ir: S,
}

impl<S> Dielectric<S> {
    /// The refractive material of index `ir`.
    pub fn new(ir: S) -> (r: Dielectric<S>)
        ensures
            r.ir == ir,
    {
        Dielectric { ir }
    }
}

} // verus!
