//! Core of a path-tracing sphere renderer: the parts of the engine that work on
//! plain values. Geometry types are generic over the vector and scalar types, so
//! rays, spheres and materials serve any numeric representation of space.
//! Distances along a ray are compared through integer keys that order them as
//! the doubles they stand for.
pub mod distance;
pub mod material;
pub mod path;
pub mod ppm;
pub mod range;
pub mod ray;
pub mod scene;
pub mod sphere;
