use vstd::prelude::*;
use crate::range::Interval;

verus! {

/// A sphere of the given centre and radius, made of `material`. A negative
/// radius turns the sphere inside out: its outward normals point to the centre,
/// which models the inner wall of a hollow shell.
#[derive(Clone, Copy)]
pub struct Sphere<P, S, M> {
    pub center: P,
    pub radius: S,
    pub material: M,
}

impl<P, S, M> Sphere<P, S, M> {
    /// The sphere about `center` of radius `radius`, made of `material`.
    pub fn new(center: P, radius: S, material: M) -> (r: Sphere<P, S, M>)
        ensures
            r.center == center,
            r.radius == radius,
            r.material == material,
    {
        Sphere { center, radius, material }
    }
}

/// Which of the two roots of a ray-sphere quadratic is the hit.
#[derive(Clone, Copy, PartialEq, Eq, Structural, Debug)]
pub enum Root {
    /// The smaller root: where the ray first meets the sphere.
    Near,
    /// The larger root: where the ray leaves the sphere.
    Far,
}

/// The root that counts as a hit, given the keys of the near and far roots: the
/// near one when it lies strictly inside the range, else the far one when it
/// does, else none.
pub open spec fn choose_root_spec(range: Interval, near: u64, far: u64) -> Option<Root> {
    if range.surrounds_spec(near) {
        Some(Root::Near)
    } else if range.surrounds_spec(far) {
        Some(Root::Far)
    } else {
        None
    }
}

/// Picks which root of a ray-sphere quadratic is the hit in `range`.
pub fn choose_root(range: &Interval, near: u64, far: u64) -> (r: Option<Root>)
    ensures
        r == choose_root_spec(*range, near, far),
{
    if range.surrounds(near) {
        Some(Root::Near)
    } else if range.surrounds(far) {
        Some(Root::Far)
    } else {
        None
    }
}

/// The key of the chosen root.
pub open spec fn root_key(root: Root, near: u64, far: u64) -> u64 {
    match root {
        Root::Near => near,
        Root::Far => far,
    }
}

/// Asking a sphere for a hit below a nearer bound `closest` gives its hit in the
/// wider range when that hit is below the bound, and nothing otherwise. So a scan
/// that lowers the upper end of the range to the nearest hit found so far sees
/// what each sphere reports in the whole range, less the farther hits.
pub proof fn lemma_narrowed_range(start: u64, end: u64, closest: u64, near: u64, far: u64)
    requires
        near <= far,
        closest <= end,
    ensures
        choose_root_spec(Interval { start, end: closest }, near, far) == match choose_root_spec(
            Interval { start, end },
            near,
            far,
        ) {
            Some(root) => if root_key(root, near, far) < closest {
                Some(root)
            } else {
                None
            },
            None => None,
        },
{
}

} // verus!
