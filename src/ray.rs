use vstd::prelude::*;

verus! {

/// A half-line in space: every point `orig + t * dir`. The direction need not
/// have unit length.
#[derive(Clone, Copy)]
pub struct Ray<V> {
    pub orig: V,
    pub dir: V,
}

impl<V> Ray<V> {
    /// The ray from `orig` along `dir`.
    pub fn new(orig: V, dir: V) -> (r: Ray<V>)
        ensures
            r.orig == orig,
            r.dir == dir,
    {
        Ray { orig, dir }
    }
}

} // verus!
