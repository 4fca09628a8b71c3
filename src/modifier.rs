//! The error discipline of modifiers: a modifier transforms the value of the
//! module it wraps and hands any error of that module back unchanged.
use vstd::prelude::*;
use crate::octave::NoiseError;

verus! {

/// `out` is what a modifier with transform `f` yields over the outcome
/// `inner` of the module it wraps: the same error, or `f` of the value.
pub open spec fn modifies<T, F: Fn(T) -> T>(
    inner: Result<T, NoiseError>,
    f: F,
    out: Result<T, NoiseError>,
) -> bool {
    match inner {
        Err(e) => out == Err::<T, NoiseError>(e),
        Ok(v) => out matches Ok(w) && f.ensures((v,), w),
    }
}

/// Applies `transform` to the value of a successful evaluation, and passes
/// an error through untouched.
pub fn modify<T, F: Fn(T) -> T>(inner: Result<T, NoiseError>, transform: F) -> (r: Result<
    T,
    NoiseError,
>)
    requires
        inner matches Ok(v) ==> transform.requires((v,)),
    ensures
        modifies(inner, transform, r),
{
    match inner {
        Err(e) => Err(e),
        Ok(v) => Ok(transform(v)),
    }
}

/// However many modifiers are chained, an error of the innermost module
/// comes out of the last one as it went in, and never as a value.
pub proof fn lemma_error_passes_chain<T, F: Fn(T) -> T, G: Fn(T) -> T>(
    e: NoiseError,
    f: F,
    g: G,
    mid: Result<T, NoiseError>,
    out: Result<T, NoiseError>,
)
    requires
        modifies(Err(e), f, mid),
        modifies(mid, g, out),
    ensures
        out == Err::<T, NoiseError>(e),
{
}

/// Chained modifiers apply in order, innermost first: over a value `v` the
/// outer transform `g` receives what the inner transform `f` made of `v`.
pub proof fn lemma_chain_applies_in_order<T, F: Fn(T) -> T, G: Fn(T) -> T>(
    v: T,
    f: F,
    g: G,
    mid: Result<T, NoiseError>,
    out: Result<T, NoiseError>,
)
    requires
        modifies(Ok(v), f, mid),
        modifies(mid, g, out),
    ensures
        mid is Ok,
        out is Ok,
        f.ensures((v,), mid->Ok_0),
        g.ensures((mid->Ok_0,), out->Ok_0),
{
}

} // verus!
