use vstd::prelude::*;

use crate::error::OzError;
use crate::grid::Grid;
use crate::scalar::Scalar;

verus! {

/// A discrete sine-transform plan, bound to one fixed length.
///
/// The library does not compute the spectral transform itself: a caller
/// supplies a plan, typically a thin wrapper around a spectral library.
/// The plan is expected to be its own inverse up to a factor of twice its
/// length (the half-offset sine transform in the convention
/// `X[k] = 2 * sum_i x[i] * sin(pi * (i + 1/2) * (k + 1/2) / n)`), which
/// together with the scale factors below makes the round trip of
/// [`Transform::forward`] and [`Transform::backward`] the identity.
/// Nothing of that is assumed here.  The two specification members only
/// name the plan's own results, entry by entry, so that contracts can say
/// which value a transform output is; the output's length is still checked
/// at run time, and the solver reports divergence rather than trusting the
/// values.
pub trait SpectralPlan<S> {
    /// The value `size` returns.
    spec fn spec_size(&self) -> usize;

    /// The value the `i`-th entry of `process(input)` holds.
    spec fn spec_process_at(&self, input: Vec<S>, i: usize) -> S;

    /// The length of `process(input)`.
    spec fn spec_process_len(&self, input: Vec<S>) -> usize;

    /// The one length this plan transforms.
    fn size(&self) -> (r: usize)
        ensures
            r == self.spec_size(),
    ;

    /// The transform of `buffer`, which must have the planned length.
    fn process(&self, buffer: &Vec<S>) -> (r: Vec<S>)
        ensures
            r@.len() == self.spec_process_len(*buffer),
            forall|i: int|
                0 <= i < r@.len() ==> #[trigger] r@[i] == self.spec_process_at(
                    *buffer,
                    i as usize,
                ),
    ;
}

/// The Fourier-Bessel transform pair of a fixed grid.
///
/// Under the isotropic three-dimensional convention used throughout
/// Ornstein-Zernike theory the sequences hold radially weighted functions,
/// `f(r) * r` in real space against `f(k) * k` in reciprocal space.  The
/// forward direction applies the sine transform and scales by `2 * pi * dr`;
/// the backward direction applies the same transform and scales by
/// `dk / (2 * pi)^2`.
pub struct Transform<S, E> {
    n: usize,
    fwd_scale: S,
    bwd_scale: S,
    engine: E,
}

impl<S: Scalar, E: SpectralPlan<S>> Transform<S, E> {
    /// The grid size this transform was built against.
    pub closed spec fn size_spec(&self) -> usize {
        self.n
    }

    /// The forward scale factor, `2 * pi * dr` of the grid built against.
    pub closed spec fn fwd_scale_spec(&self) -> S {
        self.fwd_scale
    }

    /// The backward scale factor, `dk / (2 * pi)^2` of the grid built
    /// against.
    pub closed spec fn bwd_scale_spec(&self) -> S {
        self.bwd_scale
    }

    /// The value the `i`-th entry of the plan's transform of `input` holds.
    pub closed spec fn process_spec_at(&self, input: Vec<S>, i: usize) -> S {
        self.engine.spec_process_at(input, i)
    }

    /// The length of the plan's transform of `input`.
    pub closed spec fn process_spec_len(&self, input: Vec<S>) -> usize {
        self.engine.spec_process_len(input)
    }

    /// The value `2 * pi` takes under the scalar's mirrors.
    pub open spec fn two_pi_spec() -> S {
        S::spec_from_usize(2).spec_mul(S::spec_pi())
    }

    /// Builds the transform pair for `grid` around `engine`, rejecting an
    /// engine planned for any other size.
    pub fn build(grid: &Grid<S>, engine: E) -> (r: Result<Transform<S, E>, OzError>)
        ensures
            r is Ok <==> engine.spec_size() == grid.npts,
            r matches Ok(t) ==> {
                &&& t.size_spec() == grid.npts
                &&& t.fwd_scale_spec() == Self::two_pi_spec().spec_mul(grid.dr)
                &&& t.bwd_scale_spec() == grid.dk.spec_div(
                    Self::two_pi_spec().spec_mul(Self::two_pi_spec()),
                )
            },
            r matches Err(e) ==> e == (OzError::PlanConstructionFailed {
                expected: grid.npts,
                found: engine.spec_size(),
            }),
    {
        let found = engine.size();
        if found != grid.npts {
            return Err(OzError::PlanConstructionFailed { expected: grid.npts, found });
        }
        let two_pi = S::from_usize(2).mul(&S::pi());
        let fwd_scale = two_pi.mul(&grid.dr);
        let bwd_scale = grid.dk.div(&two_pi.mul(&two_pi));
        Ok(Transform { n: grid.npts, fwd_scale, bwd_scale, engine })
    }

    /// The grid size this transform was built against.
    pub fn size(&self) -> (r: usize)
        ensures
            r == self.size_spec(),
    {
        self.n
    }

    /// Real space to reciprocal space: the sine transform scaled by
    /// `2 * pi * dr`.
    pub fn forward(&self, f: &Vec<S>) -> (r: Result<Vec<S>, OzError>)
        ensures
            r matches Ok(v) ==> {
                &&& v@.len() == self.size_spec()
                &&& f@.len() == self.size_spec()
                &&& forall|k: int|
                    0 <= k < v@.len() ==> #[trigger] v@[k] == self.fwd_scale_spec().spec_mul(
                        self.process_spec_at(*f, k as usize),
                    )
            },
            f@.len() != self.size_spec() ==> r == Err::<Vec<S>, OzError>(
                OzError::LengthMismatch { expected: self.size_spec(), found: f@.len() as usize },
            ),
            r is Ok <==> (f@.len() == self.size_spec() && self.process_spec_len(*f)
                == self.size_spec()),
            r matches Err(e) ==> e matches OzError::LengthMismatch { .. },
    {
        self.apply(true, f)
    }

    /// Reciprocal space to real space: the sine transform scaled by
    /// `dk / (2 * pi)^2`.
    pub fn backward(&self, f: &Vec<S>) -> (r: Result<Vec<S>, OzError>)
        ensures
            r matches Ok(v) ==> {
                &&& v@.len() == self.size_spec()
                &&& f@.len() == self.size_spec()
                &&& forall|k: int|
                    0 <= k < v@.len() ==> #[trigger] v@[k] == self.bwd_scale_spec().spec_mul(
                        self.process_spec_at(*f, k as usize),
                    )
            },
            f@.len() != self.size_spec() ==> r == Err::<Vec<S>, OzError>(
                OzError::LengthMismatch { expected: self.size_spec(), found: f@.len() as usize },
            ),
            r is Ok <==> (f@.len() == self.size_spec() && self.process_spec_len(*f)
                == self.size_spec()),
            r matches Err(e) ==> e matches OzError::LengthMismatch { .. },
    {
        self.apply(false, f)
    }

    /// Shared body of the two directions: checks both lengths, runs the
    /// plan, and scales elementwise.
    fn apply(&self, forward: bool, f: &Vec<S>) -> (r: Result<Vec<S>, OzError>)
        ensures
            r matches Ok(v) ==> {
                &&& v@.len() == self.size_spec()
                &&& f@.len() == self.size_spec()
                &&& forall|k: int|
                    0 <= k < v@.len() ==> #[trigger] v@[k] == (if forward {
                        self.fwd_scale_spec()
                    } else {
                        self.bwd_scale_spec()
                    }).spec_mul(self.process_spec_at(*f, k as usize))
            },
            f@.len() != self.size_spec() ==> r == Err::<Vec<S>, OzError>(
                OzError::LengthMismatch { expected: self.size_spec(), found: f@.len() as usize },
            ),
            r is Ok <==> (f@.len() == self.size_spec() && self.process_spec_len(*f)
                == self.size_spec()),
            r matches Err(e) ==> e matches OzError::LengthMismatch { .. },
    {
        if f.len() != self.n {
            return Err(OzError::LengthMismatch { expected: self.n, found: f.len() });
        }
        let raw = self.engine.process(f);
        if raw.len() != self.n {
            return Err(OzError::LengthMismatch { expected: self.n, found: raw.len() });
        }
        let scale = if forward {
            &self.fwd_scale
        } else {
            &self.bwd_scale
        };
        let mut out: Vec<S> = Vec::new();
        let mut i: usize = 0;
        while i < raw.len()
            invariant
                i <= raw@.len(),
                out@.len() == i,
                *scale == (if forward {
                    self.fwd_scale_spec()
                } else {
                    self.bwd_scale_spec()
                }),
                forall|k: int|
                    0 <= k < raw@.len() ==> #[trigger] raw@[k] == self.process_spec_at(
                        *f,
                        k as usize,
                    ),
                forall|k: int|
                    0 <= k < i ==> #[trigger] out@[k] == (if forward {
                        self.fwd_scale_spec()
                    } else {
                        self.bwd_scale_spec()
                    }).spec_mul(self.process_spec_at(*f, k as usize)),
            decreases raw@.len() - i,
        {
            out.push(scale.mul(&raw[i]));
            i = i + 1;
        }
        Ok(out)
    }
}

} // verus!
