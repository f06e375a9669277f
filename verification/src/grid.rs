use vstd::prelude::*;

use crate::error::OzError;
use crate::scalar::Scalar;
use crate::transform::SpectralPlan;

verus! {

/// The discretisation of real and reciprocal radial space.
///
/// For a grid of `npts` points over radius `radius`, the real-space spacing
/// is `dr = radius / npts`, the reciprocal spacing is `dk = pi / (npts * dr)`,
/// and the sample points sit half a cell away from the origin:
/// `ri[i] = (i + 1/2) * dr` and `ki[i] = (i + 1/2) * dk`.  The half-cell
/// offset keeps the sine-transform pair away from its singular points at
/// r = 0 and k = 0.  A grid is never mutated after construction.
pub struct Grid<S> {
    pub npts: usize,
    pub radius: S,
    pub dr: S,
    pub dk: S,
    pub ri: Vec<S>,
    pub ki: Vec<S>,
}

impl<S: Scalar> Grid<S> {
    /// A grid is well formed when it has at least one point and both point
    /// sequences have exactly one entry per point.
    pub open spec fn wf(&self) -> bool {
        &&& self.npts > 0
        &&& self.ri@.len() == self.npts
        &&& self.ki@.len() == self.npts
    }

    /// The value of the `i`-th sample point for spacing `d`:
    /// `(i + 1/2) * d`.
    pub open spec fn point_spec(i: usize, d: S) -> S {
        S::spec_from_usize(i).spec_add(S::spec_half()).spec_mul(d)
    }

    /// Builds the fully populated grid, or reports `InvalidGrid` when the
    /// point count is zero or the radius is not positive.  Every field of
    /// the result is the stated function of `npts` and `radius` alone.
    pub fn new(npts: usize, radius: S) -> (r: Result<Grid<S>, OzError>)
        ensures
            r is Ok <==> (npts > 0 && radius.spec_is_positive()),
            r matches Err(e) ==> e == OzError::InvalidGrid,
            r matches Ok(g) ==> {
                &&& g.wf()
                &&& g.npts == npts
                &&& g.radius == radius
                &&& g.dr == radius.spec_div(S::spec_from_usize(npts))
                &&& g.dk == S::spec_pi().spec_div(S::spec_from_usize(npts).spec_mul(g.dr))
                &&& forall|i: int|
                    0 <= i < npts ==> #[trigger] g.ri@[i] == Self::point_spec(i as usize, g.dr)
                &&& forall|i: int|
                    0 <= i < npts ==> #[trigger] g.ki@[i] == Self::point_spec(i as usize, g.dk)
            },
    {
        if npts == 0 {
            return Err(OzError::InvalidGrid);
        }
        if !radius.is_positive() {
            return Err(OzError::InvalidGrid);
        }
        let n_s = S::from_usize(npts);
        let dr = radius.div(&n_s);
        let dk = S::pi().div(&n_s.mul(&dr));
        let half = S::half();
        let mut ri: Vec<S> = Vec::new();
        let mut i: usize = 0;
        while i < npts
            invariant
                i <= npts,
                ri@.len() == i,
                half == S::spec_half(),
                forall|k: int| 0 <= k < i ==> #[trigger] ri@[k] == Self::point_spec(k as usize, dr),
            decreases npts - i,
        {
            ri.push(S::from_usize(i).add(&half).mul(&dr));
            i = i + 1;
        }
        let mut ki: Vec<S> = Vec::new();
        let mut j: usize = 0;
        while j < npts
            invariant
                j <= npts,
                ki@.len() == j,
                half == S::spec_half(),
                forall|k: int| 0 <= k < j ==> #[trigger] ki@[k] == Self::point_spec(k as usize, dk),
            decreases npts - j,
        {
            ki.push(S::from_usize(j).add(&half).mul(&dk));
            j = j + 1;
        }
        Ok(Grid { npts, radius, dr, dk, ri, ki })
    }

    /// Applies a discrete sine-transform plan to `func` and scales every
    /// entry by `prefac`.  An output of the wrong length is rejected rather
    /// than passed on.
    pub fn dfbt<E: SpectralPlan<S>>(&self, prefac: &S, func: &Vec<S>, plan: &E) -> (r: Result<
        Vec<S>,
        OzError,
    >)
        ensures
            r matches Ok(v) ==> {
                &&& v@.len() == func@.len()
                &&& forall|k: int|
                    0 <= k < v@.len() ==> #[trigger] v@[k] == (*prefac).spec_mul(
                        plan.spec_process_at(*func, k as usize),
                    )
            },
            r is Ok <==> plan.spec_process_len(*func) == func@.len(),
            r matches Err(e) ==> e matches OzError::LengthMismatch { .. },
    {
        let raw = plan.process(func);
        if raw.len() != func.len() {
            return Err(OzError::LengthMismatch { expected: func.len(), found: raw.len() });
        }
        let mut scaled: Vec<S> = Vec::new();
        let mut i: usize = 0;
        while i < raw.len()
            invariant
                i <= raw@.len(),
                scaled@.len() == i,
                forall|k: int|
                    0 <= k < raw@.len() ==> #[trigger] raw@[k] == plan.spec_process_at(
                        *func,
                        k as usize,
                    ),
                forall|k: int|
                    0 <= k < i ==> #[trigger] scaled@[k] == (*prefac).spec_mul(
                        plan.spec_process_at(*func, k as usize),
                    ),
            decreases raw@.len() - i,
        {
            scaled.push(prefac.mul(&raw[i]));
            i = i + 1;
        }
        Ok(scaled)
    }
}

} // verus!
