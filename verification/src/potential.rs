use vstd::prelude::*;

use crate::error::OzError;
use crate::scalar::Scalar;

verus! {

/// A pair-interaction potential: maps radii to interaction energies.
///
/// A potential is stateless apart from its own fixed parameters, returns one
/// energy per radius, and fails exactly on an empty input.  `model_at` names
/// the implementation's own formula for the energy at one radius, so that
/// contracts can say which value each output entry is.
pub trait Potential<S> {
    /// The value the `i`-th output entry holds for the radii `r`.
    spec fn model_at(&self, r: Vec<S>, i: usize) -> S;

    fn calculate(&self, r: &Vec<S>) -> (res: Result<Vec<S>, OzError>)
        ensures
            res matches Ok(u) ==> {
                &&& u@.len() == r@.len()
                &&& r@.len() > 0
                &&& forall|i: int|
                    0 <= i < u@.len() ==> #[trigger] u@[i] == self.model_at(*r, i as usize)
            },
            res matches Err(e) ==> e == OzError::EmptyInput && r@.len() == 0,
    ;
}

/// The Lennard-Jones potential
/// `u(r) = 4 * epsilon * ((sigma / r)^12 - (sigma / r)^6)`.
pub struct LennardJones<S> {
    pub sigma: S,
    pub epsilon: S,
}

impl<S: Scalar> LennardJones<S> {
    pub fn new(sigma: S, epsilon: S) -> (r: Self)
        ensures
            r.sigma == sigma,
            r.epsilon == epsilon,
    {
        LennardJones { sigma, epsilon }
    }
}

impl<S: Scalar> Potential<S> for LennardJones<S> {
    /// `4 * epsilon * ((sigma / r[i])^12 - (sigma / r[i])^6)`, with the
    /// powers built by squaring as the body builds them.
    open spec fn model_at(&self, r: Vec<S>, i: usize) -> S {
        let ir = self.sigma.spec_div(r@[i as int]);
        let ir2 = ir.spec_mul(ir);
        let ir6 = ir2.spec_mul(ir2).spec_mul(ir2);
        let ir12 = ir6.spec_mul(ir6);
        S::spec_from_usize(4).spec_mul(self.epsilon).spec_mul(ir12.spec_sub(ir6))
    }

    fn calculate(&self, r: &Vec<S>) -> (res: Result<Vec<S>, OzError>) {
        if r.len() == 0 {
            return Err(OzError::EmptyInput);
        }
        let four = S::from_usize(4);
        let mut u: Vec<S> = Vec::new();
        let mut i: usize = 0;
        while i < r.len()
            invariant
                i <= r@.len(),
                u@.len() == i,
                four == S::spec_from_usize(4),
                forall|k: int| 0 <= k < i ==> #[trigger] u@[k] == self.model_at(*r, k as usize),
            decreases r@.len() - i,
        {
            let ir = self.sigma.div(&r[i]);
            let ir2 = ir.mul(&ir);
            let ir6 = ir2.mul(&ir2).mul(&ir2);
            let ir12 = ir6.mul(&ir6);
            u.push(four.mul(&self.epsilon).mul(&ir12.sub(&ir6)));
            i = i + 1;
        }
        Ok(u)
    }
}

} // verus!
