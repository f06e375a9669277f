use vstd::prelude::*;

use crate::scalar::Scalar;

verus! {

/// A closure relation: maps radii, potential, indirect correlation and the
/// inverse thermal energy to a candidate direct correlation function.
///
/// All sequences share one length; the result has one entry per point.
/// `model_at` names the implementation's own formula for the candidate at
/// one point, so that contracts can say which value each output entry is.
pub trait Closure<S> {
    /// The value the `i`-th output entry holds.
    spec fn model_at(&self, r: Vec<S>, u: Vec<S>, t: Vec<S>, b: S, i: usize) -> S;

    fn calculate(&self, r: &Vec<S>, u: &Vec<S>, t: &Vec<S>, b: &S) -> (c: Vec<S>)
        requires
            u@.len() == r@.len(),
            t@.len() == r@.len(),
        ensures
            c@.len() == r@.len(),
            forall|i: int|
                0 <= i < c@.len() ==> #[trigger] c@[i] == self.model_at(*r, *u, *t, *b, i as usize),
    ;
}

/// The hypernetted-chain closure
/// `c(r) = exp(-B * u(r) + t(r)) - 1 - t(r)`.
///
/// An overflowing exponential is not an error here: a non-finite entry in
/// the candidate surfaces at the solver as numerical divergence.
pub struct HyperNettedChain;

impl HyperNettedChain {
    pub fn new() -> (r: Self) {
        HyperNettedChain {  }
    }
}

impl<S: Scalar> Closure<S> for HyperNettedChain {
    /// `exp(-b * u[i] + t[i]) - 1 - t[i]`.
    open spec fn model_at(&self, r: Vec<S>, u: Vec<S>, t: Vec<S>, b: S, i: usize) -> S {
        let exponent = b.spec_neg().spec_mul(u@[i as int]).spec_add(t@[i as int]);
        exponent.spec_exp().spec_sub(S::spec_one()).spec_sub(t@[i as int])
    }

    fn calculate(&self, r: &Vec<S>, u: &Vec<S>, t: &Vec<S>, b: &S) -> (c: Vec<S>) {
        let one = S::one();
        let mut c: Vec<S> = Vec::new();
        let mut i: usize = 0;
        while i < r.len()
            invariant
                i <= r@.len(),
                u@.len() == r@.len(),
                t@.len() == r@.len(),
                c@.len() == i,
                one == S::spec_one(),
                forall|k: int|
                    0 <= k < i ==> #[trigger] c@[k] == self.model_at(*r, *u, *t, *b, k as usize),
            decreases r@.len() - i,
        {
            let exponent = b.neg().mul(&u[i]).add(&t[i]);
            c.push(exponent.exp().sub(&one).sub(&t[i]));
            i = i + 1;
        }
        c
    }
}

} // verus!
