use vstd::prelude::*;

use crate::scalar::Scalar;

verus! {

/// An integral equation: maps the direct correlation function in reciprocal
/// space, the reciprocal coordinates and the density to the indirect
/// correlation function in reciprocal space.  `model_at` names the
/// implementation's own formula for one entry, so that contracts can say
/// which value each output entry is.
pub trait IntegralEquation<S> {
    /// The value the `i`-th output entry holds.
    spec fn model_at(&self, ck: Vec<S>, k: Vec<S>, p: S, i: usize) -> S;

    fn calculate(&self, ck: &Vec<S>, k: &Vec<S>, p: &S) -> (t: Vec<S>)
        requires
            k@.len() == ck@.len(),
        ensures
            t@.len() == ck@.len(),
            forall|i: int|
                0 <= i < t@.len() ==> #[trigger] t@[i] == self.model_at(*ck, *k, *p, i as usize),
    ;
}

/// The Ornstein-Zernike relation in reciprocal space,
/// `t(k) = p * c(k)^2 / (1 - p * c(k))`.
///
/// The denominator is the dimensionless `1 - p * c(k)`: a denominator that
/// approaches zero produces non-finite entries, which the solver reports as
/// numerical divergence.
pub struct OZInt;

impl OZInt {
    pub fn new() -> (r: Self) {
        OZInt {  }
    }
}

impl<S: Scalar> IntegralEquation<S> for OZInt {
    /// `(p * ck[i]) * ck[i] / (1 - p * ck[i])`.
    open spec fn model_at(&self, ck: Vec<S>, k: Vec<S>, p: S, i: usize) -> S {
        let pc = p.spec_mul(ck@[i as int]);
        pc.spec_mul(ck@[i as int]).spec_div(S::spec_one().spec_sub(pc))
    }

    fn calculate(&self, ck: &Vec<S>, k: &Vec<S>, p: &S) -> (t: Vec<S>) {
        let one = S::one();
        let mut t: Vec<S> = Vec::new();
        let mut i: usize = 0;
        while i < ck.len()
            invariant
                i <= ck@.len(),
                t@.len() == i,
                one == S::spec_one(),
                forall|j: int|
                    0 <= j < i ==> #[trigger] t@[j] == self.model_at(*ck, *k, *p, j as usize),
            decreases ck@.len() - i,
        {
            let pc = p.mul(&ck[i]);
            t.push(pc.mul(&ck[i]).div(&one.sub(&pc)));
            i = i + 1;
        }
        t
    }
}

} // verus!
