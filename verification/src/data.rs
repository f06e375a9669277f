use vstd::prelude::*;

use crate::error::ConfigField;
use crate::error::OzError;
use crate::scalar::Scalar;

verus! {

/// The numerical record of one problem.
///
/// `kT` is the reference thermal energy unit, `T` the temperature, `p` the
/// number density and `B = 1 / (kT * T)` the derived inverse thermal energy.
/// The four sequences hold, per grid point, the potential `u`, the direct
/// correlation function `c`, the indirect correlation function `t` and the
/// total correlation function `h`; all four always share the grid's length.
#[allow(non_snake_case)]
pub struct Data<S> {
    pub kT: S,
    pub T: S,
    pub p: S,
    pub B: S,
    pub u: Vec<S>,
    pub c: Vec<S>,
    pub h: Vec<S>,
    pub t: Vec<S>,
}

impl<S: Scalar> Data<S> {
    /// All four sequences hold one entry per grid point.
    pub open spec fn wf(&self, npts: usize) -> bool {
        &&& self.u@.len() == npts
        &&& self.c@.len() == npts
        &&& self.t@.len() == npts
        &&& self.h@.len() == npts
    }

    /// Starts a builder with every field unset.
    pub fn build() -> (r: DataBuilder<S>)
        ensures
            r.kT is None,
            r.T is None,
            r.p is None,
            r.npts is None,
    {
        DataBuilder { kT: None, T: None, p: None, npts: None }
    }
}

/// Accumulates the four mandatory parameters of a [`Data`] record.
#[allow(non_snake_case)]
pub struct DataBuilder<S> {
    pub kT: Option<S>,
    pub T: Option<S>,
    pub p: Option<S>,
    pub npts: Option<usize>,
}

impl<S: Scalar> DataBuilder<S> {
    /// Sets the reference thermal energy unit.
    #[allow(non_snake_case)]
    pub fn boltzmann_constant(self, kT: S) -> (r: Self)
        ensures
            r.kT == Some(kT),
            r.T == self.T,
            r.p == self.p,
            r.npts == self.npts,
    {
        DataBuilder { kT: Some(kT), ..self }
    }

    /// Sets the temperature.
    #[allow(non_snake_case)]
    pub fn temperature(self, T: S) -> (r: Self)
        ensures
            r.T == Some(T),
            r.kT == self.kT,
            r.p == self.p,
            r.npts == self.npts,
    {
        DataBuilder { T: Some(T), ..self }
    }

    /// Sets the number density.
    pub fn density(self, p: S) -> (r: Self)
        ensures
            r.p == Some(p),
            r.kT == self.kT,
            r.T == self.T,
            r.npts == self.npts,
    {
        DataBuilder { p: Some(p), ..self }
    }

    /// Sets the point count, which must match the grid the record is used
    /// with.
    pub fn npts(self, npts: usize) -> (r: Self)
        ensures
            r.npts == Some(npts),
            r.kT == self.kT,
            r.T == self.T,
            r.p == self.p,
    {
        DataBuilder { npts: Some(npts), ..self }
    }

    /// Finalises the record.  Every field is mandatory: a missing one is
    /// reported as `IncompleteConfiguration` naming the first absent field,
    /// in the order point count, thermal energy unit, temperature, density.
    /// On success `B` is derived as `1 / (kT * T)` and the four sequences
    /// are zero-filled at the grid's length.
    pub fn build(self) -> (r: Result<Data<S>, OzError>)
        ensures
            self.npts is None ==> r == Err::<Data<S>, OzError>(
                OzError::IncompleteConfiguration { missing: ConfigField::Npts },
            ),
            self.npts is Some && self.kT is None ==> r == Err::<Data<S>, OzError>(
                OzError::IncompleteConfiguration { missing: ConfigField::BoltzmannConstant },
            ),
            self.npts is Some && self.kT is Some && self.T is None ==> r == Err::<Data<S>, OzError>(
                OzError::IncompleteConfiguration { missing: ConfigField::Temperature },
            ),
            self.npts is Some && self.kT is Some && self.T is Some && self.p is None ==> r == Err::<
                Data<S>,
                OzError,
            >(OzError::IncompleteConfiguration { missing: ConfigField::Density }),
            r is Ok <==> (self.npts is Some && self.kT is Some && self.T is Some && self.p is Some),
            r matches Ok(d) ==> {
                &&& d.kT == self.kT.unwrap()
                &&& d.T == self.T.unwrap()
                &&& d.p == self.p.unwrap()
                &&& d.B == S::spec_one().spec_div(self.kT.unwrap().spec_mul(self.T.unwrap()))
                &&& d.wf(self.npts.unwrap())
                &&& forall|i: int| 0 <= i < d.u@.len() ==> #[trigger] d.u@[i] == S::spec_zero()
                &&& forall|i: int| 0 <= i < d.c@.len() ==> #[trigger] d.c@[i] == S::spec_zero()
                &&& forall|i: int| 0 <= i < d.t@.len() ==> #[trigger] d.t@[i] == S::spec_zero()
                &&& forall|i: int| 0 <= i < d.h@.len() ==> #[trigger] d.h@[i] == S::spec_zero()
            },
    {
        let npts = match self.npts {
            Some(n) => n,
            None => {
                return Err(OzError::IncompleteConfiguration { missing: ConfigField::Npts });
            },
        };
        let k_t = match self.kT {
            Some(v) => v,
            None => {
                return Err(
                    OzError::IncompleteConfiguration { missing: ConfigField::BoltzmannConstant },
                );
            },
        };
        let temp = match self.T {
            Some(v) => v,
            None => {
                return Err(OzError::IncompleteConfiguration { missing: ConfigField::Temperature });
            },
        };
        let p = match self.p {
            Some(v) => v,
            None => {
                return Err(OzError::IncompleteConfiguration { missing: ConfigField::Density });
            },
        };
        let b = S::one().div(&k_t.mul(&temp));
        let u = zeros::<S>(npts);
        let c = zeros::<S>(npts);
        let h = zeros::<S>(npts);
        let t = zeros::<S>(npts);
        Ok(Data { kT: k_t, T: temp, p, B: b, u, c, h, t })
    }
}

/// A zero-filled sequence of the given length.
fn zeros<S: Scalar>(n: usize) -> (r: Vec<S>)
    ensures
        r@.len() == n,
        forall|i: int| 0 <= i < n ==> #[trigger] r@[i] == S::spec_zero(),
{
    let mut v: Vec<S> = Vec::new();
    let mut i: usize = 0;
    while i < n
        invariant
            i <= n,
            v@.len() == i,
            forall|k: int| 0 <= k < i ==> #[trigger] v@[k] == S::spec_zero(),
        decreases n - i,
    {
        v.push(S::zero());
        i = i + 1;
    }
    v
}

} // verus!
