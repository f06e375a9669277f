use vstd::prelude::*;

use crate::closure::Closure;
use crate::data::Data;
use crate::error::ConfigField;
use crate::error::OzError;
use crate::grid::Grid;
use crate::integral::IntegralEquation;
use crate::potential::Potential;
use crate::scalar::Scalar;
use crate::transform::SpectralPlan;
use crate::transform::Transform;

verus! {

/// A generic fixed-point problem: one application of the underlying operator
/// and a residual between an iterate and its image.  An extension interface
/// for callers that drive their own iteration.
pub trait ConvProblem<S> {
    fn update(&mut self, input: &Vec<S>) -> Vec<S>;

    fn residual(&mut self, input: &Vec<S>, output: &Vec<S>) -> S;
}

/// A driver strategy over [`ConvProblem`].  An extension interface.
pub trait Converger {
    fn next_iter();
}

/// Where a solver stands in its lifecycle.
///
/// `Assembled` and `Initialised` precede the iteration; `Converged` and
/// `MaxIterationsReached` are the two terminal outcomes of `solve`, kept
/// distinct so that a caller can decide how far to trust the result; a
/// `Finalised` solver has rescaled its output and derived `h`, and remembers
/// which terminal outcome it came from.
#[derive(Clone, Copy, Debug, PartialEq, Eq, Structural)]
pub enum SolverPhase {
    Assembled,
    Initialised,
    Converged,
    MaxIterationsReached,
    Finalised { converged: bool },
}

/// Accumulates the five parts of a solver.  Every field is mandatory.
#[allow(non_camel_case_types)]
pub struct OZ_builder<S, P, C, I, E> {
    pub grid: Option<Grid<S>>,
    pub data: Option<Data<S>>,
    pub pot: Option<P>,
    pub clos: Option<C>,
    pub int_eq: Option<I>,
    pub plan: Option<E>,
}

impl<S: Scalar, P: Potential<S>, C: Closure<S>, I: IntegralEquation<S>, E: SpectralPlan<S>> OZ_builder<
    S,
    P,
    C,
    I,
    E,
> {
    /// Sets the problem record.
    pub fn data(self, data: Data<S>) -> (r: Self)
        ensures
            r.data == Some(data),
            r.grid == self.grid,
            r.pot == self.pot,
            r.clos == self.clos,
            r.int_eq == self.int_eq,
            r.plan == self.plan,
    {
        OZ_builder { data: Some(data), ..self }
    }

    /// Sets the grid.
    pub fn grid(self, grid: Grid<S>) -> (r: Self)
        ensures
            r.grid == Some(grid),
            r.data == self.data,
            r.pot == self.pot,
            r.clos == self.clos,
            r.int_eq == self.int_eq,
            r.plan == self.plan,
    {
        OZ_builder { grid: Some(grid), ..self }
    }

    /// Sets the potential strategy.
    pub fn pot(self, pot: P) -> (r: Self)
        ensures
            r.pot == Some(pot),
            r.grid == self.grid,
            r.data == self.data,
            r.clos == self.clos,
            r.int_eq == self.int_eq,
            r.plan == self.plan,
    {
        OZ_builder { pot: Some(pot), ..self }
    }

    /// Sets the closure strategy.
    pub fn clos(self, clos: C) -> (r: Self)
        ensures
            r.clos == Some(clos),
            r.grid == self.grid,
            r.data == self.data,
            r.pot == self.pot,
            r.int_eq == self.int_eq,
            r.plan == self.plan,
    {
        OZ_builder { clos: Some(clos), ..self }
    }

    /// Sets the integral-equation strategy.
    pub fn int_eq(self, int_eq: I) -> (r: Self)
        ensures
            r.int_eq == Some(int_eq),
            r.grid == self.grid,
            r.data == self.data,
            r.pot == self.pot,
            r.clos == self.clos,
            r.plan == self.plan,
    {
        OZ_builder { int_eq: Some(int_eq), ..self }
    }

    /// Sets the spectral plan the transform pair is built around.
    pub fn plan(self, plan: E) -> (r: Self)
        ensures
            r.plan == Some(plan),
            r.grid == self.grid,
            r.data == self.data,
            r.pot == self.pot,
            r.clos == self.clos,
            r.int_eq == self.int_eq,
    {
        OZ_builder { plan: Some(plan), ..self }
    }

    /// Finalises the solver.
    ///
    /// A missing field is reported as `IncompleteConfiguration` naming the
    /// first absent one, in the order grid, data, potential, closure,
    /// integral equation, plan.  A grid whose sequences do not match its
    /// point count, a data record sized for another grid, and a plan of the
    /// wrong length are rejected as well.
    pub fn build(self) -> (r: Result<OZ<S, P, C, I, E>, OzError>)
        ensures
            self.grid is None ==> (r matches Err(e) && e == (
            OzError::IncompleteConfiguration { missing: ConfigField::Grid }
            )),
            self.grid is Some && self.data is None ==> (r matches Err(e) && e == (
            OzError::IncompleteConfiguration { missing: ConfigField::Data }
            )),
            self.grid is Some && self.data is Some && self.pot is None ==> (r matches Err(e) && e
                == (OzError::IncompleteConfiguration { missing: ConfigField::Potential })),
            self.grid is Some && self.data is Some && self.pot is Some && self.clos is None ==> (r
                matches Err(e) && e == (
            OzError::IncompleteConfiguration { missing: ConfigField::Closure }
            )),
            self.grid is Some && self.data is Some && self.pot is Some && self.clos is Some
                && self.int_eq is None ==> (r matches Err(e) && e == (
            OzError::IncompleteConfiguration { missing: ConfigField::IntegralEquation }
            )),
            self.grid is Some && self.data is Some && self.pot is Some && self.clos is Some
                && self.int_eq is Some && self.plan is None ==> (r matches Err(e) && e == (
            OzError::IncompleteConfiguration { missing: ConfigField::Plan }
            )),
            r matches Ok(oz) ==> {
                &&& self.grid == Some(oz.grid)
                &&& self.data == Some(oz.data)
                &&& self.pot == Some(oz.pot)
                &&& self.clos == Some(oz.clos)
                &&& self.int_eq == Some(oz.int_eq)
                &&& oz.wf()
                &&& oz.phase == SolverPhase::Assembled
                &&& oz.iterations == 0
            },
            r matches Err(e) ==> (e matches OzError::IncompleteConfiguration { .. } || e
                == OzError::InvalidGrid || (e matches OzError::LengthMismatch { .. }) || (
            e matches OzError::PlanConstructionFailed { .. }
            )),
            self.grid is Some && self.data is Some && self.pot is Some && self.clos is Some
                && self.int_eq is Some && self.plan is Some ==> {
                &&& (!self.grid.unwrap().wf() ==> (r matches Err(e) && e == OzError::InvalidGrid))
                &&& (self.grid.unwrap().wf() && !self.data.unwrap().wf(self.grid.unwrap().npts)
                    ==> (r matches Err(e) && e matches OzError::LengthMismatch { .. }))
                &&& (self.grid.unwrap().wf() && self.data.unwrap().wf(self.grid.unwrap().npts)
                    ==> (r is Ok || (r matches Err(e) && e matches OzError::PlanConstructionFailed {
                        ..
                    })))
            },
    {
        let grid = match self.grid {
            Some(g) => g,
            None => {
                return Err(OzError::IncompleteConfiguration { missing: ConfigField::Grid });
            },
        };
        let data = match self.data {
            Some(d) => d,
            None => {
                return Err(OzError::IncompleteConfiguration { missing: ConfigField::Data });
            },
        };
        let pot = match self.pot {
            Some(p) => p,
            None => {
                return Err(OzError::IncompleteConfiguration { missing: ConfigField::Potential });
            },
        };
        let clos = match self.clos {
            Some(c) => c,
            None => {
                return Err(OzError::IncompleteConfiguration { missing: ConfigField::Closure });
            },
        };
        let int_eq = match self.int_eq {
            Some(i) => i,
            None => {
                return Err(
                    OzError::IncompleteConfiguration { missing: ConfigField::IntegralEquation },
                );
            },
        };
        let plan = match self.plan {
            Some(e) => e,
            None => {
                return Err(OzError::IncompleteConfiguration { missing: ConfigField::Plan });
            },
        };
        let n = grid.npts;
        if n == 0 || grid.ri.len() != n || grid.ki.len() != n {
            return Err(OzError::InvalidGrid);
        }
        if data.u.len() != n {
            return Err(OzError::LengthMismatch { expected: n, found: data.u.len() });
        }
        if data.c.len() != n {
            return Err(OzError::LengthMismatch { expected: n, found: data.c.len() });
        }
        if data.t.len() != n {
            return Err(OzError::LengthMismatch { expected: n, found: data.t.len() });
        }
        if data.h.len() != n {
            return Err(OzError::LengthMismatch { expected: n, found: data.h.len() });
        }
        let transform = match Transform::build(&grid, plan) {
            Ok(t) => t,
            Err(e) => {
                return Err(e);
            },
        };
        Ok(
            OZ {
                grid,
                data,
                pot,
                clos,
                int_eq,
                transform,
                phase: SolverPhase::Assembled,
                iterations: 0,
            },
        )
    }
}

/// The solver: one grid, one problem record, the three strategies and the
/// transform pair, driven to self-consistency by `solve`.
#[allow(non_camel_case_types)]
pub struct OZ<S, P, C, I, E> {
    pub grid: Grid<S>,
    pub data: Data<S>,
    pub pot: P,
    pub clos: C,
    pub int_eq: I,
    pub transform: Transform<S, E>,
    pub phase: SolverPhase,
    pub iterations: u32,
}

impl<S: Scalar, P: Potential<S>, C: Closure<S>, I: IntegralEquation<S>, E: SpectralPlan<S>> OZ<
    S,
    P,
    C,
    I,
    E,
> {
    /// The grid, the transform and every sequence of the record agree on one
    /// point count.
    pub open spec fn wf(&self) -> bool {
        &&& self.grid.wf()
        &&& self.transform.size_spec() == self.grid.npts
        &&& self.data.wf(self.grid.npts)
    }

    /// Starts a builder with every field unset.
    pub fn build() -> (r: OZ_builder<S, P, C, I, E>)
        ensures
            r.grid is None,
            r.data is None,
            r.pot is None,
            r.clos is None,
            r.int_eq is None,
            r.plan is None,
    {
        OZ_builder { grid: None, data: None, pot: None, clos: None, int_eq: None, plan: None }
    }

    /// Re-checks the agreement of the point counts, which a caller could
    /// have broken through the public fields since construction.
    fn check_state(&self) -> (r: Option<OzError>)
        ensures
            r is None <==> self.wf(),
            r matches Some(e) ==> (e == OzError::InvalidGrid || (
            e matches OzError::PlanConstructionFailed { .. }
            ) || (e matches OzError::LengthMismatch { .. })),
    {
        let n = self.grid.npts;
        if n == 0 || self.grid.ri.len() != n || self.grid.ki.len() != n {
            return Some(OzError::InvalidGrid);
        }
        let plan_n = self.transform.size();
        if plan_n != n {
            return Some(OzError::PlanConstructionFailed { expected: n, found: plan_n });
        }
        if self.data.u.len() != n {
            return Some(OzError::LengthMismatch { expected: n, found: self.data.u.len() });
        }
        if self.data.c.len() != n {
            return Some(OzError::LengthMismatch { expected: n, found: self.data.c.len() });
        }
        if self.data.t.len() != n {
            return Some(OzError::LengthMismatch { expected: n, found: self.data.t.len() });
        }
        if self.data.h.len() != n {
            return Some(OzError::LengthMismatch { expected: n, found: self.data.h.len() });
        }
        None
    }

    /// The last step `solve` accepted, written out through
    /// [`operator_step`]: the stored `c` is the damped blend of the previous
    /// iterate `prevv` with the candidate the operator chain produced from
    /// it, the stored `t` is that chain's real-space `trv`, and a
    /// `Converged` solver passed the sum-difference test against `prevv`.
    pub open spec fn last_step(
        &self,
        damp: S,
        tol: S,
        prevv: Vec<S>,
        ck: Vec<S>,
        tk: Vec<S>,
        trv: Vec<S>,
        cand: Vec<S>,
    ) -> bool {
        &&& operator_step(
            self.transform,
            self.int_eq,
            self.clos,
            self.grid,
            self.data.u,
            self.data.B,
            self.data.p,
            damp,
            prevv,
            ck,
            tk,
            trv,
            cand,
            self.data.c,
        )
        &&& self.data.t@ == trv@
        &&& (self.phase == SolverPhase::Converged ==> sum_spec(self.data.c@).spec_sub(
            sum_spec(prevv@),
        ).spec_abs().spec_lt(tol))
    }

    /// Seeds the record: the potential profile `u` is evaluated on the
    /// grid's radii and the starting guess becomes the first iterate of `c`.
    /// Accepted exactly once, on a well-formed assembled solver, with a
    /// guess of the grid's length.
    pub fn initialise(self, initial_guess: Vec<S>) -> (r: Result<Self, OzError>)
        ensures
            r is Ok <==> (self.phase == SolverPhase::Assembled && self.wf()
                && initial_guess@.len() == self.grid.npts),
            self.phase != SolverPhase::Assembled ==> (r matches Err(e) && e
                == OzError::InvalidPhase),
            r matches Err(e) ==> (e == OzError::InvalidPhase || e == OzError::InvalidGrid || (
            e matches OzError::PlanConstructionFailed { .. }
            ) || (e matches OzError::LengthMismatch { .. })),
            r matches Ok(oz) ==> {
                &&& oz.wf()
                &&& oz.phase == SolverPhase::Initialised
                &&& oz.iterations == self.iterations
                &&& oz.data.c@ == initial_guess@
                &&& oz.data.u@.len() == oz.grid.npts
                &&& forall|i: int|
                    0 <= i < oz.data.u@.len() ==> #[trigger] oz.data.u@[i] == self.pot.model_at(
                        self.grid.ri,
                        i as usize,
                    )
                &&& oz.data.t@ == self.data.t@
                &&& oz.data.h@ == self.data.h@
                &&& oz.data.kT == self.data.kT
                &&& oz.data.T == self.data.T
                &&& oz.data.p == self.data.p
                &&& oz.data.B == self.data.B
                &&& oz.grid == self.grid
                &&& oz.pot == self.pot
                &&& oz.clos == self.clos
                &&& oz.int_eq == self.int_eq
                &&& oz.transform == self.transform
            },
    {
        let mut this = self;
        if !(this.phase == SolverPhase::Assembled) {
            return Err(OzError::InvalidPhase);
        }
        match this.check_state() {
            Some(e) => {
                return Err(e);
            },
            None => {},
        }
        if initial_guess.len() != this.grid.npts {
            return Err(
                OzError::LengthMismatch { expected: this.grid.npts, found: initial_guess.len() },
            );
        }
        let u = match this.pot.calculate(&this.grid.ri) {
            Ok(u) => u,
            Err(e) => {
                return Err(e);
            },
        };
        this.data.u = u;
        this.data.c = initial_guess;
        this.phase = SolverPhase::Initialised;
        Ok(this)
    }

    /// Drives the direct correlation function to self-consistency.
    ///
    /// Each iteration applies the operator - forward transform, integral
    /// equation, backward transform, closure - then blends the candidate
    /// into the previous iterate as `c + damp * (candidate - c)`, stops on
    /// `NumericalDivergence` if a non-finite value appeared, and otherwise
    /// accepts the blend.  It converges when the magnitude of the difference
    /// of the sums of the old and new iterates falls below `tol`; reaching
    /// `maxiter` accepted iterations first is the other, non-fatal, terminal
    /// outcome, `MaxIterationsReached`, which retains the last iterate.
    pub fn solve(self, tol: S, maxiter: u32, damp: S) -> (r: Result<Self, OzError>)
        ensures
            self.phase != SolverPhase::Initialised ==> (r matches Err(e) && e
                == OzError::InvalidPhase),
            self.phase == SolverPhase::Initialised && !self.wf() ==> r is Err,
            self.phase == SolverPhase::Initialised && self.wf() && maxiter == 0 ==> r is Ok,
            self.phase == SolverPhase::Initialised && self.wf() ==> (r is Ok || (r matches Err(e)
                && (e == OzError::NumericalDivergence || (e matches OzError::LengthMismatch {
                .. })))),
            r == Err::<Self, OzError>(OzError::NumericalDivergence) ==> exists|
                prevv: Vec<S>,
                ck: Vec<S>,
                tk: Vec<S>,
                trv: Vec<S>,
                cand: Vec<S>,
                cnew: Vec<S>,
            |
                {
                    &&& #[trigger] operator_step(
                        self.transform,
                        self.int_eq,
                        self.clos,
                        self.grid,
                        self.data.u,
                        self.data.B,
                        self.data.p,
                        damp,
                        prevv,
                        ck,
                        tk,
                        trv,
                        cand,
                        cnew,
                    )
                    &&& exists|j: int|
                        0 <= j < self.grid.npts && (!(#[trigger] cnew@[j]).spec_is_finite()
                            || !trv@[j].spec_is_finite())
                },
            r matches Err(e) ==> (e == OzError::InvalidPhase || e == OzError::NumericalDivergence
                || e == OzError::InvalidGrid || (e matches OzError::PlanConstructionFailed { .. })
                || (e matches OzError::LengthMismatch { .. })),
            r matches Ok(oz) ==> {
                &&& self.phase == SolverPhase::Initialised
                &&& self.wf()
                &&& oz.wf()
                &&& (oz.phase == SolverPhase::Converged || oz.phase
                    == SolverPhase::MaxIterationsReached)
                &&& oz.iterations <= maxiter
                &&& (oz.phase == SolverPhase::MaxIterationsReached ==> oz.iterations
                    == maxiter)
                &&& (oz.phase == SolverPhase::Converged ==> 1 <= oz.iterations)
                &&& oz.data.u@ == self.data.u@
                &&& oz.data.h@ == self.data.h@
                &&& oz.data.kT == self.data.kT
                &&& oz.data.T == self.data.T
                &&& oz.data.p == self.data.p
                &&& oz.data.B == self.data.B
                &&& oz.grid == self.grid
                &&& oz.pot == self.pot
                &&& oz.clos == self.clos
                &&& oz.int_eq == self.int_eq
                &&& oz.transform == self.transform
                &&& (maxiter == 0 ==> oz.phase == SolverPhase::MaxIterationsReached
                    && oz.data.c@ == self.data.c@ && oz.data.t@ == self.data.t@)
                &&& (oz.iterations > 0 ==> {
                    &&& forall|j: int|
                        0 <= j < oz.data.c@.len() ==> (#[trigger] oz.data.c@[j]).spec_is_finite()
                    &&& forall|j: int|
                        0 <= j < oz.data.t@.len() ==> (#[trigger] oz.data.t@[j]).spec_is_finite()
                    &&& exists|prevv: Vec<S>, ck: Vec<S>, tk: Vec<S>, trv: Vec<S>, cand: Vec<S>|
                        #[trigger] oz.last_step(damp, tol, prevv, ck, tk, trv, cand)
                })
            },
    {
        let mut this = self;
        if !(this.phase == SolverPhase::Initialised) {
            return Err(OzError::InvalidPhase);
        }
        match this.check_state() {
            Some(e) => {
                return Err(e);
            },
            None => {},
        }
        if maxiter == 0 {
            this.phase = SolverPhase::MaxIterationsReached;
            this.iterations = 0;
            return Ok(this);
        }
        let OZ { grid, data, pot, clos, int_eq, transform, phase: _, iterations: _ } = this;
        let Data { kT: k_t, T: temp, p, B: b, u, c, h, t } = data;
        let n = grid.npts;
        let mut c = c;
        let mut t_cur = t;
        let mut i: u32 = 0;
        let mut conv_done = false;
        let mut fail: Option<OzError> = None;
        let ghost mut g_prevv: Vec<S> = c;
        let ghost mut g_ck: Vec<S> = c;
        let ghost mut g_tk: Vec<S> = c;
        let ghost mut g_trv: Vec<S> = c;
        let ghost mut g_cand: Vec<S> = c;
        let ghost mut g_cnew: Vec<S> = c;
        while i < maxiter
            invariant_except_break
                fail is None,
                !conv_done,
                i > 0 ==> {
                    &&& operator_step(
                        transform,
                        int_eq,
                        clos,
                        grid,
                        u,
                        b,
                        p,
                        damp,
                        g_prevv,
                        g_ck,
                        g_tk,
                        g_trv,
                        g_cand,
                        c,
                    )
                    &&& t_cur@ == g_trv@
                    &&& forall|j: int| 0 <= j < n ==> (#[trigger] c@[j]).spec_is_finite()
                    &&& forall|j: int| 0 <= j < n ==> (#[trigger] t_cur@[j]).spec_is_finite()
                },
            invariant
                i <= maxiter,
                grid.wf(),
                n == grid.npts,
                transform.size_spec() == n,
                u@.len() == n,
                c@.len() == n,
                t_cur@.len() == n,
            ensures
                i <= maxiter,
                c@.len() == n,
                t_cur@.len() == n,
                u@.len() == n,
                fail is None && !conv_done ==> i == maxiter,
                conv_done ==> (fail is None && 1 <= i && i <= maxiter),
                fail matches Some(e) ==> (e == OzError::NumericalDivergence || (
                e matches OzError::LengthMismatch { .. }
                )),
                fail is None && i > 0 ==> {
                    &&& operator_step(
                        transform,
                        int_eq,
                        clos,
                        grid,
                        u,
                        b,
                        p,
                        damp,
                        g_prevv,
                        g_ck,
                        g_tk,
                        g_trv,
                        g_cand,
                        c,
                    )
                    &&& t_cur@ == g_trv@
                    &&& forall|j: int| 0 <= j < n ==> (#[trigger] c@[j]).spec_is_finite()
                    &&& forall|j: int| 0 <= j < n ==> (#[trigger] t_cur@[j]).spec_is_finite()
                },
                conv_done ==> sum_spec(c@).spec_sub(sum_spec(g_prevv@)).spec_abs().spec_lt(tol),
                fail == Some(OzError::NumericalDivergence) ==> {
                    &&& operator_step(
                        transform,
                        int_eq,
                        clos,
                        grid,
                        u,
                        b,
                        p,
                        damp,
                        g_prevv,
                        g_ck,
                        g_tk,
                        g_trv,
                        g_cand,
                        g_cnew,
                    )
                    &&& exists|j: int|
                        #![trigger g_cnew@[j]]
                        #![trigger g_trv@[j]]
                        0 <= j < n && (!g_cnew@[j].spec_is_finite() || !g_trv@[j].spec_is_finite())
                },
            decreases maxiter - i,
        {
            let ck = match transform.forward(&c) {
                Ok(v) => v,
                Err(e) => {
                    fail = Some(e);
                    break;
                },
            };
            let tk = int_eq.calculate(&ck, &grid.ki, &p);
            let tr = match transform.backward(&tk) {
                Ok(v) => v,
                Err(e) => {
                    fail = Some(e);
                    break;
                },
            };
            let ca = clos.calculate(&grid.ri, &u, &tr, &b);
            let mut c_new: Vec<S> = Vec::new();
            let mut j: usize = 0;
            while j < n
                invariant
                    j <= n,
                    c_new@.len() == j,
                    c@.len() == n,
                    ca@.len() == n,
                    forall|k: int|
                        0 <= k < j ==> #[trigger] c_new@[k] == c@[k].spec_add(
                            damp.spec_mul(ca@[k].spec_sub(c@[k])),
                        ),
                decreases n - j,
            {
                let delta = ca[j].sub(&c[j]);
                c_new.push(c[j].add(&damp.mul(&delta)));
                j = j + 1;
            }
            if !all_finite(&c_new) || !all_finite(&tr) {
                proof {
                    g_prevv = c;
                    g_ck = ck;
                    g_tk = tk;
                    g_trv = tr;
                    g_cand = ca;
                    g_cnew = c_new;
                    if !(forall|k: int|
                        0 <= k < c_new@.len() ==> (#[trigger] c_new@[k]).spec_is_finite()) {
                        let k0 = choose|k: int|
                            0 <= k < c_new@.len() && !(#[trigger] c_new@[k]).spec_is_finite();
                        assert(0 <= k0 < n && !g_cnew@[k0].spec_is_finite());
                    } else {
                        let k0 = choose|k: int|
                            0 <= k < tr@.len() && !(#[trigger] tr@[k]).spec_is_finite();
                        assert(0 <= k0 < n && !g_trv@[k0].spec_is_finite());
                    }
                }
                fail = Some(OzError::NumericalDivergence);
                break;
            }
            let s_prev = sum_of(&c);
            let s_new = sum_of(&c_new);
            let conv = s_new.sub(&s_prev).abs().less_than(&tol);
            proof {
                g_prevv = c;
                g_ck = ck;
                g_tk = tk;
                g_trv = tr;
                g_cand = ca;
            }
            c = c_new;
            t_cur = tr;
            i = i + 1;
            if conv {
                conv_done = true;
                break;
            }
        }
        match fail {
            Some(e) => {
                proof {
                    if e == OzError::NumericalDivergence {
                        assert(operator_step(
                            self.transform,
                            self.int_eq,
                            self.clos,
                            self.grid,
                            self.data.u,
                            self.data.B,
                            self.data.p,
                            damp,
                            g_prevv,
                            g_ck,
                            g_tk,
                            g_trv,
                            g_cand,
                            g_cnew,
                        ));
                        assert(exists|j: int|
                            0 <= j < self.grid.npts && (!(#[trigger] g_cnew@[j]).spec_is_finite()
                                || !g_trv@[j].spec_is_finite()));
                    }
                }
                return Err(e);
            },
            None => {},
        }
        let new_phase = if conv_done {
            SolverPhase::Converged
        } else {
            SolverPhase::MaxIterationsReached
        };
        let out = OZ {
            grid,
            data: Data { kT: k_t, T: temp, p, B: b, u, c, h, t: t_cur },
            pot,
            clos,
            int_eq,
            transform,
            phase: new_phase,
            iterations: i,
        };
        proof {
            if i > 0 {
                assert(out.last_step(damp, tol, g_prevv, g_ck, g_tk, g_trv, g_cand));
            }
        }
        Ok(out)
    }

    /// Undoes the transform convention's radial weighting - `c` and `t` are
    /// divided elementwise by `r` - and derives `h = t + c`.  Accepted
    /// exactly once, on a solver in a terminal state.
    pub fn clean_up(self) -> (r: Result<Self, OzError>)
        ensures
            r is Ok <==> ((self.phase == SolverPhase::Converged || self.phase
                == SolverPhase::MaxIterationsReached) && self.wf()),
            r matches Err(e) ==> (e == OzError::InvalidPhase || e == OzError::InvalidGrid || (
            e matches OzError::PlanConstructionFailed { .. }
            ) || (e matches OzError::LengthMismatch { .. })),
            r matches Ok(oz) ==> {
                &&& oz.wf()
                &&& oz.phase == (SolverPhase::Finalised {
                    converged: self.phase == SolverPhase::Converged,
                })
                &&& oz.iterations == self.iterations
                &&& oz.data.u@ == self.data.u@
                &&& oz.data.kT == self.data.kT
                &&& oz.data.T == self.data.T
                &&& oz.data.p == self.data.p
                &&& oz.data.B == self.data.B
                &&& oz.grid == self.grid
                &&& oz.pot == self.pot
                &&& oz.clos == self.clos
                &&& oz.int_eq == self.int_eq
                &&& oz.transform == self.transform
                &&& forall|i: int|
                    0 <= i < oz.data.c@.len() ==> #[trigger] oz.data.c@[i]
                        == self.data.c@[i].spec_div(self.grid.ri@[i])
                &&& forall|i: int|
                    0 <= i < oz.data.t@.len() ==> #[trigger] oz.data.t@[i]
                        == self.data.t@[i].spec_div(self.grid.ri@[i])
                &&& forall|i: int|
                    0 <= i < oz.data.h@.len() ==> #[trigger] oz.data.h@[i]
                        == oz.data.t@[i].spec_add(oz.data.c@[i])
            },
    {
        let mut this = self;
        let terminal = this.phase == SolverPhase::Converged || this.phase
            == SolverPhase::MaxIterationsReached;
        if !terminal {
            return Err(OzError::InvalidPhase);
        }
        match this.check_state() {
            Some(e) => {
                return Err(e);
            },
            None => {},
        }
        let n = this.grid.npts;
        let mut c2: Vec<S> = Vec::new();
        let mut i: usize = 0;
        while i < n
            invariant
                i <= n,
                c2@.len() == i,
                this.data.c@.len() == n,
                this.grid.ri@.len() == n,
                forall|k: int|
                    0 <= k < i ==> #[trigger] c2@[k] == this.data.c@[k].spec_div(
                        this.grid.ri@[k],
                    ),
            decreases n - i,
        {
            c2.push(this.data.c[i].div(&this.grid.ri[i]));
            i = i + 1;
        }
        let mut t2: Vec<S> = Vec::new();
        let mut j: usize = 0;
        while j < n
            invariant
                j <= n,
                t2@.len() == j,
                this.data.t@.len() == n,
                this.grid.ri@.len() == n,
                forall|k: int|
                    0 <= k < j ==> #[trigger] t2@[k] == this.data.t@[k].spec_div(
                        this.grid.ri@[k],
                    ),
            decreases n - j,
        {
            t2.push(this.data.t[j].div(&this.grid.ri[j]));
            j = j + 1;
        }
        let mut h2: Vec<S> = Vec::new();
        let mut m: usize = 0;
        while m < n
            invariant
                m <= n,
                h2@.len() == m,
                c2@.len() == n,
                t2@.len() == n,
                forall|k: int| 0 <= k < m ==> #[trigger] h2@[k] == t2@[k].spec_add(c2@[k]),
            decreases n - m,
        {
            h2.push(t2[m].add(&c2[m]));
            m = m + 1;
        }
        let was_converged = this.phase == SolverPhase::Converged;
        this.data.c = c2;
        this.data.t = t2;
        this.data.h = h2;
        this.phase = SolverPhase::Finalised { converged: was_converged };
        Ok(this)
    }
}

/// One application of the Ornstein-Zernike operator with damped mixing,
/// written out over the component models: from the iterate `prevv`, the
/// forward transform produced `ck` (the plan's entries scaled by the
/// forward factor), the integral equation produced `tk`, the backward
/// transform `trv`, the closure the candidate `cand`, and `cnew` is the
/// damped blend `prevv + damp * (cand - prevv)`.
pub open spec fn operator_step<
    S: Scalar,
    C: Closure<S>,
    I: IntegralEquation<S>,
    E: SpectralPlan<S>,
>(
    transform: Transform<S, E>,
    int_eq: I,
    clos: C,
    grid: Grid<S>,
    u: Vec<S>,
    b: S,
    p: S,
    damp: S,
    prevv: Vec<S>,
    ck: Vec<S>,
    tk: Vec<S>,
    trv: Vec<S>,
    cand: Vec<S>,
    cnew: Vec<S>,
) -> bool {
    let n = grid.npts;
    &&& prevv@.len() == n
    &&& ck@.len() == n
    &&& tk@.len() == n
    &&& trv@.len() == n
    &&& cand@.len() == n
    &&& cnew@.len() == n
    &&& forall|j: int|
        0 <= j < n ==> #[trigger] ck@[j] == transform.fwd_scale_spec().spec_mul(
            transform.process_spec_at(prevv, j as usize),
        )
    &&& forall|j: int|
        0 <= j < n ==> #[trigger] tk@[j] == int_eq.model_at(ck, grid.ki, p, j as usize)
    &&& forall|j: int|
        0 <= j < n ==> #[trigger] trv@[j] == transform.bwd_scale_spec().spec_mul(
            transform.process_spec_at(tk, j as usize),
        )
    &&& forall|j: int|
        0 <= j < n ==> #[trigger] cand@[j] == clos.model_at(grid.ri, u, trv, b, j as usize)
    &&& forall|j: int|
        0 <= j < n ==> #[trigger] cnew@[j] == prevv@[j].spec_add(
            damp.spec_mul(cand@[j].spec_sub(prevv@[j])),
        )
}

/// The left fold of the first `n` entries of `v` under the scalar's
/// addition, from zero.
pub open spec fn sum_prefix_spec<S: Scalar>(v: Seq<S>, n: int) -> S
    decreases n,
{
    if n <= 0 {
        S::spec_zero()
    } else {
        sum_prefix_spec(v, n - 1).spec_add(v[n - 1])
    }
}

/// The left fold of all of `v` under the scalar's addition, from zero: the
/// sum the convergence test compares.
pub open spec fn sum_spec<S: Scalar>(v: Seq<S>) -> S {
    sum_prefix_spec(v, v.len() as int)
}

/// True when no entry of `v` is non-finite.
fn all_finite<S: Scalar>(v: &Vec<S>) -> (r: bool)
    ensures
        r == (forall|i: int| 0 <= i < v@.len() ==> (#[trigger] v@[i]).spec_is_finite()),
{
    let mut i: usize = 0;
    let mut ok = true;
    while i < v.len()
        invariant
            i <= v@.len(),
            ok == (forall|k: int| 0 <= k < i ==> (#[trigger] v@[k]).spec_is_finite()),
        decreases v@.len() - i,
    {
        if !v[i].is_finite() {
            ok = false;
        }
        i = i + 1;
    }
    ok
}

/// The sum of the entries of `v`, folded from zero.
fn sum_of<S: Scalar>(v: &Vec<S>) -> (r: S)
    ensures
        r == sum_spec(v@),
{
    let mut acc = S::zero();
    let mut i: usize = 0;
    while i < v.len()
        invariant
            i <= v@.len(),
            acc == sum_prefix_spec(v@, i as int),
        decreases v@.len() - i,
    {
        acc = acc.add(&v[i]);
        i = i + 1;
    }
    acc
}

} // verus!
