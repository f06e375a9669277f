use std::sync::Arc;

use rustdct::DctPlanner;
use rustdct::TransformType4;

use oz_solver::Closure;
use oz_solver::ConfigField;
use oz_solver::Data;
use oz_solver::Grid;
use oz_solver::HyperNettedChain;
use oz_solver::IntegralEquation;
use oz_solver::LennardJones;
use oz_solver::OZInt;
use oz_solver::OzError;
use oz_solver::Potential;
use oz_solver::Scalar;
use oz_solver::SolverPhase;
use oz_solver::SpectralPlan;
use oz_solver::Transform;
use oz_solver::OZ;

/// The concrete scalar the tests drive the solver with.
#[derive(Clone, Copy, Debug, PartialEq)]
pub struct R64(pub f64);

impl Scalar for R64 {
    fn zero() -> R64 {
        R64(0.0)
    }
    fn one() -> R64 {
        R64(1.0)
    }
    fn half() -> R64 {
        R64(0.5)
    }
    fn pi() -> R64 {
        R64(std::f64::consts::PI)
    }
    fn from_usize(n: usize) -> R64 {
        R64(n as f64)
    }
    fn add(&self, other: &R64) -> R64 {
        R64(self.0 + other.0)
    }
    fn sub(&self, other: &R64) -> R64 {
        R64(self.0 - other.0)
    }
    fn mul(&self, other: &R64) -> R64 {
        R64(self.0 * other.0)
    }
    fn div(&self, other: &R64) -> R64 {
        R64(self.0 / other.0)
    }
    fn neg(&self) -> R64 {
        R64(-self.0)
    }
    fn exp(&self) -> R64 {
        R64(self.0.exp())
    }
    fn abs(&self) -> R64 {
        R64(self.0.abs())
    }
    fn less_than(&self, other: &R64) -> bool {
        self.0 < other.0
    }
    fn is_finite(&self) -> bool {
        self.0.is_finite()
    }
    fn is_positive(&self) -> bool {
        self.0 > 0.0
    }

    // Specification mirrors of the operations above; never called at run
    // time.
    fn spec_zero() -> R64 {
        R64(0.0)
    }
    fn spec_one() -> R64 {
        R64(1.0)
    }
    fn spec_half() -> R64 {
        R64(0.5)
    }
    fn spec_pi() -> R64 {
        R64(std::f64::consts::PI)
    }
    fn spec_from_usize(n: usize) -> R64 {
        R64(n as f64)
    }
    fn spec_add(self, other: R64) -> R64 {
        R64(self.0 + other.0)
    }
    fn spec_sub(self, other: R64) -> R64 {
        R64(self.0 - other.0)
    }
    fn spec_mul(self, other: R64) -> R64 {
        R64(self.0 * other.0)
    }
    fn spec_div(self, other: R64) -> R64 {
        R64(self.0 / other.0)
    }
    fn spec_neg(self) -> R64 {
        R64(-self.0)
    }
    fn spec_exp(self) -> R64 {
        R64(self.0.exp())
    }
    fn spec_abs(self) -> R64 {
        R64(self.0.abs())
    }
    fn spec_lt(self, other: R64) -> bool {
        self.0 < other.0
    }
    fn spec_is_finite(self) -> bool {
        self.0.is_finite()
    }
    fn spec_is_positive(self) -> bool {
        self.0 > 0.0
    }
}

/// A half-offset discrete sine transform of one fixed length, in the
/// convention where applying the plan twice scales the input by twice the
/// length (the raw transform is doubled to that end).
pub struct DstPlan {
    plan: Arc<dyn TransformType4<f64>>,
}

impl DstPlan {
    fn new(n: usize) -> DstPlan {
        DstPlan { plan: DctPlanner::new().plan_dst4(n) }
    }
}

impl SpectralPlan<R64> for DstPlan {
    fn size(&self) -> usize {
        self.plan.len()
    }
    fn process(&self, buffer: &Vec<R64>) -> Vec<R64> {
        let mut buf: Vec<f64> = buffer.iter().map(|x| x.0).collect();
        self.plan.process_dst4(&mut buf);
        buf.into_iter().map(|v| R64(2.0 * v)).collect()
    }

    // Specification mirrors; never called at run time.  The entry mirror
    // names the planned transform's value by its defining sum.
    fn spec_size(&self) -> usize {
        self.plan.len()
    }
    fn spec_process_len(&self, input: Vec<R64>) -> usize {
        input.len()
    }
    fn spec_process_at(&self, input: Vec<R64>, i: usize) -> R64 {
        let n = input.len();
        let mut acc = 0.0;
        for j in 0..n {
            let angle = std::f64::consts::PI * (j as f64 + 0.5) * (i as f64 + 0.5) / (n as f64);
            acc += input[j].0 * angle.sin();
        }
        R64(2.0 * acc)
    }
}

/// A potential that is zero everywhere.
struct ZeroPotential;

impl Potential<R64> for ZeroPotential {
    // Specification mirror; never called at run time.
    fn model_at(&self, _r: Vec<R64>, _i: usize) -> R64 {
        R64(0.0)
    }
    fn calculate(&self, r: &Vec<R64>) -> Result<Vec<R64>, OzError> {
        if r.is_empty() {
            return Err(OzError::EmptyInput);
        }
        Ok(vec![R64(0.0); r.len()])
    }
}

/// A closure whose candidate alternates between +1 and -1, so that its sum
/// over an even number of points vanishes.
struct AlternatingClosure;

impl Closure<R64> for AlternatingClosure {
    // Specification mirror; never called at run time.
    fn model_at(&self, _r: Vec<R64>, _u: Vec<R64>, _t: Vec<R64>, _b: R64, i: usize) -> R64 {
        if i % 2 == 0 { R64(1.0) } else { R64(-1.0) }
    }
    fn calculate(&self, r: &Vec<R64>, _u: &Vec<R64>, _t: &Vec<R64>, _b: &R64) -> Vec<R64> {
        (0..r.len()).map(|i| if i % 2 == 0 { R64(1.0) } else { R64(-1.0) }).collect()
    }
}

fn r64vec(v: &[f64]) -> Vec<R64> {
    v.iter().map(|x| R64(*x)).collect()
}

fn f64vec(v: &Vec<R64>) -> Vec<f64> {
    v.iter().map(|x| x.0).collect()
}

/// The half-offset sine transform computed by its defining sum, doubled as
/// the plan convention doubles it.
fn direct_dst(input: &[f64]) -> Vec<f64> {
    let n = input.len();
    let mut out = vec![0.0; n];
    for k in 0..n {
        let mut acc = 0.0;
        for i in 0..n {
            let angle =
                std::f64::consts::PI * (i as f64 + 0.5) * (k as f64 + 0.5) / (n as f64);
            acc += input[i] * angle.sin();
        }
        out[k] = 2.0 * acc;
    }
    out
}

#[test]
fn grid_spacings_follow_point_count_and_radius() {
    for &(n, radius) in &[(16usize, 1.0f64), (64, 6.4), (1024, 10.24), (3, 0.5)] {
        let g = Grid::<R64>::new(n, R64(radius)).unwrap();
        let dr = radius / n as f64;
        let dk = std::f64::consts::PI / (n as f64 * dr);
        assert!((g.dr.0 - dr).abs() <= 1e-15 * dr.abs());
        assert!((g.dk.0 - dk).abs() <= 1e-12 * dk.abs());
        assert_eq!(g.ri.len(), n);
        assert_eq!(g.ki.len(), n);
        assert!((g.ri[0].0 - 0.5 * dr).abs() <= 1e-15);
        assert!((g.ri[n - 1].0 - (n as f64 - 0.5) * dr).abs() <= 1e-12);
        assert!((g.ki[0].0 - 0.5 * dk).abs() <= 1e-15);
        assert!((g.ki[n - 1].0 - (n as f64 - 0.5) * dk).abs() <= 1e-12);
    }
}

#[test]
fn grid_rejects_zero_points() {
    assert_eq!(Grid::<R64>::new(0, R64(1.0)).err().unwrap(), OzError::InvalidGrid);
}

#[test]
fn grid_rejects_nonpositive_radius() {
    assert_eq!(Grid::<R64>::new(8, R64(0.0)).err().unwrap(), OzError::InvalidGrid);
    assert_eq!(Grid::<R64>::new(8, R64(-2.0)).err().unwrap(), OzError::InvalidGrid);
}

#[test]
fn transform_round_trip_recovers_band_limited_input() {
    for &n in &[64usize, 256] {
        let g = Grid::<R64>::new(n, R64(n as f64 * 0.01)).unwrap();
        let t = Transform::build(&g, DstPlan::new(n)).unwrap();
        let f: Vec<R64> = g
            .ri
            .iter()
            .map(|r| R64((-(r.0 - 1.0) * (r.0 - 1.0) * 40.0).exp()))
            .collect();
        let fk = t.forward(&f).unwrap();
        let back = t.backward(&fk).unwrap();
        for i in 0..n {
            let err = (back[i].0 - f[i].0).abs();
            assert!(err <= 1e-9 * (1.0 + f[i].0.abs()), "i={} err={}", i, err);
        }
    }
}

#[test]
fn forward_transform_matches_direct_sum() {
    let n = 16usize;
    let g = Grid::<R64>::new(n, R64(3.2)).unwrap();
    let t = Transform::build(&g, DstPlan::new(n)).unwrap();
    let f: Vec<f64> = (0..n).map(|i| (i as f64 * 0.3).cos()).collect();
    let fk = t.forward(&r64vec(&f)).unwrap();
    let raw = direct_dst(&f);
    let scale = 2.0 * std::f64::consts::PI * g.dr.0;
    for k in 0..n {
        let expected = scale * raw[k];
        assert!((fk[k].0 - expected).abs() <= 1e-9 * (1.0 + expected.abs()));
    }
}

#[test]
fn grid_dfbt_applies_plan_and_prefactor() {
    let n = 8usize;
    let g = Grid::<R64>::new(n, R64(2.0)).unwrap();
    let plan = DstPlan::new(n);
    let f: Vec<f64> = (0..n).map(|i| 1.0 / (1.0 + i as f64)).collect();
    let out = g.dfbt(&R64(3.0), &r64vec(&f), &plan).unwrap();
    let raw = direct_dst(&f);
    for k in 0..n {
        let expected = 3.0 * raw[k];
        assert!((out[k].0 - expected).abs() <= 1e-9 * (1.0 + expected.abs()));
    }
}

#[test]
fn plan_of_wrong_size_is_rejected() {
    let g = Grid::<R64>::new(8, R64(2.0)).unwrap();
    let err = Transform::build(&g, DstPlan::new(4)).err().unwrap();
    assert_eq!(err, OzError::PlanConstructionFailed { expected: 8, found: 4 });
}

#[test]
fn lennard_jones_is_zero_at_sigma() {
    for &(sigma, epsilon) in &[(3.4f64, 120.0f64), (1.0, 1.0), (0.25, 7.5)] {
        let lj = LennardJones::new(R64(sigma), R64(epsilon));
        let u = lj.calculate(&r64vec(&[sigma])).unwrap();
        assert_eq!(u[0].0, 0.0);
    }
}

#[test]
fn lennard_jones_minimum_at_sixth_root_of_two() {
    for &(sigma, epsilon) in &[(3.4f64, 120.0f64), (1.0, 1.0), (0.25, 7.5)] {
        let lj = LennardJones::new(R64(sigma), R64(epsilon));
        let r_min = 2.0f64.powf(1.0 / 6.0) * sigma;
        let u = lj.calculate(&r64vec(&[r_min])).unwrap();
        assert!((u[0].0 + epsilon).abs() <= 1e-9 * epsilon);
    }
}

#[test]
fn lennard_jones_matches_formula() {
    let lj = LennardJones::new(R64(2.0), R64(5.0));
    let u = lj.calculate(&r64vec(&[4.0])).unwrap();
    // (sigma/r) = 1/2: u = 4*5*(2^-12 - 2^-6) = 20*(1/4096 - 1/64)
    let expected = 20.0 * (1.0 / 4096.0 - 1.0 / 64.0);
    assert!((u[0].0 - expected).abs() <= 1e-15);
}

#[test]
fn lennard_jones_rejects_empty_input() {
    let lj = LennardJones::new(R64(1.0), R64(1.0));
    assert_eq!(lj.calculate(&Vec::new()).err().unwrap(), OzError::EmptyInput);
}

#[test]
fn hnc_closure_is_identity_at_zero_potential_and_zero_t() {
    let hnc = HyperNettedChain::new();
    let r = r64vec(&[0.1, 0.7, 1.3, 2.9]);
    let zero = r64vec(&[0.0, 0.0, 0.0, 0.0]);
    let c = hnc.calculate(&r, &zero, &zero, &R64(1.0));
    for v in &c {
        assert_eq!(v.0, 0.0);
    }
}

#[test]
fn hnc_matches_formula() {
    let hnc = HyperNettedChain::new();
    let r = r64vec(&[1.0]);
    let u = r64vec(&[0.75]);
    let t = r64vec(&[0.25]);
    let b = 2.0;
    let c = hnc.calculate(&r, &u, &t, &R64(b));
    let expected = (-b * 0.75f64 + 0.25).exp() - 1.0 - 0.25;
    assert!((c[0].0 - expected).abs() <= 1e-15);
}

#[test]
fn oz_relation_gives_zero_t_at_zero_density() {
    let eq = OZInt::new();
    let ck = r64vec(&[-1.5, 0.0, 2.25, 100.0]);
    let k = r64vec(&[0.5, 1.5, 2.5, 3.5]);
    let t = eq.calculate(&ck, &k, &R64(0.0));
    for v in &t {
        assert_eq!(v.0, 0.0);
    }
}

#[test]
fn oz_relation_matches_formula() {
    let eq = OZInt::new();
    let t = eq.calculate(&r64vec(&[0.5]), &r64vec(&[1.0]), &R64(0.5));
    // p*c^2 / (1 - p*c) = 0.125 / 0.75
    assert!((t[0].0 - 0.125 / 0.75).abs() <= 1e-15);
}

#[test]
fn data_builder_reports_first_missing_field() {
    let e = Data::<R64>::build().build().err().unwrap();
    assert_eq!(e, OzError::IncompleteConfiguration { missing: ConfigField::Npts });
    let e = Data::<R64>::build().npts(8).build().err().unwrap();
    assert_eq!(e, OzError::IncompleteConfiguration { missing: ConfigField::BoltzmannConstant });
    let e = Data::<R64>::build().npts(8).boltzmann_constant(R64(1.0)).build().err().unwrap();
    assert_eq!(e, OzError::IncompleteConfiguration { missing: ConfigField::Temperature });
    let e = Data::<R64>::build()
        .npts(8)
        .boltzmann_constant(R64(1.0))
        .temperature(R64(85.0))
        .build()
        .err().unwrap();
    assert_eq!(e, OzError::IncompleteConfiguration { missing: ConfigField::Density });
}

#[test]
fn data_builder_derives_inverse_thermal_energy() {
    let d = Data::<R64>::build()
        .npts(4)
        .boltzmann_constant(R64(2.0))
        .temperature(R64(4.0))
        .density(R64(0.1))
        .build()
        .unwrap();
    assert_eq!(d.B.0, 0.125);
    assert_eq!(d.u.len(), 4);
    assert_eq!(d.c.len(), 4);
    assert_eq!(d.t.len(), 4);
    assert_eq!(d.h.len(), 4);
    for v in d.u.iter().chain(d.c.iter()).chain(d.t.iter()).chain(d.h.iter()) {
        assert_eq!(v.0, 0.0);
    }
}

type LjSolver = OZ<R64, LennardJones<R64>, HyperNettedChain, OZInt, DstPlan>;

fn lj_problem(n: usize, kt: f64, temp: f64, p: f64) -> Data<R64> {
    Data::<R64>::build()
        .npts(n)
        .boltzmann_constant(R64(kt))
        .temperature(R64(temp))
        .density(R64(p))
        .build()
        .unwrap()
}

fn lj_solver(n: usize, radius: f64, p: f64) -> LjSolver {
    let grid = Grid::<R64>::new(n, R64(radius)).unwrap();
    LjSolver::build()
        .grid(grid)
        .pot(LennardJones::new(R64(3.4), R64(120.0)))
        .clos(HyperNettedChain::new())
        .int_eq(OZInt::new())
        .data(lj_problem(n, 1.0, 85.0, p))
        .plan(DstPlan::new(n))
        .build()
        .unwrap()
}

#[test]
fn solver_builder_reports_missing_fields() {
    let e = LjSolver::build().build().err().unwrap();
    assert_eq!(e, OzError::IncompleteConfiguration { missing: ConfigField::Grid });
    let grid = Grid::<R64>::new(8, R64(2.0)).unwrap();
    let e = LjSolver::build().grid(grid).build().err().unwrap();
    assert_eq!(e, OzError::IncompleteConfiguration { missing: ConfigField::Data });
    let grid = Grid::<R64>::new(8, R64(2.0)).unwrap();
    let e = LjSolver::build().grid(grid).data(lj_problem(8, 1.0, 85.0, 0.1)).build().err().unwrap();
    assert_eq!(e, OzError::IncompleteConfiguration { missing: ConfigField::Potential });
    let grid = Grid::<R64>::new(8, R64(2.0)).unwrap();
    let e = LjSolver::build()
        .grid(grid)
        .data(lj_problem(8, 1.0, 85.0, 0.1))
        .pot(LennardJones::new(R64(3.4), R64(120.0)))
        .build()
        .err().unwrap();
    assert_eq!(e, OzError::IncompleteConfiguration { missing: ConfigField::Closure });
    let grid = Grid::<R64>::new(8, R64(2.0)).unwrap();
    let e = LjSolver::build()
        .grid(grid)
        .data(lj_problem(8, 1.0, 85.0, 0.1))
        .pot(LennardJones::new(R64(3.4), R64(120.0)))
        .clos(HyperNettedChain::new())
        .build()
        .err().unwrap();
    assert_eq!(e, OzError::IncompleteConfiguration { missing: ConfigField::IntegralEquation });
    let grid = Grid::<R64>::new(8, R64(2.0)).unwrap();
    let e = LjSolver::build()
        .grid(grid)
        .data(lj_problem(8, 1.0, 85.0, 0.1))
        .pot(LennardJones::new(R64(3.4), R64(120.0)))
        .clos(HyperNettedChain::new())
        .int_eq(OZInt::new())
        .build()
        .err().unwrap();
    assert_eq!(e, OzError::IncompleteConfiguration { missing: ConfigField::Plan });
}

#[test]
fn solver_builder_rejects_mismatched_data() {
    let grid = Grid::<R64>::new(8, R64(2.0)).unwrap();
    let e = LjSolver::build()
        .grid(grid)
        .data(lj_problem(4, 1.0, 85.0, 0.1))
        .pot(LennardJones::new(R64(3.4), R64(120.0)))
        .clos(HyperNettedChain::new())
        .int_eq(OZInt::new())
        .plan(DstPlan::new(8))
        .build()
        .err().unwrap();
    assert_eq!(e, OzError::LengthMismatch { expected: 8, found: 4 });
}

#[test]
fn initialise_rejects_wrong_length_guess() {
    let oz = lj_solver(8, 2.0, 0.1);
    let e = oz.initialise(vec![R64(0.0); 5]).err().unwrap();
    assert_eq!(e, OzError::LengthMismatch { expected: 8, found: 5 });
}

#[test]
fn initialise_rejects_second_call() {
    let oz = lj_solver(8, 2.0, 0.1);
    let oz = oz.initialise(vec![R64(0.0); 8]).unwrap();
    assert_eq!(oz.phase, SolverPhase::Initialised);
    let e = oz.initialise(vec![R64(0.0); 8]).err().unwrap();
    assert_eq!(e, OzError::InvalidPhase);
}

#[test]
fn initialise_seeds_potential_and_guess() {
    let oz = lj_solver(8, 16.0, 0.1);
    let ri = f64vec(&oz.grid.ri);
    let guess: Vec<R64> = (0..8).map(|i| R64(i as f64 * 0.1)).collect();
    let oz = oz.initialise(guess.clone()).unwrap();
    for i in 0..8 {
        let s = 3.4 / ri[i];
        let expected = 4.0 * 120.0 * (s.powi(12) - s.powi(6));
        let rel = (oz.data.u[i].0 - expected).abs() / (1.0 + expected.abs());
        assert!(rel <= 1e-9);
        assert_eq!(oz.data.c[i], guess[i]);
    }
}

#[test]
fn solve_requires_initialised() {
    let oz = lj_solver(8, 2.0, 0.1);
    let e = oz.solve(R64(1e-5), 10, R64(0.2)).err().unwrap();
    assert_eq!(e, OzError::InvalidPhase);
}

#[test]
fn clean_up_requires_terminal_state() {
    let oz = lj_solver(8, 2.0, 0.1);
    let e = oz.clean_up().err().unwrap();
    assert_eq!(e, OzError::InvalidPhase);
    let oz = lj_solver(8, 2.0, 0.1);
    let oz = oz.initialise(vec![R64(0.0); 8]).unwrap();
    let e = oz.clean_up().err().unwrap();
    assert_eq!(e, OzError::InvalidPhase);
}

#[test]
fn zero_maxiter_returns_max_iterations_reached() {
    let oz = lj_solver(8, 2.0, 0.1);
    let guess: Vec<R64> = (0..8).map(|i| R64(i as f64)).collect();
    let oz = oz.initialise(guess.clone()).unwrap();
    let oz = oz.solve(R64(1e-5), 0, R64(0.2)).unwrap();
    assert_eq!(oz.phase, SolverPhase::MaxIterationsReached);
    assert_eq!(oz.iterations, 0);
    for i in 0..8 {
        assert_eq!(oz.data.c[i], guess[i]);
    }
}

#[test]
fn zero_density_solver_converges_in_one_iteration() {
    // With zero density the integral equation yields t = 0 for any c, and
    // with a zero potential the closure maps the zero guess to itself.
    let n = 16usize;
    let grid = Grid::<R64>::new(n, R64(4.0)).unwrap();
    let oz = OZ::<R64, ZeroPotential, HyperNettedChain, OZInt, DstPlan>::build()
        .grid(grid)
        .pot(ZeroPotential)
        .clos(HyperNettedChain::new())
        .int_eq(OZInt::new())
        .data(lj_problem(n, 1.0, 85.0, 0.0))
        .plan(DstPlan::new(n))
        .build()
        .unwrap();
    let oz = oz.initialise(vec![R64(0.0); n]).unwrap();
    let oz = oz.solve(R64(1e-5), 100, R64(0.2)).unwrap();
    assert_eq!(oz.phase, SolverPhase::Converged);
    assert_eq!(oz.iterations, 1);
    for i in 0..n {
        assert_eq!(oz.data.c[i].0, 0.0);
        assert_eq!(oz.data.t[i].0, 0.0);
    }
    let oz = oz.clean_up().unwrap();
    assert_eq!(oz.phase, SolverPhase::Finalised { converged: true });
    for i in 0..n {
        assert_eq!(oz.data.h[i].0, oz.data.c[i].0);
    }
}

#[test]
fn sum_metric_accepts_cancelling_deviations() {
    // The convergence test compares the sums of successive iterates, so a
    // candidate whose pointwise deviations cancel is accepted at once.
    let n = 16usize;
    let grid = Grid::<R64>::new(n, R64(4.0)).unwrap();
    let oz = OZ::<R64, ZeroPotential, AlternatingClosure, OZInt, DstPlan>::build()
        .grid(grid)
        .pot(ZeroPotential)
        .clos(AlternatingClosure)
        .int_eq(OZInt::new())
        .data(lj_problem(n, 1.0, 85.0, 0.0))
        .plan(DstPlan::new(n))
        .build()
        .unwrap();
    let oz = oz.initialise(vec![R64(0.0); n]).unwrap();
    let oz = oz.solve(R64(1e-5), 100, R64(0.2)).unwrap();
    assert_eq!(oz.phase, SolverPhase::Converged);
    assert_eq!(oz.iterations, 1);
    // The accepted iterate moved pointwise by the damped candidate.
    assert_eq!(oz.data.c[0].0, 0.2);
    assert_eq!(oz.data.c[1].0, -0.2);
}

#[test]
fn divergent_iteration_is_reported() {
    let n = 16usize;
    let oz = lj_solver(n, 4.0, 0.0210175);
    let oz = oz.initialise(vec![R64(1e300); n]).unwrap();
    let e = oz.solve(R64(1e-5), 5, R64(0.2)).err().unwrap();
    assert_eq!(e, OzError::NumericalDivergence);
}

#[test]
fn clean_up_divides_by_radius_and_derives_h() {
    let n = 16usize;
    let grid = Grid::<R64>::new(n, R64(4.0)).unwrap();
    let oz = OZ::<R64, ZeroPotential, HyperNettedChain, OZInt, DstPlan>::build()
        .grid(grid)
        .pot(ZeroPotential)
        .clos(HyperNettedChain::new())
        .int_eq(OZInt::new())
        .data(lj_problem(n, 1.0, 85.0, 0.0))
        .plan(DstPlan::new(n))
        .build()
        .unwrap();
    let guess: Vec<R64> = (0..n).map(|i| R64(0.001 * (i as f64 + 1.0))).collect();
    let oz = oz.initialise(guess).unwrap();
    let oz = oz.solve(R64(1e-5), 10000, R64(0.2)).unwrap();
    assert_eq!(oz.phase, SolverPhase::Converged);
    let c_solved = f64vec(&oz.data.c);
    let t_solved = f64vec(&oz.data.t);
    let ri = f64vec(&oz.grid.ri);
    let oz = oz.clean_up().unwrap();
    for i in 0..n {
        assert_eq!(oz.data.c[i].0, c_solved[i] / ri[i]);
        assert_eq!(oz.data.t[i].0, t_solved[i] / ri[i]);
        assert_eq!(oz.data.h[i].0, oz.data.t[i].0 + oz.data.c[i].0);
    }
}

#[test]
fn lennard_jones_end_to_end_scenario() {
    let n = 1024usize;
    let oz = lj_solver(n, 10.24, 0.0210175);
    let oz = oz.initialise(vec![R64(0.0); n]).unwrap();
    let oz = oz.solve(R64(1e-5), 10000, R64(0.2)).unwrap();
    let terminal = oz.phase == SolverPhase::Converged
        || oz.phase == SolverPhase::MaxIterationsReached;
    assert!(terminal, "unexpected phase {:?}", oz.phase);
    let was_converged = oz.phase == SolverPhase::Converged;
    let oz = oz.clean_up().unwrap();
    assert_eq!(oz.phase, SolverPhase::Finalised { converged: was_converged });
    assert_eq!(oz.data.h.len(), n);
    for v in oz.data.c.iter().chain(oz.data.t.iter()).chain(oz.data.h.iter()) {
        assert!(v.0.is_finite());
    }
    // g(r) = 1 + h(r) levels off to 1 toward the edge of the grid.
    let g_edge = 1.0 + oz.data.h[n - 1].0;
    assert!((g_edge - 1.0).abs() < 5e-2, "g at the boundary: {}", g_edge);
}

/// A plan that reports the right size but hands back output of the wrong
/// length.
struct ShortPlan {
    n: usize,
}

impl SpectralPlan<R64> for ShortPlan {
    // Specification mirrors; never called at run time.
    fn spec_size(&self) -> usize {
        self.n
    }
    fn spec_process_at(&self, input: Vec<R64>, i: usize) -> R64 {
        input[i]
    }
    fn spec_process_len(&self, input: Vec<R64>) -> usize {
        input.len() / 2
    }
    fn size(&self) -> usize {
        self.n
    }
    fn process(&self, buffer: &Vec<R64>) -> Vec<R64> {
        buffer.iter().take(buffer.len() / 2).cloned().collect()
    }
}

#[test]
fn plan_output_of_wrong_length_is_rejected() {
    let n = 8usize;
    let grid = Grid::<R64>::new(n, R64(2.0)).unwrap();
    let oz = OZ::<R64, ZeroPotential, HyperNettedChain, OZInt, ShortPlan>::build()
        .grid(grid)
        .pot(ZeroPotential)
        .clos(HyperNettedChain::new())
        .int_eq(OZInt::new())
        .data(lj_problem(n, 1.0, 85.0, 0.1))
        .plan(ShortPlan { n })
        .build()
        .unwrap();
    let oz = oz.initialise(vec![R64(0.0); n]).unwrap();
    let e = oz.solve(R64(1e-5), 10, R64(0.2)).err().unwrap();
    assert_eq!(e, OzError::LengthMismatch { expected: 8, found: 4 });
}

#[test]
fn tampered_state_is_rejected() {
    let mut oz = lj_solver(8, 2.0, 0.1);
    oz.grid.ri.pop();
    let e = oz.initialise(vec![R64(0.0); 8]).err().unwrap();
    assert_eq!(e, OzError::InvalidGrid);
    let mut oz = lj_solver(8, 2.0, 0.1);
    oz.data.c.pop();
    let e = oz.initialise(vec![R64(0.0); 8]).err().unwrap();
    assert_eq!(e, OzError::LengthMismatch { expected: 8, found: 7 });
}
