//! A solver for the Ornstein-Zernike integral equation of a homogeneous,
//! isotropic liquid.
//!
//! Given a pairwise interaction potential and a closure relation, the solver
//! drives the direct correlation function c(r) to self-consistency by a
//! damped fixed-point iteration, moving between real and reciprocal space
//! with a radial sine transform.  The core is generic over an abstract
//! [`scalar::Scalar`] arithmetic; a caller instantiates it with a concrete
//! number type and a spectral plan.

pub mod closure;
pub mod data;
pub mod error;
pub mod grid;
pub mod integral;
pub mod potential;
pub mod scalar;
pub mod solver;
pub mod transform;

pub use closure::Closure;
pub use closure::HyperNettedChain;
pub use data::Data;
pub use data::DataBuilder;
pub use error::ConfigField;
pub use error::OzError;
pub use grid::Grid;
pub use integral::IntegralEquation;
pub use integral::OZInt;
pub use potential::LennardJones;
pub use potential::Potential;
pub use scalar::Scalar;
pub use solver::ConvProblem;
pub use solver::Converger;
pub use solver::SolverPhase;
pub use solver::OZ;
pub use solver::OZ_builder;
pub use transform::SpectralPlan;
pub use transform::Transform;
