use vstd::prelude::*;

verus! {

/// The arithmetic that the solver asks of its number type.
///
/// The core is generic over the scalar so that the discretisation, the
/// strategy formulas and the iteration engine can be verified independently
/// of any particular number representation.  Each executable method is
/// mirrored by a specification function that the implementation defines for
/// itself, and promises nothing beyond naming its own result: no algebraic
/// law is assumed of the arithmetic.  The mirrors let every contract of the
/// library say exactly which expression a computed value is.
pub trait Scalar: Sized {
    /// The value `zero` returns.
    spec fn spec_zero() -> Self;

    /// The value `one` returns.
    spec fn spec_one() -> Self;

    /// The value `half` returns.
    spec fn spec_half() -> Self;

    /// The value `pi` returns.
    spec fn spec_pi() -> Self;

    /// The value `from_usize` returns.
    spec fn spec_from_usize(n: usize) -> Self;

    /// The value `add` returns.
    spec fn spec_add(self, other: Self) -> Self;

    /// The value `sub` returns.
    spec fn spec_sub(self, other: Self) -> Self;

    /// The value `mul` returns.
    spec fn spec_mul(self, other: Self) -> Self;

    /// The value `div` returns.
    spec fn spec_div(self, other: Self) -> Self;

    /// The value `neg` returns.
    spec fn spec_neg(self) -> Self;

    /// The value `exp` returns.
    spec fn spec_exp(self) -> Self;

    /// The value `abs` returns.
    spec fn spec_abs(self) -> Self;

    /// The value `less_than` returns.
    spec fn spec_lt(self, other: Self) -> bool;

    /// The value `is_finite` returns.
    spec fn spec_is_finite(self) -> bool;

    /// The value `is_positive` returns.
    spec fn spec_is_positive(self) -> bool;

    /// The additive identity.
    fn zero() -> (r: Self)
        ensures
            r == Self::spec_zero(),
    ;

    /// The multiplicative identity.
    fn one() -> (r: Self)
        ensures
            r == Self::spec_one(),
    ;

    /// One half, used for the half-cell offset of the grid points.
    fn half() -> (r: Self)
        ensures
            r == Self::spec_half(),
    ;

    /// The circle constant, used by the transform scale factors.
    fn pi() -> (r: Self)
        ensures
            r == Self::spec_pi(),
    ;

    /// The scalar standing for a point count or an index.
    fn from_usize(n: usize) -> (r: Self)
        ensures
            r == Self::spec_from_usize(n),
    ;

    fn add(&self, other: &Self) -> (r: Self)
        ensures
            r == (*self).spec_add(*other),
    ;

    fn sub(&self, other: &Self) -> (r: Self)
        ensures
            r == (*self).spec_sub(*other),
    ;

    fn mul(&self, other: &Self) -> (r: Self)
        ensures
            r == (*self).spec_mul(*other),
    ;

    fn div(&self, other: &Self) -> (r: Self)
        ensures
            r == (*self).spec_div(*other),
    ;

    fn neg(&self) -> (r: Self)
        ensures
            r == (*self).spec_neg(),
    ;

    /// The exponential function, used by the hypernetted-chain closure.
    fn exp(&self) -> (r: Self)
        ensures
            r == (*self).spec_exp(),
    ;

    fn abs(&self) -> (r: Self)
        ensures
            r == (*self).spec_abs(),
    ;

    fn less_than(&self, other: &Self) -> (r: bool)
        ensures
            r == (*self).spec_lt(*other),
    ;

    /// False for any value that signals numerical divergence.
    fn is_finite(&self) -> (r: bool)
        ensures
            r == (*self).spec_is_finite(),
    ;

    /// True for values strictly greater than zero.
    fn is_positive(&self) -> (r: bool)
        ensures
            r == (*self).spec_is_positive(),
    ;
}

} // verus!
