//! The numeric capability that the closeness checks are written against.
use vstd::prelude::*;

verus! {

/// A floating-point number: a value with a distance, an order, an equality and
/// a notion of being finite.
///
/// The spec functions give the meaning of each operation for the implementing
/// type; each executable method returns exactly what its spec function gives.
pub trait Float: Copy + Sized {
    /// The value is neither infinite nor not-a-number.
    spec fn spec_finite(self) -> bool;

    /// The absolute value.
    spec fn spec_abs(self) -> Self;

    /// The difference `self - other`.
    spec fn spec_minus(self, other: Self) -> Self;

    /// `self < other`.
    spec fn spec_less(self, other: Self) -> bool;

    /// `self == other` (never true of a not-a-number value).
    spec fn spec_equal(self, other: Self) -> bool;

    fn abs(&self) -> (r: Self)
        ensures
            r == self.spec_abs(),
    ;

    fn is_finite(&self) -> (r: bool)
        ensures
            r == self.spec_finite(),
    ;

    fn minus(&self, other: &Self) -> (r: Self)
        ensures
            r == self.spec_minus(*other),
    ;

    fn less(&self, other: &Self) -> (r: bool)
        ensures
            r == self.spec_less(*other),
    ;

    fn equal(&self, other: &Self) -> (r: bool)
        ensures
            r == self.spec_equal(*other),
    ;
}

} // verus!
