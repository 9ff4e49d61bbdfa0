//! A closed-form function of one variable, bound to its coefficients.
use vstd::prelude::*;

verus! {

/// Marker for a bundle of coefficients that a closed-form formula reads.
pub trait Coefs {

}

/// A simple, one-dimensional, closed-form function: a formula paired with
/// the coefficients it is evaluated with.
pub struct Function1DAnalytic<FuncType, CoefsType> {
    pub func: FuncType,
    pub coefs: CoefsType,
}

impl<FuncType, CoefsType: Coefs + Copy> Function1DAnalytic<FuncType, CoefsType> {
    /// Pairs `func` with `coefs`; the pairing never changes afterwards.
    pub fn new(func: FuncType, coefs: CoefsType) -> (r: Self)
        ensures
            r.func == func,
            r.coefs == coefs,
    {
        Function1DAnalytic { func, coefs }
    }

    /// Evaluates the formula at `x` with the stored coefficients.
    pub fn eval<X, Y>(&self, x: X) -> (r: Y)
        where
            FuncType: Fn(X, CoefsType) -> Y,
        requires
            self.func.requires((x, self.coefs)),
        ensures
            self.func.ensures((x, self.coefs), r),
    {
        (self.func)(x, self.coefs)
    }
}

} // verus!
