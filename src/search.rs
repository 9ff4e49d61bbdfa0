//! Extremum search driven by samples of the first derivative.
//!
//! The searches never do arithmetic on points themselves: an implementor of
//! [`SlopeSampler`] supplies the derivative sample at a point, the midpoint of
//! a bracket and the Newton update, and the searches decide what to do next.
use vstd::prelude::*;

verus! {

/// What a sample of the first derivative at one point says: whether it is
/// strictly positive, and whether its magnitude is under the threshold.
#[derive(Clone, Copy, Debug, PartialEq, Eq, Structural)]
pub struct Slope {
    pub positive: bool,
    pub flat: bool,
}

/// The decision of one bisection round on bracket `(l, u)` with midpoint `m`.
#[derive(Clone, Copy, Debug, PartialEq, Eq, Structural)]
pub enum BisectionStep {
    /// The signs at both ends agree: the bracket is abandoned.
    NoSignChange,
    /// The derivative at the midpoint is flat enough: the midpoint is the extremum.
    Converged,
    /// The sign change lies in `(m, u)`.
    KeepUpper,
    /// The sign change lies in `(l, m)`.
    KeepLower,
}

pub open spec fn bisection_step_of(l: Slope, m: Slope, u: Slope) -> BisectionStep {
    if l.positive == u.positive {
        BisectionStep::NoSignChange
    } else if m.flat {
        BisectionStep::Converged
    } else if m.positive != u.positive {
        BisectionStep::KeepUpper
    } else {
        BisectionStep::KeepLower
    }
}

/// Decides one bisection round from the derivative samples at the lower
/// end, the midpoint and the upper end of the bracket. Once the ends differ
/// in sign, the midpoint differs from one of them, so one half always keeps
/// the sign change.
pub fn bisection_step(l: Slope, m: Slope, u: Slope) -> (r: BisectionStep)
    ensures
        r == bisection_step_of(l, m, u),
{
    if l.positive == u.positive {
        BisectionStep::NoSignChange
    } else if m.flat {
        BisectionStep::Converged
    } else if m.positive != u.positive {
        BisectionStep::KeepUpper
    } else {
        BisectionStep::KeepLower
    }
}

/// A function of one variable whose first derivative can be sampled.
///
/// `P` is the type of a point. An implementor fixes the finite-difference
/// step and the flatness threshold, and supplies the point arithmetic the
/// searches need; [`search_extrema_newton`] and [`search_extrema_bisection`]
/// decide the rest. Each spec function names what the matching executable
/// function returns; an implementor outside verified code defines it by
/// calling that executable function.
pub trait SlopeSampler<P: Copy>: Sized {
    /// The derivative sample at `x`.
    spec fn slope_at(&self, x: P) -> Slope;

    /// The midpoint of the bracket `(l, u)`.
    spec fn midpoint_of(&self, l: P, u: P) -> P;

    /// The point one Newton step (`x - f'(x) / f''(x)`) after `x`.
    spec fn newton_next_of(&self, x: P) -> P;

    fn slope(&self, x: P) -> (r: Slope)
        ensures
            r == self.slope_at(x),
    ;

    fn midpoint(&self, l: P, u: P) -> (r: P)
        ensures
            r == self.midpoint_of(l, u),
    ;

    fn newton_next(&self, x: P) -> (r: P)
        ensures
            r == self.newton_next_of(x),
    ;
}


/// The result of `fuel` Newton updates from `x`: the first updated point
/// whose derivative is flat, or none.
pub open spec fn newton_outcome<P: Copy, S: SlopeSampler<P>>(s: &S, x: P, fuel: nat) -> Option<P>
    decreases fuel,
{
    if fuel == 0 {
        None
    } else {
        let y = s.newton_next_of(x);
        if s.slope_at(y).flat {
            Some(y)
        } else {
            newton_outcome(s, y, (fuel - 1) as nat)
        }
    }
}

/// The result of at most `fuel` bisection rounds on the bracket `(l, u)`.
pub open spec fn bisection_outcome<P: Copy, S: SlopeSampler<P>>(
    s: &S,
    l: P,
    u: P,
    fuel: nat,
) -> Option<P>
    decreases fuel,
{
    let m = s.midpoint_of(l, u);
    if fuel == 0 {
        Some(m)
    } else {
        match bisection_step_of(s.slope_at(l), s.slope_at(m), s.slope_at(u)) {
            BisectionStep::NoSignChange => None,
            BisectionStep::Converged => Some(m),
            BisectionStep::KeepUpper => bisection_outcome(s, m, u, (fuel - 1) as nat),
            BisectionStep::KeepLower => bisection_outcome(s, l, m, (fuel - 1) as nat),
        }
    }
}

/// Bisection trusts a single sign change between the ends of its bracket: when
/// the derivative shows the same sign at both ends, as it does for a strictly
/// monotonic function, any search of at least one round reports no extremum.
pub proof fn lemma_same_sign_not_found<P: Copy, S: SlopeSampler<P>>(
    s: &S,
    l: P,
    u: P,
    rounds: nat,
)
    requires
        rounds > 0,
        s.slope_at(l).positive == s.slope_at(u).positive,
    ensures
        bisection_outcome(s, l, u, rounds) is None,
{
}

/// Both searches depend on nothing but what they sample: two samplers that
/// give the same samples, midpoints and Newton steps give the same results.
pub proof fn lemma_searches_repeatable<P: Copy, S: SlopeSampler<P>, T: SlopeSampler<P>>(
    s: &S,
    t: &T,
    x: P,
    l: P,
    u: P,
    rounds: nat,
)
    requires
        forall|y: P| #[trigger] s.slope_at(y) == t.slope_at(y),
        forall|a: P, b: P| #[trigger] s.midpoint_of(a, b) == t.midpoint_of(a, b),
        forall|y: P| #[trigger] s.newton_next_of(y) == t.newton_next_of(y),
    ensures
        newton_outcome(s, x, rounds) == newton_outcome(t, x, rounds),
        bisection_outcome(s, l, u, rounds) == bisection_outcome(t, l, u, rounds),
    decreases rounds,
{
    if rounds > 0 {
        let m = s.midpoint_of(l, u);
        lemma_searches_repeatable(s, t, s.newton_next_of(x), m, u, (rounds - 1) as nat);
        lemma_searches_repeatable(s, t, x, l, m, (rounds - 1) as nat);
    }
}


/// Newton's method on the first derivative, starting at `x0`: at most
/// `max_iters` updates, stopping at the first point whose derivative is flat.
pub fn search_extrema_newton<P: Copy, S: SlopeSampler<P>>(
    s: &S,
    x0: P,
    max_iters: usize,
) -> (r: Option<P>)
    ensures
        r == newton_outcome(s, x0, max_iters as nat),
{
    let mut x = x0;
    let mut i: usize = 0;
    while i < max_iters
        invariant
            i <= max_iters,
            newton_outcome(s, x, (max_iters - i) as nat) == newton_outcome(
                s,
                x0,
                max_iters as nat,
            ),
        decreases max_iters - i,
    {
        x = s.newton_next(x);
        if s.slope(x).flat {
            return Some(x);
        }
        i = i + 1;
    }
    None
}

/// Bisection on the sign of the first derivative over `range`, for at
/// most `max_iters` rounds; when the rounds run out, the midpoint of the
/// last bracket is returned.
pub fn search_extrema_bisection<P: Copy, S: SlopeSampler<P>>(
    s: &S,
    range: (P, P),
    max_iters: usize,
) -> (r: Option<P>)
    ensures
        r == bisection_outcome(s, range.0, range.1, max_iters as nat),
{
    let mut l = range.0;
    let mut u = range.1;
    let mut i: usize = 0;
    while i < max_iters
        invariant
            i <= max_iters,
            bisection_outcome(s, l, u, (max_iters - i) as nat) == bisection_outcome(
                s,
                range.0,
                range.1,
                max_iters as nat,
            ),
        decreases max_iters - i,
    {
        let mid = s.midpoint(l, u);
        match bisection_step(s.slope(l), s.slope(mid), s.slope(u)) {
            BisectionStep::NoSignChange => {
                return None;
            },
            BisectionStep::Converged => {
                return Some(mid);
            },
            BisectionStep::KeepUpper => {
                l = mid;
            },
            BisectionStep::KeepLower => {
                u = mid;
            },
        }
        i = i + 1;
    }
    Some(s.midpoint(l, u))
}

} // verus!
