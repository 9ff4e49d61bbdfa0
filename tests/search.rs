use algorand_compounder::search::{
    bisection_step, search_extrema_bisection, search_extrema_newton, BisectionStep, Slope,
    SlopeSampler,
};

/// A function of `f64` sampled by central differences.
struct Sampled {
    f: fn(f64) -> f64,
    delta: f64,
    epsilon: f64,
}

impl Sampled {
    fn first(&self, x: f64) -> f64 {
        ((self.f)(x + self.delta) - (self.f)(x - self.delta)) / (2.0 * self.delta)
    }

    fn second(&self, x: f64) -> f64 {
        ((self.f)(x + self.delta) - 2.0 * (self.f)(x) + (self.f)(x - self.delta))
            / (self.delta * self.delta)
    }
}

impl SlopeSampler<f64> for Sampled {
    // The spec functions name what the executable functions return.
    fn slope_at(&self, x: f64) -> Slope {
        self.slope(x)
    }

    fn midpoint_of(&self, l: f64, u: f64) -> f64 {
        self.midpoint(l, u)
    }

    fn newton_next_of(&self, x: f64) -> f64 {
        self.newton_next(x)
    }

    fn slope(&self, x: f64) -> Slope {
        let d = self.first(x);
        Slope { positive: d > 0.0, flat: d.abs() < self.epsilon }
    }

    fn midpoint(&self, l: f64, u: f64) -> f64 {
        (u - l) * 0.5 + l
    }

    fn newton_next(&self, x: f64) -> f64 {
        x - self.first(x) / self.second(x)
    }
}

fn peak_at_three(x: f64) -> f64 {
    -(x - 3.0) * (x - 3.0)
}

fn identity(x: f64) -> f64 {
    x
}

const EPS: f64 = 1e-7;

fn sampled(f: fn(f64) -> f64) -> Sampled {
    Sampled { f, delta: 1e-4, epsilon: EPS }
}

fn slope(positive: bool, flat: bool) -> Slope {
    Slope { positive, flat }
}

#[test]
fn newton_finds_known_extremum() {
    let r = search_extrema_newton(&sampled(peak_at_three), 2.5, 50).expect("an extremum");
    assert!((r - 3.0).abs() < 10.0 * EPS, "{}", r);
}

#[test]
fn bisection_finds_known_extremum() {
    let r = search_extrema_bisection(&sampled(peak_at_three), (0.0, 10.0), 64).expect("an extremum");
    assert!((r - 3.0).abs() < 10.0 * EPS, "{}", r);
}

#[test]
fn bisection_on_monotonic_function_finds_nothing() {
    assert_eq!(search_extrema_bisection(&sampled(identity), (-5.0, 5.0), 64), None);
    assert_eq!(search_extrema_bisection(&sampled(identity), (1.0, 1e9), 64), None);
}

#[test]
fn bisection_search_is_repeatable() {
    let s = sampled(peak_at_three);
    let a = search_extrema_bisection(&s, (0.5, 7.0), 64);
    let b = search_extrema_bisection(&s, (0.5, 7.0), 64);
    assert_eq!(a.map(f64::to_bits), b.map(f64::to_bits));
    assert!(a.is_some());
}

#[test]
fn bisection_without_rounds_returns_midpoint() {
    assert_eq!(search_extrema_bisection(&sampled(identity), (2.0, 6.0), 0), Some(4.0));
}

#[test]
fn bisection_exhausted_returns_last_midpoint() {
    // one round narrows (0, 8) to (0, 4), whose midpoint is returned
    let r = search_extrema_bisection(&sampled(peak_at_three), (0.0, 8.0), 1);
    assert_eq!(r, Some(2.0));
}

#[test]
fn newton_without_rounds_finds_nothing() {
    assert_eq!(search_extrema_newton(&sampled(peak_at_three), 2.5, 0), None);
}

#[test]
fn newton_on_linear_function_finds_nothing() {
    // f'' is zero: the update is not finite and never converges
    assert_eq!(search_extrema_newton(&sampled(identity), 1.0, 20), None);
}

#[test]
fn bisection_step_decisions() {
    let p = slope(true, false);
    let n = slope(false, false);
    let flat = slope(false, true);
    assert_eq!(bisection_step(p, n, p), BisectionStep::NoSignChange);
    assert_eq!(bisection_step(n, p, n), BisectionStep::NoSignChange);
    assert_eq!(bisection_step(p, flat, n), BisectionStep::Converged);
    assert_eq!(bisection_step(p, p, n), BisectionStep::KeepUpper);
    assert_eq!(bisection_step(p, n, n), BisectionStep::KeepLower);
    assert_eq!(bisection_step(n, n, p), BisectionStep::KeepUpper);
    assert_eq!(bisection_step(n, p, p), BisectionStep::KeepLower);
}

/// Balance after `years` of compounding at `rate`, collected `n` times a year
/// at a cost of `fees` per collection.
fn projected_value(n: f64, years: f64, rate: f64, fees: f64, principal: f64) -> f64 {
    let g = (rate / n + 1.0).powf(n);
    principal * g.powf(years) - ((n * fees) * (g.powf(years) - 1.0)) / (g - 1.0)
}

struct Compound {
    principal: f64,
}

impl SlopeSampler<f64> for Compound {
    fn slope_at(&self, x: f64) -> Slope {
        self.slope(x)
    }

    fn midpoint_of(&self, l: f64, u: f64) -> f64 {
        self.midpoint(l, u)
    }

    fn newton_next_of(&self, x: f64) -> f64 {
        self.newton_next(x)
    }

    fn slope(&self, x: f64) -> Slope {
        let f = |n: f64| projected_value(n, 1.0, 0.069, 0.001, self.principal);
        let d = (f(x + 1e-4) - f(x - 1e-4)) / (2.0 * 1e-4);
        Slope { positive: d > 0.0, flat: d.abs() < EPS }
    }

    fn midpoint(&self, l: f64, u: f64) -> f64 {
        (u - l) * 0.5 + l
    }

    fn newton_next(&self, x: f64) -> f64 {
        x
    }
}

fn wait_seconds(principal: f64) -> Option<f64> {
    search_extrema_bisection(&Compound { principal }, (1.0, 1000000000.0), 64)
        .map(|t| (365.0 / t) * 24.0 * 3600.0)
}

#[test]
fn compound_model_wait_is_within_a_year_or_absent() {
    match wait_seconds(100.0) {
        Some(s) => assert!(s.is_finite() && s > 0.0 && s < 365.0 * 24.0 * 3600.0, "{}", s),
        None => {}
    }
    let a = wait_seconds(100.0).map(f64::to_bits);
    assert_eq!(a, wait_seconds(100.0).map(f64::to_bits));
}

#[test]
fn compound_model_with_no_principal_does_not_fault() {
    let a = wait_seconds(0.0);
    assert_eq!(a.map(f64::to_bits), wait_seconds(0.0).map(f64::to_bits));
}
