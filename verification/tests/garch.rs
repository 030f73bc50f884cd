use qkukeb_engine::double::Double;
use qkukeb_engine::garch::{GarchCoefficients, GarchError, GarchState, LogReturn};

const ALPHA: f64 = 0.10;
const BETA: f64 = 0.85;
const OMEGA: f64 = 1e-6;

fn bits(x: f64) -> Double {
    Double::from_bits(x.to_bits())
}

fn value(d: Double) -> f64 {
    f64::from_bits(d.bits)
}

fn coefficients(alpha: f64, beta: f64, omega: f64) -> GarchCoefficients {
    let sum = alpha + beta;
    GarchCoefficients {
        alpha: bits(alpha),
        beta: bits(beta),
        omega: bits(omega),
        persistence: bits(sum),
        long_run_variance: bits(omega / (1.0 - sum)),
    }
}

fn long_run_variance<const N: usize>(state: &GarchState<N>) -> f64 {
    let s = state.snapshot();
    value(s.omega) / (1.0 - value(s.alpha) - value(s.beta))
}

/// Feeds a price at the variance that the model gives for it.
fn feed<const N: usize>(state: &mut GarchState<N>, price: i64, scale: u32, ts_ns: u64) -> f64 {
    let s = state.snapshot();
    let unit = 10f64.powi(scale as i32);
    let r = match state.log_return(price) {
        LogReturn::Ratio { previous, current } => {
            ((current as f64 / unit) / (previous as f64 / unit)).ln()
        }
        _ => 0.0,
    };
    let next = value(s.omega) + value(s.alpha) * (r * r) + value(s.beta) * value(s.sigma_sq);
    value(state.update(price, ts_ns, bits(next)))
}

#[test]
fn test_try_new_error_cases() {
    let err = GarchState::<500>::try_new(coefficients(0.5, 0.5, OMEGA), 8).unwrap_err();
    assert_eq!(
        err,
        GarchError::AlphaBetaSumExceedsOne {
            alpha: bits(0.5),
            beta: bits(0.5),
            sum: bits(1.0),
        }
    );

    let err = GarchState::<500>::try_new(coefficients(ALPHA, BETA, 0.0), 8).unwrap_err();
    assert_eq!(err, GarchError::OmegaNonPositive { omega: bits(0.0) });
}

#[test]
fn unsound_parameters_are_refused_in_their_order() {
    assert!(value(GarchState::<500>::new(coefficients(ALPHA, BETA, OMEGA), 8).sigma_sq()) > 0.0);
    let err = GarchState::<500>::try_new(coefficients(ALPHA, BETA, -1.0), 8).unwrap_err();
    assert_eq!(err, GarchError::OmegaNonPositive { omega: bits(-1.0) });
    let err = GarchState::<500>::try_new(coefficients(ALPHA, BETA, f64::NAN), 8).unwrap_err();
    assert_eq!(err, GarchError::OmegaNonPositive { omega: bits(f64::NAN) });
    let err = GarchState::<500>::try_new(coefficients(f64::NAN, BETA, OMEGA), 8).unwrap_err();
    assert!(matches!(err, GarchError::AlphaBetaSumExceedsOne { .. }));
    // The size is looked at before omega, and omega before the sum.
    let err = GarchState::<0>::try_new(coefficients(0.5, 0.5, 0.0), 8).unwrap_err();
    assert_eq!(err, GarchError::InvalidBufferSize { size: 0 });
    let err = GarchState::<3>::try_new(coefficients(0.5, 0.5, -0.0), 8).unwrap_err();
    assert_eq!(err, GarchError::OmegaNonPositive { omega: bits(-0.0) });
}

#[test]
fn test_sigma_squared_convergence_on_synthetic_returns() {
    let mut state = GarchState::<500>::new(coefficients(0.10, 0.85, 1e-6), 8);

    let true_sigma_sq: f64 = 0.0001;
    let mut rng_state: u64 = 42;

    let mut next_pseudo = || -> f64 {
        rng_state ^= rng_state << 13;
        rng_state ^= rng_state >> 7;
        rng_state ^= rng_state << 17;
        (rng_state as f64 / u64::MAX as f64) * 2.0 - 1.0
    };

    let base_price: i64 = 65_000_000_000; // $65,000.00 at scale=8

    for i in 0..1000 {
        let shock = next_pseudo() * true_sigma_sq.sqrt();
        let log_return = shock;
        let price_factor = log_return.exp();
        let price = (base_price as f64 * price_factor) as i64;

        feed(&mut state, price, 8, (1_700_000_000_000_000_000u64) + (i as u64) * 1_000_000_000);
    }

    let final_sigma_sq = value(state.sigma_sq());

    assert!(
        final_sigma_sq > 0.0,
        "σ² should be positive, got {}",
        final_sigma_sq
    );

    assert!(
        final_sigma_sq < 1.0,
        "σ² should not diverge, got {}",
        final_sigma_sq
    );

    let long_run = long_run_variance(&state);
    assert!(
        (final_sigma_sq - long_run).abs() / long_run < 5.0,
        "σ²={} should be within 5x of long-run variance={}",
        final_sigma_sq,
        long_run
    );
}

#[test]
fn test_first_observation_returns_initial_variance() {
    let state = GarchState::<500>::new(coefficients(ALPHA, BETA, OMEGA), 8);
    let lr = long_run_variance(&state);

    let mut state = state;
    let sigma_sq = feed(&mut state, 65_000_000_000i64, 8, 1);
    assert_eq!(sigma_sq, lr);
    assert_eq!(state.observation_count(), 1);
}

#[test]
fn test_ring_buffer_wraps_correctly() {
    let mut state = GarchState::<5>::new(coefficients(0.10, 0.85, 1e-6), 0);

    // Feed 10 observations (buffer holds 5)
    for i in 1..=10u64 {
        let price = 65_000 + i as i64 * 10;
        feed(&mut state, price, 0, 1_700_000_000_000_000_000 + i * 1_000_000_000);
    }

    assert_eq!(state.observation_count(), 5);

    assert!(value(state.sigma_sq()).is_finite());
    assert!(value(state.sigma_sq()) > 0.0);
}

#[test]
fn test_snapshot() {
    let state = GarchState::<500>::new(coefficients(ALPHA, BETA, OMEGA), 8);
    let snap = state.snapshot();
    assert_eq!(snap.alpha, bits(ALPHA));
    assert_eq!(snap.beta, bits(BETA));
    assert_eq!(snap.omega, bits(OMEGA));
    assert!(value(snap.sigma_sq) > 0.0);
}

#[test]
fn test_reset() {
    let mut state = GarchState::<500>::new(coefficients(ALPHA, BETA, OMEGA), 8);
    let lr = long_run_variance(&state);

    for i in 1..=10u64 {
        feed(&mut state, 65_000_000_000i64 + (i as i64 * 100), 8, i * 1_000_000_000);
    }

    state.reset();
    assert_eq!(state.observation_count(), 0);
    assert_eq!(value(state.sigma_sq()), lr);
    assert_eq!(state.last_ts_ns(), 0);
}

#[test]
fn test_const_generic_different_sizes() {
    let _s100 = GarchState::<100>::new(coefficients(ALPHA, BETA, OMEGA), 4);
    let _s200 = GarchState::<200>::new(coefficients(ALPHA, BETA, OMEGA), 4);
    let _s1000 = GarchState::<1000>::new(coefficients(ALPHA, BETA, OMEGA), 4);
}

#[test]
fn a_reset_gives_back_the_variance_of_the_start() {
    // 1 - 0.1 - 0.2 and 1 - (0.1 + 0.2) differ in floating point.
    let mut state = GarchState::<4>::new(coefficients(0.1, 0.2, OMEGA), 8);
    let start = state.sigma_sq();
    feed(&mut state, 100, 0, 1);
    feed(&mut state, 130, 0, 2);
    assert_ne!(state.sigma_sq(), start);
    state.reset();
    assert_eq!(state.sigma_sq(), start);
    assert_eq!(state.log_return(100), LogReturn::First);
}

#[test]
fn the_return_is_taken_over_the_last_price() {
    let mut state = GarchState::<3>::new(coefficients(ALPHA, BETA, OMEGA), 0);
    assert_eq!(state.log_return(100), LogReturn::First);
    for price in 1..=7i64 {
        state.update(price * 10, price as u64, bits(0.5));
        assert_eq!(
            state.log_return(99),
            LogReturn::Ratio { previous: price * 10, current: 99 }
        );
    }
    assert_eq!(state.observation_count(), 3);
    assert_eq!(state.last_ts_ns(), 7);
    assert_eq!(state.sigma_sq(), bits(0.5));
}

#[test]
fn a_price_that_is_not_positive_gives_no_return() {
    let mut state = GarchState::<3>::new(coefficients(ALPHA, BETA, OMEGA), 0);
    state.update(0, 1, bits(0.5));
    assert_eq!(state.log_return(10), LogReturn::Zero);
    state.update(10, 2, bits(0.5));
    assert_eq!(state.log_return(-1), LogReturn::Zero);
    assert_eq!(state.log_return(11), LogReturn::Ratio { previous: 10, current: 11 });
}

#[test]
fn the_variance_moves_from_the_second_price_on() {
    let mut state = GarchState::<4>::new(coefficients(ALPHA, BETA, OMEGA), 0);
    let start = state.sigma_sq();
    assert_eq!(state.update(100, 1, bits(0.25)), start);
    assert_eq!(state.update(100, 2, bits(0.25)), bits(0.25));
    assert_eq!(state.sigma_sq(), bits(0.25));
}

#[test]
fn a_buffer_of_one_keeps_the_last_price() {
    let mut state = GarchState::<1>::new(coefficients(ALPHA, BETA, OMEGA), 0);
    state.update(100, 1, bits(0.25));
    assert_eq!(state.observation_count(), 1);
    assert_eq!(state.log_return(110), LogReturn::Ratio { previous: 100, current: 110 });
    assert_eq!(state.update(110, 2, bits(0.25)), bits(0.25));
    assert_eq!(state.observation_count(), 1);
    assert_eq!(state.log_return(120), LogReturn::Ratio { previous: 110, current: 120 });
}

#[test]
fn the_model_gives_an_exact_variance() {
    // A constant price has no return, so the variance decays by beta.
    let mut state = GarchState::<4>::new(coefficients(0.25, 0.5, 0.125), 0);
    assert_eq!(feed(&mut state, 100, 0, 1), 0.5);
    assert_eq!(feed(&mut state, 100, 0, 2), 0.375);
    assert_eq!(feed(&mut state, 100, 0, 3), 0.3125);
}
