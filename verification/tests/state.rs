use qkukeb_engine::decimal::FixedDecimal;
use qkukeb_engine::double::Double;
use qkukeb_engine::garch::LogReturn;
use qkukeb_engine::interceptor::GateConfig;
use qkukeb_engine::state::{
    EngineState, DEFAULT_ALPHA_BITS, DEFAULT_BETA_BITS, DEFAULT_LONG_RUN_BITS, DEFAULT_OMEGA_BITS,
    DEFAULT_PERSISTENCE_BITS, UNTRACKED_SIGMA_SQ_BITS,
};

fn bits(x: f64) -> Double {
    Double::from_bits(x.to_bits())
}

fn make_state() -> EngineState {
    let config = GateConfig {
        max_drawdown_pct: FixedDecimal::new(500, 4),
        max_var_1d_99_pct: FixedDecimal::new(200, 4),
        max_garch_sigma_sq: bits(0.04),
        max_single_order_notional: FixedDecimal::new(1_000_000, 0),
        max_leverage_ratio: FixedDecimal::new(20, 0),
        max_concentration_ratio: FixedDecimal::new(250, 3),
    };
    EngineState::new(config, FixedDecimal::new(100_000, 0))
}

#[test]
fn the_encodings_are_those_of_the_default_parameters() {
    assert_eq!(DEFAULT_ALPHA_BITS, 0.10f64.to_bits());
    assert_eq!(DEFAULT_BETA_BITS, 0.85f64.to_bits());
    assert_eq!(DEFAULT_OMEGA_BITS, 0.00001f64.to_bits());
    assert_eq!(DEFAULT_PERSISTENCE_BITS, (0.10f64 + 0.85f64).to_bits());
    assert_eq!(DEFAULT_LONG_RUN_BITS, (0.00001f64 / (1.0 - (0.10f64 + 0.85f64))).to_bits());
    assert_eq!(UNTRACKED_SIGMA_SQ_BITS, 0.0002f64.to_bits());
}

#[test]
fn a_new_state_tracks_nothing() {
    let state = make_state();
    assert_eq!(state.any_instrument(), None);
    assert_eq!(state.get_sigma_sq("BTC-USDT-PERP"), bits(0.0002));
    assert_eq!(state.headline_sigma_sq(), bits(0.0002));
    assert_eq!(state.portfolio().position_count(), 0);
    assert_eq!(state.gate_config().max_drawdown_pct, FixedDecimal::new(500, 4));
}

#[test]
fn a_tracker_starts_at_the_long_run_variance() {
    let mut state = make_state();
    state.get_or_create_garch("BTC-USDT-PERP");
    assert_eq!(state.any_instrument(), Some("BTC-USDT-PERP".to_string()));
    assert_eq!(state.get_sigma_sq("BTC-USDT-PERP"), Double::from_bits(DEFAULT_LONG_RUN_BITS));
    assert_eq!(state.get_sigma_sq("ETH-USDT-PERP"), bits(0.0002));
}

#[test]
fn a_tracker_that_is_there_is_kept() {
    let mut state = make_state();
    state.feed_price("BTC-USDT-PERP", 100, 1, bits(0.5));
    state.feed_price("BTC-USDT-PERP", 101, 2, bits(0.5));
    state.get_or_create_garch("BTC-USDT-PERP");
    assert_eq!(state.get_sigma_sq("BTC-USDT-PERP"), bits(0.5));
    let (next, snapshot) = state.variance_inputs("BTC-USDT-PERP", 102);
    assert_eq!(next, LogReturn::Ratio { previous: 101, current: 102 });
    assert_eq!(snapshot.sigma_sq, bits(0.5));
}

#[test]
fn a_fed_variance_is_read_back() {
    let mut state = make_state();
    let first = state.feed_price("BTC-USDT-PERP", 100, 1, bits(0.5));
    assert_eq!(first, Double::from_bits(DEFAULT_LONG_RUN_BITS));
    let second = state.feed_price("BTC-USDT-PERP", 100, 2, bits(0.5));
    assert_eq!(second, bits(0.5));
    assert_eq!(state.get_sigma_sq("BTC-USDT-PERP"), bits(0.5));
    assert_eq!(state.headline_sigma_sq(), bits(0.5));
}

#[test]
fn a_price_touches_one_instrument() {
    let mut state = make_state();
    state.feed_price("A", 100, 1, bits(0.5));
    state.feed_price("A", 100, 2, bits(0.5));
    state.feed_price("B", 100, 1, bits(0.25));
    state.feed_price("B", 100, 2, bits(0.25));
    assert_eq!(state.get_sigma_sq("A"), bits(0.5));
    assert_eq!(state.get_sigma_sq("B"), bits(0.25));
    assert_eq!(state.get_sigma_sq("C"), bits(0.0002));
    let name = state.any_instrument().unwrap();
    assert!(name == "A" || name == "B");
}

#[test]
fn an_untracked_instrument_is_read_as_a_fresh_one() {
    let state = make_state();
    let (next, snapshot) = state.variance_inputs("A", 102);
    assert_eq!(next, LogReturn::First);
    assert_eq!(snapshot.sigma_sq, Double::from_bits(DEFAULT_LONG_RUN_BITS));
    assert_eq!(snapshot.alpha, bits(0.10));
    assert_eq!(snapshot.beta, bits(0.85));
    assert_eq!(snapshot.omega, bits(0.00001));
}

#[test]
fn positions_are_opened_and_closed() {
    let mut state = make_state();
    let one = FixedDecimal::new(1, 0);
    state.open_position("A", 1, FixedDecimal::new(100, 0), one, one);
    assert_eq!(state.portfolio().position_count(), 1);
    assert_eq!(
        state.close_position("A", FixedDecimal::new(40, 0)),
        Some(FixedDecimal::new(60, 0))
    );
    assert_eq!(state.close_position("A", FixedDecimal::new(60, 0)), None);
    assert_eq!(state.portfolio().position_count(), 0);
}

#[test]
fn the_time_of_the_last_price_is_kept() {
    let mut state = make_state();
    assert_eq!(state.garch_last_ts_ns("A"), 0);
    state.feed_price("A", 100, 17, bits(0.5));
    assert_eq!(state.garch_last_ts_ns("A"), 17);
    assert_eq!(state.garch_last_ts_ns("B"), 0);
}
