use qkukeb_engine::decimal::FixedDecimal;
use qkukeb_engine::double::Double;
use qkukeb_engine::interceptor::{
    check_market_reading, DefaultRiskInterceptor, GarchSnapshot, GateConfig, GateResult,
    MarketReading, MidPrices, PortfolioState, RiskContext, RiskInterceptor,
};
use qkukeb_engine::messages::{
    RiskGateCode, SignalInvalidationThresholds, Timestamp, TradeRequest,
};

fn bits(x: f64) -> Double {
    Double::from_bits(x.to_bits())
}

fn make_gate_config() -> GateConfig {
    GateConfig {
        max_drawdown_pct: FixedDecimal::new(500, 4),  // 5.00%
        max_var_1d_99_pct: FixedDecimal::new(200, 4), // 2.00%
        max_garch_sigma_sq: bits(0.04),
        max_single_order_notional: FixedDecimal::new(1_000_000, 0),
        max_leverage_ratio: FixedDecimal::new(10, 0),
        max_concentration_ratio: FixedDecimal::new(250, 3), // 25%
    }
}

fn make_safe_context() -> RiskContext {
    RiskContext {
        portfolio: PortfolioState {
            drawdown_pct: FixedDecimal::new(10, 4),  // 0.10%
            var_1d_99_pct: FixedDecimal::new(50, 4), // 0.50%
            garch_sigma_sq: FixedDecimal::new(1, 4),
            gross_exposure: FixedDecimal::new(500_000, 0),
            net_exposure: FixedDecimal::new(100_000, 0),
            open_position_count: 3,
            aum: FixedDecimal::new(2_000_000, 0),
            hwm: FixedDecimal::new(2_010_000, 0),
        },
        garch: GarchSnapshot {
            sigma_sq: bits(0.01),
            alpha: bits(0.1),
            beta: bits(0.85),
            omega: bits(0.000001),
        },
        market: MarketReading::unknown(),
    }
}

#[test]
fn test_all_gates_pass() {
    let interceptor = DefaultRiskInterceptor::new(make_gate_config());
    let ctx = make_safe_context();

    let req = TradeRequest {
        request_id: "test-001".to_string(),
        ..Default::default()
    };

    let result = interceptor.evaluate(&req, &ctx, 1_700_000_000_000_000_000);
    assert_eq!(result, RiskGateCode::RiskGateAccepted);
}

#[test]
fn test_drawdown_gate_rejects() {
    let interceptor = DefaultRiskInterceptor::new(make_gate_config());
    let mut ctx = make_safe_context();
    ctx.portfolio.drawdown_pct = FixedDecimal::new(600, 4); // 6.00% > 5.00% max

    let req = TradeRequest {
        request_id: "test-002".to_string(),
        ..Default::default()
    };

    let result = interceptor.evaluate(&req, &ctx, 1_700_000_000_000_000_000);
    assert_eq!(result, RiskGateCode::RiskGateRejectedMaxDrawdown);
}

#[test]
fn test_var_gate_rejects() {
    let interceptor = DefaultRiskInterceptor::new(make_gate_config());
    let mut ctx = make_safe_context();
    ctx.portfolio.var_1d_99_pct = FixedDecimal::new(300, 4); // 3.00% > 2.00% max

    let req = TradeRequest {
        request_id: "test-003".to_string(),
        ..Default::default()
    };
    let result = interceptor.evaluate(&req, &ctx, 1_700_000_000_000_000_000);
    assert_eq!(result, RiskGateCode::RiskGateRejectedVarBreach);
}

#[test]
fn test_garch_gate_rejects() {
    let interceptor = DefaultRiskInterceptor::new(make_gate_config());
    let mut ctx = make_safe_context();
    ctx.garch.sigma_sq = bits(0.05); // 0.05 > 0.04 max

    let req = TradeRequest {
        request_id: "test-004".to_string(),
        ..Default::default()
    };
    let result = interceptor.evaluate(&req, &ctx, 1_700_000_000_000_000_000);
    assert_eq!(result, RiskGateCode::RiskGateRejectedGarchVolatility);
}

#[test]
fn test_gate_order_is_drawdown_before_var() {
    let interceptor = DefaultRiskInterceptor::new(make_gate_config());
    let mut ctx = make_safe_context();
    // BOTH gates are breached; drawdown should fire first
    ctx.portfolio.drawdown_pct = FixedDecimal::new(600, 4);
    ctx.portfolio.var_1d_99_pct = FixedDecimal::new(300, 4);

    let req = TradeRequest {
        request_id: "test-005".to_string(),
        ..Default::default()
    };
    let result = interceptor.evaluate(&req, &ctx, 1_700_000_000_000_000_000);
    // Must reject on drawdown (gate 1), not VaR (gate 2)
    assert_eq!(result, RiskGateCode::RiskGateRejectedMaxDrawdown);
}

fn dated(seconds: i64, nanos: i32, ttl_ms: u32) -> TradeRequest {
    TradeRequest {
        signal_detected_at: Some(Timestamp { seconds, nanos }),
        invalidation: Some(SignalInvalidationThresholds {
            signal_ttl_ms: ttl_ms,
            max_price_drift_bps: 0,
            min_fill_probability: None,
            min_available_liquidity: None,
        }),
        ..Default::default()
    }
}

const STALE: GateResult = GateResult::Rejected(RiskGateCode::RiskGateRejectedSignalStale);

fn signal_gate(req: &TradeRequest, now_ns: u64) -> GateResult {
    let interceptor = DefaultRiskInterceptor::new(make_gate_config());
    interceptor.check_signal_invalidation(req, &MarketReading::unknown(), now_ns)
}

#[test]
fn a_stale_signal_is_rejected_before_anything_else() {
    let interceptor = DefaultRiskInterceptor::new(make_gate_config());
    let mut ctx = make_safe_context();
    ctx.portfolio.drawdown_pct = FixedDecimal::new(600, 4);
    ctx.garch.sigma_sq = bits(0.05);
    // Seen 5.5 s after the epoch, allowed to be 2 s old.
    let req = dated(5, 500_000_000, 2_000);
    assert_eq!(
        interceptor.evaluate(&req, &ctx, 7_500_000_001),
        RiskGateCode::RiskGateRejectedSignalStale
    );
    assert_eq!(
        interceptor.evaluate(&req, &ctx, 7_500_000_000),
        RiskGateCode::RiskGateRejectedMaxDrawdown
    );
}

#[test]
fn the_age_of_a_signal_counts_seconds_and_nanoseconds() {
    // The two fields need not be normalized.
    for req in [dated(4, 1_500_000_000, 1), dated(6, -500_000_000, 1), dated(5, 500_000_000, 1)] {
        assert_eq!(signal_gate(&req, 5_501_000_000), GateResult::Accepted);
        assert_eq!(signal_gate(&req, 5_501_000_001), STALE);
    }
}

#[test]
fn a_signal_from_before_the_epoch_has_an_age_too() {
    assert_eq!(signal_gate(&dated(-1, 0, 5_000), 1_700_000_000_000_000_000), STALE);
    assert_eq!(signal_gate(&dated(-1, 0, 5_000), 4_000_000_000), GateResult::Accepted);
    assert_eq!(signal_gate(&dated(-1, 0, 5_000), 4_000_000_001), STALE);
    assert_eq!(signal_gate(&dated(i64::MIN, i32::MIN, u32::MAX), 0), STALE);
}

#[test]
fn a_signal_from_the_future_is_not_stale() {
    assert_eq!(signal_gate(&dated(100, 0, 1), 5), GateResult::Accepted);
    // Past the largest 64-bit count of nanoseconds.
    assert_eq!(signal_gate(&dated(18_446_744_075, 0, 1), u64::MAX), GateResult::Accepted);
    assert_eq!(signal_gate(&dated(i64::MAX, i32::MAX, 1), u64::MAX), GateResult::Accepted);
}

#[test]
fn what_is_stale_stays_stale() {
    let req = dated(5, 0, 1_000);
    let mut stale = false;
    for now_ns in [0, 5_000_000_000, 6_000_000_000, 6_000_000_001, 7_000_000_000, u64::MAX] {
        let now_stale = signal_gate(&req, now_ns) == STALE;
        assert!(now_stale || !stale);
        stale = now_stale;
    }
    assert!(stale);
}

#[test]
fn a_signal_without_limit_or_time_passes() {
    let now = 1_700_000_000_000_000_000;
    assert_eq!(signal_gate(&dated(1, 0, 0), now), GateResult::Accepted);
    let mut undated = dated(1, 0, 1);
    undated.signal_detected_at = None;
    assert_eq!(signal_gate(&undated, now), GateResult::Accepted);
    let mut unlimited = dated(1, 0, 1);
    unlimited.invalidation = None;
    assert_eq!(signal_gate(&unlimited, now), GateResult::Accepted);
}

fn demanding() -> TradeRequest {
    TradeRequest {
        invalidation: Some(SignalInvalidationThresholds {
            signal_ttl_ms: 0,
            max_price_drift_bps: 100,
            min_fill_probability: Some(FixedDecimal::new(80, 2)),
            min_available_liquidity: Some(FixedDecimal::new(100_000, 0)),
        }),
        ..Default::default()
    }
}

fn drift(at_signal: i64, now: i64) -> MarketReading {
    MarketReading {
        mid_prices: Some(MidPrices { at_signal, now }),
        ..MarketReading::unknown()
    }
}

#[test]
fn a_price_that_drifted_too_far_invalidates_the_signal() {
    let req = demanding();
    // 1% either way is allowed, 2% is not.
    assert_eq!(check_market_reading(&req, &drift(65_000, 65_650)), GateResult::Accepted);
    assert_eq!(check_market_reading(&req, &drift(65_000, 65_651)), STALE);
    assert_eq!(check_market_reading(&req, &drift(65_000, 64_350)), GateResult::Accepted);
    assert_eq!(check_market_reading(&req, &drift(65_000, 64_349)), STALE);
    assert_eq!(check_market_reading(&req, &drift(65_000, 66_300)), STALE);
    assert_eq!(check_market_reading(&req, &drift(0, 1)), STALE);
    assert_eq!(check_market_reading(&req, &drift(0, 0)), GateResult::Accepted);
    assert_eq!(check_market_reading(&req, &drift(i64::MIN, i64::MAX)), STALE);
    let mut unlimited = demanding();
    unlimited.invalidation.as_mut().unwrap().max_price_drift_bps = 0;
    assert_eq!(check_market_reading(&unlimited, &drift(1, 1_000)), GateResult::Accepted);
}

#[test]
fn a_poor_book_invalidates_the_signal() {
    let req = demanding();
    let mut market = MarketReading::unknown();
    assert_eq!(check_market_reading(&req, &market), GateResult::Accepted);
    market.fill_probability = Some(FixedDecimal::new(8, 1));
    market.available_liquidity = Some(FixedDecimal::new(100_000, 0));
    assert_eq!(check_market_reading(&req, &market), GateResult::Accepted);
    market.fill_probability = Some(FixedDecimal::new(799, 3));
    assert_eq!(check_market_reading(&req, &market), STALE);
    market.fill_probability = None;
    market.available_liquidity = Some(FixedDecimal::new(99_999, 0));
    assert_eq!(check_market_reading(&req, &market), STALE);
    assert_eq!(check_market_reading(&TradeRequest::default(), &market), GateResult::Accepted);
}

#[test]
fn the_market_is_part_of_the_signal_gate() {
    let interceptor = DefaultRiskInterceptor::new(make_gate_config());
    let mut ctx = make_safe_context();
    ctx.portfolio.drawdown_pct = FixedDecimal::new(600, 4);
    ctx.market = drift(65_000, 66_300);
    assert_eq!(interceptor.check_signal_invalidation(&demanding(), &ctx.market, 1), STALE);
    assert_eq!(
        interceptor.evaluate(&demanding(), &ctx, 1),
        RiskGateCode::RiskGateRejectedSignalStale
    );
}

#[test]
fn a_limit_that_is_just_met_does_not_reject() {
    let interceptor = DefaultRiskInterceptor::new(make_gate_config());
    let mut ctx = make_safe_context();
    ctx.portfolio.drawdown_pct = FixedDecimal::new(500, 4);
    assert_eq!(interceptor.check_drawdown(&ctx.portfolio), GateResult::Accepted);
    ctx.portfolio.drawdown_pct = FixedDecimal::new(50_001, 6);
    assert_eq!(
        interceptor.check_drawdown(&ctx.portfolio),
        GateResult::Rejected(RiskGateCode::RiskGateRejectedMaxDrawdown)
    );
    ctx.portfolio.var_1d_99_pct = FixedDecimal::new(2, 2);
    assert_eq!(interceptor.check_var(&ctx.portfolio), GateResult::Accepted);
    ctx.portfolio.var_1d_99_pct = FixedDecimal::new(20_001, 6);
    assert_eq!(
        interceptor.check_var(&ctx.portfolio),
        GateResult::Rejected(RiskGateCode::RiskGateRejectedVarBreach)
    );
    ctx.garch.sigma_sq = bits(0.04);
    assert_eq!(interceptor.check_garch(&ctx.garch), GateResult::Accepted);
    ctx.garch.sigma_sq = bits(f64::NAN);
    assert_eq!(interceptor.check_garch(&ctx.garch), GateResult::Accepted);
}

struct ClosedMarket {
    config: GateConfig,
}

impl RiskInterceptor for ClosedMarket {
    fn thresholds(&self) -> GateConfig {
        self.config
    }

    fn config(&self) -> &GateConfig {
        &self.config
    }

    fn check_var(&self, _state: &PortfolioState) -> GateResult {
        GateResult::Rejected(RiskGateCode::RiskGateRejectedVarBreach)
    }
}

#[test]
fn an_implementor_may_give_a_gate_of_its_own() {
    let interceptor = ClosedMarket { config: make_gate_config() };
    let mut ctx = make_safe_context();
    let req = TradeRequest::default();
    assert_eq!(interceptor.evaluate(&req, &ctx, 1), RiskGateCode::RiskGateRejectedVarBreach);
    ctx.portfolio.drawdown_pct = FixedDecimal::new(600, 4);
    assert_eq!(interceptor.evaluate(&req, &ctx, 1), RiskGateCode::RiskGateRejectedMaxDrawdown);
}
