use qkukeb_engine::decimal::FixedDecimal;
use qkukeb_engine::double::Double;
use qkukeb_engine::fill::{simulate_fill, FillResult, SlippageEstimate};
use qkukeb_engine::frames::{gate_statuses, GateStatus, RiskFrame};
use qkukeb_engine::interceptor::{GateConfig, MarketReading, MidPrices};
use qkukeb_engine::messages::{
    AssetIdentifier, RiskGateCode, RiskState, RiskSubscriptionRequest,
    SignalInvalidationThresholds, Timestamp, TradeRequest, TradeResponse,
};
use qkukeb_engine::service::{
    publish_action, stream_action, ChannelEvent, ClockReadings, EngineError, PublishAction,
    QKukebService, StreamAction, Submission, VolatilityFigures,
};
use qkukeb_engine::state::EngineState;
use std::time::{Duration, SystemTime, UNIX_EPOCH};

fn bits(x: f64) -> Double {
    Double::from_bits(x.to_bits())
}

fn fixed(x: f64, scale: u32) -> FixedDecimal {
    FixedDecimal::new((x * 10f64.powi(scale as i32)).round() as i64, scale)
}

/// The thresholds of the test engine.
fn test_gate_config() -> GateConfig {
    GateConfig {
        max_drawdown_pct: FixedDecimal::new(500, 4),  // 5.00%
        max_var_1d_99_pct: FixedDecimal::new(200, 4), // 2.00%
        max_garch_sigma_sq: bits(0.04),
        max_single_order_notional: FixedDecimal::new(1_000_000, 0),
        max_leverage_ratio: FixedDecimal::new(20, 0),
        max_concentration_ratio: FixedDecimal::new(250, 3), // 25%
    }
}

/// Create a valid TradeRequest with a fresh timestamp.
fn make_valid_trade_request() -> TradeRequest {
    let now_ts = SystemTime::now().duration_since(UNIX_EPOCH).unwrap_or_default();

    TradeRequest {
        request_id: "integration-test-001".to_string(),
        originating_agent_id: "qkukeb-executor".to_string(),
        signal_detected_at: Some(Timestamp {
            seconds: now_ts.as_secs() as i64,
            nanos: now_ts.subsec_nanos() as i32,
        }),
        asset: Some(AssetIdentifier {
            base_asset: "BTC".to_string(),
            quote_asset: "USDT".to_string(),
            asset_class: 2, // PERP
            venue_id: "BINANCE_PERP".to_string(),
            instrument: "BTC-USDT-PERP".to_string(),
        }),
        side: 1, // Buy
        notional_value: Some(FixedDecimal::new(10_000, 0)),
        leverage_ratio: Some(FixedDecimal::new(5, 0)),
        slippage_bps_limit: 50, // 50 bps — plenty of room
        signal_confidence: Some(FixedDecimal::new(85, 2)),
        invalidation: Some(SignalInvalidationThresholds {
            signal_ttl_ms: 5000,
            max_price_drift_bps: 100,
            min_fill_probability: Some(FixedDecimal::new(80, 2)),
            min_available_liquidity: Some(FixedDecimal::new(100_000, 0)),
        }),
    }
}

/// Create a stale TradeRequest (signal_detected_at = 10 seconds ago).
fn make_stale_trade_request() -> TradeRequest {
    let stale_time = SystemTime::now().duration_since(UNIX_EPOCH).unwrap_or_default()
        - Duration::from_secs(10);

    TradeRequest {
        request_id: "integration-test-002".to_string(),
        originating_agent_id: "qkukeb-executor".to_string(),
        signal_detected_at: Some(Timestamp {
            seconds: stale_time.as_secs() as i64,
            nanos: stale_time.subsec_nanos() as i32,
        }),
        asset: Some(AssetIdentifier {
            base_asset: "ETH".to_string(),
            quote_asset: "USDT".to_string(),
            asset_class: 2, // PERP
            venue_id: "BINANCE_PERP".to_string(),
            instrument: "ETH-USDT-PERP".to_string(),
        }),
        side: 2, // Sell
        notional_value: Some(FixedDecimal::new(5_000, 0)),
        leverage_ratio: Some(FixedDecimal::new(3, 0)),
        slippage_bps_limit: 50,
        signal_confidence: Some(FixedDecimal::new(90, 2)),
        invalidation: Some(SignalInvalidationThresholds {
            signal_ttl_ms: 5000,
            max_price_drift_bps: 100,
            min_fill_probability: Some(FixedDecimal::new(80, 2)),
            min_available_liquidity: Some(FixedDecimal::new(100_000, 0)),
        }),
    }
}

fn make_test_engine_state() -> EngineState {
    EngineState::new(test_gate_config(), FixedDecimal::new(100_000, 0)) // $100k AUM
}

/// What the model gives at two variances: that of the instrument, and the one
/// that is shown.
fn figures_at(instrument: f64, headline: f64) -> VolatilityFigures {
    let bps = 0.5 + instrument * 1000.0;
    VolatilityFigures {
        instrument_sigma_sq: fixed(instrument, 8),
        instrument_sigma_sq_text: instrument.to_string(),
        headline_sigma_sq: fixed(headline, 8),
        slippage: SlippageEstimate { bps: bits(bps), rounded_bps: fixed(bps, 4) },
    }
}

fn since_epoch() -> Duration {
    SystemTime::now().duration_since(UNIX_EPOCH).unwrap_or_default()
}

fn clock_now() -> ClockReadings {
    let now = since_epoch();
    ClockReadings {
        responded_at: Timestamp {
            seconds: now.as_secs() as i64,
            nanos: now.subsec_nanos() as i32,
        },
        evaluated_ns: now.as_nanos() as u64,
        broadcast_ns: now.as_nanos() as u64,
    }
}

/// Submits a request with the figures of the state and the time of the clock.
fn submit(service: &mut QKukebService, req: &TradeRequest) -> TradeResponse {
    let instrument = req.instrument();
    let figures = figures_at(
        f64::from_bits(service.state.get_sigma_sq(&instrument).bits),
        f64::from_bits(service.state.headline_sigma_sq().bits),
    );
    let received_ns = since_epoch().as_nanos() as u64;
    service
        .submit_trade_command(req, &MarketReading::unknown(), &figures, received_ns, clock_now())
        .expect("gRPC call should not fail")
        .response
}

/// Submits a request that came in at a given moment.
fn submit_at(
    service: &mut QKukebService,
    req: &TradeRequest,
    figures: &VolatilityFigures,
    received_ns: u64,
) -> Result<Submission, EngineError> {
    service.submit_trade_command(
        req,
        &MarketReading::unknown(),
        figures,
        received_ns,
        fixed_clock(),
    )
}

#[test]
fn test_valid_trade_accepted() {
    let state = make_test_engine_state();
    let mut service = QKukebService::new(state);

    let req = make_valid_trade_request();
    let resp = submit(&mut service, &req);

    assert_eq!(
        resp.risk_gate_code,
        RiskGateCode::RiskGateAccepted,
        "Expected RISK_GATE_ACCEPTED (1), got {}",
        resp.risk_gate_code.as_str_name()
    );

    assert!(!resp.execution_id.is_empty(), "execution_id should be set");
    assert!(resp.filled_notional.is_some(), "filled_notional should be set on acceptance");
    assert!(resp.realized_slippage.is_some(), "realized_slippage should be set");
    assert!(
        resp.exchange_order_ids.iter().any(|id| id.starts_with("SIM-")),
        "Should have SIM- prefixed order ID"
    );
}

#[test]
fn test_stale_signal_rejected() {
    let state = make_test_engine_state();
    let mut service = QKukebService::new(state);

    let req = make_stale_trade_request();
    let resp = submit(&mut service, &req);

    assert_eq!(
        resp.risk_gate_code,
        RiskGateCode::RiskGateRejectedSignalStale,
        "Expected RISK_GATE_REJECTED_SIGNAL_STALE (8), got {}",
        resp.risk_gate_code.as_str_name()
    );

    assert!(resp.execution_id.is_empty(), "execution_id should be empty on rejection");
    assert!(resp.filled_notional.is_none(), "filled_notional should be None on rejection");
    assert!(
        !resp.rejection_detail.is_empty(),
        "rejection_detail should explain the rejection"
    );
    assert!(
        resp.rejection_detail.contains("SIGNAL_STALE"),
        "rejection_detail should mention SIGNAL_STALE"
    );
}

#[test]
fn test_risk_snapshot_in_response() {
    let state = make_test_engine_state();
    let mut service = QKukebService::new(state);

    let req = make_valid_trade_request();
    let resp = submit(&mut service, &req);

    let snapshot = resp.risk_snapshot.expect("risk_snapshot should always be set");
    assert!(snapshot.evaluated_at_ns > 0, "evaluated_at_ns should be a valid timestamp");
    assert!(snapshot.gross_exposure.is_some(), "gross_exposure should be in snapshot");
    assert!(snapshot.net_exposure.is_some(), "net_exposure should be in snapshot");
}

#[test]
fn test_deterministic_fill_low_volatility() {
    // With default σ² (0.0002), slippage = 0.5 + (0.0002 * 1000) = 0.7 bps
    // limit = 50 bps → should fill
    let state = make_test_engine_state();
    let mut service = QKukebService::new(state);

    let req = make_valid_trade_request();
    let resp = submit(&mut service, &req);
    assert_eq!(resp.risk_gate_code, RiskGateCode::RiskGateAccepted);

    // Realized slippage should be ~0.7 bps (scale=4 → raw_units ≈ 7000)
    let slippage = resp.realized_slippage.unwrap();
    let slippage_f64 = slippage.raw_units as f64 / 10f64.powi(slippage.scale as i32);
    assert!(
        (slippage_f64 - 0.7).abs() < 0.01,
        "Expected ~0.7 bps slippage, got {}",
        slippage_f64
    );
}

fn fixed_clock() -> ClockReadings {
    ClockReadings {
        responded_at: Timestamp { seconds: 7, nanos: 8 },
        evaluated_ns: 1_234,
        broadcast_ns: 5_678,
    }
}

fn order(instrument: &str, side: i32, notional: i64) -> TradeRequest {
    TradeRequest {
        request_id: "order".to_string(),
        asset: Some(AssetIdentifier {
            base_asset: String::new(),
            quote_asset: String::new(),
            asset_class: 0,
            venue_id: "VENUE".to_string(),
            instrument: instrument.to_string(),
        }),
        side,
        notional_value: Some(FixedDecimal::new(notional, 0)),
        ..Default::default()
    }
}

#[test]
fn an_accepted_trade_is_answered_in_full() {
    let mut service = QKukebService::new(make_test_engine_state());
    let mut req = order("A", 2, 300);
    req.signal_detected_at = Some(Timestamp { seconds: 5, nanos: 6 });
    let figures = figures_at(0.0002, 0.0003);
    let done = submit_at(&mut service, &req, &figures, 9).unwrap();
    let resp = done.response;
    let state = RiskState {
        portfolio_drawdown_pct: Some(FixedDecimal::new(0, 0)),
        var_1d_99_pct: Some(FixedDecimal::new(50, 4)),
        garch_sigma_sq: Some(FixedDecimal::new(30_000, 8)),
        gross_exposure: Some(FixedDecimal::new(300, 0)),
        net_exposure: Some(FixedDecimal::new(-300, 0)),
        open_position_count: 1,
        evaluated_at_ns: 1_234,
    };
    let id = resp.execution_id.clone();
    assert_eq!(
        resp,
        TradeResponse {
            request_id: "order".to_string(),
            execution_id: id.clone(),
            received_at: Some(Timestamp { seconds: 5, nanos: 6 }),
            responded_at: Some(Timestamp { seconds: 7, nanos: 8 }),
            risk_gate_code: RiskGateCode::RiskGateAccepted,
            filled_notional: Some(FixedDecimal::new(300, 0)),
            average_fill_price: Some(FixedDecimal::new(300, 0)),
            realized_slippage: Some(FixedDecimal::new(7_000, 4)),
            risk_snapshot: Some(state),
            rejection_detail: String::new(),
            exchange_order_ids: vec![format!("SIM-{}", id)],
            commission_paid: Some(FixedDecimal::new(10, 2)),
        }
    );
    assert_eq!(done.broadcast, Some(RiskState { evaluated_at_ns: 5_678, ..state }));
    assert_eq!(
        done.risk_frame,
        Some(RiskFrame {
            venue: "VENUE".to_string(),
            instrument: "A".to_string(),
            garch_sigma_sq: "0.0002".to_string(),
            garch_last_ts_ns: 0,
            drawdown_raw: 0,
            drawdown_scale: 0,
            var_1d_99_raw: 50,
            var_1d_99_scale: 4,
            gross_exposure_raw: 300,
            gross_exposure_scale: 0,
            net_exposure_raw: -300,
            net_exposure_scale: 0,
            open_position_count: 1,
            all_gates_open: true,
            gates: gate_statuses(RiskGateCode::RiskGateAccepted, 1),
            ts_ns: 5_678,
            request_id: "order".to_string(),
        })
    );
    assert_eq!(service.state.portfolio().position_count(), 1);
}

#[test]
fn an_execution_id_is_a_random_uuid() {
    let mut service = QKukebService::new(make_test_engine_state());
    let mut seen: Vec<String> = Vec::new();
    for _ in 0..20 {
        let req = order("A", 1, 1);
        let done = submit_at(&mut service, &req, &figures_at(0.0, 0.0), 9).unwrap();
        let id = done.response.execution_id;
        assert_eq!(id.len(), 36);
        for (i, c) in id.chars().enumerate() {
            match i {
                8 | 13 | 18 | 23 => assert_eq!(c, '-'),
                14 => assert_eq!(c, '4'),
                19 => assert!("89ab".contains(c)),
                _ => assert!(c.is_ascii_digit() || ('a'..='f').contains(&c)),
            }
        }
        assert!(!seen.contains(&id));
        seen.push(id);
    }
}

#[test]
fn a_rejected_trade_leaves_the_state_and_is_explained() {
    let mut service = QKukebService::new(make_test_engine_state());
    service.state.feed_price("A", 100, 1, bits(0.05));
    service.state.feed_price("A", 100, 2, bits(0.05));
    let req = order("A", 1, 300);
    let done = submit_at(&mut service, &req, &figures_at(0.05, 0.05), 9).unwrap();
    let resp = done.response;
    assert_eq!(resp.risk_gate_code, RiskGateCode::RiskGateRejectedGarchVolatility);
    assert_eq!(resp.rejection_detail, "Rejected by gate: RISK_GATE_REJECTED_GARCH_VOLATILITY");
    assert_eq!(resp.execution_id, "");
    assert_eq!(resp.average_fill_price, None);
    assert_eq!(resp.realized_slippage, None);
    assert_eq!(resp.commission_paid, None);
    assert!(resp.exchange_order_ids.is_empty());
    assert_eq!(resp.risk_snapshot.unwrap().open_position_count, 0);
    assert_eq!(done.broadcast, None);
    assert_eq!(done.risk_frame, None);
    assert_eq!(service.state.portfolio().position_count(), 0);
    assert_eq!(service.state.get_sigma_sq("A"), bits(0.05));
    // Another instrument is calm.
    let done = submit_at(&mut service, &order("B", 1, 1), &figures_at(0.0002, 0.05), 9)
        .unwrap();
    assert_eq!(done.response.risk_gate_code, RiskGateCode::RiskGateAccepted);
}

#[test]
fn each_code_names_its_gate() {
    let names = [
        (RiskGateCode::RiskGateAccepted, "RISK_GATE_ACCEPTED"),
        (RiskGateCode::RiskGateRejectedMaxDrawdown, "RISK_GATE_REJECTED_MAX_DRAWDOWN"),
        (RiskGateCode::RiskGateRejectedVarBreach, "RISK_GATE_REJECTED_VAR_BREACH"),
        (RiskGateCode::RiskGateRejectedGarchVolatility, "RISK_GATE_REJECTED_GARCH_VOLATILITY"),
        (RiskGateCode::RiskGateRejectedSignalStale, "RISK_GATE_REJECTED_SIGNAL_STALE"),
    ];
    for (code, name) in names {
        assert_eq!(code.as_str_name(), name);
        let mut service = QKukebService::new(make_test_engine_state());
        let done = service
            .settle(&order("A", 1, 5), code, "an-id", &figures_at(0.0, 0.0), fixed_clock())
            .unwrap();
        assert_eq!(done.response.risk_gate_code, code);
        if code == RiskGateCode::RiskGateAccepted {
            assert_eq!(done.response.execution_id, "an-id");
            assert_eq!(done.response.exchange_order_ids, vec!["SIM-an-id".to_string()]);
            assert_eq!(service.state.portfolio().position_count(), 1);
        } else {
            assert_eq!(done.response.rejection_detail, format!("Rejected by gate: {}", name));
            assert_eq!(done.response.execution_id, "");
            assert_eq!(service.state.portfolio().position_count(), 0);
        }
    }
}

#[test]
fn a_request_without_asset_or_notional_opens_nothing() {
    let mut service = QKukebService::new(make_test_engine_state());
    let mut req = order("A", 1, 5);
    req.notional_value = None;
    let done = submit_at(&mut service, &req, &figures_at(0.0, 0.0), 9).unwrap();
    assert_eq!(done.response.risk_gate_code, RiskGateCode::RiskGateAccepted);
    assert_eq!(done.response.filled_notional, None);
    assert_eq!(done.risk_frame, None);
    let mut req = order("A", 1, 5);
    req.asset = None;
    let done = submit_at(&mut service, &req, &figures_at(0.0, 0.0), 9).unwrap();
    assert_eq!(done.response.filled_notional, Some(FixedDecimal::new(5, 0)));
    assert_eq!(service.state.portfolio().position_count(), 0);
}

#[test]
fn figures_that_do_not_fit_are_reported() {
    let mut service = QKukebService::new(make_test_engine_state());
    let figures = figures_at(0.0, 0.0);
    submit_at(&mut service, &order("A", 1, i64::MAX), &figures, 9).unwrap();
    assert_eq!(
        submit_at(&mut service, &order("A", 1, 1), &figures, 9),
        Err(EngineError::PositionOverflow)
    );
    assert_eq!(service.state.portfolio().position_count(), 1);
    // The second position fits, but the exposure does not.
    assert_eq!(
        submit_at(&mut service, &order("B", 1, 1), &figures, 9),
        Err(EngineError::SnapshotOverflow)
    );
    assert_eq!(service.state.portfolio().position_count(), 2);
    assert_eq!(
        submit_at(&mut service, &order("C", 1, 1), &figures, 9),
        Err(EngineError::SnapshotOverflow)
    );
    assert_eq!(service.state.portfolio().position_count(), 2);
    assert_eq!(
        service.build_risk_state(FixedDecimal::zero(), 1),
        Err(EngineError::SnapshotOverflow)
    );
}

#[test]
fn a_subscription_keeps_the_pace_asked_for() {
    let mut service = QKukebService::new(make_test_engine_state());
    let mut req =
        RiskSubscriptionRequest { agent_id: "agent".to_string(), throttle_interval_ms: 0 };
    let sub = service.subscribe(&req);
    assert_eq!(sub.interval_ms, 1000);
    assert_eq!(sub.instrument, "");
    req.throttle_interval_ms = 250;
    service.state.get_or_create_garch("A");
    let sub = service.subscribe(&req);
    assert_eq!(sub.interval_ms, 250);
    assert_eq!(sub.instrument, "A");
}

#[test]
fn a_stream_ends_only_when_its_channel_closes() {
    let service = QKukebService::new(make_test_engine_state());
    let state = service.build_risk_state(FixedDecimal::new(20_000, 8), 77).unwrap();
    assert_eq!(state.evaluated_at_ns, 77);
    assert_eq!(state.garch_sigma_sq, Some(FixedDecimal::new(20_000, 8)));
    assert_eq!(stream_action(ChannelEvent::Update(state)), StreamAction::Yield(state));
    assert_eq!(stream_action(ChannelEvent::Lagged(3)), StreamAction::Skip);
    assert_eq!(stream_action(ChannelEvent::Closed), StreamAction::Stop);
}

#[test]
fn a_subscriber_is_handed_every_update_until_the_channel_closes() {
    let service = QKukebService::new(make_test_engine_state());
    let at = |ns: u64| service.build_risk_state(FixedDecimal::new(20_000, 8), ns).unwrap();
    let events = [
        ChannelEvent::Update(at(1)),
        ChannelEvent::Lagged(4),
        ChannelEvent::Update(at(6)),
        ChannelEvent::Closed,
        ChannelEvent::Update(at(7)),
    ];
    let mut handed: Vec<u64> = Vec::new();
    for event in events {
        match stream_action(event) {
            StreamAction::Yield(state) => handed.push(state.evaluated_at_ns),
            StreamAction::Skip => continue,
            StreamAction::Stop => break,
        }
    }
    assert_eq!(handed, vec![1, 6]);
}

#[test]
fn a_stale_request_is_refused_before_the_portfolio_is_looked_at() {
    let mut service = QKukebService::new(make_test_engine_state());
    let figures = figures_at(0.0, 0.0);
    submit_at(&mut service, &order("A", 1, i64::MAX), &figures, 9).unwrap();
    let _ = submit_at(&mut service, &order("B", 1, 1), &figures, 9);
    let market = MarketReading::unknown();
    let zero = FixedDecimal::zero();
    // The exposure does not fit any more.
    let req = order("C", 1, 1);
    assert_eq!(
        service.evaluate_gates(&req, &market, zero, 9),
        Err(EngineError::SnapshotOverflow)
    );
    assert_eq!(service.decide(&req, &market, zero, 9), Err(EngineError::SnapshotOverflow));
    let mut stale = make_stale_trade_request();
    stale.signal_detected_at = Some(Timestamp { seconds: -1, nanos: 0 });
    assert_eq!(
        service.evaluate_gates(&stale, &market, zero, 5_000_000_000),
        Ok(RiskGateCode::RiskGateRejectedSignalStale)
    );
    let decision = service.decide(&stale, &market, zero, 5_000_000_000).unwrap();
    assert_eq!(decision.code, RiskGateCode::RiskGateRejectedSignalStale);
    assert_eq!(decision.execution_id, "");
}

#[test]
fn a_market_that_moved_away_refuses_the_request() {
    let mut service = QKukebService::new(make_test_engine_state());
    let req = make_valid_trade_request();
    let market = MarketReading {
        mid_prices: Some(MidPrices { at_signal: 65_000, now: 66_300 }),
        fill_probability: None,
        available_liquidity: None,
    };
    let done = service
        .submit_trade_command(&req, &market, &figures_at(0.0, 0.0), 9, fixed_clock())
        .unwrap();
    assert_eq!(done.response.risk_gate_code, RiskGateCode::RiskGateRejectedSignalStale);
    assert_eq!(service.state.portfolio().position_count(), 0);
}

#[test]
fn a_frame_shows_the_gates_it_is_given() {
    let mut service = QKukebService::new(make_test_engine_state());
    service.state.feed_price("A", 100, 17, bits(0.5));
    let gates = vec![GateStatus {
        gate_code: 8,
        gate_name: "RISK_GATE_REJECTED_SIGNAL_STALE".to_string(),
    }];
    let frame = service.build_risk_frame("V", "A", "", gates.clone(), "0.5", 99).unwrap();
    assert!(!frame.all_gates_open);
    assert_eq!(frame.gates, gates);
    assert_eq!(frame.garch_last_ts_ns, 17);
    assert_eq!(frame.garch_sigma_sq, "0.5");
    assert_eq!(frame.ts_ns, 99);
    assert_eq!(frame.request_id, "");
}

#[test]
fn the_answer_reports_the_slippage_of_the_fill() {
    for (limit, filled) in [(5, true), (0, false)] {
        let mut service = QKukebService::new(make_test_engine_state());
        let mut req = order("A", 1, 300);
        req.slippage_bps_limit = limit;
        let figures = figures_at(0.0002, 0.0);
        let fill = simulate_fill(&req, figures.slippage);
        let resp = submit_at(&mut service, &req, &figures, 9).unwrap().response;
        match fill {
            FillResult::Filled { avg_price, slippage_bps } => {
                assert!(filled);
                assert_eq!(resp.average_fill_price, Some(avg_price));
                assert_eq!(resp.realized_slippage, Some(slippage_bps));
            }
            FillResult::SlippageExceeded { limit_bps, .. } => {
                assert!(!filled);
                assert_eq!(limit_bps, 0);
            }
        }
        assert_eq!(resp.risk_gate_code, RiskGateCode::RiskGateAccepted);
        assert_eq!(resp.realized_slippage, Some(FixedDecimal::new(7_000, 4)));
    }
}

#[test]
fn a_price_is_taken_in_and_published() {
    let mut service = QKukebService::new(make_test_engine_state());
    submit_at(&mut service, &order("A", 1, 300), &figures_at(0.0, 0.0), 9).unwrap();
    service.take_price("V", "A", 100, 1, bits(0.05), "0.0002", vec![], 50).unwrap();
    let gates = gate_statuses(RiskGateCode::RiskGateRejectedSignalStale, 8);
    let frame =
        service.take_price("V", "A", 101, 2, bits(0.05), "0.05", gates.clone(), 51).unwrap();
    assert_eq!(service.state.get_sigma_sq("A"), bits(0.05));
    assert_eq!(frame.venue, "V");
    assert_eq!(frame.instrument, "A");
    assert_eq!(frame.garch_sigma_sq, "0.05");
    assert_eq!(frame.garch_last_ts_ns, 2);
    assert_eq!(frame.gross_exposure_raw, 300);
    assert_eq!(frame.open_position_count, 1);
    assert_eq!(frame.gates, gates);
    assert!(!frame.all_gates_open);
    assert_eq!(frame.ts_ns, 51);
    assert_eq!(frame.request_id, "");
}

#[test]
fn a_price_is_taken_in_even_where_the_figures_do_not_fit() {
    let mut service = QKukebService::new(make_test_engine_state());
    let figures = figures_at(0.0, 0.0);
    submit_at(&mut service, &order("A", 1, i64::MAX), &figures, 9).unwrap();
    let _ = submit_at(&mut service, &order("B", 1, 1), &figures, 9);
    assert_eq!(
        service.take_price("V", "A", 100, 7, bits(0.5), "0.5", vec![], 50),
        Err(EngineError::SnapshotOverflow)
    );
    assert_eq!(service.state.garch_last_ts_ns("A"), 7);
}

#[test]
fn the_periodic_publisher_stops_when_nobody_listens() {
    assert_eq!(publish_action(true), PublishAction::GoOn);
    assert_eq!(publish_action(false), PublishAction::Stop);
}
