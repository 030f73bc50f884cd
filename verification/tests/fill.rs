use qkukeb_engine::decimal::FixedDecimal;
use qkukeb_engine::double::Double;
use qkukeb_engine::fill::{simulate_fill, FillResult, SlippageEstimate};
use qkukeb_engine::messages::{AssetIdentifier, TradeRequest};

fn bits(x: f64) -> Double {
    Double::from_bits(x.to_bits())
}

fn value(d: Double) -> f64 {
    f64::from_bits(d.bits)
}

/// The slippage at a variance: half a basis point, and a thousand times the
/// variance.
fn slippage(sigma_sq: f64) -> SlippageEstimate {
    let bps = 0.5 + sigma_sq * 1000.0;
    SlippageEstimate {
        bps: bits(bps),
        rounded_bps: FixedDecimal::new((bps * 10_000.0).round() as i64, 4),
    }
}

fn make_trade_request(slippage_bps_limit: u32) -> TradeRequest {
    TradeRequest {
        request_id: "fill-test-001".to_string(),
        originating_agent_id: "test-agent".to_string(),
        signal_detected_at: None,
        asset: Some(AssetIdentifier {
            base_asset: "BTC".to_string(),
            quote_asset: "USDT".to_string(),
            asset_class: 2, // PERP
            venue_id: "BINANCE_PERP".to_string(),
            instrument: "BTC-USDT-PERP".to_string(),
        }),
        side: 1, // Buy
        notional_value: Some(FixedDecimal::new(10_000, 0)),
        leverage_ratio: Some(FixedDecimal::new(5, 0)),
        slippage_bps_limit,
        signal_confidence: Some(FixedDecimal::new(85, 2)),
        invalidation: None,
    }
}

#[test]
fn test_fill_accepted_low_volatility() {
    // σ² = 0.0002 → slippage = 0.5 + (0.0002 * 1000) = 0.7 bps
    // limit = 5 bps → accepted
    let req = make_trade_request(5);
    let result = simulate_fill(&req, slippage(0.0002));

    match result {
        FillResult::Filled { slippage_bps, .. } => {
            // 0.7 bps at scale=4 → raw_units ≈ 7000
            let slippage_f64 =
                slippage_bps.raw_units as f64 / 10f64.powi(slippage_bps.scale as i32);
            assert!(
                (slippage_f64 - 0.7).abs() < 0.01,
                "Expected ~0.7 bps, got {}",
                slippage_f64
            );
        }
        FillResult::SlippageExceeded { computed_slippage_bps, .. } => {
            panic!(
                "Expected fill accepted, got slippage exceeded: {} bps",
                value(computed_slippage_bps)
            );
        }
    }
}

#[test]
fn test_slippage_exceeded_high_volatility() {
    // σ² = 0.05 → slippage = 0.5 + (0.05 * 1000) = 50.5 bps
    // limit = 5 bps → rejected
    let req = make_trade_request(5);
    let result = simulate_fill(&req, slippage(0.05));

    match result {
        FillResult::SlippageExceeded { computed_slippage_bps, limit_bps } => {
            assert!(
                (value(computed_slippage_bps) - 50.5).abs() < 0.01,
                "Expected ~50.5 bps, got {}",
                value(computed_slippage_bps)
            );
            assert_eq!(limit_bps, 5);
        }
        FillResult::Filled { .. } => {
            panic!("Expected slippage exceeded, got fill accepted");
        }
    }
}

#[test]
fn test_determinism_same_inputs_same_output() {
    // Same request + same σ² → must produce identical results
    let req = make_trade_request(10);
    let r1 = simulate_fill(&req, slippage(0.001));
    let r2 = simulate_fill(&req, slippage(0.001));
    assert_eq!(r1, r2);
}

#[test]
fn a_slippage_at_the_limit_is_filled_at_the_notional() {
    let estimate = slippage(0.0045);
    assert_eq!(estimate.bps, bits(5.0));
    assert_eq!(
        simulate_fill(&make_trade_request(5), estimate),
        FillResult::Filled {
            avg_price: FixedDecimal::new(10_000, 0),
            slippage_bps: FixedDecimal::new(50_000, 4),
        }
    );
    assert_eq!(
        simulate_fill(&make_trade_request(4), estimate),
        FillResult::SlippageExceeded { computed_slippage_bps: bits(5.0), limit_bps: 4 }
    );
    // A higher limit changes nothing.
    assert_eq!(
        simulate_fill(&make_trade_request(500), estimate),
        simulate_fill(&make_trade_request(5), estimate)
    );
}

#[test]
fn without_a_notional_the_price_is_zero() {
    let mut req = make_trade_request(5);
    req.notional_value = None;
    assert_eq!(
        simulate_fill(&req, slippage(0.0)),
        FillResult::Filled {
            avg_price: FixedDecimal::new(0, 0),
            slippage_bps: FixedDecimal::new(5_000, 4),
        }
    );
}

#[test]
fn a_slippage_that_is_no_number_does_not_exceed_any_limit() {
    let estimate = SlippageEstimate { bps: bits(f64::NAN), rounded_bps: FixedDecimal::new(0, 4) };
    assert_eq!(
        simulate_fill(&make_trade_request(0), estimate),
        FillResult::Filled {
            avg_price: FixedDecimal::new(10_000, 0),
            slippage_bps: FixedDecimal::new(0, 4),
        }
    );
}

#[test]
fn a_smaller_slippage_keeps_the_fill() {
    let req = make_trade_request(5);
    let mut last = FixedDecimal::new(i64::MAX, 4);
    for sigma_sq in [0.0045, 0.003, 0.0002, 0.0] {
        match simulate_fill(&req, slippage(sigma_sq)) {
            FillResult::Filled { avg_price, slippage_bps } => {
                assert_eq!(avg_price, FixedDecimal::new(10_000, 0));
                assert!(slippage_bps <= last);
                last = slippage_bps;
            }
            FillResult::SlippageExceeded { .. } => panic!("a smaller slippage was refused"),
        }
    }
    assert_eq!(last, FixedDecimal::new(5_000, 4));
}
