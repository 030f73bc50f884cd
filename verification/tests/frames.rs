use qkukeb_engine::frames::{
    all_gates_open, book_message, book_topic, gate_statuses, risk_message, risk_topic, BookFrame,
    GateStatus, PriceLevel, RiskFrame,
};
use qkukeb_engine::messages::RiskGateCode;

#[test]
fn test_topic_helpers() {
    assert_eq!(book_topic("BINANCE_PERP", "BTC-USDT-PERP"), b"BOOK/BINANCE_PERP/BTC-USDT-PERP");
    assert_eq!(risk_topic("DYDX_V4", "ETH-USDT-PERP"), b"RISK/DYDX_V4/ETH-USDT-PERP");
}

#[test]
fn a_topic_is_text_in_utf8() {
    assert_eq!(book_topic("é", "€"), "BOOK/é/€".as_bytes());
    assert_eq!(risk_topic("", ""), b"RISK//");
}

#[test]
fn a_message_has_the_topic_and_the_payload_and_nothing_else() {
    let json = b"{\"sequence\":1}".to_vec();
    let book = book_message("BINANCE_PERP", "BTC-USDT-PERP", json.clone());
    assert_eq!(book, vec![b"BOOK/BINANCE_PERP/BTC-USDT-PERP".to_vec(), json.clone()]);
    let risk = risk_message("BINANCE_PERP", "BTC-USDT-PERP", json.clone());
    assert_eq!(risk, vec![b"RISK/BINANCE_PERP/BTC-USDT-PERP".to_vec(), json]);
}

#[test]
fn topics_are_told_apart() {
    assert_ne!(book_topic("A", "B"), risk_topic("A", "B"));
    assert_ne!(book_topic("A", "B/C"), book_topic("AB", "/C"));
    // A slash in the name of a venue is the one way to run two topics together.
    assert_eq!(book_topic("A/B", "C"), book_topic("A", "B/C"));
}

#[test]
fn frames_compare_by_their_contents() {
    let level = PriceLevel {
        price_raw: 65000_00,
        price_scale: 2,
        qty_raw: 1_500_000,
        qty_scale: 8,
        order_count: 42,
    };
    let book = BookFrame {
        venue: "BINANCE_PERP".to_string(),
        instrument: "BTC-USDT-PERP".to_string(),
        bids: vec![level.clone()],
        asks: vec![],
        sequence: 12345,
        ts_ns: 1_700_000_000_000_000_000,
    };
    let mut other = book.clone();
    assert_eq!(book, other);
    other.asks.push(level);
    assert_ne!(book, other);

    let risk = RiskFrame {
        venue: "BINANCE_PERP".to_string(),
        instrument: "BTC-USDT-PERP".to_string(),
        garch_sigma_sq: "0.0002".to_string(),
        garch_last_ts_ns: 0,
        drawdown_raw: 0,
        drawdown_scale: 4,
        var_1d_99_raw: 50,
        var_1d_99_scale: 4,
        gross_exposure_raw: 0,
        gross_exposure_scale: 0,
        net_exposure_raw: 0,
        net_exposure_scale: 0,
        open_position_count: 0,
        all_gates_open: true,
        gates: vec![GateStatus { gate_code: 1, gate_name: "RISK_GATE_ACCEPTED".to_string() }],
        ts_ns: 12345,
        request_id: String::new(),
    };
    let mut other = risk.clone();
    assert_eq!(risk, other);
    other.gates[0].gate_code = 2;
    assert_ne!(risk, other);
}

#[test]
fn all_gates_are_open_where_each_is() {
    let mut gates = gate_statuses(RiskGateCode::RiskGateAccepted, 1);
    assert_eq!(gates.len(), 4);
    assert_eq!(gates[3].gate_code, 1);
    assert_eq!(gates[3].gate_name, "RISK_GATE_ACCEPTED");
    assert!(all_gates_open(&gates));
    gates[2].gate_code = 3;
    assert!(!all_gates_open(&gates));
    assert!(all_gates_open(&vec![]));
}

#[test]
fn the_gates_are_listed_up_to_the_one_that_rejects() {
    let expected = [
        (RiskGateCode::RiskGateRejectedSignalStale, 0),
        (RiskGateCode::RiskGateRejectedMaxDrawdown, 1),
        (RiskGateCode::RiskGateRejectedVarBreach, 2),
        (RiskGateCode::RiskGateRejectedGarchVolatility, 3),
    ];
    for (code, passed) in expected {
        let gates = gate_statuses(code, 7);
        assert_eq!(gates.len(), passed + 1);
        for gate in &gates[..passed] {
            assert_eq!(gate.gate_code, 1);
            assert_eq!(gate.gate_name, "RISK_GATE_ACCEPTED");
        }
        assert_eq!(gates[passed].gate_code, 7);
        assert_eq!(gates[passed].gate_name, code.as_str_name());
        assert!(!all_gates_open(&gates));
    }
}
