//! The messages that the engine exchanges with the strategy agents, with the
//! fields that it reads and fills in.

use crate::decimal::FixedDecimal;
use vstd::prelude::*;

verus! {

/// The outcome of the risk gates.
#[derive(Debug, Clone, Copy, PartialEq, Eq, Structural)]
pub enum RiskGateCode {
    RiskGateAccepted,
    RiskGateRejectedMaxDrawdown,
    RiskGateRejectedVarBreach,
    RiskGateRejectedGarchVolatility,
    RiskGateRejectedSignalStale,
}

impl RiskGateCode {
    /// The name of the code on the wire.
    pub open spec fn wire_name(self) -> Seq<char> {
        match self {
            RiskGateCode::RiskGateAccepted => "RISK_GATE_ACCEPTED"@,
            RiskGateCode::RiskGateRejectedMaxDrawdown => "RISK_GATE_REJECTED_MAX_DRAWDOWN"@,
            RiskGateCode::RiskGateRejectedVarBreach => "RISK_GATE_REJECTED_VAR_BREACH"@,
            RiskGateCode::RiskGateRejectedGarchVolatility => {
                "RISK_GATE_REJECTED_GARCH_VOLATILITY"@
            },
            RiskGateCode::RiskGateRejectedSignalStale => "RISK_GATE_REJECTED_SIGNAL_STALE"@,
        }
    }

    /// The name of the code on the wire.
    pub fn as_str_name(&self) -> (name: &'static str)
        ensures
            name@ == self.wire_name(),
    {
        match self {
            RiskGateCode::RiskGateAccepted => "RISK_GATE_ACCEPTED",
            RiskGateCode::RiskGateRejectedMaxDrawdown => "RISK_GATE_REJECTED_MAX_DRAWDOWN",
            RiskGateCode::RiskGateRejectedVarBreach => "RISK_GATE_REJECTED_VAR_BREACH",
            RiskGateCode::RiskGateRejectedGarchVolatility => "RISK_GATE_REJECTED_GARCH_VOLATILITY",
            RiskGateCode::RiskGateRejectedSignalStale => "RISK_GATE_REJECTED_SIGNAL_STALE",
        }
    }
}

/// A point in time: seconds and nanoseconds since the Unix epoch. The two need
/// not be normalized, and may be negative.
#[derive(Debug, Clone, Copy, PartialEq, Eq, Structural)]
pub struct Timestamp {
    pub seconds: i64,
    pub nanos: i32,
}

impl Timestamp {
    /// The instant, in nanoseconds since the Unix epoch.
    pub open spec fn unix_nanos(self) -> int {
        self.seconds * 1_000_000_000 + self.nanos
    }
}

/// What is traded, and where.
#[derive(Debug, Clone, PartialEq, Eq)]
pub struct AssetIdentifier {
    pub base_asset: String,
    pub quote_asset: String,
    pub asset_class: i32,
    pub venue_id: String,
    pub instrument: String,
}

/// The conditions under which a signal is no longer worth acting on.
#[derive(Debug, Clone, Copy, PartialEq, Eq, Structural)]
pub struct SignalInvalidationThresholds {
    /// How old the signal may be, in milliseconds; 0 for any age.
    pub signal_ttl_ms: u32,
    /// How far the mid-price may have moved since the signal, in basis points; 0
    /// for any distance.
    pub max_price_drift_bps: u32,
    /// The least probability of a fill, as a ratio.
    pub min_fill_probability: Option<FixedDecimal>,
    /// The least liquidity of the book, in quote currency.
    pub min_available_liquidity: Option<FixedDecimal>,
}

/// A trade that an agent asks for.
#[derive(Debug, Clone, PartialEq, Eq)]
pub struct TradeRequest {
    pub request_id: String,
    pub originating_agent_id: String,
    /// When the agent saw the signal.
    pub signal_detected_at: Option<Timestamp>,
    pub asset: Option<AssetIdentifier>,
    /// 1 to buy, 2 to sell.
    pub side: i32,
    pub notional_value: Option<FixedDecimal>,
    pub leverage_ratio: Option<FixedDecimal>,
    /// The largest slippage accepted, in basis points.
    pub slippage_bps_limit: u32,
    pub signal_confidence: Option<FixedDecimal>,
    pub invalidation: Option<SignalInvalidationThresholds>,
}

impl TradeRequest {
    /// The instrument named, or the empty name.
    pub open spec fn instrument_name(self) -> Seq<char> {
        match self.asset {
            Some(a) => a.instrument@,
            None => Seq::empty(),
        }
    }

    /// The instrument named, or the empty name.
    pub fn instrument(&self) -> (name: String)
        ensures
            name@ == self.instrument_name(),
    {
        match &self.asset {
            Some(a) => a.instrument.clone(),
            None => String::new(),
        }
    }
}

impl Default for TradeRequest {
    /// A request with nothing filled in.
    fn default() -> (r: Self)
        ensures
            r.request_id@ == Seq::<char>::empty(),
            r.originating_agent_id@ == Seq::<char>::empty(),
            r.signal_detected_at is None,
            r.asset is None,
            r.side == 0,
            r.notional_value is None,
            r.leverage_ratio is None,
            r.slippage_bps_limit == 0,
            r.signal_confidence is None,
            r.invalidation is None,
    {
        TradeRequest {
            request_id: String::new(),
            originating_agent_id: String::new(),
            signal_detected_at: None,
            asset: None,
            side: 0,
            notional_value: None,
            leverage_ratio: None,
            slippage_bps_limit: 0,
            signal_confidence: None,
            invalidation: None,
        }
    }
}

/// The risk figures of the portfolio, as agents see them.
#[derive(Debug, Clone, Copy, PartialEq, Eq, Structural)]
pub struct RiskState {
    pub portfolio_drawdown_pct: Option<FixedDecimal>,
    pub var_1d_99_pct: Option<FixedDecimal>,
    pub garch_sigma_sq: Option<FixedDecimal>,
    pub gross_exposure: Option<FixedDecimal>,
    pub net_exposure: Option<FixedDecimal>,
    pub open_position_count: u32,
    pub evaluated_at_ns: u64,
}

/// The answer to a trade request.
#[derive(Debug, Clone, PartialEq, Eq)]
pub struct TradeResponse {
    pub request_id: String,
    /// Set where the trade was accepted.
    pub execution_id: String,
    /// When the signal was seen, as the request said.
    pub received_at: Option<Timestamp>,
    pub responded_at: Option<Timestamp>,
    pub risk_gate_code: RiskGateCode,
    pub filled_notional: Option<FixedDecimal>,
    pub average_fill_price: Option<FixedDecimal>,
    pub realized_slippage: Option<FixedDecimal>,
    pub risk_snapshot: Option<RiskState>,
    /// Which gate rejected the trade; empty where it was accepted.
    pub rejection_detail: String,
    pub exchange_order_ids: Vec<String>,
    pub commission_paid: Option<FixedDecimal>,
}

/// What an answer stands for.
#[verifier::ext_equal]
pub struct ResponseView {
    pub request_id: Seq<char>,
    pub execution_id: Seq<char>,
    pub received_at: Option<Timestamp>,
    pub responded_at: Option<Timestamp>,
    pub risk_gate_code: RiskGateCode,
    pub filled_notional: Option<FixedDecimal>,
    pub average_fill_price: Option<FixedDecimal>,
    pub realized_slippage: Option<FixedDecimal>,
    pub risk_snapshot: Option<RiskState>,
    pub rejection_detail: Seq<char>,
    pub exchange_order_ids: Seq<Seq<char>>,
    pub commission_paid: Option<FixedDecimal>,
}

impl View for TradeResponse {
    type V = ResponseView;

    open spec fn view(&self) -> ResponseView {
        ResponseView {
            request_id: self.request_id@,
            execution_id: self.execution_id@,
            received_at: self.received_at,
            responded_at: self.responded_at,
            risk_gate_code: self.risk_gate_code,
            filled_notional: self.filled_notional,
            average_fill_price: self.average_fill_price,
            realized_slippage: self.realized_slippage,
            risk_snapshot: self.risk_snapshot,
            rejection_detail: self.rejection_detail@,
            exchange_order_ids: self.exchange_order_ids@.map_values(|id: String| id@),
            commission_paid: self.commission_paid,
        }
    }
}

/// An agent's wish to be told of the risk figures.
#[derive(Debug, Clone, PartialEq, Eq)]
pub struct RiskSubscriptionRequest {
    pub agent_id: String,
    /// How often to be told, in milliseconds; 0 for the usual pace.
    pub throttle_interval_ms: u32,
}

/// The time of a timestamp is its seconds and its nanoseconds together: a second
/// more is a billion nanoseconds more.
pub proof fn law_timestamp_counts_nanoseconds(t: Timestamp)
    ensures
        t.unix_nanos() == t.seconds * 1_000_000_000 + t.nanos,
        t.seconds == 0 ==> t.unix_nanos() == t.nanos,
{
}

/// Each code has a name of its own, and it is the one that agents know.
pub proof fn law_codes_have_their_names(code: RiskGateCode, name: &'static str)
    requires
        call_ensures(RiskGateCode::as_str_name, (&code,), name),
    ensures
        name@ == code.wire_name(),
        code == RiskGateCode::RiskGateAccepted <==> name@ == "RISK_GATE_ACCEPTED"@,
        code == RiskGateCode::RiskGateRejectedMaxDrawdown <==> name@
            == "RISK_GATE_REJECTED_MAX_DRAWDOWN"@,
        code == RiskGateCode::RiskGateRejectedVarBreach <==> name@
            == "RISK_GATE_REJECTED_VAR_BREACH"@,
        code == RiskGateCode::RiskGateRejectedGarchVolatility <==> name@
            == "RISK_GATE_REJECTED_GARCH_VOLATILITY"@,
        code == RiskGateCode::RiskGateRejectedSignalStale <==> name@
            == "RISK_GATE_REJECTED_SIGNAL_STALE"@,
{
    reveal_strlit("RISK_GATE_ACCEPTED");
    reveal_strlit("RISK_GATE_REJECTED_MAX_DRAWDOWN");
    reveal_strlit("RISK_GATE_REJECTED_VAR_BREACH");
    reveal_strlit("RISK_GATE_REJECTED_GARCH_VOLATILITY");
    reveal_strlit("RISK_GATE_REJECTED_SIGNAL_STALE");
    assert("RISK_GATE_REJECTED_VAR_BREACH"@[19] == 'V');
    assert("RISK_GATE_ACCEPTED"@.len() == 18);
    assert("RISK_GATE_REJECTED_MAX_DRAWDOWN"@[19] == 'M');
    assert("RISK_GATE_REJECTED_SIGNAL_STALE"@[19] == 'S');
    assert("RISK_GATE_REJECTED_GARCH_VOLATILITY"@[19] == 'G');
}

/// The instrument of a request is the one that its asset names, and the empty
/// name where it has no asset.
pub proof fn law_instrument_is_that_of_the_asset(req: TradeRequest, name: String)
    requires
        call_ensures(TradeRequest::instrument, (&req,), name),
    ensures
        name@ == req.instrument_name(),
        req.asset matches Some(a) ==> name@ == a.instrument@,
        req.asset is None ==> name@.len() == 0,
{
}

} // verus!
