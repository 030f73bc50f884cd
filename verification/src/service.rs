//! The trade command service: a request goes through the risk gates, is recorded
//! in the portfolio where they accept it, and is answered. The risk figures are
//! handed to the subscribers after each trade and at a steady pace.
//!
//! What takes floating point or a clock comes in as an argument: see
//! `VolatilityFigures` and `ClockReadings`.

use crate::decimal::FixedDecimal;
use crate::double::Double;
use crate::fill::{simulate_fill, FillResult, SlippageEstimate};
use crate::frames::{GateStatus, GateStatusView, RiskFrame, RiskFrameView, ACCEPTED_GATE_CODE};
use crate::interceptor::{
    DefaultRiskInterceptor, GarchSnapshot, GateConfig, GateResult, MarketReading, PortfolioState,
    RiskContext, RiskInterceptor,
};
use crate::messages::{
    ResponseView, RiskGateCode, RiskState, RiskSubscriptionRequest, Timestamp, TradeRequest,
    TradeResponse,
};
use crate::portfolio::PortfolioView;
use crate::state::{
    EngineState, EngineView, DEFAULT_ALPHA_BITS, DEFAULT_BETA_BITS, DEFAULT_OMEGA_BITS,
};
use vstd::prelude::*;

verus! {

/// What the model gives for a request, in decimal notation.
#[derive(Debug, Clone, PartialEq, Eq)]
pub struct VolatilityFigures {
    /// The variance of the request's instrument, at scale 8.
    pub instrument_sigma_sq: FixedDecimal,
    /// The variance of the request's instrument, written out in full.
    pub instrument_sigma_sq_text: String,
    /// The variance shown to agents, at scale 8.
    pub headline_sigma_sq: FixedDecimal,
    /// The slippage of a fill at the variance of the instrument.
    pub slippage: SlippageEstimate,
}

/// What the clock shows once the gates have given their code.
#[derive(Debug, Clone, Copy, PartialEq, Eq, Structural)]
pub struct ClockReadings {
    /// When the answer was made.
    pub responded_at: Timestamp,
    /// When the risk figures of the answer were taken.
    pub evaluated_ns: u64,
    /// When the risk figures for the subscribers were taken.
    pub broadcast_ns: u64,
}

/// Why a request cannot be handled.
#[derive(Debug, Clone, Copy, PartialEq, Eq, Structural)]
pub enum EngineError {
    /// A risk figure of the portfolio does not fit 64 bits.
    SnapshotOverflow,
    /// The notional of the position does not fit 64 bits.
    PositionOverflow,
}

/// What the gates made of a request.
#[derive(Debug, Clone, PartialEq, Eq)]
pub struct Decision {
    pub code: RiskGateCode,
    /// Empty where the request was rejected.
    pub execution_id: String,
}

/// What comes of a request.
#[derive(Debug, Clone, PartialEq, Eq)]
pub struct Submission {
    pub response: TradeResponse,
    /// The risk figures for the subscribers, after an accepted trade.
    pub broadcast: Option<RiskState>,
    /// The risk figures to publish, where a trade changed them.
    pub risk_frame: Option<RiskFrame>,
}

/// What the outcome of a request stands for.
#[verifier::ext_equal]
pub struct SubmissionView {
    pub response: ResponseView,
    pub broadcast: Option<RiskState>,
    pub risk_frame: Option<RiskFrameView>,
}

impl View for Submission {
    type V = SubmissionView;

    open spec fn view(&self) -> SubmissionView {
        SubmissionView {
            response: self.response@,
            broadcast: self.broadcast,
            risk_frame: match self.risk_frame {
                Some(frame) => Some(frame@),
                None => None,
            },
        }
    }
}

/// The risk figures of a portfolio as agents see them.
pub open spec fn risk_state_of(
    portfolio: PortfolioView,
    garch_sigma_sq: FixedDecimal,
    now_ns: u64,
) -> RiskState {
    let figures: PortfolioState = portfolio.risk_figures(garch_sigma_sq);
    RiskState {
        portfolio_drawdown_pct: Some(figures.drawdown_pct),
        var_1d_99_pct: Some(figures.var_1d_99_pct),
        garch_sigma_sq: Some(figures.garch_sigma_sq),
        gross_exposure: Some(figures.gross_exposure),
        net_exposure: Some(figures.net_exposure),
        open_position_count: figures.open_position_count,
        evaluated_at_ns: now_ns,
    }
}

/// The risk figures of an instrument as they are published.
pub open spec fn risk_frame_of(
    v: EngineView,
    venue: Seq<char>,
    instrument: Seq<char>,
    request_id: Seq<char>,
    gates: Seq<GateStatusView>,
    garch_sigma_sq: Seq<char>,
    ts_ns: u64,
) -> RiskFrameView {
    let state: RiskState = risk_state_of(v.portfolio, crate::portfolio::zero_decimal(), ts_ns);
    RiskFrameView {
        venue,
        instrument,
        garch_sigma_sq,
        garch_last_ts_ns: v.tracker(instrument).last_ts_ns,
        drawdown_raw: state.portfolio_drawdown_pct->0.raw_units,
        drawdown_scale: state.portfolio_drawdown_pct->0.scale,
        var_1d_99_raw: state.var_1d_99_pct->0.raw_units,
        var_1d_99_scale: state.var_1d_99_pct->0.scale,
        gross_exposure_raw: state.gross_exposure->0.raw_units,
        gross_exposure_scale: state.gross_exposure->0.scale,
        net_exposure_raw: state.net_exposure->0.raw_units,
        net_exposure_scale: state.net_exposure->0.scale,
        open_position_count: state.open_position_count,
        all_gates_open: crate::frames::all_open(gates),
        gates,
        ts_ns,
        request_id,
    }
}

/// What the gates look at besides the request.
pub open spec fn risk_context(
    v: EngineView,
    req: TradeRequest,
    market: MarketReading,
    instrument_sigma_sq: FixedDecimal,
) -> RiskContext {
    RiskContext {
        portfolio: v.portfolio.risk_figures(instrument_sigma_sq),
        garch: GarchSnapshot {
            sigma_sq: v.sigma_sq(req.instrument_name()),
            alpha: Double { bits: DEFAULT_ALPHA_BITS },
            beta: Double { bits: DEFAULT_BETA_BITS },
            omega: Double { bits: DEFAULT_OMEGA_BITS },
        },
        market,
    }
}

/// The code that the gates give for a request.
pub open spec fn gate_code(
    v: EngineView,
    req: TradeRequest,
    market: MarketReading,
    instrument_sigma_sq: FixedDecimal,
    now_ns: u64,
) -> RiskGateCode {
    crate::interceptor::gate_chain(
        v.gate_config,
        req,
        risk_context(v, req, market, instrument_sigma_sq),
        now_ns,
    )
}

/// The gates can give a code: the signal gate stops the request, or the figures
/// of the portfolio fit.
pub open spec fn evaluable(
    v: EngineView,
    req: TradeRequest,
    market: MarketReading,
    now_ns: u64,
) -> bool {
    ||| crate::interceptor::signal_gate(req, market, now_ns) is Rejected
    ||| v.portfolio.snapshot_defined()
}

/// The request names what to open a position in, and how much.
pub open spec fn opens_position(req: TradeRequest) -> bool {
    req.asset is Some && req.notional_value is Some
}

/// The position that the request asks for fits.
pub open spec fn recordable(portfolio: PortfolioView, req: TradeRequest) -> bool {
    opens_position(req) ==> portfolio.notional_of(req.instrument_name()).addable(
        req.notional_value->0,
    )
}

/// The leverage that the request asks for, one where it asks for none.
pub open spec fn leverage_of(req: TradeRequest) -> FixedDecimal {
    match req.leverage_ratio {
        Some(l) => l,
        None => FixedDecimal { raw_units: 1, scale: 0 },
    }
}

/// The portfolio after an accepted request was recorded, at an entry price of
/// one.
pub open spec fn recorded(portfolio: PortfolioView, req: TradeRequest) -> PortfolioView {
    if opens_position(req) {
        portfolio.opened(
            req.instrument_name(),
            req.side,
            req.notional_value->0,
            FixedDecimal { raw_units: 1, scale: 0 },
            leverage_of(req),
        )
    } else {
        portfolio
    }
}

/// What the answer to a rejected request says of the rejection.
pub open spec fn rejection_text(code: RiskGateCode) -> Seq<char> {
    "Rejected by gate: "@ + code.wire_name()
}

/// The answer to a rejected request.
pub open spec fn rejection(
    req: TradeRequest,
    code: RiskGateCode,
    detail: Seq<char>,
    responded_at: Timestamp,
    risk_snapshot: RiskState,
) -> ResponseView {
    ResponseView {
        request_id: req.request_id@,
        execution_id: Seq::empty(),
        received_at: req.signal_detected_at,
        responded_at: Some(responded_at),
        risk_gate_code: code,
        filled_notional: None,
        average_fill_price: None,
        realized_slippage: None,
        risk_snapshot: Some(risk_snapshot),
        rejection_detail: detail,
        exchange_order_ids: Seq::empty(),
        commission_paid: None,
    }
}

/// The answer to an accepted request: the notional counts as filled in full, and
/// stands in for the average price.
pub open spec fn acceptance(
    req: TradeRequest,
    execution_id: Seq<char>,
    slippage_bps: FixedDecimal,
    responded_at: Timestamp,
    risk_snapshot: RiskState,
) -> ResponseView {
    ResponseView {
        request_id: req.request_id@,
        execution_id,
        received_at: req.signal_detected_at,
        responded_at: Some(responded_at),
        risk_gate_code: RiskGateCode::RiskGateAccepted,
        filled_notional: req.notional_value,
        average_fill_price: req.notional_value,
        realized_slippage: Some(slippage_bps),
        risk_snapshot: Some(risk_snapshot),
        rejection_detail: Seq::empty(),
        exchange_order_ids: seq!["SIM-"@ + execution_id],
        commission_paid: Some(FixedDecimal { raw_units: 10, scale: 2 }),
    }
}

/// The slippage that the answer to an accepted request reports: that of the fill.
/// The gates alone decide whether a trade is accepted, so where the slippage
/// exceeds the limit of the request the answer shows by how much.
pub open spec fn reported_slippage(req: TradeRequest, slippage: SlippageEstimate) -> FixedDecimal {
    match crate::fill::fill_outcome(req, slippage) {
        FillResult::Filled { slippage_bps, .. } => slippage_bps,
        FillResult::SlippageExceeded { .. } => slippage.rounded_bps,
    }
}

/// The state once the gates have given their code.
pub open spec fn settled_state(v: EngineView, req: TradeRequest, code: RiskGateCode) -> EngineView {
    if code == RiskGateCode::RiskGateAccepted && recordable(v.portfolio, req) {
        EngineView { portfolio: recorded(v.portfolio, req), ..v }
    } else {
        v
    }
}

/// The risk figures to publish after an accepted request: none where it opened no
/// position, since nothing changed.
pub open spec fn published(
    w: EngineView,
    req: TradeRequest,
    figures: VolatilityFigures,
    ts_ns: u64,
) -> Option<RiskFrameView> {
    if opens_position(req) {
        Some(
            risk_frame_of(
                w,
                req.asset->0.venue_id@,
                req.instrument_name(),
                req.request_id@,
                crate::frames::gates_asked(RiskGateCode::RiskGateAccepted, ACCEPTED_GATE_CODE),
                figures.instrument_sigma_sq_text@,
                ts_ns,
            ),
        )
    } else {
        None
    }
}

/// What comes of a request once the gates have given their code.
pub open spec fn settled(
    v: EngineView,
    req: TradeRequest,
    code: RiskGateCode,
    execution_id: Seq<char>,
    figures: VolatilityFigures,
    clock: ClockReadings,
) -> Result<SubmissionView, EngineError> {
    let w: EngineView = settled_state(v, req, code);
    let portfolio: PortfolioView = w.portfolio;
    let snapshot: RiskState = risk_state_of(
        portfolio,
        figures.headline_sigma_sq,
        clock.evaluated_ns,
    );
    if code == RiskGateCode::RiskGateAccepted && !recordable(v.portfolio, req) {
        Err(EngineError::PositionOverflow)
    } else if !portfolio.snapshot_defined() {
        Err(EngineError::SnapshotOverflow)
    } else if code == RiskGateCode::RiskGateAccepted {
        Ok(
            SubmissionView {
                response: acceptance(
                    req,
                    execution_id,
                    reported_slippage(req, figures.slippage),
                    clock.responded_at,
                    snapshot,
                ),
                broadcast: Some(
                    risk_state_of(portfolio, figures.headline_sigma_sq, clock.broadcast_ns),
                ),
                risk_frame: published(w, req, figures, clock.broadcast_ns),
            },
        )
    } else {
        Ok(
            SubmissionView {
                response: rejection(
                    req,
                    code,
                    rejection_text(code),
                    clock.responded_at,
                    snapshot,
                ),
                broadcast: None,
                risk_frame: None,
            },
        )
    }
}

/// A result carries what it should: the outcome, or the error.
pub open spec fn carries(
    r: Result<Submission, EngineError>,
    want: Result<SubmissionView, EngineError>,
) -> bool {
    match want {
        Ok(s) => r matches Ok(x) && x@ == s,
        Err(e) => r == Err::<Submission, EngineError>(e),
    }
}

/// A request that the gates gave `code` for was handled: the state went from `v`
/// to `w`, and `r` came back.
pub open spec fn submitted(
    v: EngineView,
    w: EngineView,
    req: TradeRequest,
    code: RiskGateCode,
    execution_id: Seq<char>,
    figures: VolatilityFigures,
    clock: ClockReadings,
    r: Result<Submission, EngineError>,
) -> bool {
    &&& code == RiskGateCode::RiskGateAccepted ==> is_random_uuid(execution_id)
    &&& w == settled_state(v, req, code)
    &&& carries(r, settled(v, req, code, execution_id, figures, clock))
}

/// A lower-case hexadecimal digit.
pub open spec fn is_hex_digit(c: char) -> bool {
    '0' <= c <= '9' || 'a' <= c <= 'f'
}

/// The text of a random UUID: thirty-two lower-case hexadecimal digits in five
/// groups, with the version and the variant in their places.
pub open spec fn is_random_uuid(s: Seq<char>) -> bool {
    &&& s.len() == 36
    &&& forall|i: int|
        0 <= i < 36 ==> if i == 8 || i == 13 || i == 18 || i == 23 {
            #[trigger] s[i] == '-'
        } else {
            is_hex_digit(s[i])
        }
    &&& s[14] == '4'
    &&& s[19] == '8' || s[19] == '9' || s[19] == 'a' || s[19] == 'b'
}

/// A new execution id.
///
/// Calls `uuid::Uuid::new_v4` and writes the UUID in its usual notation.
/// Trusted: the shape of the text. Which of the random UUIDs it is, and that no
/// two calls give the same, is not stated: it rests on chance. The call does not
/// return where the system has no random numbers to give.
#[verifier::external_body]
fn new_execution_id() -> (id: String)
    ensures
        is_random_uuid(id@),
{
    uuid::Uuid::new_v4().to_string()
}

/// The service that handles trade commands.
pub struct QKukebService {
    pub state: EngineState,
}

impl QKukebService {
    /// A service on the given state.
    pub fn new(state: EngineState) -> (r: Self)
        ensures
            r.state == state,
    {
        QKukebService { state }
    }

    /// The risk figures as agents see them, where each of them fits.
    pub fn build_risk_state(&self, garch_sigma_sq: FixedDecimal, now_ns: u64) -> (r: Result<
        RiskState,
        EngineError,
    >)
        requires
            self.state.wf(),
        ensures
            r == (if self.state@.portfolio.snapshot_defined() {
                Ok(risk_state_of(self.state@.portfolio, garch_sigma_sq, now_ns))
            } else {
                Err(EngineError::SnapshotOverflow)
            }),
    {
        match self.state.portfolio().checked_snapshot(garch_sigma_sq) {
            Some(snapshot) => Ok(
                RiskState {
                    portfolio_drawdown_pct: Some(snapshot.drawdown_pct),
                    var_1d_99_pct: Some(snapshot.var_1d_99_pct),
                    garch_sigma_sq: Some(snapshot.garch_sigma_sq),
                    gross_exposure: Some(snapshot.gross_exposure),
                    net_exposure: Some(snapshot.net_exposure),
                    open_position_count: snapshot.open_position_count,
                    evaluated_at_ns: now_ns,
                },
            ),
            None => Err(EngineError::SnapshotOverflow),
        }
    }

    /// The risk figures of an instrument as they are published, where each of
    /// them fits. `garch_sigma_sq` is its variance, written out.
    pub fn build_risk_frame(
        &self,
        venue: &str,
        instrument: &str,
        request_id: &str,
        gates: Vec<GateStatus>,
        garch_sigma_sq: &str,
        ts_ns: u64,
    ) -> (r: Result<RiskFrame, EngineError>)
        requires
            self.state.wf(),
        ensures
            match r {
                Ok(frame) => self.state@.portfolio.snapshot_defined() && frame@ == risk_frame_of(
                    self.state@,
                    venue@,
                    instrument@,
                    request_id@,
                    crate::frames::gate_views(gates@),
                    garch_sigma_sq@,
                    ts_ns,
                ),
                Err(e) => !self.state@.portfolio.snapshot_defined() && e
                    == EngineError::SnapshotOverflow,
            },
    {
        match self.state.portfolio().checked_snapshot(FixedDecimal::zero()) {
            Some(snapshot) => Ok(
                RiskFrame {
                    venue: venue.to_owned(),
                    instrument: instrument.to_owned(),
                    garch_sigma_sq: garch_sigma_sq.to_owned(),
                    garch_last_ts_ns: self.state.garch_last_ts_ns(instrument),
                    drawdown_raw: snapshot.drawdown_pct.raw_units,
                    drawdown_scale: snapshot.drawdown_pct.scale,
                    var_1d_99_raw: snapshot.var_1d_99_pct.raw_units,
                    var_1d_99_scale: snapshot.var_1d_99_pct.scale,
                    gross_exposure_raw: snapshot.gross_exposure.raw_units,
                    gross_exposure_scale: snapshot.gross_exposure.scale,
                    net_exposure_raw: snapshot.net_exposure.raw_units,
                    net_exposure_scale: snapshot.net_exposure.scale,
                    open_position_count: snapshot.open_position_count,
                    all_gates_open: crate::frames::all_gates_open(&gates),
                    gates,
                    ts_ns,
                    request_id: request_id.to_owned(),
                },
            ),
            None => Err(EngineError::SnapshotOverflow),
        }
    }

    /// Takes in a price of an instrument, and gives the risk figures to publish on
    /// it. `next_sigma_sq` is what the model gives for the price,
    /// `sigma_sq_text` the resulting variance, written out, and `gates` what the
    /// gates said at the last evaluation. The price is taken in even where the
    /// figures of the portfolio do not fit.
    pub fn take_price(
        &mut self,
        venue: &str,
        instrument: &str,
        price: i64,
        ts_ns: u64,
        next_sigma_sq: Double,
        sigma_sq_text: &str,
        gates: Vec<GateStatus>,
        now_ns: u64,
    ) -> (r: Result<RiskFrame, EngineError>)
        requires
            old(self).state.wf(),
        ensures
            final(self).state.wf(),
            final(self).state@ == old(self).state@.fed(instrument@, price, ts_ns, next_sigma_sq),
            match r {
                Ok(frame) => old(self).state@.portfolio.snapshot_defined() && frame@
                    == risk_frame_of(
                    final(self).state@,
                    venue@,
                    instrument@,
                    Seq::empty(),
                    crate::frames::gate_views(gates@),
                    sigma_sq_text@,
                    now_ns,
                ),
                Err(e) => !old(self).state@.portfolio.snapshot_defined() && e
                    == EngineError::SnapshotOverflow,
            },
    {
        let _ = self.state.feed_price(instrument, price, ts_ns, next_sigma_sq);
        let request_id: String = String::new();
        self.build_risk_frame(
            venue,
            instrument,
            request_id.as_str(),
            gates,
            sigma_sq_text,
            now_ns,
        )
    }

    /// The answer to a rejected request.
    pub fn build_rejection(
        req: &TradeRequest,
        gate_code: RiskGateCode,
        detail: &str,
        responded_at: Timestamp,
        risk_snapshot: RiskState,
    ) -> (r: TradeResponse)
        ensures
            r@ == rejection(*req, gate_code, detail@, responded_at, risk_snapshot),
    {
        let r: TradeResponse = TradeResponse {
            request_id: req.request_id.clone(),
            execution_id: String::new(),
            received_at: req.signal_detected_at,
            responded_at: Some(responded_at),
            risk_gate_code: gate_code,
            filled_notional: None,
            average_fill_price: None,
            realized_slippage: None,
            risk_snapshot: Some(risk_snapshot),
            rejection_detail: detail.to_owned(),
            exchange_order_ids: Vec::new(),
            commission_paid: None,
        };
        assert(r@.exchange_order_ids =~= Seq::empty());
        r
    }

    /// The answer to an accepted request.
    pub fn build_acceptance(
        req: &TradeRequest,
        execution_id: &str,
        slippage_bps: FixedDecimal,
        responded_at: Timestamp,
        risk_snapshot: RiskState,
    ) -> (r: TradeResponse)
        ensures
            r@ == acceptance(*req, execution_id@, slippage_bps, responded_at, risk_snapshot),
    {
        let mut order_id: String = "SIM-".to_owned();
        order_id.append(execution_id);
        let mut exchange_order_ids: Vec<String> = Vec::new();
        exchange_order_ids.push(order_id);
        let r: TradeResponse = TradeResponse {
            request_id: req.request_id.clone(),
            execution_id: execution_id.to_owned(),
            received_at: req.signal_detected_at,
            responded_at: Some(responded_at),
            risk_gate_code: RiskGateCode::RiskGateAccepted,
            filled_notional: req.notional_value,
            average_fill_price: req.notional_value,
            realized_slippage: Some(slippage_bps),
            risk_snapshot: Some(risk_snapshot),
            rejection_detail: String::new(),
            exchange_order_ids,
            commission_paid: Some(FixedDecimal::new(10, 2)),
        };
        assert(r@.exchange_order_ids =~= seq!["SIM-"@ + execution_id@]);
        r
    }

    /// The code that the gates give for a request. The signal gate is asked
    /// before any figure of the portfolio is formed.
    pub fn evaluate_gates(
        &self,
        req: &TradeRequest,
        market: &MarketReading,
        instrument_sigma_sq: FixedDecimal,
        now_ns: u64,
    ) -> (r: Result<RiskGateCode, EngineError>)
        requires
            self.state.wf(),
        ensures
            r == (if evaluable(self.state@, *req, *market, now_ns) {
                Ok(gate_code(self.state@, *req, *market, instrument_sigma_sq, now_ns))
            } else {
                Err(EngineError::SnapshotOverflow)
            }),
    {
        proof {
            reveal_with_fuel(crate::interceptor::first_rejection, 5);
        }
        let interceptor: DefaultRiskInterceptor = DefaultRiskInterceptor::new(
            self.state.gate_config(),
        );
        match interceptor.check_signal_invalidation(req, market, now_ns) {
            GateResult::Rejected(code) => return Ok(code),
            GateResult::Accepted => {},
        }
        let portfolio: PortfolioState = match self.state.portfolio().checked_snapshot(
            instrument_sigma_sq,
        ) {
            Some(snapshot) => snapshot,
            None => return Err(EngineError::SnapshotOverflow),
        };
        let instrument: String = req.instrument();
        let ctx: RiskContext = RiskContext {
            portfolio,
            garch: GarchSnapshot {
                sigma_sq: self.state.get_sigma_sq(instrument.as_str()),
                alpha: Double::from_bits(DEFAULT_ALPHA_BITS),
                beta: Double::from_bits(DEFAULT_BETA_BITS),
                omega: Double::from_bits(DEFAULT_OMEGA_BITS),
            },
            market: *market,
        };
        Ok(interceptor.evaluate(req, &ctx, now_ns))
    }

    /// Asks the gates for their code and, where they accept the request, draws an
    /// execution id.
    pub fn decide(
        &self,
        req: &TradeRequest,
        market: &MarketReading,
        instrument_sigma_sq: FixedDecimal,
        now_ns: u64,
    ) -> (r: Result<Decision, EngineError>)
        requires
            self.state.wf(),
        ensures
            match r {
                Ok(decision) => {
                    &&& evaluable(self.state@, *req, *market, now_ns)
                    &&& decision.code == gate_code(
                        self.state@,
                        *req,
                        *market,
                        instrument_sigma_sq,
                        now_ns,
                    )
                    &&& if decision.code == RiskGateCode::RiskGateAccepted {
                        is_random_uuid(decision.execution_id@)
                    } else {
                        decision.execution_id@ == Seq::<char>::empty()
                    }
                },
                Err(e) => !evaluable(self.state@, *req, *market, now_ns) && e
                    == EngineError::SnapshotOverflow,
            },
    {
        let code: RiskGateCode = match self.evaluate_gates(
            req,
            market,
            instrument_sigma_sq,
            now_ns,
        ) {
            Ok(c) => c,
            Err(e) => return Err(e),
        };
        let execution_id: String = if code == RiskGateCode::RiskGateAccepted {
            new_execution_id()
        } else {
            String::new()
        };
        Ok(Decision { code, execution_id })
    }

    /// Opens the position that an accepted request asks for.
    fn record_position(&mut self, req: &TradeRequest) -> (r: Result<(), EngineError>)
        requires
            old(self).state.wf(),
        ensures
            final(self).state.wf(),
            final(self).state@ == settled_state(
                old(self).state@,
                *req,
                RiskGateCode::RiskGateAccepted,
            ),
            r == (if recordable(old(self).state@.portfolio, *req) {
                Ok(())
            } else {
                Err(EngineError::PositionOverflow)
            }),
    {
        match (&req.asset, &req.notional_value) {
            (Some(asset), Some(notional)) => {
                let instrument: &str = asset.instrument.as_str();
                if !self.state.portfolio().can_open_position(instrument, *notional) {
                    return Err(EngineError::PositionOverflow);
                }
                let leverage: FixedDecimal = match &req.leverage_ratio {
                    Some(l) => *l,
                    None => FixedDecimal::new(1, 0),
                };
                let entry_price: FixedDecimal = FixedDecimal::new(1, 0);
                self.state.open_position(instrument, req.side, *notional, entry_price, leverage);
                Ok(())
            },
            _ => Ok(()),
        }
    }

    /// The risk figures to publish after an accepted request.
    fn trade_frame(&self, req: &TradeRequest, figures: &VolatilityFigures, ts_ns: u64) -> (r: Result<
        Option<RiskFrame>,
        EngineError,
    >)
        requires
            self.state.wf(),
            self.state@.portfolio.snapshot_defined(),
        ensures
            r matches Ok(frame) && match published(self.state@, *req, *figures, ts_ns) {
                Some(want) => frame matches Some(f) && f@ == want,
                None => frame is None,
            },
    {
        match (&req.asset, &req.notional_value) {
            (Some(asset), Some(_)) => match self.build_risk_frame(
                asset.venue_id.as_str(),
                asset.instrument.as_str(),
                req.request_id.as_str(),
                crate::frames::gate_statuses(RiskGateCode::RiskGateAccepted, ACCEPTED_GATE_CODE),
                figures.instrument_sigma_sq_text.as_str(),
                ts_ns,
            ) {
                Ok(frame) => Ok(Some(frame)),
                Err(e) => Err(e),
            },
            _ => Ok(None),
        }
    }

    /// Records and answers a request once the gates have given their code.
    pub fn settle(
        &mut self,
        req: &TradeRequest,
        code: RiskGateCode,
        execution_id: &str,
        figures: &VolatilityFigures,
        clock: ClockReadings,
    ) -> (r: Result<Submission, EngineError>)
        requires
            old(self).state.wf(),
        ensures
            final(self).state.wf(),
            final(self).state@ == settled_state(old(self).state@, *req, code),
            carries(r, settled(old(self).state@, *req, code, execution_id@, *figures, clock)),
    {
        if code == RiskGateCode::RiskGateAccepted {
            match self.record_position(req) {
                Ok(()) => {},
                Err(e) => return Err(e),
            }
            let snapshot: RiskState = match self.build_risk_state(
                figures.headline_sigma_sq,
                clock.evaluated_ns,
            ) {
                Ok(s) => s,
                Err(e) => return Err(e),
            };
            let slippage_bps: FixedDecimal = match simulate_fill(req, figures.slippage) {
                FillResult::Filled { slippage_bps, .. } => slippage_bps,
                FillResult::SlippageExceeded { .. } => figures.slippage.rounded_bps,
            };
            let response: TradeResponse = QKukebService::build_acceptance(
                req,
                execution_id,
                slippage_bps,
                clock.responded_at,
                snapshot,
            );
            let update: RiskState = match self.build_risk_state(
                figures.headline_sigma_sq,
                clock.broadcast_ns,
            ) {
                Ok(s) => s,
                Err(e) => return Err(e),
            };
            let risk_frame: Option<RiskFrame> = match self.trade_frame(
                req,
                figures,
                clock.broadcast_ns,
            ) {
                Ok(f) => f,
                Err(e) => return Err(e),
            };
            Ok(Submission { response, broadcast: Some(update), risk_frame })
        } else {
            let snapshot: RiskState = match self.build_risk_state(
                figures.headline_sigma_sq,
                clock.evaluated_ns,
            ) {
                Ok(s) => s,
                Err(e) => return Err(e),
            };
            let mut detail: String = "Rejected by gate: ".to_owned();
            detail.append(code.as_str_name());
            let response: TradeResponse = QKukebService::build_rejection(
                req,
                code,
                detail.as_str(),
                clock.responded_at,
                snapshot,
            );
            Ok(Submission { response, broadcast: None, risk_frame: None })
        }
    }

    /// Handles a trade command that came in at `received_ns`: asks the gates,
    /// records an accepted trade under a new execution id, and answers.
    pub fn submit_trade_command(
        &mut self,
        req: &TradeRequest,
        market: &MarketReading,
        figures: &VolatilityFigures,
        received_ns: u64,
        clock: ClockReadings,
    ) -> (r: Result<Submission, EngineError>)
        requires
            old(self).state.wf(),
        ensures
            final(self).state.wf(),
            !evaluable(old(self).state@, *req, *market, received_ns) ==> {
                &&& r == Err::<Submission, EngineError>(EngineError::SnapshotOverflow)
                &&& final(self).state@ == old(self).state@
            },
            evaluable(old(self).state@, *req, *market, received_ns) ==> exists|
                execution_id: Seq<char>,
            |
                #[trigger] submitted(
                    old(self).state@,
                    final(self).state@,
                    *req,
                    gate_code(
                        old(self).state@,
                        *req,
                        *market,
                        figures.instrument_sigma_sq,
                        received_ns,
                    ),
                    execution_id,
                    *figures,
                    clock,
                    r,
                ),
    {
        let decision: Decision = match self.decide(
            req,
            market,
            figures.instrument_sigma_sq,
            received_ns,
        ) {
            Ok(a) => a,
            Err(e) => return Err(e),
        };
        let r: Result<Submission, EngineError> = self.settle(
            req,
            decision.code,
            decision.execution_id.as_str(),
            figures,
            clock,
        );
        assert(submitted(
            old(self).state@,
            self.state@,
            *req,
            decision.code,
            decision.execution_id@,
            *figures,
            clock,
            r,
        ));
        r
    }
}

/// How an agent is told of the risk figures.
#[derive(Debug, Clone, PartialEq, Eq)]
pub struct Subscription {
    /// The instrument whose variance is shown; empty where none is tracked.
    pub instrument: String,
    /// The time between two periodic updates, in milliseconds.
    pub interval_ms: u64,
}

/// The time between two periodic updates, in milliseconds: as the agent asked,
/// or a second where it did not ask.
pub open spec fn update_interval(throttle_interval_ms: u32) -> u64 {
    if throttle_interval_ms > 0 {
        throttle_interval_ms as u64
    } else {
        1000
    }
}

impl QKukebService {
    /// Takes in a subscription. The instrument shown is one that has a tracker
    /// at that moment.
    pub fn subscribe(&self, req: &RiskSubscriptionRequest) -> (r: Subscription)
        ensures
            r.interval_ms == update_interval(req.throttle_interval_ms),
            self.state@.trackers.dom() == Set::<Seq<char>>::empty() ==> r.instrument@ == Seq::<
                char,
            >::empty(),
            self.state@.trackers.dom() != Set::<Seq<char>>::empty()
                ==> self.state@.trackers.dom().contains(r.instrument@),
    {
        let interval_ms: u64 = if req.throttle_interval_ms > 0 {
            req.throttle_interval_ms as u64
        } else {
            1000
        };
        let instrument: String = match self.state.any_instrument() {
            Some(name) => name,
            None => String::new(),
        };
        Subscription { instrument, interval_ms }
    }
}

/// What a subscriber's channel gives.
#[derive(Debug, Clone, Copy, PartialEq, Eq, Structural)]
pub enum ChannelEvent {
    /// The next risk figures.
    Update(RiskState),
    /// The subscriber fell behind, and this many updates are lost.
    Lagged(u64),
    /// No more updates will come.
    Closed,
}

/// What the stream to a subscriber does next.
#[derive(Debug, Clone, Copy, PartialEq, Eq, Structural)]
pub enum StreamAction {
    /// Hand the figures to the subscriber and go on.
    Yield(RiskState),
    /// Go on without handing out anything.
    Skip,
    /// End the stream.
    Stop,
}

/// What the stream to a subscriber does on an event: lost updates do not end it.
pub fn stream_action(event: ChannelEvent) -> (r: StreamAction)
    ensures
        r == stream_step(event),
{
    match event {
        ChannelEvent::Update(state) => StreamAction::Yield(state),
        ChannelEvent::Lagged(_) => StreamAction::Skip,
        ChannelEvent::Closed => StreamAction::Stop,
    }
}

/// What the stream to a subscriber does on an event.
pub open spec fn stream_step(event: ChannelEvent) -> StreamAction {
    match event {
        ChannelEvent::Update(state) => StreamAction::Yield(state),
        ChannelEvent::Lagged(_) => StreamAction::Skip,
        ChannelEvent::Closed => StreamAction::Stop,
    }
}

/// What the periodic publisher does next.
#[derive(Debug, Clone, Copy, PartialEq, Eq, Structural)]
pub enum PublishAction {
    /// Wait for the next interval.
    GoOn,
    /// Publish nothing more.
    Stop,
}

/// What the periodic publisher does after an update: it stops once no subscriber
/// is left to deliver to.
pub fn publish_action(delivered: bool) -> (r: PublishAction)
    ensures
        r == (if delivered {
            PublishAction::GoOn
        } else {
            PublishAction::Stop
        }),
{
    if delivered {
        PublishAction::GoOn
    } else {
        PublishAction::Stop
    }
}

/// What a subscriber is handed, given the events of its channel.
pub open spec fn streamed(events: Seq<ChannelEvent>) -> Seq<RiskState>
    decreases events.len(),
{
    if events.len() == 0 {
        Seq::empty()
    } else {
        match stream_step(events[0]) {
            StreamAction::Yield(state) => seq![state] + streamed(events.skip(1)),
            StreamAction::Skip => streamed(events.skip(1)),
            StreamAction::Stop => Seq::empty(),
        }
    }
}

/// The updates among the events of a channel, in their order.
pub open spec fn updates(events: Seq<ChannelEvent>) -> Seq<RiskState>
    decreases events.len(),
{
    if events.len() == 0 {
        Seq::empty()
    } else {
        match events[0] {
            ChannelEvent::Update(state) => seq![state] + updates(events.skip(1)),
            _ => updates(events.skip(1)),
        }
    }
}

/// Until its channel closes, a subscriber is handed every update that the
/// channel gives, in order, however often it fell behind in between; after that
/// nothing.
pub proof fn law_stream_hands_out_every_update(
    before: Seq<ChannelEvent>,
    after: Seq<ChannelEvent>,
)
    requires
        forall|i: int| 0 <= i < before.len() ==> !(#[trigger] before[i] is Closed),
    ensures
        streamed(before) == updates(before),
        streamed(before + seq![ChannelEvent::Closed] + after) == updates(before),
    decreases before.len(),
{
    let all: Seq<ChannelEvent> = before + seq![ChannelEvent::Closed] + after;
    if before.len() > 0 {
        let rest: Seq<ChannelEvent> = before.skip(1);
        assert(!(before[0] is Closed));
        assert forall|i: int| 0 <= i < rest.len() implies !(#[trigger] rest[i] is Closed) by {
            assert(!(before[i + 1] is Closed));
        }
        law_stream_hands_out_every_update(rest, after);
        assert(all.skip(1) =~= rest + seq![ChannelEvent::Closed] + after);
        assert(all[0] == before[0]);
    } else {
        assert(all[0] is Closed);
    }
}

/// Every answer names its request, repeats the time of the signal, and carries
/// the risk figures; an execution id, fill figures and an order id come with an
/// accepted request, and an explanation with a rejected one.
pub proof fn law_answer_fits_the_code(
    v: EngineView,
    req: TradeRequest,
    code: RiskGateCode,
    execution_id: Seq<char>,
    figures: VolatilityFigures,
    clock: ClockReadings,
)
    requires
        settled(v, req, code, execution_id, figures, clock) is Ok,
        code == RiskGateCode::RiskGateAccepted ==> is_random_uuid(execution_id),
    ensures
        ({
            let s: SubmissionView = settled(v, req, code, execution_id, figures, clock)->Ok_0;
            let answer: ResponseView = s.response;
            let accepted: bool = code == RiskGateCode::RiskGateAccepted;
            &&& answer.request_id == req.request_id@
            &&& answer.received_at == req.signal_detected_at
            &&& answer.responded_at == Some(clock.responded_at)
            &&& answer.risk_gate_code == code
            &&& answer.risk_snapshot matches Some(snapshot)
                && snapshot.evaluated_at_ns == clock.evaluated_ns
                && snapshot.gross_exposure is Some && snapshot.net_exposure is Some
            &&& accepted <==> answer.execution_id.len() > 0
            &&& accepted <==> answer.rejection_detail.len() == 0
            &&& accepted <==> answer.realized_slippage is Some
            &&& accepted <==> answer.commission_paid is Some
            &&& accepted <==> answer.exchange_order_ids.len() == 1
            &&& accepted ==> answer.exchange_order_ids[0] == "SIM-"@ + answer.execution_id
            &&& answer.filled_notional == (if accepted {
                req.notional_value
            } else {
                None
            })
            &&& accepted <==> s.broadcast is Some
            &&& accepted && opens_position(req) <==> s.risk_frame is Some
        }),
{
    reveal_strlit("Rejected by gate: ");
}

/// Where the fill simulation fills an accepted request, the answer reports that
/// fill: its slippage, and its price where the request names a notional. Where it
/// does not, the answer reports the slippage that there would have been.
pub proof fn law_answer_reports_the_fill(
    v: EngineView,
    req: TradeRequest,
    execution_id: Seq<char>,
    figures: VolatilityFigures,
    clock: ClockReadings,
)
    requires
        settled(v, req, RiskGateCode::RiskGateAccepted, execution_id, figures, clock) is Ok,
    ensures
        ({
            let s: SubmissionView = settled(
                v,
                req,
                RiskGateCode::RiskGateAccepted,
                execution_id,
                figures,
                clock,
            )->Ok_0;
            let answer: ResponseView = s.response;
            match crate::fill::fill_outcome(req, figures.slippage) {
                FillResult::Filled { avg_price, slippage_bps } => {
                    &&& answer.realized_slippage == Some(slippage_bps)
                    &&& req.notional_value is Some ==> answer.average_fill_price == Some(avg_price)
                },
                FillResult::SlippageExceeded { .. } => answer.realized_slippage == Some(
                    figures.slippage.rounded_bps,
                ),
            }
        }),
{
}

/// The figures published on a price carry the time of that price; the exposures,
/// the drawdown and the count of positions are those from before.
pub proof fn law_price_is_published(
    v: EngineView,
    venue: Seq<char>,
    instrument: Seq<char>,
    price: i64,
    ts_ns: u64,
    next_sigma_sq: Double,
    sigma_sq_text: Seq<char>,
    gates: Seq<GateStatusView>,
    now_ns: u64,
)
    ensures
        ({
            let w: EngineView = v.fed(instrument, price, ts_ns, next_sigma_sq);
            let frame: RiskFrameView = risk_frame_of(
                w,
                venue,
                instrument,
                Seq::empty(),
                gates,
                sigma_sq_text,
                now_ns,
            );
            &&& frame.garch_last_ts_ns == ts_ns
            &&& frame == (RiskFrameView {
                garch_last_ts_ns: ts_ns,
                ..risk_frame_of(
                    v,
                    venue,
                    instrument,
                    Seq::empty(),
                    gates,
                    sigma_sq_text,
                    now_ns,
                )
            })
        }),
{
}

/// A rejected request leaves no trace in the state: neither in the positions nor
/// in the trackers.
pub proof fn law_rejection_leaves_the_state(v: EngineView, req: TradeRequest, code: RiskGateCode)
    requires
        code != RiskGateCode::RiskGateAccepted,
    ensures
        settled_state(v, req, code) == v,
{
}

/// An accepted request that names an asset and a notional adds that notional to
/// the position in the instrument, and touches no other position, no tracker
/// and no threshold.
pub proof fn law_acceptance_records_the_trade(v: EngineView, req: TradeRequest, other: Seq<char>)
    requires
        v.portfolio.distinct(),
        opens_position(req),
        recordable(v.portfolio, req),
        other != req.instrument_name(),
    ensures
        ({
            let w: EngineView = settled_state(v, req, RiskGateCode::RiskGateAccepted);
            let name: Seq<char> = req.instrument_name();
            &&& w.portfolio.holds(name)
            &&& w.portfolio.position(name).notional == v.portfolio.notional_of(name).plus(
                req.notional_value->0,
            )
            &&& w.portfolio.holds(other) == v.portfolio.holds(other)
            &&& v.portfolio.holds(other) ==> w.portfolio.position(other) == v.portfolio.position(
                other,
            )
            &&& w.trackers == v.trackers && w.gate_config == v.gate_config
        }),
{
    crate::portfolio::law_opening_touches_one_instrument(
        v.portfolio,
        req.instrument_name(),
        req.side,
        req.notional_value->0,
        FixedDecimal { raw_units: 1, scale: 0 },
        leverage_of(req),
        other,
    );
}

/// An accepted trade is published under the venue and the instrument that it
/// names, with all gates open and with the figures that the subscribers are
/// told: the portfolio after the trade.
pub proof fn law_trade_is_published(
    v: EngineView,
    req: TradeRequest,
    execution_id: Seq<char>,
    figures: VolatilityFigures,
    clock: ClockReadings,
)
    requires
        opens_position(req),
        settled(v, req, RiskGateCode::RiskGateAccepted, execution_id, figures, clock) is Ok,
    ensures
        ({
            let s: SubmissionView = settled(
                v,
                req,
                RiskGateCode::RiskGateAccepted,
                execution_id,
                figures,
                clock,
            )->Ok_0;
            let told: RiskState = s.broadcast->0;
            let frame: RiskFrameView = s.risk_frame->0;
            &&& s.broadcast is Some && s.risk_frame is Some
            &&& frame.venue == req.asset->0.venue_id@
            &&& frame.instrument == req.asset->0.instrument@
            &&& frame.request_id == req.request_id@
            &&& frame.all_gates_open && frame.gates.len() == 4
            &&& frame.ts_ns == told.evaluated_at_ns
            &&& told.gross_exposure == Some(
                FixedDecimal {
                    raw_units: frame.gross_exposure_raw,
                    scale: frame.gross_exposure_scale,
                },
            )
            &&& told.net_exposure == Some(
                FixedDecimal {
                    raw_units: frame.net_exposure_raw,
                    scale: frame.net_exposure_scale,
                },
            )
            &&& told.portfolio_drawdown_pct == Some(
                FixedDecimal { raw_units: frame.drawdown_raw, scale: frame.drawdown_scale },
            )
            &&& told.open_position_count == frame.open_position_count
            &&& told == risk_state_of(
                recorded(v.portfolio, req),
                figures.headline_sigma_sq,
                clock.broadcast_ns,
            )
        }),
{
}

/// A request whose signal is older than it allows is given the code of a stale
/// signal, whatever the portfolio and the market look like, whenever the signal
/// was seen, and even where the figures of the portfolio do not fit. It leaves
/// the state as it was, and where the figures fit it is answered as stale.
pub proof fn law_stale_request_is_refused(
    v: EngineView,
    req: TradeRequest,
    market: MarketReading,
    received_ns: u64,
    execution_id: Seq<char>,
    figures: VolatilityFigures,
    clock: ClockReadings,
)
    requires
        req.invalidation matches Some(inv) && inv.signal_ttl_ms > 0,
        req.signal_detected_at matches Some(t) && received_ns - t.unix_nanos()
            > req.invalidation->0.signal_ttl_ms * 1_000_000,
    ensures
        ({
            let code: RiskGateCode = gate_code(
                v,
                req,
                market,
                figures.instrument_sigma_sq,
                received_ns,
            );
            &&& evaluable(v, req, market, received_ns)
            &&& code == RiskGateCode::RiskGateRejectedSignalStale
            &&& settled_state(v, req, code) == v
            &&& v.portfolio.snapshot_defined() ==> settled(
                v,
                req,
                code,
                execution_id,
                figures,
                clock,
            ) == Ok::<SubmissionView, EngineError>(
                SubmissionView {
                    response: rejection(
                        req,
                        RiskGateCode::RiskGateRejectedSignalStale,
                        "Rejected by gate: RISK_GATE_REJECTED_SIGNAL_STALE"@,
                        clock.responded_at,
                        risk_state_of(
                            v.portfolio,
                            figures.headline_sigma_sq,
                            clock.evaluated_ns,
                        ),
                    ),
                    broadcast: None,
                    risk_frame: None,
                },
            )
        }),
{
    crate::interceptor::law_stale_signal_is_rejected(
        v.gate_config,
        req,
        risk_context(v, req, market, figures.instrument_sigma_sq),
        received_ns,
    );
    reveal_strlit("Rejected by gate: ");
    reveal_strlit("RISK_GATE_REJECTED_SIGNAL_STALE");
    reveal_strlit("Rejected by gate: RISK_GATE_REJECTED_SIGNAL_STALE");
    assert(rejection_text(RiskGateCode::RiskGateRejectedSignalStale)
        =~= "Rejected by gate: RISK_GATE_REJECTED_SIGNAL_STALE"@);
}

/// A request that every gate lets through is accepted and recorded: its signal
/// holds, and the drawdown, the value at risk and the variance of its instrument
/// are no higher than allowed. The figures of the portfolio have to fit, before
/// and after.
pub proof fn law_sound_request_is_accepted(
    v: EngineView,
    req: TradeRequest,
    market: MarketReading,
    received_ns: u64,
    execution_id: Seq<char>,
    figures: VolatilityFigures,
    clock: ClockReadings,
)
    requires
        ({
            let held: PortfolioState = v.portfolio.risk_figures(figures.instrument_sigma_sq);
            &&& crate::interceptor::signal_gate(req, market, received_ns) is Accepted
            &&& !v.gate_config.max_drawdown_pct.less_than(held.drawdown_pct)
            &&& !v.gate_config.max_var_1d_99_pct.less_than(held.var_1d_99_pct)
            &&& !v.sigma_sq(req.instrument_name()).greater_than(v.gate_config.max_garch_sigma_sq)
        }),
        v.portfolio.snapshot_defined(),
        recordable(v.portfolio, req),
        recorded(v.portfolio, req).snapshot_defined(),
    ensures
        ({
            let code: RiskGateCode = gate_code(
                v,
                req,
                market,
                figures.instrument_sigma_sq,
                received_ns,
            );
            let after: EngineView = EngineView { portfolio: recorded(v.portfolio, req), ..v };
            let sigma_sq: FixedDecimal = figures.headline_sigma_sq;
            &&& evaluable(v, req, market, received_ns)
            &&& settled_state(v, req, code) == after
            &&& settled(v, req, code, execution_id, figures, clock) == Ok::<
                SubmissionView,
                EngineError,
            >(
                SubmissionView {
                    response: acceptance(
                        req,
                        execution_id,
                        reported_slippage(req, figures.slippage),
                        clock.responded_at,
                        risk_state_of(after.portfolio, sigma_sq, clock.evaluated_ns),
                    ),
                    broadcast: Some(
                        risk_state_of(after.portfolio, sigma_sq, clock.broadcast_ns),
                    ),
                    risk_frame: published(after, req, figures, clock.broadcast_ns),
                },
            )
        }),
{
    crate::interceptor::law_gate_order(
        v.gate_config,
        req,
        risk_context(v, req, market, figures.instrument_sigma_sq),
        received_ns,
    );
}

/// The answer to a rejected request, field by field.
pub proof fn law_rejection_in_full(
    req: TradeRequest,
    code: RiskGateCode,
    detail: &str,
    responded_at: Timestamp,
    risk_snapshot: RiskState,
    r: TradeResponse,
)
    requires
        call_ensures(
            QKukebService::build_rejection,
            (&req, code, detail, responded_at, risk_snapshot),
            r,
        ),
    ensures
        r.request_id@ == req.request_id@,
        r.execution_id@.len() == 0,
        r.received_at == req.signal_detected_at,
        r.responded_at == Some(responded_at),
        r.risk_gate_code == code,
        r.filled_notional is None && r.average_fill_price is None && r.realized_slippage is None,
        r.risk_snapshot == Some(risk_snapshot),
        r.rejection_detail@ == detail@,
        r.exchange_order_ids@.len() == 0,
        r.commission_paid is None,
{
    assert(r@.exchange_order_ids.len() == r.exchange_order_ids@.len());
}

/// The answer to an accepted request, field by field: the notional counts as
/// filled and as the price, the order id is the execution id after `SIM-`, and the
/// commission is 0.10.
pub proof fn law_acceptance_in_full(
    req: TradeRequest,
    execution_id: &str,
    slippage_bps: FixedDecimal,
    responded_at: Timestamp,
    risk_snapshot: RiskState,
    r: TradeResponse,
)
    requires
        call_ensures(
            QKukebService::build_acceptance,
            (&req, execution_id, slippage_bps, responded_at, risk_snapshot),
            r,
        ),
    ensures
        r.request_id@ == req.request_id@,
        r.execution_id@ == execution_id@,
        r.received_at == req.signal_detected_at,
        r.responded_at == Some(responded_at),
        r.risk_gate_code == RiskGateCode::RiskGateAccepted,
        r.filled_notional == req.notional_value,
        r.average_fill_price == req.notional_value,
        r.realized_slippage == Some(slippage_bps),
        r.risk_snapshot == Some(risk_snapshot),
        r.rejection_detail@.len() == 0,
        r.exchange_order_ids@.len() == 1,
        r.exchange_order_ids@[0]@ == seq!['S', 'I', 'M', '-'] + execution_id@,
        r.commission_paid == Some(FixedDecimal { raw_units: 10, scale: 2 }),
{
    reveal_strlit("SIM-");
    assert("SIM-"@ =~= seq!['S', 'I', 'M', '-']);
    assert(r@.exchange_order_ids.len() == r.exchange_order_ids@.len());
    assert(r@.exchange_order_ids[0] == r.exchange_order_ids@[0]@);
}

/// The risk figures that agents see are those of the portfolio, with the variance
/// and the time given; they exist exactly where the portfolio's do.
pub proof fn law_agents_see_the_portfolio(
    service: &QKukebService,
    garch_sigma_sq: FixedDecimal,
    now_ns: u64,
    r: Result<RiskState, EngineError>,
)
    requires
        call_ensures(
            QKukebService::build_risk_state,
            (service, garch_sigma_sq, now_ns),
            r,
        ),
    ensures
        ({
            let v: PortfolioView = service.state@.portfolio;
            let f: PortfolioState = v.risk_figures(garch_sigma_sq);
            &&& r is Ok <==> v.snapshot_defined()
            &&& r matches Err(e) ==> e == EngineError::SnapshotOverflow
            &&& r matches Ok(s) ==> {
                &&& s.portfolio_drawdown_pct == Some(f.drawdown_pct)
                &&& s.var_1d_99_pct == Some(FixedDecimal { raw_units: 50, scale: 4 })
                &&& s.garch_sigma_sq == Some(garch_sigma_sq)
                &&& s.gross_exposure == Some(crate::portfolio::gross_exposure(v.positions))
                &&& s.net_exposure == Some(crate::portfolio::net_exposure(v.positions))
                &&& v.positions.len() <= u32::MAX ==> s.open_position_count == v.positions.len()
                &&& s.evaluated_at_ns == now_ns
                &&& s == risk_state_of(v, garch_sigma_sq, now_ns)
            }
        }),
{
}

/// The risk figures that are published are those of the portfolio, under the
/// names given, with the time of the instrument's last price; they exist exactly
/// where the portfolio's do.
pub proof fn law_frame_shows_the_portfolio(
    service: &QKukebService,
    venue: &str,
    instrument: &str,
    request_id: &str,
    gates: Vec<GateStatus>,
    garch_sigma_sq: &str,
    ts_ns: u64,
    r: Result<RiskFrame, EngineError>,
)
    requires
        call_ensures(
            QKukebService::build_risk_frame,
            (service, venue, instrument, request_id, gates, garch_sigma_sq, ts_ns),
            r,
        ),
    ensures
        ({
            let v: PortfolioView = service.state@.portfolio;
            let f: PortfolioState = v.risk_figures(FixedDecimal { raw_units: 0, scale: 0 });
            let gross: FixedDecimal = crate::portfolio::gross_exposure(v.positions);
            let net: FixedDecimal = crate::portfolio::net_exposure(v.positions);
            let known: bool = service.state@.trackers.dom().contains(instrument@);
            &&& r is Ok <==> v.snapshot_defined()
            &&& r matches Err(e) ==> e == EngineError::SnapshotOverflow
            &&& r matches Ok(s) ==> {
                &&& s.venue@ == venue@ && s.instrument@ == instrument@
                &&& s.request_id@ == request_id@
                &&& s.garch_sigma_sq@ == garch_sigma_sq@
                &&& known ==> s.garch_last_ts_ns
                    == service.state@.trackers[instrument@].last_ts_ns
                &&& !known ==> s.garch_last_ts_ns == 0
                &&& s.drawdown_raw == f.drawdown_pct.raw_units
                &&& s.drawdown_scale == f.drawdown_pct.scale
                &&& s.var_1d_99_raw == 50 && s.var_1d_99_scale == 4
                &&& s.gross_exposure_raw == gross.raw_units
                &&& s.gross_exposure_scale == gross.scale
                &&& s.net_exposure_raw == net.raw_units && s.net_exposure_scale == net.scale
                &&& v.positions.len() <= u32::MAX ==> s.open_position_count == v.positions.len()
                &&& s.all_gates_open <==> forall|i: int|
                    0 <= i < gates@.len() ==> (#[trigger] gates@[i]).gate_code == 1
                &&& s.gates@.len() == gates@.len()
                &&& forall|i: int|
                    0 <= i < gates@.len() ==> {
                        &&& (#[trigger] s.gates@[i]).gate_code == gates@[i].gate_code
                        &&& s.gates@[i].gate_name@ == gates@[i].gate_name@
                    }
                &&& s.ts_ns == ts_ns
            }
        }),
{
    if let Ok(s) = r {
        let given: Seq<GateStatusView> = crate::frames::gate_views(gates@);
        let shown: Seq<GateStatusView> = crate::frames::gate_views(s.gates@);
        assert(s@.gates == given);
        assert(shown.len() == given.len());
        assert forall|i: int| 0 <= i < gates@.len() implies {
            &&& (#[trigger] s.gates@[i]).gate_code == gates@[i].gate_code
            &&& s.gates@[i].gate_name@ == gates@[i].gate_name@
        } by {
            assert(shown[i] == s.gates@[i]@ && given[i] == gates@[i]@);
        }
        if s.all_gates_open {
            assert forall|i: int| 0 <= i < gates@.len() implies (#[trigger] gates@[i]).gate_code
                == 1 by {
                assert(given[i].gate_code == ACCEPTED_GATE_CODE);
            }
        } else {
            let i: int = choose|i: int|
                0 <= i < given.len() && (#[trigger] given[i]).gate_code != ACCEPTED_GATE_CODE;
            assert(gates@[i]@ == given[i]);
        }
    }
}

/// What the gates say of a request in the state of the engine: a request whose
/// signal breaks one of its limits is stale, even where the figures of the
/// portfolio do not fit; otherwise those figures have to fit, and the drawdown,
/// the value at risk and the variance of the instrument that the request names are
/// each held against its maximum, in that order.
pub proof fn law_what_the_gates_say(
    service: &QKukebService,
    req: TradeRequest,
    market: MarketReading,
    instrument_sigma_sq: FixedDecimal,
    now_ns: u64,
    r: Result<RiskGateCode, EngineError>,
)
    requires
        call_ensures(
            QKukebService::evaluate_gates,
            (service, &req, &market, instrument_sigma_sq, now_ns),
            r,
        ),
    ensures
        ({
            let v: EngineView = service.state@;
            let config: GateConfig = v.gate_config;
            let name: Seq<char> = match req.asset {
                Some(a) => a.instrument@,
                None => Seq::empty(),
            };
            let stale: bool = crate::interceptor::signal_breaks_a_limit(req, market, now_ns);
            let drawdown: bool = crate::interceptor::above_maximum(
                v.portfolio.risk_figures(instrument_sigma_sq).drawdown_pct,
                config.max_drawdown_pct,
            );
            let var: bool = crate::interceptor::above_maximum(
                FixedDecimal { raw_units: 50, scale: 4 },
                config.max_var_1d_99_pct,
            );
            let wild: bool = crate::interceptor::above_ceiling(
                v.sigma_sq(name),
                config.max_garch_sigma_sq,
            );
            &&& r == if stale {
                Ok::<RiskGateCode, EngineError>(RiskGateCode::RiskGateRejectedSignalStale)
            } else if !v.portfolio.snapshot_defined() {
                Err(EngineError::SnapshotOverflow)
            } else if drawdown {
                Ok(RiskGateCode::RiskGateRejectedMaxDrawdown)
            } else if var {
                Ok(RiskGateCode::RiskGateRejectedVarBreach)
            } else if wild {
                Ok(RiskGateCode::RiskGateRejectedGarchVolatility)
            } else {
                Ok(RiskGateCode::RiskGateAccepted)
            }
        }),
{
    let v: EngineView = service.state@;
    let ctx: RiskContext = risk_context(v, req, market, instrument_sigma_sq);
    crate::interceptor::law_when_the_chain_rejects(v.gate_config, req, ctx, now_ns);
    crate::interceptor::law_gate_order(v.gate_config, req, ctx, now_ns);
}

/// A decision carries the code that the gates give, and an execution id exactly
/// where that is acceptance.
pub proof fn law_decision_carries_the_code(
    service: &QKukebService,
    req: TradeRequest,
    market: MarketReading,
    instrument_sigma_sq: FixedDecimal,
    now_ns: u64,
    code: Result<RiskGateCode, EngineError>,
    r: Result<Decision, EngineError>,
)
    requires
        call_ensures(
            QKukebService::evaluate_gates,
            (service, &req, &market, instrument_sigma_sq, now_ns),
            code,
        ),
        call_ensures(
            QKukebService::decide,
            (service, &req, &market, instrument_sigma_sq, now_ns),
            r,
        ),
    ensures
        r matches Err(e) ==> code == Err::<RiskGateCode, EngineError>(e),
        r matches Ok(d) ==> {
            &&& code == Ok::<RiskGateCode, EngineError>(d.code)
            &&& d.code == RiskGateCode::RiskGateAccepted ==> d.execution_id@.len() == 36
            &&& d.code != RiskGateCode::RiskGateAccepted ==> d.execution_id@.len() == 0
        },
{
}

/// What becomes of the state once the gates have given their code: it changes only
/// where they accept a request that names an asset and a notional, and the notional
/// fits; it is then opened in the instrument of the asset, on the side of the
/// request, at an entry price of one and at the leverage of the request, or one.
pub proof fn law_what_becomes_of_the_state(v: EngineView, req: TradeRequest, code: RiskGateCode)
    ensures
        ({
            let w: EngineView = settled_state(v, req, code);
            let one: FixedDecimal = FixedDecimal { raw_units: 1, scale: 0 };
            let trades: bool = code == RiskGateCode::RiskGateAccepted && req.asset is Some
                && req.notional_value is Some;
            let name: Seq<char> = req.asset->0.instrument@;
            let notional: FixedDecimal = req.notional_value->0;
            let fits: bool = v.portfolio.notional_of(name).addable(notional);
            let leverage: FixedDecimal = if req.leverage_ratio is Some {
                req.leverage_ratio->0
            } else {
                one
            };
            &&& w.trackers == v.trackers && w.gate_config == v.gate_config
            &&& trades && fits ==> w.portfolio == v.portfolio.opened(
                name,
                req.side,
                notional,
                one,
                leverage,
            )
            &&& !trades || !fits ==> w == v
        }),
{
}

/// When a request is answered once the gates have given their code, and with which
/// error it is not: the notional of an accepted trade has to fit, and so have the
/// figures of the portfolio after it.
pub proof fn law_when_a_request_is_answered(
    v: EngineView,
    req: TradeRequest,
    code: RiskGateCode,
    execution_id: Seq<char>,
    figures: VolatilityFigures,
    clock: ClockReadings,
)
    ensures
        ({
            let r: Result<SubmissionView, EngineError> = settled(
                v,
                req,
                code,
                execution_id,
                figures,
                clock,
            );
            let trades: bool = code == RiskGateCode::RiskGateAccepted && req.asset is Some
                && req.notional_value is Some;
            let fits: bool = v.portfolio.notional_of(req.asset->0.instrument@).addable(
                req.notional_value->0,
            );
            let after: PortfolioView = settled_state(v, req, code).portfolio;
            &&& trades && !fits ==> r == Err::<SubmissionView, EngineError>(
                EngineError::PositionOverflow,
            )
            &&& (!trades || fits) && !after.snapshot_defined() ==> r == Err::<
                SubmissionView,
                EngineError,
            >(EngineError::SnapshotOverflow)
            &&& (!trades || fits) && after.snapshot_defined() ==> r is Ok
        }),
{
}

/// What an answered request is told, field by field. A rejected one is told its
/// code, the name of it, and the risk figures; an accepted one the fill at its
/// notional, the slippage of the model, an order id, a commission of 0.10, and the
/// risk figures after the trade.
pub proof fn law_what_a_request_is_told(
    v: EngineView,
    req: TradeRequest,
    code: RiskGateCode,
    execution_id: Seq<char>,
    figures: VolatilityFigures,
    clock: ClockReadings,
)
    requires
        settled(v, req, code, execution_id, figures, clock) is Ok,
    ensures
        ({
            let s: SubmissionView = settled(v, req, code, execution_id, figures, clock)->Ok_0;
            let a: ResponseView = s.response;
            let after: PortfolioView = settled_state(v, req, code).portfolio;
            let f: PortfolioState = after.risk_figures(figures.headline_sigma_sq);
            let told: RiskState = a.risk_snapshot->0;
            let accepted: bool = code == RiskGateCode::RiskGateAccepted;
            &&& a.request_id == req.request_id@
            &&& a.received_at == req.signal_detected_at
            &&& a.responded_at == Some(clock.responded_at)
            &&& a.risk_gate_code == code
            &&& a.risk_snapshot is Some
            &&& told.portfolio_drawdown_pct == Some(f.drawdown_pct)
            &&& told.var_1d_99_pct == Some(f.var_1d_99_pct)
            &&& told.garch_sigma_sq == Some(figures.headline_sigma_sq)
            &&& told.gross_exposure == Some(f.gross_exposure)
            &&& told.net_exposure == Some(f.net_exposure)
            &&& told.open_position_count == f.open_position_count
            &&& told.evaluated_at_ns == clock.evaluated_ns
            &&& accepted ==> {
                &&& a.execution_id == execution_id
                &&& a.filled_notional == req.notional_value
                &&& a.average_fill_price == req.notional_value
                &&& a.realized_slippage == Some(figures.slippage.rounded_bps)
                &&& a.rejection_detail.len() == 0
                &&& a.exchange_order_ids.len() == 1
                &&& a.exchange_order_ids[0] == seq!['S', 'I', 'M', '-'] + execution_id
                &&& a.commission_paid == Some(FixedDecimal { raw_units: 10, scale: 2 })
                &&& s.broadcast == Some(RiskState { evaluated_at_ns: clock.broadcast_ns, ..told })
            }
            &&& !accepted ==> {
                &&& a.execution_id.len() == 0
                &&& a.filled_notional is None && a.average_fill_price is None
                &&& a.realized_slippage is None && a.commission_paid is None
                &&& a.rejection_detail == "Rejected by gate: "@ + code.wire_name()
                &&& a.exchange_order_ids.len() == 0
                &&& s.broadcast is None && s.risk_frame is None
            }
        }),
{
    reveal_strlit("SIM-");
    assert("SIM-"@ =~= seq!['S', 'I', 'M', '-']);
}

/// What is published on an accepted trade, field by field: under the venue and the
/// instrument of its asset and with its request id, four open gates, and the
/// figures of the portfolio after it. Nothing is published on a request that opens
/// no position.
pub proof fn law_what_is_published(
    v: EngineView,
    req: TradeRequest,
    execution_id: Seq<char>,
    figures: VolatilityFigures,
    clock: ClockReadings,
)
    requires
        settled(v, req, RiskGateCode::RiskGateAccepted, execution_id, figures, clock) is Ok,
    ensures
        ({
            let s: SubmissionView = settled(
                v,
                req,
                RiskGateCode::RiskGateAccepted,
                execution_id,
                figures,
                clock,
            )->Ok_0;
            let frame: RiskFrameView = s.risk_frame->0;
            let name: Seq<char> = req.asset->0.instrument@;
            let w: EngineView = settled_state(v, req, RiskGateCode::RiskGateAccepted);
            let f: PortfolioState = w.portfolio.risk_figures(FixedDecimal { raw_units: 0, scale: 0 });
            &&& s.risk_frame is Some <==> req.asset is Some && req.notional_value is Some
            &&& s.risk_frame is Some ==> {
                &&& frame.venue == req.asset->0.venue_id@ && frame.instrument == name
                &&& frame.request_id == req.request_id@
                &&& frame.garch_sigma_sq == figures.instrument_sigma_sq_text@
                &&& v.trackers.dom().contains(name) ==> frame.garch_last_ts_ns
                    == v.trackers[name].last_ts_ns
                &&& !v.trackers.dom().contains(name) ==> frame.garch_last_ts_ns == 0
                &&& frame.drawdown_raw == f.drawdown_pct.raw_units
                &&& frame.drawdown_scale == f.drawdown_pct.scale
                &&& frame.var_1d_99_raw == 50 && frame.var_1d_99_scale == 4
                &&& frame.gross_exposure_raw == f.gross_exposure.raw_units
                &&& frame.gross_exposure_scale == f.gross_exposure.scale
                &&& frame.net_exposure_raw == f.net_exposure.raw_units
                &&& frame.net_exposure_scale == f.net_exposure.scale
                &&& frame.open_position_count == f.open_position_count
                &&& frame.all_gates_open && frame.gates.len() == 4
                &&& forall|i: int|
                    0 <= i < 4 ==> (#[trigger] frame.gates[i]).gate_code == 1
                        && frame.gates[i].gate_name == "RISK_GATE_ACCEPTED"@
                &&& frame.ts_ns == clock.broadcast_ns
            }
        }),
{
}

/// What `settle` and `submit_trade_command` return is what the request is told,
/// field by field, or the error that it comes to.
pub proof fn law_result_carries_the_outcome(
    r: Result<Submission, EngineError>,
    want: Result<SubmissionView, EngineError>,
)
    requires
        carries(r, want),
    ensures
        want matches Err(e) ==> r == Err::<Submission, EngineError>(e),
        want matches Ok(s) ==> r matches Ok(x) && {
            let a: TradeResponse = x.response;
            let b: ResponseView = s.response;
            &&& a.request_id@ == b.request_id && a.execution_id@ == b.execution_id
            &&& a.received_at == b.received_at && a.responded_at == b.responded_at
            &&& a.risk_gate_code == b.risk_gate_code
            &&& a.filled_notional == b.filled_notional
            &&& a.average_fill_price == b.average_fill_price
            &&& a.realized_slippage == b.realized_slippage
            &&& a.risk_snapshot == b.risk_snapshot
            &&& a.rejection_detail@ == b.rejection_detail
            &&& a.exchange_order_ids@.len() == b.exchange_order_ids.len()
            &&& forall|i: int|
                0 <= i < b.exchange_order_ids.len() ==> (#[trigger] a.exchange_order_ids@[i])@
                    == b.exchange_order_ids[i]
            &&& a.commission_paid == b.commission_paid
            &&& x.broadcast == s.broadcast
            &&& x.risk_frame is Some <==> s.risk_frame is Some
            &&& x.risk_frame matches Some(f) ==> f@ == s.risk_frame->0
        },
{
    if let Ok(s) = want {
        let x: Submission = r->Ok_0;
        let ids: Seq<Seq<char>> = x.response@.exchange_order_ids;
        assert(ids == s.response.exchange_order_ids);
        assert forall|i: int| 0 <= i < ids.len() implies (#[trigger]
        x.response.exchange_order_ids@[i])@ == ids[i] by {}
    }
}

/// What a handled request comes to: where the gates accept it, the id is the text
/// of a random UUID; the state is the one that becomes of the request; and the
/// result carries its outcome.
pub proof fn law_submission_comes_to_its_outcome(
    v: EngineView,
    w: EngineView,
    req: TradeRequest,
    code: RiskGateCode,
    execution_id: Seq<char>,
    figures: VolatilityFigures,
    clock: ClockReadings,
    r: Result<Submission, EngineError>,
)
    requires
        submitted(v, w, req, code, execution_id, figures, clock, r),
    ensures
        w == settled_state(v, req, code),
        carries(r, settled(v, req, code, execution_id, figures, clock)),
        code == RiskGateCode::RiskGateAccepted ==> {
            &&& execution_id.len() == 36
            &&& execution_id[8] == '-' && execution_id[13] == '-'
            &&& execution_id[18] == '-' && execution_id[23] == '-'
            &&& execution_id[14] == '4'
        },
{
    if code == RiskGateCode::RiskGateAccepted {
        assert(execution_id[8] == '-' && execution_id[13] == '-');
        assert(execution_id[18] == '-' && execution_id[23] == '-');
    }
}

/// A subscription is served at the pace asked for, or every second where none is
/// asked for, and shows an instrument that is tracked where there is one.
pub proof fn law_subscription_keeps_the_pace(
    service: &QKukebService,
    req: RiskSubscriptionRequest,
    r: Subscription,
)
    requires
        call_ensures(QKukebService::subscribe, (service, &req), r),
    ensures
        req.throttle_interval_ms > 0 ==> r.interval_ms == req.throttle_interval_ms,
        req.throttle_interval_ms == 0 ==> r.interval_ms == 1000,
        (exists|k: Seq<char>| #[trigger] service.state@.trackers.dom().contains(k))
            ==> service.state@.trackers.dom().contains(r.instrument@),
        (forall|k: Seq<char>| !(#[trigger] service.state@.trackers.dom().contains(k)))
            ==> r.instrument@.len() == 0,
{
    if forall|k: Seq<char>| !(#[trigger] service.state@.trackers.dom().contains(k)) {
        assert(service.state@.trackers.dom() =~= Set::<Seq<char>>::empty());
    }
}

/// A stream hands on every update, passes over what was lost, and ends exactly
/// where its channel closes; the periodic publisher ends exactly where nothing was
/// delivered.
pub proof fn law_streams_end_with_their_channel(
    event: ChannelEvent,
    action: StreamAction,
    delivered: bool,
    next: PublishAction,
)
    requires
        call_ensures(stream_action, (event,), action),
        call_ensures(publish_action, (delivered,), next),
    ensures
        event matches ChannelEvent::Update(state) ==> action == StreamAction::Yield(state),
        event is Lagged ==> action == StreamAction::Skip,
        event is Closed <==> action == StreamAction::Stop,
        action == stream_step(event),
        next == PublishAction::Stop <==> !delivered,
{
}

/// What taking in a price does to the state of the service, and what is published
/// on it: the figures of the portfolio, which the price leaves as it was, under an
/// empty request id and with the time of the price.
pub proof fn law_price_is_taken_in(
    service: &mut QKukebService,
    venue: &str,
    instrument: &str,
    price: i64,
    ts_ns: u64,
    next_sigma_sq: Double,
    sigma_sq_text: &str,
    gates: Vec<GateStatus>,
    now_ns: u64,
    r: Result<RiskFrame, EngineError>,
)
    requires
        call_ensures(
            QKukebService::take_price,
            (
                service,
                venue,
                instrument,
                price,
                ts_ns,
                next_sigma_sq,
                sigma_sq_text,
                gates,
                now_ns,
            ),
            r,
        ),
    ensures
        ({
            let v: EngineView = old(service).state@;
            let w: EngineView = final(service).state@;
            let gross: FixedDecimal = crate::portfolio::gross_exposure(v.portfolio.positions);
            &&& final(service).state.wf()
            &&& w == v.fed(instrument@, price, ts_ns, next_sigma_sq)
            &&& w.portfolio == v.portfolio
            &&& r is Ok <==> v.portfolio.snapshot_defined()
            &&& r matches Err(e) ==> e == EngineError::SnapshotOverflow
            &&& r matches Ok(s) ==> {
                &&& s.venue@ == venue@ && s.instrument@ == instrument@
                &&& s.request_id@.len() == 0
                &&& s.garch_sigma_sq@ == sigma_sq_text@ && s.garch_last_ts_ns == ts_ns
                &&& s.gross_exposure_raw == gross.raw_units
                &&& s.gross_exposure_scale == gross.scale
                &&& s.gates@.len() == gates@.len()
                &&& s.ts_ns == now_ns
            }
        }),
{
    if let Ok(s) = r {
        assert(s@.gates.len() == crate::frames::gate_views(gates@).len());
        assert(s@.gates.len() == s.gates@.len());
    }
}

/// What `settle` does to the state and returns is what becomes of the request and
/// what it is told.
pub proof fn law_settling_comes_to_its_outcome(
    service: &mut QKukebService,
    req: TradeRequest,
    code: RiskGateCode,
    execution_id: &str,
    figures: VolatilityFigures,
    clock: ClockReadings,
    r: Result<Submission, EngineError>,
)
    requires
        call_ensures(
            QKukebService::settle,
            (service, &req, code, execution_id, &figures, clock),
            r,
        ),
    ensures
        final(service).state.wf(),
        final(service).state@ == settled_state(old(service).state@, req, code),
        carries(
            r,
            settled(old(service).state@, req, code, execution_id@, figures, clock),
        ),
{
}

/// What handling a trade command does and returns is what becomes of the request
/// under the code that the gates give it, and what it is told; where they cannot
/// give one, the state stays and the error says so.
pub proof fn law_trade_command_is_handled(
    service: &mut QKukebService,
    req: TradeRequest,
    market: MarketReading,
    figures: VolatilityFigures,
    received_ns: u64,
    clock: ClockReadings,
    r: Result<Submission, EngineError>,
    code: Result<RiskGateCode, EngineError>,
)
    requires
        call_ensures(
            QKukebService::submit_trade_command,
            (service, &req, &market, &figures, received_ns, clock),
            r,
        ),
        call_ensures(
            QKukebService::evaluate_gates,
            (&*old(service), &req, &market, figures.instrument_sigma_sq, received_ns),
            code,
        ),
    ensures
        final(service).state.wf(),
        code matches Err(e) ==> r == Err::<Submission, EngineError>(e)
            && final(service).state@ == old(service).state@,
        code matches Ok(c) ==> {
            &&& final(service).state@ == settled_state(old(service).state@, req, c)
            &&& exists|id: Seq<char>| #[trigger]
                submitted(
                    old(service).state@,
                    final(service).state@,
                    req,
                    c,
                    id,
                    figures,
                    clock,
                    r,
                )
        },
{
}

} // verus!
