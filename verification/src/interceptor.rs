//! The risk interceptor: the chain of gates that a trade request has to pass.
//!
//! The order of the gates is fixed:
//!   0. signal invalidation: age, then price drift, fill probability and
//!      liquidity,
//!   1. portfolio drawdown,
//!   2. one-day 99% value at risk,
//!   3. GARCH(1,1) conditional variance.
//! The first gate that fails decides.

use crate::decimal::FixedDecimal;
use crate::double::Double;
use crate::messages::{RiskGateCode, TradeRequest};
use vstd::prelude::*;

verus! {

/// What a single gate says.
#[derive(Debug, Clone, Copy, PartialEq, Eq, Structural)]
pub enum GateResult {
    /// The request goes on to the next gate.
    Accepted,
    /// The request stops here, with this code.
    Rejected(RiskGateCode),
}

/// The risk state of the portfolio at one moment.
#[derive(Debug, Clone, Copy, PartialEq, Eq, Structural)]
pub struct PortfolioState {
    /// Drawdown from the high water mark, as a ratio.
    pub drawdown_pct: FixedDecimal,
    /// One-day 99% value at risk, as a ratio of the assets under management.
    pub var_1d_99_pct: FixedDecimal,
    /// GARCH(1,1) conditional variance.
    pub garch_sigma_sq: FixedDecimal,
    /// Notional exposure over all positions.
    pub gross_exposure: FixedDecimal,
    /// Directional notional exposure: long less short.
    pub net_exposure: FixedDecimal,
    pub open_position_count: u32,
    /// Assets under management, in quote currency.
    pub aum: FixedDecimal,
    /// High water mark, in quote currency.
    pub hwm: FixedDecimal,
}

/// The variance of an instrument with the parameters it was estimated under.
#[derive(Debug, Clone, Copy, PartialEq, Eq, Structural)]
pub struct GarchSnapshot {
    pub sigma_sq: Double,
    pub alpha: Double,
    pub beta: Double,
    pub omega: Double,
}

/// The mid-price of an instrument at two moments, in the same unit.
#[derive(Debug, Clone, Copy, PartialEq, Eq, Structural)]
pub struct MidPrices {
    /// When the signal was seen.
    pub at_signal: i64,
    /// Now.
    pub now: i64,
}

/// What is known of the market of an instrument.
#[derive(Debug, Clone, Copy, PartialEq, Eq, Structural)]
pub struct MarketReading {
    pub mid_prices: Option<MidPrices>,
    /// The probability of a fill, as a ratio.
    pub fill_probability: Option<FixedDecimal>,
    /// The liquidity of the book, in quote currency.
    pub available_liquidity: Option<FixedDecimal>,
}

impl MarketReading {
    /// Nothing is known of the market.
    pub fn unknown() -> (r: Self)
        ensures
            r == (MarketReading {
                mid_prices: None,
                fill_probability: None,
                available_liquidity: None,
            }),
    {
        MarketReading { mid_prices: None, fill_probability: None, available_liquidity: None }
    }
}

/// All that the gates look at besides the request.
#[derive(Debug, Clone, Copy, PartialEq, Eq, Structural)]
pub struct RiskContext {
    pub portfolio: PortfolioState,
    pub garch: GarchSnapshot,
    pub market: MarketReading,
}

/// The thresholds of the gates.
#[derive(Debug, Clone, Copy, PartialEq, Eq, Structural)]
pub struct GateConfig {
    /// The largest drawdown allowed, as a ratio.
    pub max_drawdown_pct: FixedDecimal,
    /// The largest value at risk allowed, as a ratio.
    pub max_var_1d_99_pct: FixedDecimal,
    /// The largest conditional variance under which positions are opened.
    pub max_garch_sigma_sq: Double,
    /// Cap on the notional of a single order, in quote currency.
    pub max_single_order_notional: FixedDecimal,
    /// Cap on leverage, as a multiplier.
    pub max_leverage_ratio: FixedDecimal,
    /// Cap on one instrument's share of the gross exposure, as a ratio.
    pub max_concentration_ratio: FixedDecimal,
}

/// The signal of a request is older than the request allows.
pub open spec fn is_stale(req: TradeRequest, now_ns: u64) -> bool {
    match (req.invalidation, req.signal_detected_at) {
        (Some(inv), Some(t)) => inv.signal_ttl_ms > 0 && now_ns - t.unix_nanos()
            > inv.signal_ttl_ms * 1_000_000,
        _ => false,
    }
}

/// How far apart two prices are.
pub open spec fn distance(a: int, b: int) -> int {
    if a >= b {
        a - b
    } else {
        b - a
    }
}

/// The mid-price has moved by more than a share of what it was, in basis points.
pub open spec fn drifted_beyond(prices: MidPrices, max_bps: u32) -> bool {
    distance(prices.now as int, prices.at_signal as int) * 10_000 > max_bps * distance(
        prices.at_signal as int,
        0,
    )
}

/// What is known of a figure falls short of what is asked for.
pub open spec fn falls_short(known: Option<FixedDecimal>, least: Option<FixedDecimal>) -> bool {
    match (known, least) {
        (Some(k), Some(l)) => k.less_than(l),
        _ => false,
    }
}

/// The market has moved away from the signal of a request, as far as it is
/// known: the price drifted too far, a fill is too improbable, or the book is
/// too thin.
pub open spec fn market_invalidates(req: TradeRequest, market: MarketReading) -> bool {
    match req.invalidation {
        Some(inv) => {
            ||| inv.max_price_drift_bps > 0 && market.mid_prices is Some && drifted_beyond(
                market.mid_prices->0,
                inv.max_price_drift_bps,
            )
            ||| falls_short(market.fill_probability, inv.min_fill_probability)
            ||| falls_short(market.available_liquidity, inv.min_available_liquidity)
        },
        None => false,
    }
}

/// The signal gate: it stops a request whose signal is too old, or that the
/// market has moved away from.
pub open spec fn signal_gate(req: TradeRequest, market: MarketReading, now_ns: u64) -> GateResult {
    if is_stale(req, now_ns) || market_invalidates(req, market) {
        GateResult::Rejected(RiskGateCode::RiskGateRejectedSignalStale)
    } else {
        GateResult::Accepted
    }
}

/// The drawdown gate: it stops a request where the drawdown is above its ceiling.
pub open spec fn drawdown_gate(config: GateConfig, state: PortfolioState) -> GateResult {
    if config.max_drawdown_pct.less_than(state.drawdown_pct) {
        GateResult::Rejected(RiskGateCode::RiskGateRejectedMaxDrawdown)
    } else {
        GateResult::Accepted
    }
}

/// The value-at-risk gate: it stops a request where the value at risk is above
/// its limit.
pub open spec fn var_gate(config: GateConfig, state: PortfolioState) -> GateResult {
    if config.max_var_1d_99_pct.less_than(state.var_1d_99_pct) {
        GateResult::Rejected(RiskGateCode::RiskGateRejectedVarBreach)
    } else {
        GateResult::Accepted
    }
}

/// The volatility gate: it stops a request where the variance is above its
/// ceiling.
pub open spec fn garch_gate(config: GateConfig, garch: GarchSnapshot) -> GateResult {
    if garch.sigma_sq.greater_than(config.max_garch_sigma_sq) {
        GateResult::Rejected(RiskGateCode::RiskGateRejectedGarchVolatility)
    } else {
        GateResult::Accepted
    }
}

/// The code of the first gate that stops a request, in the order given.
pub open spec fn first_rejection(gates: Seq<GateResult>) -> RiskGateCode
    decreases gates.len(),
{
    if gates.len() == 0 {
        RiskGateCode::RiskGateAccepted
    } else {
        match gates[0] {
            GateResult::Rejected(code) => code,
            GateResult::Accepted => first_rejection(gates.skip(1)),
        }
    }
}

/// The gates of the engine in their order.
pub open spec fn standard_gates(
    config: GateConfig,
    req: TradeRequest,
    ctx: RiskContext,
    now_ns: u64,
) -> Seq<GateResult> {
    seq![
        signal_gate(req, ctx.market, now_ns),
        drawdown_gate(config, ctx.portfolio),
        var_gate(config, ctx.portfolio),
        garch_gate(config, ctx.garch),
    ]
}

/// The code of the whole chain.
pub open spec fn gate_chain(
    config: GateConfig,
    req: TradeRequest,
    ctx: RiskContext,
    now_ns: u64,
) -> RiskGateCode {
    first_rejection(standard_gates(config, req, ctx, now_ns))
}

/// Whether the signal of a request is older than the request allows. A time
/// before the Unix epoch counts like any other.
fn signal_is_stale(req: &TradeRequest, now_ns: u64) -> (r: bool)
    ensures
        r == is_stale(*req, now_ns),
{
    match (&req.invalidation, &req.signal_detected_at) {
        (Some(inv), Some(t)) => {
            let detected_ns: i128 = t.seconds as i128 * 1_000_000_000 + t.nanos as i128;
            let age_ns: i128 = now_ns as i128 - detected_ns;
            inv.signal_ttl_ms > 0 && age_ns > inv.signal_ttl_ms as i128 * 1_000_000
        },
        _ => false,
    }
}

/// Whether the mid-price has moved by more than a share of what it was.
fn price_drifted(prices: &MidPrices, max_bps: u32) -> (r: bool)
    ensures
        r == drifted_beyond(*prices, max_bps),
{
    let was: i128 = prices.at_signal as i128;
    let is: i128 = prices.now as i128;
    let moved: i128 = if is >= was {
        is - was
    } else {
        was - is
    };
    let size: i128 = if was >= 0 {
        was
    } else {
        -was
    };
    let bps: i128 = max_bps as i128;
    assert(0 <= bps * size <= 0xffff_ffff * 0x8000_0000_0000_0000) by (nonlinear_arith)
        requires
            0 <= bps <= 0xffff_ffff,
            0 <= size <= 0x8000_0000_0000_0000,
    ;
    moved * 10_000 > bps * size
}

/// Whether what is known of a figure falls short of what is asked for.
fn is_short(known: &Option<FixedDecimal>, least: &Option<FixedDecimal>) -> (r: bool)
    ensures
        r == falls_short(*known, *least),
{
    match (known, least) {
        (Some(k), Some(l)) => !k.has_reached(l),
        _ => false,
    }
}

/// The part of the signal gate that looks at the market.
pub fn check_market_reading(req: &TradeRequest, market: &MarketReading) -> (r: GateResult)
    ensures
        r == (if market_invalidates(*req, *market) {
            GateResult::Rejected(RiskGateCode::RiskGateRejectedSignalStale)
        } else {
            GateResult::Accepted
        }),
{
    match &req.invalidation {
        Some(inv) => {
            let drifted: bool = match &market.mid_prices {
                Some(prices) => inv.max_price_drift_bps > 0 && price_drifted(
                    prices,
                    inv.max_price_drift_bps,
                ),
                None => false,
            };
            if drifted || is_short(&market.fill_probability, &inv.min_fill_probability)
                || is_short(&market.available_liquidity, &inv.min_available_liquidity) {
                GateResult::Rejected(RiskGateCode::RiskGateRejectedSignalStale)
            } else {
                GateResult::Accepted
            }
        },
        None => GateResult::Accepted,
    }
}

/// A chain of risk gates.
///
/// An implementor gives the thresholds, and may give gates of its own. The
/// chain itself is fixed: `evaluate` asks the gates in their order and stops at
/// the first that fails, and an implementor that gives another `evaluate` has
/// to meet the same contract.
pub trait RiskInterceptor: Send + Sync {
    /// The thresholds that the gates go by.
    spec fn thresholds(&self) -> GateConfig;

    /// The thresholds that the gates go by.
    fn config(&self) -> (config: &GateConfig)
        ensures
            *config == self.thresholds(),
    ;

    /// Gate 0: is the signal still worth acting on?
    fn check_signal_invalidation(
        &self,
        req: &TradeRequest,
        market: &MarketReading,
        now_ns: u64,
    ) -> (r: GateResult)
        default_ensures
            r == signal_gate(*req, *market, now_ns),
    {
        if signal_is_stale(req, now_ns) {
            return GateResult::Rejected(RiskGateCode::RiskGateRejectedSignalStale);
        }
        check_market_reading(req, market)
    }

    /// Gate 1: is the drawdown within its ceiling?
    fn check_drawdown(&self, state: &PortfolioState) -> (r: GateResult)
        default_ensures
            r == drawdown_gate(self.thresholds(), *state),
    {
        if !self.config().max_drawdown_pct.has_reached(&state.drawdown_pct) {
            GateResult::Rejected(RiskGateCode::RiskGateRejectedMaxDrawdown)
        } else {
            GateResult::Accepted
        }
    }

    /// Gate 2: is the value at risk within its limit?
    fn check_var(&self, state: &PortfolioState) -> (r: GateResult)
        default_ensures
            r == var_gate(self.thresholds(), *state),
    {
        if !self.config().max_var_1d_99_pct.has_reached(&state.var_1d_99_pct) {
            GateResult::Rejected(RiskGateCode::RiskGateRejectedVarBreach)
        } else {
            GateResult::Accepted
        }
    }

    /// Gate 3: is the conditional variance within its ceiling?
    fn check_garch(&self, garch: &GarchSnapshot) -> (r: GateResult)
        default_ensures
            r == garch_gate(self.thresholds(), *garch),
    {
        if garch.sigma_sq.exceeds(self.config().max_garch_sigma_sq) {
            GateResult::Rejected(RiskGateCode::RiskGateRejectedGarchVolatility)
        } else {
            GateResult::Accepted
        }
    }

    /// Asks the gates in order. The code of the first that fails is returned,
    /// and no gate after it is asked.
    fn evaluate(&self, req: &TradeRequest, ctx: &RiskContext, now_ns: u64) -> (code: RiskGateCode)
        ensures
            exists|g0: GateResult|
                {
                    &&& #[trigger] call_ensures(
                        Self::check_signal_invalidation,
                        (self, req, &ctx.market, now_ns),
                        g0,
                    )
                    &&& match g0 {
                        GateResult::Rejected(c) => code == c,
                        GateResult::Accepted => exists|g1: GateResult|
                            {
                                &&& #[trigger] call_ensures(
                                    Self::check_drawdown,
                                    (self, &ctx.portfolio),
                                    g1,
                                )
                                &&& match g1 {
                                    GateResult::Rejected(c) => code == c,
                                    GateResult::Accepted => exists|g2: GateResult|
                                        {
                                            &&& #[trigger] call_ensures(
                                                Self::check_var,
                                                (self, &ctx.portfolio),
                                                g2,
                                            )
                                            &&& match g2 {
                                                GateResult::Rejected(c) => code == c,
                                                GateResult::Accepted => exists|g3: GateResult|
                                                    {
                                                        &&& #[trigger] call_ensures(
                                                            Self::check_garch,
                                                            (self, &ctx.garch),
                                                            g3,
                                                        )
                                                        &&& match g3 {
                                                            GateResult::Rejected(c) => code == c,
                                                            GateResult::Accepted => code
                                                                == RiskGateCode::RiskGateAccepted,
                                                        }
                                                    },
                                            }
                                        },
                                }
                            },
                    }
                },
    {
        match self.check_signal_invalidation(req, &ctx.market, now_ns) {
            GateResult::Rejected(code) => return code,
            GateResult::Accepted => {},
        }
        match self.check_drawdown(&ctx.portfolio) {
            GateResult::Rejected(code) => return code,
            GateResult::Accepted => {},
        }
        match self.check_var(&ctx.portfolio) {
            GateResult::Rejected(code) => return code,
            GateResult::Accepted => {},
        }
        match self.check_garch(&ctx.garch) {
            GateResult::Rejected(code) => return code,
            GateResult::Accepted => {},
        }
        RiskGateCode::RiskGateAccepted
    }
}

/// The interceptor with the engine's own gates.
#[derive(Debug, Clone, Copy)]
pub struct DefaultRiskInterceptor {
    config: GateConfig,
}

impl DefaultRiskInterceptor {
    /// An interceptor with the given thresholds.
    pub fn new(config: GateConfig) -> (r: Self)
        ensures
            r.thresholds() == config,
    {
        DefaultRiskInterceptor { config }
    }
}

impl RiskInterceptor for DefaultRiskInterceptor {
    closed spec fn thresholds(&self) -> GateConfig {
        self.config
    }

    fn config(&self) -> (config: &GateConfig) {
        &self.config
    }
}

/// The first gate that fails decides, whatever the gates after it say.
pub proof fn law_first_failing_gate_decides(
    gates: Seq<GateResult>,
    i: int,
    code: RiskGateCode,
)
    requires
        0 <= i < gates.len(),
        forall|j: int| 0 <= j < i ==> gates[j] is Accepted,
        gates[i] == GateResult::Rejected(code),
    ensures
        first_rejection(gates) == code,
    decreases i,
{
    if i > 0 {
        assert(gates[0] is Accepted);
        assert forall|j: int| 0 <= j < i - 1 implies gates.skip(1)[j] is Accepted by {
            assert(gates[j + 1] is Accepted);
        }
        law_first_failing_gate_decides(gates.skip(1), i - 1, code);
    }
}

/// The chain accepts a request exactly where each of the four gates does, and
/// otherwise gives the code of the first that does not, in the order signal,
/// drawdown, value at risk, volatility.
pub proof fn law_gate_order(config: GateConfig, req: TradeRequest, ctx: RiskContext, now_ns: u64)
    ensures
        ({
            let code: RiskGateCode = gate_chain(config, req, ctx, now_ns);
            let valid: bool = signal_gate(req, ctx.market, now_ns) is Accepted;
            let drawdown: bool = drawdown_gate(config, ctx.portfolio) is Accepted;
            let var: bool = var_gate(config, ctx.portfolio) is Accepted;
            let calm: bool = garch_gate(config, ctx.garch) is Accepted;
            &&& code == RiskGateCode::RiskGateAccepted <==> valid && drawdown && var && calm
            &&& code == RiskGateCode::RiskGateRejectedSignalStale <==> !valid
            &&& code == RiskGateCode::RiskGateRejectedMaxDrawdown <==> valid && !drawdown
            &&& code == RiskGateCode::RiskGateRejectedVarBreach <==> valid && drawdown && !var
            &&& code == RiskGateCode::RiskGateRejectedGarchVolatility <==> valid && drawdown
                && var && !calm
        }),
{
    reveal_with_fuel(first_rejection, 5);
}

/// Whatever gates an implementor gives, where each of them answers a given
/// question in one way, the chain gives the code of the first that rejects, in
/// the order signal, drawdown, value at risk, volatility; and where no gate
/// rejects with the code of acceptance, it accepts exactly where all four do.
pub proof fn law_chain_follows_its_gates<I: RiskInterceptor>(
    interceptor: &I,
    req: &TradeRequest,
    ctx: &RiskContext,
    now_ns: u64,
    gates: Seq<GateResult>,
    code: RiskGateCode,
)
    requires
        gates.len() == 4,
        forall|g: GateResult|
            #[trigger] call_ensures(
                I::check_signal_invalidation,
                (interceptor, req, &ctx.market, now_ns),
                g,
            ) ==> g == gates[0],
        forall|g: GateResult|
            #[trigger] call_ensures(I::check_drawdown, (interceptor, &ctx.portfolio), g) ==> g
                == gates[1],
        forall|g: GateResult|
            #[trigger] call_ensures(I::check_var, (interceptor, &ctx.portfolio), g) ==> g
                == gates[2],
        forall|g: GateResult|
            #[trigger] call_ensures(I::check_garch, (interceptor, &ctx.garch), g) ==> g
                == gates[3],
        call_ensures(I::evaluate, (interceptor, req, ctx, now_ns), code),
    ensures
        code == first_rejection(gates),
        gates[0] matches GateResult::Rejected(c) ==> code == c,
        (forall|i: int|
            0 <= i < 4 ==> #[trigger] gates[i] != GateResult::Rejected(
                RiskGateCode::RiskGateAccepted,
            )) ==> (code == RiskGateCode::RiskGateAccepted <==> (forall|i: int|
            0 <= i < 4 ==> #[trigger] gates[i] is Accepted)),
{
    reveal_with_fuel(first_rejection, 5);
}

/// A request whose signal is older than it allows is rejected as stale, whatever
/// the portfolio and the market look like, and whenever the signal was seen.
pub proof fn law_stale_signal_is_rejected(
    config: GateConfig,
    req: TradeRequest,
    ctx: RiskContext,
    now_ns: u64,
)
    requires
        req.invalidation matches Some(inv) && inv.signal_ttl_ms > 0,
        req.signal_detected_at matches Some(t) && now_ns - t.unix_nanos()
            > req.invalidation->0.signal_ttl_ms * 1_000_000,
    ensures
        gate_chain(config, req, ctx, now_ns) == RiskGateCode::RiskGateRejectedSignalStale,
{
    law_gate_order(config, req, ctx, now_ns);
}

/// A signal goes stale once and for all: what is stale at one moment is stale at
/// every later one.
pub proof fn law_staleness_lasts(req: TradeRequest, now_ns: u64, later_ns: u64)
    requires
        is_stale(req, now_ns),
        now_ns <= later_ns,
    ensures
        is_stale(req, later_ns),
{
}

/// A request whose signal is within the age that it allows passes the signal gate
/// where nothing that is known of the market speaks against it.
pub proof fn law_fresh_signal_passes(req: TradeRequest, market: MarketReading, now_ns: u64)
    requires
        req.invalidation is Some,
        req.signal_detected_at matches Some(t) && now_ns - t.unix_nanos()
            <= req.invalidation->0.signal_ttl_ms * 1_000_000,
        !market_invalidates(req, market),
    ensures
        signal_gate(req, market, now_ns) is Accepted,
{
}

/// A request that sets no age limit, or carries no time, is never stale, and one
/// that sets no limits at all passes the signal gate.
pub proof fn law_unlimited_signal_passes(req: TradeRequest, market: MarketReading, now_ns: u64)
    ensures
        req.signal_detected_at is None || req.invalidation is None
            || req.invalidation->0.signal_ttl_ms == 0 ==> !is_stale(req, now_ns),
        req.invalidation is None ==> signal_gate(req, market, now_ns) is Accepted,
{
}

/// Where nothing is known of the market, the age alone decides the signal gate.
pub proof fn law_unknown_market_invalidates_nothing(
    req: TradeRequest,
    market: MarketReading,
    now_ns: u64,
)
    requires
        market.mid_prices is None,
        market.fill_probability is None,
        market.available_liquidity is None,
    ensures
        signal_gate(req, market, now_ns) is Rejected <==> is_stale(req, now_ns),
{
}

/// The age of the signal is above what the request allows.
pub open spec fn age_above_limit(req: TradeRequest, now_ns: u64) -> bool {
    &&& req.invalidation is Some
    &&& req.signal_detected_at is Some
    &&& req.invalidation->0.signal_ttl_ms > 0
    &&& now_ns - (req.signal_detected_at->0.seconds * 1_000_000_000
        + req.signal_detected_at->0.nanos) > req.invalidation->0.signal_ttl_ms * 1_000_000
}

/// The mid-price is further from what it was, up or down, than the request
/// allows: by more than so many ten-thousandths of it.
pub open spec fn drift_above_limit(req: TradeRequest, market: MarketReading) -> bool {
    &&& req.invalidation is Some
    &&& market.mid_prices is Some
    &&& req.invalidation->0.max_price_drift_bps > 0
    &&& {
        let bps: int = req.invalidation->0.max_price_drift_bps as int;
        let was: int = market.mid_prices->0.at_signal as int;
        let now: int = market.mid_prices->0.now as int;
        let size: int = if was < 0 {
            -was
        } else {
            was
        };
        (now - was) * 10_000 > bps * size || (was - now) * 10_000 > bps * size
    }
}

/// What is known of a figure is below the least that is asked for.
pub open spec fn known_below(known: Option<FixedDecimal>, least: Option<FixedDecimal>) -> bool {
    &&& known is Some
    &&& least is Some
    &&& crate::decimal::shifted(known->0, least->0.scale) < crate::decimal::shifted(
        least->0,
        known->0.scale,
    )
}

/// The signal is too old, the price has moved too far, a fill is too improbable
/// or the book is too thin.
pub open spec fn signal_breaks_a_limit(
    req: TradeRequest,
    market: MarketReading,
    now_ns: u64,
) -> bool {
    ||| age_above_limit(req, now_ns)
    ||| drift_above_limit(req, market)
    ||| (req.invalidation is Some && known_below(
        market.fill_probability,
        req.invalidation->0.min_fill_probability,
    ))
    ||| (req.invalidation is Some && known_below(
        market.available_liquidity,
        req.invalidation->0.min_available_liquidity,
    ))
}

/// A figure is above its maximum.
pub open spec fn above_maximum(figure: FixedDecimal, maximum: FixedDecimal) -> bool {
    crate::decimal::shifted(figure, maximum.scale) > crate::decimal::shifted(maximum, figure.scale)
}

/// A variance is above its ceiling: both are numbers, and the variance has the
/// larger value.
pub open spec fn above_ceiling(variance: Double, ceiling: Double) -> bool {
    !variance.not_a_number() && !ceiling.not_a_number() && variance.units() > ceiling.units()
}

/// When each gate rejects: the signal gate exactly where a limit of the request
/// is broken, the drawdown and the value-at-risk gate exactly where the figure is
/// above its maximum, and the volatility gate exactly where the variance is above
/// its ceiling. Each rejects with its own code.
pub proof fn law_when_each_gate_rejects(
    interceptor: DefaultRiskInterceptor,
    req: TradeRequest,
    ctx: RiskContext,
    now_ns: u64,
    g0: GateResult,
    g1: GateResult,
    g2: GateResult,
    g3: GateResult,
)
    requires
        call_ensures(
            DefaultRiskInterceptor::check_signal_invalidation,
            (&interceptor, &req, &ctx.market, now_ns),
            g0,
        ),
        call_ensures(DefaultRiskInterceptor::check_drawdown, (&interceptor, &ctx.portfolio), g1),
        call_ensures(DefaultRiskInterceptor::check_var, (&interceptor, &ctx.portfolio), g2),
        call_ensures(DefaultRiskInterceptor::check_garch, (&interceptor, &ctx.garch), g3),
    ensures
        ({
            let config: GateConfig = interceptor.thresholds();
            &&& g0 == if signal_breaks_a_limit(req, ctx.market, now_ns) {
                GateResult::Rejected(RiskGateCode::RiskGateRejectedSignalStale)
            } else {
                GateResult::Accepted
            }
            &&& g1 == if above_maximum(ctx.portfolio.drawdown_pct, config.max_drawdown_pct) {
                GateResult::Rejected(RiskGateCode::RiskGateRejectedMaxDrawdown)
            } else {
                GateResult::Accepted
            }
            &&& g2 == if above_maximum(ctx.portfolio.var_1d_99_pct, config.max_var_1d_99_pct) {
                GateResult::Rejected(RiskGateCode::RiskGateRejectedVarBreach)
            } else {
                GateResult::Accepted
            }
            &&& g3 == if above_ceiling(ctx.garch.sigma_sq, config.max_garch_sigma_sq) {
                GateResult::Rejected(RiskGateCode::RiskGateRejectedGarchVolatility)
            } else {
                GateResult::Accepted
            }
        }),
{
    lemma_gates_written_out(interceptor.thresholds(), req, ctx, now_ns);
}

/// What the chain says of a request, for all thresholds: the code of a stale
/// signal exactly where a limit of the request is broken; otherwise that of the
/// drawdown exactly where it is above its maximum; otherwise that of the value at
/// risk exactly where it is above its maximum; otherwise that of the volatility
/// exactly where the variance is above its ceiling; and otherwise acceptance.
pub proof fn law_when_the_chain_rejects(
    config: GateConfig,
    req: TradeRequest,
    ctx: RiskContext,
    now_ns: u64,
)
    ensures
        ({
            let code: RiskGateCode = gate_chain(config, req, ctx, now_ns);
            let stale: bool = signal_breaks_a_limit(req, ctx.market, now_ns);
            let drawdown: bool = above_maximum(
                ctx.portfolio.drawdown_pct,
                config.max_drawdown_pct,
            );
            let var: bool = above_maximum(
                ctx.portfolio.var_1d_99_pct,
                config.max_var_1d_99_pct,
            );
            let wild: bool = above_ceiling(ctx.garch.sigma_sq, config.max_garch_sigma_sq);
            &&& stale ==> code == RiskGateCode::RiskGateRejectedSignalStale
            &&& !stale && drawdown ==> code == RiskGateCode::RiskGateRejectedMaxDrawdown
            &&& !stale && !drawdown && var ==> code == RiskGateCode::RiskGateRejectedVarBreach
            &&& !stale && !drawdown && !var && wild ==> code
                == RiskGateCode::RiskGateRejectedGarchVolatility
            &&& !stale && !drawdown && !var && !wild ==> code == RiskGateCode::RiskGateAccepted
        }),
{
    lemma_gates_written_out(config, req, ctx, now_ns);
    law_gate_order(config, req, ctx, now_ns);
}

/// What `evaluate` returns on the engine's own interceptor is what the chain says
/// under its thresholds, and those are the ones that it was made with.
pub proof fn law_evaluation_is_the_chain(
    config: GateConfig,
    interceptor: DefaultRiskInterceptor,
    req: TradeRequest,
    ctx: RiskContext,
    now_ns: u64,
    code: RiskGateCode,
)
    requires
        call_ensures(DefaultRiskInterceptor::new, (config,), interceptor),
        call_ensures(
            DefaultRiskInterceptor::evaluate,
            (&interceptor, &req, &ctx, now_ns),
            code,
        ),
    ensures
        interceptor.thresholds() == config,
        code == gate_chain(config, req, ctx, now_ns),
{
    reveal_with_fuel(first_rejection, 5);
}

/// The part of the signal gate that looks at the market rejects exactly where the
/// market breaks a limit of the request.
pub proof fn law_market_part_of_the_signal_gate(
    req: TradeRequest,
    market: MarketReading,
    r: GateResult,
)
    requires
        call_ensures(check_market_reading, (&req, &market), r),
    ensures
        ({
            let none: TradeRequest = TradeRequest { signal_detected_at: None, ..req };
            r == if signal_breaks_a_limit(none, market, 0) {
                GateResult::Rejected(RiskGateCode::RiskGateRejectedSignalStale)
            } else {
                GateResult::Accepted
            }
        }),
{
    lemma_shortfall(market.fill_probability, req.invalidation->0.min_fill_probability);
    lemma_shortfall(market.available_liquidity, req.invalidation->0.min_available_liquidity);
}

proof fn lemma_shortfall(known: Option<FixedDecimal>, least: Option<FixedDecimal>)
    ensures
        falls_short(known, least) <==> known_below(known, least),
{
    if known is Some && least is Some {
        crate::decimal::law_order_goes_by_cross_products(known->0, least->0);
    }
}

proof fn lemma_gates_written_out(
    config: GateConfig,
    req: TradeRequest,
    ctx: RiskContext,
    now_ns: u64,
)
    ensures
        signal_gate(req, ctx.market, now_ns) is Rejected <==> signal_breaks_a_limit(
            req,
            ctx.market,
            now_ns,
        ),
        drawdown_gate(config, ctx.portfolio) is Rejected <==> above_maximum(
            ctx.portfolio.drawdown_pct,
            config.max_drawdown_pct,
        ),
        var_gate(config, ctx.portfolio) is Rejected <==> above_maximum(
            ctx.portfolio.var_1d_99_pct,
            config.max_var_1d_99_pct,
        ),
        garch_gate(config, ctx.garch) is Rejected <==> above_ceiling(
            ctx.garch.sigma_sq,
            config.max_garch_sigma_sq,
        ),
{
    lemma_shortfall(ctx.market.fill_probability, req.invalidation->0.min_fill_probability);
    lemma_shortfall(ctx.market.available_liquidity, req.invalidation->0.min_available_liquidity);
    crate::decimal::law_order_goes_by_cross_products(
        config.max_drawdown_pct,
        ctx.portfolio.drawdown_pct,
    );
    crate::decimal::law_order_goes_by_cross_products(
        config.max_var_1d_99_pct,
        ctx.portfolio.var_1d_99_pct,
    );
}

/// Of a market that nothing is known of, no figure is known.
pub proof fn law_unknown_market_has_no_figures(r: MarketReading)
    requires
        call_ensures(MarketReading::unknown, (), r),
    ensures
        r.mid_prices is None,
        r.fill_probability is None,
        r.available_liquidity is None,
{
}

} // verus!
