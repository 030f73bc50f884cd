//! Deterministic fill simulation.
//!
//! The slippage of a simulated fill is a base amount plus a multiple of the
//! instrument's conditional variance. A fill whose slippage would exceed the
//! limit of its request is refused. The same request and the same slippage
//! always give the same result.

use crate::decimal::FixedDecimal;
use crate::double::Double;
use crate::messages::TradeRequest;
use vstd::prelude::*;

verus! {

/// The slippage that the model gives, in basis points.
#[derive(Debug, Clone, Copy, PartialEq, Eq, Structural)]
pub struct SlippageEstimate {
    /// As the model computes it.
    pub bps: Double,
    /// The same, rounded to four decimals.
    pub rounded_bps: FixedDecimal,
}

/// The outcome of a simulated fill.
#[derive(Debug, Clone, Copy, PartialEq, Eq, Structural)]
pub enum FillResult {
    /// The fill is within the slippage allowed.
    Filled {
        /// Average fill price, in quote currency.
        avg_price: FixedDecimal,
        /// Realized slippage, in basis points.
        slippage_bps: FixedDecimal,
    },
    /// The slippage would exceed the limit: there is no fill.
    SlippageExceeded {
        /// The slippage that there would have been, in basis points.
        computed_slippage_bps: Double,
        /// The largest slippage that the request accepts, in basis points.
        limit_bps: u32,
    },
}

/// The slippage is a number above the limit, which counts whole basis points.
pub open spec fn slippage_exceeds(bps: Double, limit_bps: u32) -> bool {
    !bps.not_a_number() && bps.units() > limit_bps * crate::double::pow2(1074)
}

/// The outcome of a fill: the notional stands in for the average price.
pub open spec fn fill_outcome(req: TradeRequest, slippage: SlippageEstimate) -> FillResult {
    if slippage_exceeds(slippage.bps, req.slippage_bps_limit) {
        FillResult::SlippageExceeded {
            computed_slippage_bps: slippage.bps,
            limit_bps: req.slippage_bps_limit,
        }
    } else {
        FillResult::Filled {
            avg_price: match req.notional_value {
                Some(n) => n,
                None => FixedDecimal { raw_units: 0, scale: 0 },
            },
            slippage_bps: slippage.rounded_bps,
        }
    }
}

/// Simulates the fill of a request at the slippage that the model gives for it.
pub fn simulate_fill(req: &TradeRequest, slippage: SlippageEstimate) -> (r: FillResult)
    ensures
        r == fill_outcome(*req, slippage),
{
    let limit_bps: u32 = req.slippage_bps_limit;
    if slippage.bps.exceeds(Double::from_u32(limit_bps)) {
        return FillResult::SlippageExceeded { computed_slippage_bps: slippage.bps, limit_bps };
    }
    let avg_price: FixedDecimal = match &req.notional_value {
        Some(n) => *n,
        None => FixedDecimal::zero(),
    };
    FillResult::Filled { avg_price, slippage_bps: slippage.rounded_bps }
}

/// A request that is filled at some limit is filled, alike, at any higher one.
pub proof fn law_higher_limit_keeps_the_fill(
    req: TradeRequest,
    other: TradeRequest,
    slippage: SlippageEstimate,
)
    requires
        other.notional_value == req.notional_value,
        other.slippage_bps_limit >= req.slippage_bps_limit,
        fill_outcome(req, slippage) is Filled,
    ensures
        fill_outcome(other, slippage) == fill_outcome(req, slippage),
{
    vstd::arithmetic::power2::lemma_pow2_pos(1074);
    let a: int = req.slippage_bps_limit as int;
    let b: int = other.slippage_bps_limit as int;
    let p: int = crate::double::pow2(1074);
    assert(a * p <= b * p) by (nonlinear_arith)
        requires
            a <= b,
            p > 0,
    ;
}

/// A request that is filled at some slippage is filled, at the same price, at any
/// smaller one; where the rounded slippage is no larger either, neither is the
/// one that the fill reports.
pub proof fn law_smaller_slippage_keeps_the_fill(
    req: TradeRequest,
    smaller: SlippageEstimate,
    larger: SlippageEstimate,
)
    requires
        smaller.bps.no_greater_than(larger.bps),
        fill_outcome(req, larger) is Filled,
    ensures
        fill_outcome(req, smaller) is Filled,
        fill_outcome(req, smaller)->avg_price == fill_outcome(req, larger)->avg_price,
        smaller.rounded_bps.raw_units <= larger.rounded_bps.raw_units ==> fill_outcome(
            req,
            smaller,
        )->slippage_bps.raw_units <= fill_outcome(req, larger)->slippage_bps.raw_units,
{
}

/// A fill is refused exactly where the slippage is a number above the limit of
/// the request, for every limit: a limit of `n` basis points is `n * 2^1074`
/// units. A refusal carries the slippage and the limit; a fill carries the
/// notional of the request, or zero, and the rounded slippage.
pub proof fn law_fill_is_refused_above_the_limit(
    req: TradeRequest,
    slippage: SlippageEstimate,
    r: FillResult,
)
    requires
        call_ensures(simulate_fill, (&req, slippage), r),
    ensures
        ({
            let above: bool = !slippage.bps.not_a_number() && slippage.bps.units()
                > req.slippage_bps_limit * vstd::arithmetic::power2::pow2(1074);
            &&& r == fill_outcome(req, slippage)
            &&& r is SlippageExceeded <==> above
            &&& r is Filled <==> !above
            &&& r matches FillResult::SlippageExceeded { computed_slippage_bps, limit_bps } ==> {
                &&& computed_slippage_bps == slippage.bps
                &&& limit_bps == req.slippage_bps_limit
            }
            &&& r matches FillResult::Filled { avg_price, slippage_bps } ==> {
                &&& slippage_bps == slippage.rounded_bps
                &&& req.notional_value matches Some(n) ==> avg_price == n
                &&& req.notional_value is None ==> avg_price.raw_units == 0 && avg_price.scale == 0
            }
        }),
{
}

} // verus!
