//! The portfolio: open positions, exposure, equity and drawdown.

use crate::decimal::FixedDecimal;
use crate::interceptor::PortfolioState;
use vstd::prelude::*;

verus! {

/// A position in one instrument.
#[derive(Debug, Clone)]
pub struct Position {
    pub instrument: String,
    /// 1 for a long position, 2 for a short one.
    pub side: i32,
    pub notional: FixedDecimal,
    pub entry_price: FixedDecimal,
    pub leverage: FixedDecimal,
    pub unrealized_pnl: FixedDecimal,
}

/// What a position stands for.
#[verifier::ext_equal]
pub struct PositionView {
    pub instrument: Seq<char>,
    pub side: i32,
    pub notional: FixedDecimal,
    pub entry_price: FixedDecimal,
    pub leverage: FixedDecimal,
    pub unrealized_pnl: FixedDecimal,
}

impl View for Position {
    type V = PositionView;

    open spec fn view(&self) -> PositionView {
        PositionView {
            instrument: self.instrument@,
            side: self.side,
            notional: self.notional,
            entry_price: self.entry_price,
            leverage: self.leverage,
            unrealized_pnl: self.unrealized_pnl,
        }
    }
}

/// Zero, at scale zero.
pub open spec fn zero_decimal() -> FixedDecimal {
    FixedDecimal { raw_units: 0, scale: 0 }
}

/// The notional of all positions together.
pub open spec fn gross_exposure(ps: Seq<PositionView>) -> FixedDecimal
    decreases ps.len(),
{
    if ps.len() == 0 {
        zero_decimal()
    } else {
        gross_exposure(ps.drop_last()).plus(ps.last().notional)
    }
}

/// Each step of the gross exposure fits.
pub open spec fn gross_defined(ps: Seq<PositionView>) -> bool
    decreases ps.len(),
{
    ps.len() > 0 ==> {
        &&& gross_defined(ps.drop_last())
        &&& gross_exposure(ps.drop_last()).addable(ps.last().notional)
    }
}

/// The notional of the long positions less that of the short ones; a position
/// that is neither counts for nothing.
pub open spec fn net_exposure(ps: Seq<PositionView>) -> FixedDecimal
    decreases ps.len(),
{
    if ps.len() == 0 {
        zero_decimal()
    } else if ps.last().side == 1 {
        net_exposure(ps.drop_last()).plus(ps.last().notional)
    } else if ps.last().side == 2 {
        net_exposure(ps.drop_last()).minus(ps.last().notional)
    } else {
        net_exposure(ps.drop_last())
    }
}

/// Each step of the net exposure fits.
pub open spec fn net_defined(ps: Seq<PositionView>) -> bool
    decreases ps.len(),
{
    ps.len() > 0 ==> {
        &&& net_defined(ps.drop_last())
        &&& ps.last().side == 1 ==> net_exposure(ps.drop_last()).addable(ps.last().notional)
        &&& ps.last().side == 2 ==> net_exposure(ps.drop_last()).subtractable(
            ps.last().notional,
        )
    }
}

/// The unrealized profit and loss of all positions together.
pub open spec fn total_pnl(ps: Seq<PositionView>) -> FixedDecimal
    decreases ps.len(),
{
    if ps.len() == 0 {
        zero_decimal()
    } else {
        total_pnl(ps.drop_last()).plus(ps.last().unrealized_pnl)
    }
}

/// Each step of the total profit and loss fits.
pub open spec fn pnl_defined(ps: Seq<PositionView>) -> bool
    decreases ps.len(),
{
    ps.len() > 0 ==> {
        &&& pnl_defined(ps.drop_last())
        &&& total_pnl(ps.drop_last()).addable(ps.last().unrealized_pnl)
    }
}

/// What is totalled over the positions.
#[derive(Clone, Copy)]
enum Figure {
    Gross,
    Net,
    Pnl,
}

impl Figure {
    /// The total over some positions.
    spec fn total(self, ps: Seq<PositionView>) -> FixedDecimal {
        match self {
            Figure::Gross => gross_exposure(ps),
            Figure::Net => net_exposure(ps),
            Figure::Pnl => total_pnl(ps),
        }
    }

    /// Each step of the total fits.
    spec fn total_defined(self, ps: Seq<PositionView>) -> bool {
        match self {
            Figure::Gross => gross_defined(ps),
            Figure::Net => net_defined(ps),
            Figure::Pnl => pnl_defined(ps),
        }
    }
}

/// The equity is short of a positive high water mark.
pub open spec fn in_drawdown(equity: FixedDecimal, hwm: FixedDecimal) -> bool {
    hwm.raw_units > 0 && equity.less_than(hwm)
}

/// The drawdown can be formed: the loss, and a million times the loss, fit.
pub open spec fn drawdown_defined(equity: FixedDecimal, hwm: FixedDecimal) -> bool {
    in_drawdown(equity, hwm) ==> {
        &&& equity.alignable(hwm)
        &&& crate::decimal::fits_i64(hwm.difference_units(equity))
        &&& crate::decimal::fits_i64(hwm.difference_units(equity) * 1_000_000)
    }
}

/// The loss from the high water mark as a share of it, in whole millionths,
/// rounded down; zero where the mark is met or is not positive.
pub open spec fn drawdown_ratio(equity: FixedDecimal, hwm: FixedDecimal) -> FixedDecimal {
    if in_drawdown(equity, hwm) {
        let s: int = crate::decimal::finer_scale(equity, hwm) as int;
        FixedDecimal {
            raw_units: (hwm.difference_units(equity) * 1_000_000 / hwm.units_at(s)) as i64,
            scale: 6,
        }
    } else {
        zero_decimal()
    }
}

/// What a portfolio stands for.
#[verifier::ext_equal]
pub struct PortfolioView {
    /// The open positions, in the order in which they were opened.
    pub positions: Seq<PositionView>,
    /// Assets under management.
    pub aum: FixedDecimal,
    /// High water mark.
    pub hwm: FixedDecimal,
}

impl PortfolioView {
    /// No instrument has two positions.
    pub open spec fn distinct(self) -> bool {
        forall|i: int, j: int|
            #![trigger self.positions[i], self.positions[j]]
            0 <= i < j < self.positions.len() ==> self.positions[i].instrument
                != self.positions[j].instrument
    }

    /// The `i`-th position is in the instrument.
    pub open spec fn is_position_of(self, i: int, instrument: Seq<char>) -> bool {
        0 <= i < self.positions.len() && self.positions[i].instrument == instrument
    }

    /// There is a position in the instrument.
    pub open spec fn holds(self, instrument: Seq<char>) -> bool {
        exists|i: int| self.is_position_of(i, instrument)
    }

    /// Where the position in an instrument stands, if there is one.
    pub open spec fn index(self, instrument: Seq<char>) -> int {
        choose|i: int| self.is_position_of(i, instrument)
    }

    /// The position in an instrument, if there is one.
    pub open spec fn position(self, instrument: Seq<char>) -> PositionView {
        self.positions[self.index(instrument)]
    }

    /// The notional held in an instrument, zero where there is no position.
    pub open spec fn notional_of(self, instrument: Seq<char>) -> FixedDecimal {
        if self.holds(instrument) {
            self.position(instrument).notional
        } else {
            zero_decimal()
        }
    }

    /// The portfolio after a position was opened or added to. Adding keeps the
    /// side, the entry price and the leverage that the position began with.
    pub open spec fn opened(
        self,
        instrument: Seq<char>,
        side: i32,
        notional: FixedDecimal,
        entry_price: FixedDecimal,
        leverage: FixedDecimal,
    ) -> PortfolioView {
        let held: FixedDecimal = self.notional_of(instrument).plus(notional);
        PortfolioView {
            positions: if self.holds(instrument) {
                self.positions.update(
                    self.index(instrument),
                    PositionView { notional: held, ..self.position(instrument) },
                )
            } else {
                self.positions.push(
                    PositionView {
                        instrument,
                        side,
                        notional: held,
                        entry_price,
                        leverage,
                        unrealized_pnl: zero_decimal(),
                    },
                )
            },
            ..self
        }
    }

    /// The reduction takes the whole position.
    pub open spec fn closes_fully(self, instrument: Seq<char>, reduce: FixedDecimal) -> bool {
        !reduce.less_than(self.position(instrument).notional)
    }

    /// The reduction can be formed.
    pub open spec fn can_close(self, instrument: Seq<char>, reduce: FixedDecimal) -> bool {
        self.holds(instrument) ==> {
            &&& reduce.alignable(self.position(instrument).notional)
            &&& self.closes_fully(instrument, reduce) || self.position(
                instrument,
            ).notional.subtractable(reduce)
        }
    }

    /// The portfolio after a position was reduced; a position that nothing
    /// remains of is gone.
    pub open spec fn closed(self, instrument: Seq<char>, reduce: FixedDecimal) -> PortfolioView {
        PortfolioView {
            positions: if !self.holds(instrument) {
                self.positions
            } else if self.closes_fully(instrument, reduce) {
                self.positions.remove(self.index(instrument))
            } else {
                self.positions.update(
                    self.index(instrument),
                    PositionView {
                        notional: self.position(instrument).notional.minus(reduce),
                        ..self.position(instrument)
                    },
                )
            },
            ..self
        }
    }

    /// What remains of a position after it was reduced, if anything.
    pub open spec fn remaining(self, instrument: Seq<char>, reduce: FixedDecimal) -> Option<
        FixedDecimal,
    > {
        if self.holds(instrument) && !self.closes_fully(instrument, reduce) {
            Some(self.position(instrument).notional.minus(reduce))
        } else {
            None
        }
    }

    /// Assets under management with the unrealized profit and loss.
    pub open spec fn equity(self) -> FixedDecimal {
        self.aum.plus(total_pnl(self.positions))
    }

    /// Every figure of the snapshot can be formed.
    pub open spec fn snapshot_defined(self) -> bool {
        &&& gross_defined(self.positions)
        &&& net_defined(self.positions)
        &&& pnl_defined(self.positions)
        &&& self.aum.addable(total_pnl(self.positions))
        &&& drawdown_defined(self.equity(), self.hwm)
    }

    /// The risk figures. The value at risk is a fixed 0.50%.
    pub open spec fn risk_figures(self, garch_sigma_sq: FixedDecimal) -> PortfolioState {
        PortfolioState {
            drawdown_pct: drawdown_ratio(self.equity(), self.hwm),
            var_1d_99_pct: FixedDecimal { raw_units: 50, scale: 4 },
            garch_sigma_sq,
            gross_exposure: gross_exposure(self.positions),
            net_exposure: net_exposure(self.positions),
            open_position_count: self.positions.len() as u32,
            aum: self.aum,
            hwm: self.hwm,
        }
    }
}

/// The drawdown from the high water mark, where it fits.
pub fn checked_drawdown(equity: FixedDecimal, hwm: FixedDecimal) -> (r: Option<FixedDecimal>)
    ensures
        r == (if drawdown_defined(equity, hwm) {
            Some(drawdown_ratio(equity, hwm))
        } else {
            None
        }),
{
    if hwm.raw_units > 0 && equity < hwm {
        match FixedDecimal::checked_normalize_pair(&equity, &hwm) {
            Some((eq_raw, hwm_raw, _)) => match hwm_raw.checked_sub(eq_raw) {
                Some(loss) => match loss.checked_mul(1_000_000) {
                    Some(millionths) => {
                        proof {
                            crate::decimal::lemma_units_sign(hwm, crate::decimal::finer_scale(equity, hwm) as int);
                        }
                        Some(FixedDecimal { raw_units: millionths / hwm_raw, scale: 6 })
                    },
                    None => None,
                },
                None => None,
            },
            None => None,
        }
    } else {
        Some(FixedDecimal::zero())
    }
}

/// Tracks the positions of the portfolio. No instrument has two positions.
#[derive(Debug)]
pub struct PortfolioStateManager {
    positions: Vec<Position>,
    aum: FixedDecimal,
    hwm: FixedDecimal,
}

impl View for PortfolioStateManager {
    type V = PortfolioView;

    closed spec fn view(&self) -> PortfolioView {
        PortfolioView {
            positions: self.positions@.map_values(|p: Position| p@),
            aum: self.aum,
            hwm: self.hwm,
        }
    }
}

impl PortfolioStateManager {
    /// The invariant of the portfolio.
    pub open spec fn wf(self) -> bool {
        self@.distinct()
    }

    /// A portfolio without positions, at its high water mark.
    pub fn new(initial_aum: FixedDecimal) -> (r: Self)
        ensures
            r.wf(),
            r@ == (PortfolioView {
                positions: Seq::empty(),
                aum: initial_aum,
                hwm: initial_aum,
            }),
    {
        let r: PortfolioStateManager = PortfolioStateManager {
            positions: Vec::new(),
            aum: initial_aum,
            hwm: initial_aum,
        };
        assert(r@.positions =~= Seq::empty());
        r
    }

    /// Where the position in an instrument stands, if there is one.
    fn find(&self, instrument: &str) -> (r: Option<usize>)
        requires
            self.wf(),
        ensures
            match r {
                Some(i) => {
                    &&& i < self.positions@.len()
                    &&& self@.holds(instrument@)
                    &&& self@.index(instrument@) == i
                },
                None => !self@.holds(instrument@),
            },
    {
        let wanted: String = instrument.to_owned();
        let mut i: usize = 0;
        while i < self.positions.len()
            invariant
                self.wf(),
                i <= self.positions@.len(),
                wanted@ == instrument@,
                forall|j: int| 0 <= j < i ==> !(#[trigger] self@.is_position_of(j, instrument@)),
            decreases self.positions@.len() - i,
        {
            if self.positions[i].instrument == wanted {
                proof {
                    assert(self@.is_position_of(i as int, instrument@));
                    let k: int = self@.index(instrument@);
                    assert(self@.is_position_of(k, instrument@));
                    assert(k == i) by {
                        if k < i {
                            assert(self@.positions[k].instrument != self@.positions[i as int].instrument);
                        } else if i < k {
                            assert(self@.positions[i as int].instrument != self@.positions[k].instrument);
                        }
                    }
                }
                return Some(i);
            }
            i = i + 1;
        }
        None
    }

    /// The notional that a position in the instrument would have after adding to
    /// it, where it fits.
    fn added_notional(&self, instrument: &str, notional: FixedDecimal) -> (r: Option<FixedDecimal>)
        requires
            self.wf(),
        ensures
            r == (if self@.notional_of(instrument@).addable(notional) {
                Some(self@.notional_of(instrument@).plus(notional))
            } else {
                None
            }),
    {
        match self.find(instrument) {
            Some(i) => self.positions[i].notional.checked_add(notional),
            None => FixedDecimal::zero().checked_add(notional),
        }
    }

    /// Whether a position can be opened or added to: whether its notional fits.
    pub fn can_open_position(&self, instrument: &str, notional: FixedDecimal) -> (r: bool)
        requires
            self.wf(),
        ensures
            r == self@.notional_of(instrument@).addable(notional),
    {
        self.added_notional(instrument, notional).is_some()
    }

    /// Opens a new position or adds to an existing one.
    pub fn open_position(
        &mut self,
        instrument: &str,
        side: i32,
        notional: FixedDecimal,
        entry_price: FixedDecimal,
        leverage: FixedDecimal,
    )
        requires
            old(self).wf(),
            old(self)@.notional_of(instrument@).addable(notional),
        ensures
            final(self).wf(),
            final(self)@ == old(self)@.opened(
                instrument@,
                side,
                notional,
                entry_price,
                leverage,
            ),
    {
        let ghost before: PortfolioView = self@;
        let ghost after: PortfolioView = before.opened(
            instrument@,
            side,
            notional,
            entry_price,
            leverage,
        );
        let held: FixedDecimal = self.added_notional(instrument, notional).unwrap();
        match self.find(instrument) {
            Some(i) => {
                self.positions[i].notional = held;
            },
            None => {
                self.positions.push(
                    Position {
                        instrument: instrument.to_owned(),
                        side,
                        notional: held,
                        entry_price,
                        leverage,
                        unrealized_pnl: FixedDecimal::zero(),
                    },
                );
            },
        }
        proof {
            assert(self@.positions =~= after.positions);
            lemma_opened_distinct(
                before,
                instrument@,
                side,
                notional,
                entry_price,
                leverage,
            );
        }
    }

    /// Reduces a position, and removes it where nothing remains. Returns what
    /// remains of it.
    pub fn close_position(&mut self, instrument: &str, reduce_notional: FixedDecimal) -> (r: Option<
        FixedDecimal,
    >)
        requires
            old(self).wf(),
            old(self)@.can_close(instrument@, reduce_notional),
        ensures
            final(self).wf(),
            final(self)@ == old(self)@.closed(instrument@, reduce_notional),
            r == old(self)@.remaining(instrument@, reduce_notional),
    {
        let ghost before: PortfolioView = self@;
        let ghost after: PortfolioView = before.closed(instrument@, reduce_notional);
        let r: Option<FixedDecimal> = match self.find(instrument) {
            Some(i) => {
                let held: FixedDecimal = self.positions[i].notional;
                assert(held == before.position(instrument@).notional);
                let (reduce_raw, held_raw, scale) = FixedDecimal::normalize_pair(
                    &reduce_notional,
                    &held,
                );
                if reduce_raw >= held_raw {
                    let _ = self.positions.remove(i);
                    None
                } else {
                    let left: FixedDecimal = FixedDecimal::new(held_raw - reduce_raw, scale);
                    self.positions[i].notional = left;
                    Some(left)
                }
            },
            None => None,
        };
        proof {
            assert(self@.positions =~= after.positions);
            lemma_closed_distinct(before, instrument@, reduce_notional);
        }
        r
    }

    /// A total over the positions, where it fits.
    fn checked_total(&self, figure: Figure) -> (r: Option<FixedDecimal>)
        ensures
            r == (if figure.total_defined(self@.positions) {
                Some(figure.total(self@.positions))
            } else {
                None
            }),
    {
        let mut sum: FixedDecimal = FixedDecimal::zero();
        let mut i: usize = 0;
        let ghost ps: Seq<PositionView> = self@.positions;
        assert(ps.take(0) =~= Seq::empty());
        while i < self.positions.len()
            invariant
                ps == self@.positions,
                i <= ps.len(),
                ps.len() == self.positions@.len(),
                figure.total_defined(ps.take(i as int)),
                sum == figure.total(ps.take(i as int)),
            decreases ps.len() - i,
        {
            assert(ps.take(i + 1).drop_last() =~= ps.take(i as int));
            let p: &Position = &self.positions[i];
            let next: Option<FixedDecimal> = match figure {
                Figure::Gross => sum.checked_add(p.notional),
                Figure::Net => match p.side {
                    1 => sum.checked_add(p.notional),
                    2 => sum.checked_sub(p.notional),
                    _ => Some(sum),
                },
                Figure::Pnl => sum.checked_add(p.unrealized_pnl),
            };
            match next {
                Some(n) => {
                    sum = n;
                },
                None => {
                    proof {
                        lemma_defined_prefix(ps, i + 1);
                    }
                    return None;
                },
            }
            i = i + 1;
        }
        assert(ps.take(i as int) =~= ps);
        Some(sum)
    }

    /// The risk figures, where each of them fits.
    pub fn checked_snapshot(&self, garch_sigma_sq: FixedDecimal) -> (r: Option<PortfolioState>)
        ensures
            r == (if self@.snapshot_defined() {
                Some(self@.risk_figures(garch_sigma_sq))
            } else {
                None
            }),
    {
        let gross: FixedDecimal = match self.checked_total(Figure::Gross) {
            Some(d) => d,
            None => return None,
        };
        let net: FixedDecimal = match self.checked_total(Figure::Net) {
            Some(d) => d,
            None => return None,
        };
        let pnl: FixedDecimal = match self.checked_total(Figure::Pnl) {
            Some(d) => d,
            None => return None,
        };
        let equity: FixedDecimal = match self.aum.checked_add(pnl) {
            Some(d) => d,
            None => return None,
        };
        let drawdown_pct: FixedDecimal = match checked_drawdown(equity, self.hwm) {
            Some(d) => d,
            None => return None,
        };
        Some(
            PortfolioState {
                drawdown_pct,
                var_1d_99_pct: FixedDecimal::new(50, 4),
                garch_sigma_sq,
                gross_exposure: gross,
                net_exposure: net,
                open_position_count: self.positions.len() as u32,
                aum: self.aum,
                hwm: self.hwm,
            },
        )
    }

    /// The risk figures for the gates. `garch_sigma_sq` is the variance of the
    /// instrument in question, at scale 8.
    pub fn snapshot(&self, garch_sigma_sq: FixedDecimal) -> (r: PortfolioState)
        requires
            self@.snapshot_defined(),
        ensures
            r == self@.risk_figures(garch_sigma_sq),
    {
        self.checked_snapshot(garch_sigma_sq).unwrap()
    }

    /// How many positions are open.
    pub fn position_count(&self) -> (r: usize)
        ensures
            r == self@.positions.len(),
    {
        self.positions.len()
    }
}

/// Opening a position leaves every instrument with one position at most.
proof fn lemma_opened_distinct(
    v: PortfolioView,
    instrument: Seq<char>,
    side: i32,
    notional: FixedDecimal,
    entry_price: FixedDecimal,
    leverage: FixedDecimal,
)
    requires
        v.distinct(),
    ensures
        v.opened(instrument, side, notional, entry_price, leverage).distinct(),
{
    let w: PortfolioView = v.opened(instrument, side, notional, entry_price, leverage);
    if v.holds(instrument) {
        assert(v.is_position_of(v.index(instrument), instrument));
    }
    assert forall|i: int, j: int|
        #![trigger w.positions[i], w.positions[j]]
        0 <= i < j < w.positions.len() implies w.positions[i].instrument
        != w.positions[j].instrument by {
        if v.holds(instrument) {
            assert(v.positions[i].instrument != v.positions[j].instrument);
        } else if j < v.positions.len() {
            assert(v.positions[i].instrument != v.positions[j].instrument);
        } else {
            assert(!v.is_position_of(i, instrument));
        }
    }
}

/// Closing a position leaves every instrument with one position at most.
proof fn lemma_closed_distinct(v: PortfolioView, instrument: Seq<char>, reduce: FixedDecimal)
    requires
        v.distinct(),
    ensures
        v.closed(instrument, reduce).distinct(),
{
    let w: PortfolioView = v.closed(instrument, reduce);
    if v.holds(instrument) {
        let k: int = v.index(instrument);
        assert(v.is_position_of(k, instrument));
        assert forall|i: int, j: int|
            #![trigger w.positions[i], w.positions[j]]
            0 <= i < j < w.positions.len() implies w.positions[i].instrument
            != w.positions[j].instrument by {
            if v.closes_fully(instrument, reduce) {
                let a: int = if i < k {
                    i
                } else {
                    i + 1
                };
                let b: int = if j < k {
                    j
                } else {
                    j + 1
                };
                assert(v.positions[a].instrument != v.positions[b].instrument);
            } else {
                assert(v.positions[i].instrument != v.positions[j].instrument);
            }
        }
    }
}

/// Where a sum over all positions can be formed, so can the sum over the first
/// few of them.
proof fn lemma_defined_prefix(ps: Seq<PositionView>, n: int)
    requires
        0 <= n <= ps.len(),
    ensures
        gross_defined(ps) ==> gross_defined(ps.take(n)),
        net_defined(ps) ==> net_defined(ps.take(n)),
        pnl_defined(ps) ==> pnl_defined(ps.take(n)),
    decreases ps.len() - n,
{
    if n < ps.len() {
        lemma_defined_prefix(ps, n + 1);
        assert(ps.take(n + 1).drop_last() =~= ps.take(n));
    } else {
        assert(ps.take(n) =~= ps);
    }
}

/// The sum of a figure over all positions.
pub open spec fn total_of(ps: Seq<PositionView>, figure: spec_fn(PositionView) -> int) -> int
    decreases ps.len(),
{
    if ps.len() == 0 {
        0
    } else {
        total_of(ps.drop_last(), figure) + figure(ps.last())
    }
}

/// The notional of a position, in units of `10^(-t)`.
pub open spec fn notional_units(t: int) -> spec_fn(PositionView) -> int {
    |p: PositionView| p.notional.units_at(t)
}

/// The notional of a position in the direction of its side, in units of
/// `10^(-t)`.
pub open spec fn directed_units(t: int) -> spec_fn(PositionView) -> int {
    |p: PositionView|
        if p.side == 1 {
            p.notional.units_at(t)
        } else if p.side == 2 {
            -p.notional.units_at(t)
        } else {
            0
        }
}

/// No notional has a finer scale than `t`.
pub open spec fn within_scale(ps: Seq<PositionView>, t: int) -> bool {
    0 <= t && forall|i: int| 0 <= i < ps.len() ==> (#[trigger] ps[i]).notional.scale <= t
}

/// The gross exposure is worth exactly what the positions are worth together,
/// at every scale that is fine enough for all of them.
pub proof fn law_gross_exposure_is_the_sum(ps: Seq<PositionView>, t: int)
    requires
        gross_defined(ps),
        within_scale(ps, t),
    ensures
        gross_exposure(ps).scale <= t,
        gross_exposure(ps).units_at(t) == total_of(ps, notional_units(t)),
    decreases ps.len(),
{
    if ps.len() > 0 {
        let less: Seq<PositionView> = ps.drop_last();
        assert(within_scale(less, t));
        law_gross_exposure_is_the_sum(less, t);
        assert(ps[ps.len() - 1].notional.scale <= t);
        crate::decimal::law_sum_is_exact(gross_exposure(less), ps.last().notional, t);
    } else {
        assert(0 * crate::decimal::pow10(t) == 0);
    }
}

/// The net exposure is worth exactly what the long positions are worth less the
/// short ones, at every scale that is fine enough for all of them.
pub proof fn law_net_exposure_is_long_less_short(ps: Seq<PositionView>, t: int)
    requires
        net_defined(ps),
        within_scale(ps, t),
    ensures
        net_exposure(ps).scale <= t,
        net_exposure(ps).units_at(t) == total_of(ps, directed_units(t)),
    decreases ps.len(),
{
    if ps.len() > 0 {
        let less: Seq<PositionView> = ps.drop_last();
        assert(within_scale(less, t));
        law_net_exposure_is_long_less_short(less, t);
        assert(ps[ps.len() - 1].notional.scale <= t);
        if ps.last().side == 1 {
            crate::decimal::law_sum_is_exact(net_exposure(less), ps.last().notional, t);
        } else if ps.last().side == 2 {
            crate::decimal::law_difference_is_exact(net_exposure(less), ps.last().notional, t);
        }
    } else {
        assert(0 * crate::decimal::pow10(t) == 0);
    }
}

/// Taking one position out of a sum takes out its figure.
proof fn lemma_total_without(
    ps: Seq<PositionView>,
    figure: spec_fn(PositionView) -> int,
    k: int,
)
    requires
        0 <= k < ps.len(),
    ensures
        total_of(ps, figure) == total_of(ps.remove(k), figure) + figure(ps[k]),
    decreases ps.len(),
{
    let less: Seq<PositionView> = ps.drop_last();
    if k == ps.len() - 1 {
        assert(ps.remove(k) =~= less);
    } else {
        lemma_total_without(less, figure, k);
        assert(ps.remove(k).drop_last() =~= less.remove(k));
        assert(ps.remove(k).last() == ps.last());
    }
}

/// A sum over the positions does not depend on their order.
proof fn lemma_total_ignores_order(
    ps: Seq<PositionView>,
    qs: Seq<PositionView>,
    figure: spec_fn(PositionView) -> int,
)
    requires
        ps.to_multiset() == qs.to_multiset(),
    ensures
        total_of(ps, figure) == total_of(qs, figure),
    decreases ps.len(),
{
    broadcast use vstd::seq_lib::group_to_multiset_ensures;

    assert(ps.len() == ps.to_multiset().len() && qs.len() == qs.to_multiset().len());
    if ps.len() > 0 {
        let last: int = ps.len() - 1;
        let p: PositionView = ps[last];
        assert(ps.contains(p));
        assert(qs.to_multiset().count(p) > 0);
        assert(qs.contains(p));
        let k: int = choose|k: int| 0 <= k < qs.len() && qs[k] == p;
        lemma_total_without(ps, figure, last);
        lemma_total_without(qs, figure, k);
        assert(ps.remove(last).to_multiset() =~= ps.to_multiset().remove(p));
        assert(qs.remove(k).to_multiset() =~= qs.to_multiset().remove(p));
        lemma_total_ignores_order(ps.remove(last), qs.remove(k), figure);
    }
}

/// The exposures do not depend on the order in which the positions were opened.
pub proof fn law_exposure_ignores_order(ps: Seq<PositionView>, qs: Seq<PositionView>, t: int)
    requires
        ps.to_multiset() == qs.to_multiset(),
        within_scale(ps, t),
        gross_defined(ps) && gross_defined(qs),
        net_defined(ps) && net_defined(qs),
    ensures
        gross_exposure(ps).same_value(gross_exposure(qs)),
        net_exposure(ps).same_value(net_exposure(qs)),
{
    broadcast use vstd::seq_lib::group_to_multiset_ensures;

    assert(within_scale(qs, t)) by {
        assert forall|i: int| 0 <= i < qs.len() implies (#[trigger] qs[i]).notional.scale
            <= t by {
            assert(qs.contains(qs[i]));
            assert(ps.to_multiset().count(qs[i]) > 0);
            assert(ps.contains(qs[i]));
        }
    }
    law_gross_exposure_is_the_sum(ps, t);
    law_gross_exposure_is_the_sum(qs, t);
    law_net_exposure_is_long_less_short(ps, t);
    law_net_exposure_is_long_less_short(qs, t);
    lemma_total_ignores_order(ps, qs, notional_units(t));
    lemma_total_ignores_order(ps, qs, directed_units(t));
    crate::decimal::lemma_order_at_any_scale(gross_exposure(ps), gross_exposure(qs), t);
    crate::decimal::lemma_order_at_any_scale(net_exposure(ps), net_exposure(qs), t);
}

/// Where no notional is negative, the net exposure lies within the gross
/// exposure on either side.
pub proof fn law_net_within_gross(ps: Seq<PositionView>, t: int)
    requires
        gross_defined(ps) && net_defined(ps),
        within_scale(ps, t),
        forall|i: int| 0 <= i < ps.len() ==> (#[trigger] ps[i]).notional.raw_units >= 0,
    ensures
        -gross_exposure(ps).units_at(t) <= net_exposure(ps).units_at(t)
            <= gross_exposure(ps).units_at(t),
{
    law_gross_exposure_is_the_sum(ps, t);
    law_net_exposure_is_long_less_short(ps, t);
    lemma_directed_within(ps, t);
}

proof fn lemma_directed_within(ps: Seq<PositionView>, t: int)
    requires
        within_scale(ps, t),
        forall|i: int| 0 <= i < ps.len() ==> (#[trigger] ps[i]).notional.raw_units >= 0,
    ensures
        -total_of(ps, notional_units(t)) <= total_of(ps, directed_units(t)) <= total_of(
            ps,
            notional_units(t),
        ),
    decreases ps.len(),
{
    if ps.len() > 0 {
        let less: Seq<PositionView> = ps.drop_last();
        let p: PositionView = ps[ps.len() - 1];
        assert forall|i: int| 0 <= i < less.len() implies (#[trigger] less[i]).notional.raw_units
            >= 0 && less[i].notional.scale <= t by {
            assert(less[i] == ps[i]);
        }
        lemma_directed_within(less, t);
        crate::decimal::lemma_units_sign(p.notional, t);
        if p.notional.raw_units == 0 {
            assert(0 * crate::decimal::pow10(t - p.notional.scale) == 0);
        }
        assert(p.notional.units_at(t) >= 0);
    }
}

/// Where an instrument has a position, that is where it is found.
proof fn lemma_index(v: PortfolioView, i: int, instrument: Seq<char>)
    requires
        v.distinct(),
        v.is_position_of(i, instrument),
    ensures
        v.holds(instrument),
        v.index(instrument) == i,
{
    let k: int = v.index(instrument);
    assert(v.is_position_of(k, instrument));
    if k < i {
        assert(v.positions[k].instrument != v.positions[i].instrument);
    } else if i < k {
        assert(v.positions[i].instrument != v.positions[k].instrument);
    }
}

/// Opening or adding to a position touches no other instrument, and neither the
/// assets nor the high water mark.
pub proof fn law_opening_touches_one_instrument(
    v: PortfolioView,
    instrument: Seq<char>,
    side: i32,
    notional: FixedDecimal,
    entry_price: FixedDecimal,
    leverage: FixedDecimal,
    other: Seq<char>,
)
    requires
        v.distinct(),
        other != instrument,
    ensures
        ({
            let w: PortfolioView = v.opened(instrument, side, notional, entry_price, leverage);
            &&& w.holds(instrument)
            &&& w.position(instrument).notional == v.notional_of(instrument).plus(notional)
            &&& w.holds(other) == v.holds(other)
            &&& v.holds(other) ==> w.position(other) == v.position(other)
            &&& w.aum == v.aum && w.hwm == v.hwm
        }),
{
    let w: PortfolioView = v.opened(instrument, side, notional, entry_price, leverage);
    lemma_opened_distinct(v, instrument, side, notional, entry_price, leverage);
    if v.holds(instrument) {
        let k: int = v.index(instrument);
        assert(v.is_position_of(k, instrument));
        lemma_index(w, k, instrument);
    } else {
        lemma_index(w, v.positions.len() as int, instrument);
    }
    if v.holds(other) {
        let k: int = v.index(other);
        assert(v.is_position_of(k, other));
        lemma_index(w, k, other);
    }
    if w.holds(other) {
        let k: int = w.index(other);
        assert(w.is_position_of(k, other));
        assert(v.is_position_of(k, other));
    }
}

/// Opening or adding to a position raises the gross exposure by exactly the
/// notional added.
pub proof fn law_opening_adds_to_gross_exposure(
    v: PortfolioView,
    instrument: Seq<char>,
    side: i32,
    notional: FixedDecimal,
    entry_price: FixedDecimal,
    leverage: FixedDecimal,
    t: int,
)
    requires
        v.distinct(),
        v.notional_of(instrument).addable(notional),
        gross_defined(v.positions),
        gross_defined(v.opened(instrument, side, notional, entry_price, leverage).positions),
        within_scale(v.positions, t),
        notional.scale <= t,
    ensures
        gross_exposure(
            v.opened(instrument, side, notional, entry_price, leverage).positions,
        ).units_at(t) == gross_exposure(v.positions).units_at(t) + notional.units_at(t),
{
    let ps: Seq<PositionView> = v.positions;
    let qs: Seq<PositionView> = v.opened(
        instrument,
        side,
        notional,
        entry_price,
        leverage,
    ).positions;
    let held: FixedDecimal = v.notional_of(instrument);
    if v.holds(instrument) {
        let k: int = v.index(instrument);
        assert(v.is_position_of(k, instrument));
        assert(ps[k].notional.scale <= t);
        lemma_total_without(ps, notional_units(t), k);
        lemma_total_without(qs, notional_units(t), k);
        assert(ps.remove(k) =~= qs.remove(k));
    } else {
        crate::decimal::lemma_zero_units(t);
        assert(qs.drop_last() =~= ps);
    }
    crate::decimal::law_sum_is_exact(held, notional, t);
    assert forall|i: int| 0 <= i < qs.len() implies (#[trigger] qs[i]).notional.scale <= t by {
        if i < ps.len() {
            assert(ps[i].notional.scale <= t);
        }
    }
    law_gross_exposure_is_the_sum(ps, t);
    law_gross_exposure_is_the_sum(qs, t);
}

/// Closing or reducing a position touches no other instrument, and neither the
/// assets nor the high water mark.
pub proof fn law_closing_touches_one_instrument(
    v: PortfolioView,
    instrument: Seq<char>,
    reduce: FixedDecimal,
    other: Seq<char>,
)
    requires
        v.distinct(),
        other != instrument,
    ensures
        ({
            let w: PortfolioView = v.closed(instrument, reduce);
            &&& w.holds(instrument) == (v.remaining(instrument, reduce) is Some)
            &&& w.holds(other) == v.holds(other)
            &&& v.holds(other) ==> w.position(other) == v.position(other)
            &&& w.aum == v.aum && w.hwm == v.hwm
        }),
{
    let w: PortfolioView = v.closed(instrument, reduce);
    if v.holds(instrument) {
        lemma_closed_distinct(v, instrument, reduce);
        let i: int = v.index(instrument);
        assert(v.is_position_of(i, instrument));
        let gone: bool = v.closes_fully(instrument, reduce);
        if !gone {
            lemma_index(w, i, instrument);
        } else if w.holds(instrument) {
            let k: int = w.index(instrument);
            assert(w.is_position_of(k, instrument));
            let a: int = if k < i {
                k
            } else {
                k + 1
            };
            lemma_index(v, a, instrument);
        }
        if v.holds(other) {
            let k: int = v.index(other);
            assert(v.is_position_of(k, other));
            lemma_index(
                w,
                if gone && k > i {
                    k - 1
                } else {
                    k
                },
                other,
            );
        }
        if w.holds(other) {
            let k: int = w.index(other);
            assert(w.is_position_of(k, other));
            assert(v.is_position_of(
                if gone && k >= i {
                    k + 1
                } else {
                    k
                },
                other,
            ));
        }
    }
}

/// Opening a position in a new instrument and closing it again for the same
/// notional, or for more, leaves the portfolio as it was.
pub proof fn law_closing_undoes_opening(
    v: PortfolioView,
    instrument: Seq<char>,
    side: i32,
    notional: FixedDecimal,
    entry_price: FixedDecimal,
    leverage: FixedDecimal,
    reduce: FixedDecimal,
)
    requires
        v.distinct(),
        !v.holds(instrument),
        v.notional_of(instrument).addable(notional),
        !reduce.less_than(notional),
    ensures
        ({
            let w: PortfolioView = v.opened(instrument, side, notional, entry_price, leverage);
            &&& reduce.alignable(notional) ==> w.can_close(instrument, reduce)
            &&& w.remaining(instrument, reduce) is None
            &&& w.closed(instrument, reduce) == v
        }),
{
    let w: PortfolioView = v.opened(instrument, side, notional, entry_price, leverage);
    lemma_opened_distinct(v, instrument, side, notional, entry_price, leverage);
    lemma_index(w, v.positions.len() as int, instrument);
    crate::decimal::lemma_units_at_own_scale(notional);
    crate::decimal::lemma_zero_units(notional.scale as int);
    assert(w.position(instrument).notional == notional);
    assert(w.closed(instrument, reduce).positions =~= v.positions);
}

/// Adding to a position and taking the same notional off again leaves it worth
/// what it was worth, where it was worth something.
pub proof fn law_reducing_undoes_adding(
    v: PortfolioView,
    instrument: Seq<char>,
    side: i32,
    notional: FixedDecimal,
    entry_price: FixedDecimal,
    leverage: FixedDecimal,
)
    requires
        v.distinct(),
        v.holds(instrument),
        v.notional_of(instrument).addable(notional),
        v.notional_of(instrument).raw_units > 0,
    ensures
        ({
            let w: PortfolioView = v.opened(instrument, side, notional, entry_price, leverage);
            &&& w.can_close(instrument, notional)
            &&& w.remaining(instrument, notional) matches Some(left) && left.same_value(
                v.notional_of(instrument),
            )
        }),
{
    let held: FixedDecimal = v.notional_of(instrument);
    let sum: FixedDecimal = held.plus(notional);
    let k: int = v.index(instrument);
    assert(v.is_position_of(k, instrument));
    lemma_opened_distinct(v, instrument, side, notional, entry_price, leverage);
    lemma_index(
        v.opened(instrument, side, notional, entry_price, leverage),
        k,
        instrument,
    );
    crate::decimal::law_subtraction_undoes_addition(held, notional);
    let s: int = crate::decimal::finer_scale(held, notional) as int;
    crate::decimal::lemma_units_sign(held, s);
    crate::decimal::lemma_units_at_own_scale(sum);
}

/// What remains of a position and what was taken from it are together worth
/// what the position was worth.
pub proof fn law_reduction_splits_the_position(
    v: PortfolioView,
    instrument: Seq<char>,
    reduce: FixedDecimal,
    t: int,
)
    requires
        v.distinct(),
        v.can_close(instrument, reduce),
        v.remaining(instrument, reduce) is Some,
        v.position(instrument).notional.scale <= t,
        reduce.scale <= t,
    ensures
        v.remaining(instrument, reduce)->0.units_at(t) + reduce.units_at(t) == v.position(
            instrument,
        ).notional.units_at(t),
        v.closed(instrument, reduce).position(instrument).notional == v.remaining(
            instrument,
            reduce,
        )->0,
{
    crate::decimal::law_difference_is_exact(v.position(instrument).notional, reduce, t);
    lemma_closed_distinct(v, instrument, reduce);
    let k: int = v.index(instrument);
    assert(v.is_position_of(k, instrument));
    lemma_index(v.closed(instrument, reduce), k, instrument);
}

impl PortfolioView {
    /// The assets are at the high water mark, and no position has made or lost
    /// anything.
    pub open spec fn at_the_mark(self) -> bool {
        &&& self.aum == self.hwm
        &&& forall|i: int|
            0 <= i < self.positions.len() ==> (#[trigger] self.positions[i]).unrealized_pnl
                == zero_decimal()
    }
}

/// A portfolio starts at its mark, and neither opening nor closing positions
/// moves it from there.
pub proof fn law_stays_at_the_mark(
    v: PortfolioView,
    instrument: Seq<char>,
    side: i32,
    notional: FixedDecimal,
    entry_price: FixedDecimal,
    leverage: FixedDecimal,
    reduce: FixedDecimal,
)
    requires
        v.at_the_mark(),
    ensures
        v.opened(instrument, side, notional, entry_price, leverage).at_the_mark(),
        v.closed(instrument, reduce).at_the_mark(),
        (PortfolioView { positions: Seq::empty(), ..v }).at_the_mark(),
{
    if v.holds(instrument) {
        assert(v.is_position_of(v.index(instrument), instrument));
    }
}

/// At its mark a portfolio shows no drawdown: the equity is the assets under
/// management.
pub proof fn law_no_drawdown_at_the_mark(v: PortfolioView, garch_sigma_sq: FixedDecimal)
    requires
        v.at_the_mark(),
        v.aum.scale <= 18,
    ensures
        pnl_defined(v.positions),
        v.aum.addable(total_pnl(v.positions)),
        v.equity() == v.aum,
        drawdown_defined(v.equity(), v.hwm),
        v.risk_figures(garch_sigma_sq).drawdown_pct == zero_decimal(),
{
    lemma_no_pnl(v.positions);
    crate::decimal::lemma_units_at_own_scale(v.aum);
    crate::decimal::lemma_zero_units(v.aum.scale as int);
}

proof fn lemma_no_pnl(ps: Seq<PositionView>)
    requires
        forall|i: int|
            0 <= i < ps.len() ==> (#[trigger] ps[i]).unrealized_pnl == zero_decimal(),
    ensures
        pnl_defined(ps),
        total_pnl(ps) == zero_decimal(),
    decreases ps.len(),
{
    crate::decimal::lemma_units_at_own_scale(zero_decimal());
    if ps.len() > 0 {
        let less: Seq<PositionView> = ps.drop_last();
        assert forall|i: int| 0 <= i < less.len() implies (#[trigger] less[i]).unrealized_pnl
            == zero_decimal() by {
            assert(less[i] == ps[i]);
        }
        lemma_no_pnl(less);
        assert(ps[ps.len() - 1].unrealized_pnl == zero_decimal());
    }
}

/// Opening in an instrument that is not held adds a position at the end, with the
/// side, the notional, the entry price and the leverage given, and with no profit
/// or loss; those before it stay as they are.
pub proof fn law_opening_a_new_position(
    v: PortfolioView,
    instrument: Seq<char>,
    side: i32,
    notional: FixedDecimal,
    entry_price: FixedDecimal,
    leverage: FixedDecimal,
)
    requires
        v.distinct(),
        forall|i: int| 0 <= i < v.positions.len() ==> (#[trigger] v.positions[i]).instrument
            != instrument,
        v.notional_of(instrument).addable(notional),
    ensures
        ({
            let w: PortfolioView = v.opened(instrument, side, notional, entry_price, leverage);
            let p: PositionView = w.positions[v.positions.len() as int];
            &&& w.positions.len() == v.positions.len() + 1
            &&& forall|i: int|
                0 <= i < v.positions.len() ==> #[trigger] w.positions[i] == v.positions[i]
            &&& p.instrument == instrument && p.side == side
            &&& p.notional == notional
            &&& p.entry_price == entry_price && p.leverage == leverage
            &&& p.unrealized_pnl.raw_units == 0 && p.unrealized_pnl.scale == 0
            &&& w.aum == v.aum && w.hwm == v.hwm
        }),
{
    if v.holds(instrument) {
        assert(v.is_position_of(v.index(instrument), instrument));
    }
    crate::decimal::lemma_units_at_own_scale(notional);
    crate::decimal::lemma_zero_units(notional.scale as int);
}

/// Adding to a position that is held changes its notional and nothing else: the
/// side, the entry price, the leverage and the profit and loss stay, whatever
/// side, price and leverage the order names, and so do all other positions. The
/// notional is worth what the position and the order are worth together.
pub proof fn law_adding_changes_the_notional_alone(
    v: PortfolioView,
    k: int,
    side: i32,
    notional: FixedDecimal,
    entry_price: FixedDecimal,
    leverage: FixedDecimal,
    t: int,
)
    requires
        v.distinct(),
        0 <= k < v.positions.len(),
        v.positions[k].notional.addable(notional),
        v.positions[k].notional.scale <= t,
        notional.scale <= t,
    ensures
        ({
            let old_p: PositionView = v.positions[k];
            let w: PortfolioView = v.opened(
                old_p.instrument,
                side,
                notional,
                entry_price,
                leverage,
            );
            let p: PositionView = w.positions[k];
            &&& w.positions.len() == v.positions.len()
            &&& forall|i: int|
                0 <= i < v.positions.len() && i != k ==> #[trigger] w.positions[i]
                    == v.positions[i]
            &&& p.instrument == old_p.instrument
            &&& p.side == old_p.side
            &&& p.entry_price == old_p.entry_price
            &&& p.leverage == old_p.leverage
            &&& p.unrealized_pnl == old_p.unrealized_pnl
            &&& p.notional.scale == crate::decimal::common_scale(old_p.notional, notional)
            &&& p.notional.units_at(t) == old_p.notional.units_at(t) + notional.units_at(t)
            &&& w.aum == v.aum && w.hwm == v.hwm
        }),
{
    let name: Seq<char> = v.positions[k].instrument;
    assert(v.is_position_of(k, name));
    lemma_index(v, k, name);
    crate::decimal::law_sum_is_exact(v.positions[k].notional, notional, t);
    crate::decimal::law_plus_and_minus(v.positions[k].notional, notional);
}

/// Reducing a position that is held: where the reduction is worth as much as the
/// position or more, the position is gone and the others close ranks in order;
/// otherwise its notional is worth what is left, and nothing else of it changes.
/// What is returned is what is left, and nothing where the position is gone.
pub proof fn law_reducing_a_position(v: PortfolioView, k: int, reduce: FixedDecimal, t: int)
    requires
        v.distinct(),
        0 <= k < v.positions.len(),
        v.can_close(v.positions[k].instrument, reduce),
        v.positions[k].notional.scale <= t,
        reduce.scale <= t,
    ensures
        ({
            let p: PositionView = v.positions[k];
            let w: PortfolioView = v.closed(p.instrument, reduce);
            let left: Option<FixedDecimal> = v.remaining(p.instrument, reduce);
            let gone: bool = reduce.units_at(t) >= p.notional.units_at(t);
            &&& w.aum == v.aum && w.hwm == v.hwm
            &&& gone ==> {
                &&& left is None
                &&& w.positions.len() == v.positions.len() - 1
                &&& forall|i: int| 0 <= i < k ==> #[trigger] w.positions[i] == v.positions[i]
                &&& forall|i: int|
                    k <= i < v.positions.len() - 1 ==> #[trigger] w.positions[i] == v.positions[i
                        + 1]
            }
            &&& !gone ==> {
                let q: PositionView = w.positions[k];
                &&& left == Some(q.notional)
                &&& w.positions.len() == v.positions.len()
                &&& forall|i: int|
                    0 <= i < v.positions.len() && i != k ==> #[trigger] w.positions[i]
                        == v.positions[i]
                &&& q.instrument == p.instrument && q.side == p.side
                &&& q.entry_price == p.entry_price && q.leverage == p.leverage
                &&& q.unrealized_pnl == p.unrealized_pnl
                &&& q.notional.scale == crate::decimal::common_scale(p.notional, reduce)
                &&& q.notional.units_at(t) == p.notional.units_at(t) - reduce.units_at(t)
            }
        }),
{
    let p: PositionView = v.positions[k];
    assert(v.is_position_of(k, p.instrument));
    lemma_index(v, k, p.instrument);
    crate::decimal::lemma_order_at_any_scale(reduce, p.notional, t);
    crate::decimal::law_plus_and_minus(p.notional, reduce);
    if !v.closes_fully(p.instrument, reduce) {
        crate::decimal::law_difference_is_exact(p.notional, reduce, t);
    }
}

/// A reduction can be made wherever the two notionals can be brought to one scale
/// and, short of the whole position, subtracted; and in an instrument that is not
/// held it can always be made, changes nothing and returns nothing.
pub proof fn law_when_a_position_can_be_reduced(
    v: PortfolioView,
    instrument: Seq<char>,
    reduce: FixedDecimal,
)
    requires
        v.distinct(),
    ensures
        (forall|i: int| 0 <= i < v.positions.len() ==> (#[trigger] v.positions[i]).instrument
            != instrument) ==> {
            &&& v.can_close(instrument, reduce)
            &&& v.closed(instrument, reduce) == v
            &&& v.remaining(instrument, reduce) is None
        },
        forall|k: int|
            0 <= k < v.positions.len() && (#[trigger] v.positions[k]).instrument == instrument
                ==> {
                let held: FixedDecimal = v.positions[k].notional;
                let x: int = crate::decimal::shared_units(reduce, held);
                let y: int = crate::decimal::shared_units(held, reduce);
                &&& v.can_close(instrument, reduce) <==> {
                    &&& crate::decimal::shares_a_scale(reduce, held)
                    &&& x >= y || y - x <= i64::MAX
                }
            },
{
    if v.holds(instrument) {
        let k: int = v.index(instrument);
        assert(v.is_position_of(k, instrument));
    }
    assert forall|k: int|
        0 <= k < v.positions.len() && (#[trigger] v.positions[k]).instrument == instrument implies {
        let held: FixedDecimal = v.positions[k].notional;
        let x: int = crate::decimal::shared_units(reduce, held);
        let y: int = crate::decimal::shared_units(held, reduce);
        &&& v.can_close(instrument, reduce) <==> {
            &&& crate::decimal::shares_a_scale(reduce, held)
            &&& x >= y || y - x <= i64::MAX
        }
    } by {
        assert(v.is_position_of(k, instrument));
        lemma_index(v, k, instrument);
        let held: FixedDecimal = v.positions[k].notional;
        crate::decimal::law_plus_and_minus(reduce, held);
        crate::decimal::law_plus_and_minus(held, reduce);
        crate::decimal::lemma_units_at_shared_scale(reduce, held);
        assert(v.closes_fully(instrument, reduce) <==> crate::decimal::shared_units(reduce, held)
            >= crate::decimal::shared_units(held, reduce));
    }
}

/// The count in the risk figures is the number of positions, where it fits 32
/// bits; opening in an instrument that is not held raises it by one, adding to one
/// that is held leaves it, and closing a position fully lowers it by one.
pub proof fn law_count_is_the_number_of_positions(
    v: PortfolioView,
    garch_sigma_sq: FixedDecimal,
    instrument: Seq<char>,
    side: i32,
    notional: FixedDecimal,
    entry_price: FixedDecimal,
    leverage: FixedDecimal,
    reduce: FixedDecimal,
)
    requires
        v.distinct(),
        v.positions.len() < u32::MAX,
    ensures
        ({
            let count: int = v.risk_figures(garch_sigma_sq).open_position_count as int;
            let opened: int = v.opened(
                instrument,
                side,
                notional,
                entry_price,
                leverage,
            ).risk_figures(garch_sigma_sq).open_position_count as int;
            let closed: int = v.closed(instrument, reduce).risk_figures(
                garch_sigma_sq,
            ).open_position_count as int;
            let held: bool = exists|i: int|
                0 <= i < v.positions.len() && (#[trigger] v.positions[i]).instrument == instrument;
            &&& count == v.positions.len()
            &&& held ==> opened == count
            &&& !held ==> opened == count + 1
            &&& held && v.remaining(instrument, reduce) is None ==> closed == count - 1
            &&& !held || v.remaining(instrument, reduce) is Some ==> closed == count
        }),
{
    if v.holds(instrument) {
        let k: int = v.index(instrument);
        assert(v.is_position_of(k, instrument));
        assert(v.positions[k].instrument == instrument);
    } else {
        assert forall|i: int| 0 <= i < v.positions.len() implies (#[trigger]
        v.positions[i]).instrument != instrument by {
            assert(!v.is_position_of(i, instrument));
        }
    }
}

/// The profit and loss in total is worth exactly what the positions have made or
/// lost together, at every scale that is fine enough for all of them.
pub proof fn law_pnl_is_the_sum(ps: Seq<PositionView>, t: int)
    requires
        pnl_defined(ps),
        0 <= t,
        forall|i: int| 0 <= i < ps.len() ==> (#[trigger] ps[i]).unrealized_pnl.scale <= t,
    ensures
        total_pnl(ps).scale <= t,
        total_pnl(ps).units_at(t) == total_of(
            ps,
            |p: PositionView| p.unrealized_pnl.units_at(t),
        ),
    decreases ps.len(),
{
    if ps.len() > 0 {
        let less: Seq<PositionView> = ps.drop_last();
        assert forall|i: int| 0 <= i < less.len() implies (#[trigger] less[i]).unrealized_pnl.scale
            <= t by {
            assert(less[i] == ps[i]);
        }
        law_pnl_is_the_sum(less, t);
        assert(ps[ps.len() - 1].unrealized_pnl.scale <= t);
        crate::decimal::law_sum_is_exact(total_pnl(less), ps.last().unrealized_pnl, t);
    } else {
        assert(0 * crate::decimal::pow10(t) == 0);
    }
}

/// The totals can be formed exactly where each position can be added to the total
/// of those before it; a position that is neither long nor short never stands in
/// the way of the net exposure.
pub proof fn law_when_the_totals_can_be_formed(ps: Seq<PositionView>)
    ensures
        gross_defined(ps) <==> forall|k: int|
            0 <= k < ps.len() ==> gross_exposure(#[trigger] ps.take(k)).addable(ps[k].notional),
        pnl_defined(ps) <==> forall|k: int|
            0 <= k < ps.len() ==> total_pnl(#[trigger] ps.take(k)).addable(ps[k].unrealized_pnl),
        net_defined(ps) <==> forall|k: int|
            0 <= k < ps.len() ==> {
                &&& ps[k].side == 1 ==> net_exposure(#[trigger] ps.take(k)).addable(ps[k].notional)
                &&& ps[k].side == 2 ==> net_exposure(ps.take(k)).subtractable(ps[k].notional)
            },
    decreases ps.len(),
{
    if ps.len() > 0 {
        let n: int = ps.len() - 1;
        let less: Seq<PositionView> = ps.drop_last();
        law_when_the_totals_can_be_formed(less);
        assert(ps.take(n) =~= less);
        assert forall|k: int| 0 <= k < n implies #[trigger] less.take(k) == ps.take(k) by {
            assert(less.take(k) =~= ps.take(k));
        }
        assert forall|k: int| 0 <= k < n implies #[trigger] ps.take(k) == less.take(k) by {
            assert(less.take(k) =~= ps.take(k));
        }
        assert forall|k: int| 0 <= k < n implies #[trigger] less[k] == ps[k] by {}
    }
}

/// The drawdown is the share of the high water mark that is missing, in whole
/// millionths rounded down: it is zero exactly where the mark is not positive or
/// the equity has reached it, or where less than a millionth is missing.
pub proof fn law_drawdown_is_the_missing_share(
    equity: FixedDecimal,
    hwm: FixedDecimal,
    r: Option<FixedDecimal>,
)
    requires
        call_ensures(checked_drawdown, (equity, hwm), r),
    ensures
        ({
            let mark: int = crate::decimal::shared_units(hwm, equity);
            let missing: int = mark - crate::decimal::shared_units(equity, hwm);
            let short: bool = hwm.raw_units > 0 && missing > 0;
            &&& !short ==> r == Some(FixedDecimal { raw_units: 0, scale: 0 })
            &&& short ==> {
                &&& r is Some <==> crate::decimal::shares_a_scale(equity, hwm) && missing
                    * 1_000_000 <= i64::MAX
                &&& r matches Some(d) ==> {
                    &&& d.scale == 6
                    &&& d.raw_units >= 0
                    &&& d.raw_units * mark <= missing * 1_000_000 < (d.raw_units + 1) * mark
                }
            }
        }),
{
    crate::decimal::lemma_units_at_shared_scale(equity, hwm);
    crate::decimal::law_plus_and_minus(equity, hwm);
    crate::decimal::law_plus_and_minus(hwm, equity);
    let mark: int = crate::decimal::shared_units(hwm, equity);
    let missing: int = mark - crate::decimal::shared_units(equity, hwm);
    if hwm.raw_units > 0 && missing > 0 && drawdown_defined(equity, hwm) {
        crate::decimal::lemma_units_sign(hwm, crate::decimal::finer_scale(equity, hwm) as int);
        let n: int = missing * 1_000_000;
        let q: int = n / mark;
        vstd::arithmetic::div_mod::lemma_fundamental_div_mod(n, mark);
        vstd::arithmetic::div_mod::lemma_mod_bound(n, mark);
        assert(0 <= q <= n && q * mark <= n && n < (q + 1) * mark) by (nonlinear_arith)
            requires
                n == mark * q + n % mark,
                0 <= n % mark < mark,
                n > 0,
                mark >= 1,
        ;
    }
}

/// What a snapshot shows: it can be taken exactly where the totals, the equity
/// and the drawdown can be formed, and shows the drawdown of the equity from the
/// high water mark, the fixed value at risk of 0.50%, the variance given, the two
/// exposures, the number of positions, the assets and the mark.
pub proof fn law_snapshot_shows_the_portfolio(
    mgr: &PortfolioStateManager,
    garch_sigma_sq: FixedDecimal,
    r: Option<PortfolioState>,
    drawdown: Option<FixedDecimal>,
)
    requires
        call_ensures(PortfolioStateManager::checked_snapshot, (mgr, garch_sigma_sq), r),
        call_ensures(
            checked_drawdown,
            (mgr@.aum.plus(total_pnl(mgr@.positions)), mgr@.hwm),
            drawdown,
        ),
    ensures
        r is Some <==> {
            &&& gross_defined(mgr@.positions)
            &&& net_defined(mgr@.positions)
            &&& pnl_defined(mgr@.positions)
            &&& mgr@.aum.addable(total_pnl(mgr@.positions))
            &&& drawdown is Some
        },
        r matches Some(s) ==> {
            &&& Some(s.drawdown_pct) == drawdown
            &&& s.var_1d_99_pct.raw_units == 50 && s.var_1d_99_pct.scale == 4
            &&& s.garch_sigma_sq == garch_sigma_sq
            &&& s.gross_exposure == gross_exposure(mgr@.positions)
            &&& s.net_exposure == net_exposure(mgr@.positions)
            &&& mgr@.positions.len() <= u32::MAX ==> s.open_position_count == mgr@.positions.len()
            &&& s.aum == mgr@.aum && s.hwm == mgr@.hwm
        },
        mgr@.snapshot_defined() <==> r is Some,
        r matches Some(s) ==> s == mgr@.risk_figures(garch_sigma_sq),
{
}

/// A new portfolio has no positions, and its high water mark is its assets; the
/// count of positions is their number; and a position can be opened exactly where
/// its notional can be formed.
pub proof fn law_portfolio_tells_what_it_holds(
    aum: FixedDecimal,
    fresh: PortfolioStateManager,
    mgr: &PortfolioStateManager,
    count: usize,
    instrument: &str,
    notional: FixedDecimal,
    can_open: bool,
)
    requires
        call_ensures(PortfolioStateManager::new, (aum,), fresh),
        call_ensures(PortfolioStateManager::position_count, (mgr,), count),
        call_ensures(
            PortfolioStateManager::can_open_position,
            (mgr, instrument, notional),
            can_open,
        ),
        mgr@.distinct(),
    ensures
        fresh@.positions.len() == 0 && fresh@.aum == aum && fresh@.hwm == aum,
        count == mgr@.positions.len(),
        forall|k: int|
            0 <= k < mgr@.positions.len() && (#[trigger] mgr@.positions[k]).instrument
                == instrument@ ==> can_open == mgr@.positions[k].notional.addable(notional),
        (forall|k: int|
            0 <= k < mgr@.positions.len() ==> (#[trigger] mgr@.positions[k]).instrument
                != instrument@) ==> can_open == (FixedDecimal { raw_units: 0, scale: 0 }).addable(
            notional,
        ),
{
    if mgr@.holds(instrument@) {
        let i: int = mgr@.index(instrument@);
        assert(mgr@.is_position_of(i, instrument@));
    }
    assert forall|k: int|
        0 <= k < mgr@.positions.len() && (#[trigger] mgr@.positions[k]).instrument
            == instrument@ implies can_open == mgr@.positions[k].notional.addable(notional) by {
        assert(mgr@.is_position_of(k, instrument@));
        lemma_index(mgr@, k, instrument@);
    }
}

/// What `open_position` and `close_position` do to a portfolio, and what the
/// latter returns, is what opening and closing mean.
pub proof fn law_portfolio_is_opened_and_closed(
    a: &mut PortfolioStateManager,
    b: &mut PortfolioStateManager,
    instrument: &str,
    side: i32,
    notional: FixedDecimal,
    entry_price: FixedDecimal,
    leverage: FixedDecimal,
    left: Option<FixedDecimal>,
)
    requires
        call_ensures(
            PortfolioStateManager::open_position,
            (a, instrument, side, notional, entry_price, leverage),
            (),
        ),
        call_ensures(PortfolioStateManager::close_position, (b, instrument, notional), left),
    ensures
        final(a).wf() && final(b).wf(),
        final(a)@ == old(a)@.opened(instrument@, side, notional, entry_price, leverage),
        final(b)@ == old(b)@.closed(instrument@, notional),
        left == old(b)@.remaining(instrument@, notional),
{
}

/// A snapshot that is known to fit is what the checked one is.
pub proof fn law_plain_snapshot_agrees(
    mgr: &PortfolioStateManager,
    garch_sigma_sq: FixedDecimal,
    s: PortfolioState,
    checked: Option<PortfolioState>,
)
    requires
        call_ensures(PortfolioStateManager::snapshot, (mgr, garch_sigma_sq), s),
        call_ensures(PortfolioStateManager::checked_snapshot, (mgr, garch_sigma_sq), checked),
    ensures
        checked is Some ==> checked == Some(s),
{
}

/// The exposures are shown at the finest scale of the notionals that they are made
/// of, and at scale zero where there is none.
pub proof fn law_exposures_have_the_finest_scale(ps: Seq<PositionView>)
    ensures
        forall|i: int|
            0 <= i < ps.len() ==> (#[trigger] ps[i]).notional.scale <= gross_exposure(ps).scale,
        gross_exposure(ps).scale == 0 || exists|i: int|
            0 <= i < ps.len() && (#[trigger] ps[i]).notional.scale == gross_exposure(ps).scale,
        forall|i: int|
            0 <= i < ps.len() && ((#[trigger] ps[i]).side == 1 || ps[i].side == 2)
                ==> ps[i].notional.scale <= net_exposure(ps).scale,
        net_exposure(ps).scale == 0 || exists|i: int|
            0 <= i < ps.len() && ((#[trigger] ps[i]).side == 1 || ps[i].side == 2)
                && ps[i].notional.scale == net_exposure(ps).scale,
    decreases ps.len(),
{
    if ps.len() > 0 {
        let n: int = ps.len() - 1;
        let less: Seq<PositionView> = ps.drop_last();
        law_exposures_have_the_finest_scale(less);
        let p: PositionView = ps[n];
        assert forall|i: int| 0 <= i < ps.len() implies {
            &&& (#[trigger] ps[i]).notional.scale <= gross_exposure(ps).scale
            &&& ps[i].side == 1 || ps[i].side == 2 ==> ps[i].notional.scale <= net_exposure(
                ps,
            ).scale
        } by {
            if i < n {
                assert(less[i] == ps[i]);
            }
        }
        if gross_exposure(ps).scale != 0 {
            if p.notional.scale == gross_exposure(ps).scale {
                assert(ps[n].notional.scale == gross_exposure(ps).scale);
            } else {
                let i: int = choose|i: int|
                    0 <= i < less.len() && (#[trigger] less[i]).notional.scale == gross_exposure(
                        less,
                    ).scale;
                assert(ps[i] == less[i]);
            }
        }
        if net_exposure(ps).scale != 0 {
            if (p.side == 1 || p.side == 2) && p.notional.scale == net_exposure(ps).scale {
                assert(ps[n].notional.scale == net_exposure(ps).scale);
            } else {
                let i: int = choose|i: int|
                    0 <= i < less.len() && ((#[trigger] less[i]).side == 1 || less[i].side == 2)
                        && less[i].notional.scale == net_exposure(less).scale;
                assert(ps[i] == less[i]);
            }
        }
    }
}

} // verus!
