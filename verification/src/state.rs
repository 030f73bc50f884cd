//! The state of the engine: the portfolio, one GARCH tracker per instrument, and
//! the thresholds of the risk gates.

use crate::decimal::FixedDecimal;
use crate::double::Double;
use crate::garch::{GarchCoefficients, GarchState, GarchView, LogReturn};
use crate::interceptor::{GarchSnapshot, GateConfig};
use crate::portfolio::{PortfolioStateManager, PortfolioView};
use dashmap::DashMap;
use vstd::prelude::*;

verus! {

/// How many prices a tracker remembers.
pub const TRACKED_PRICES: usize = 500;

/// The encodings of the parameters that a tracker starts with: alpha 0.10, beta
/// 0.85, omega 0.00001, with their sum 0.95 and their long-run variance.
pub const DEFAULT_ALPHA_BITS: u64 = 0x3fb9_9999_9999_999a;

pub const DEFAULT_BETA_BITS: u64 = 0x3feb_3333_3333_3333;

pub const DEFAULT_OMEGA_BITS: u64 = 0x3ee4_f8b5_88e3_68f1;

pub const DEFAULT_PERSISTENCE_BITS: u64 = 0x3fee_6666_6666_6666;

pub const DEFAULT_LONG_RUN_BITS: u64 = 0x3f2a_36e2_eb1c_4327;

/// The encoding of 0.0002, the variance of an instrument without a tracker.
pub const UNTRACKED_SIGMA_SQ_BITS: u64 = 0x3f2a_36e2_eb1c_432d;

/// The scale of the prices of a tracker.
pub const DEFAULT_SCALE: u32 = 8;

/// The hash map that holds the trackers, declared for verified code.
#[verifier::external_type_specification]
#[verifier::external_body]
#[verifier::reject_recursive_types(K)]
#[verifier::reject_recursive_types(V)]
#[verifier::reject_recursive_types(S)]
pub struct ExDashMap<K, V, S>(dashmap::DashMap<K, V, S>);

/// The trackers that a map holds, by instrument.
pub uninterp spec fn tracker_map(
    m: DashMap<String, GarchState<500>, std::collections::hash_map::RandomState>,
) -> Map<Seq<char>, GarchState<500>>;

/// A map without trackers.
///
/// Calls `DashMap::new`. Trusted: that the new map holds nothing.
#[verifier::external_body]
fn no_trackers() -> (m: DashMap<String, GarchState<500>>)
    ensures
        tracker_map(m).dom() == Set::<Seq<char>>::empty(),
{
    DashMap::new()
}

/// The tracker of an instrument, if the map holds one.
///
/// Calls `DashMap::get` and copies the value found. Trusted: that it finds the
/// value stored under a key with the characters of `instrument`, and nothing
/// where there is none.
#[verifier::external_body]
fn tracker_of(m: &DashMap<String, GarchState<500>>, instrument: &str) -> (r: Option<
    GarchState<500>,
>)
    ensures
        r == (if tracker_map(*m).dom().contains(instrument@) {
            Some(tracker_map(*m)[instrument@])
        } else {
            None
        }),
{
    m.get(instrument).map(|tracker| *tracker)
}

/// Puts a tracker into the map, unless the instrument has one.
///
/// Calls `DashMap::entry` and `Entry::or_insert`. Trusted: that a value already
/// stored under the key stays, that otherwise the given one is stored, and that
/// no other key is touched.
#[verifier::external_body]
fn add_missing_tracker(
    m: &mut DashMap<String, GarchState<500>>,
    instrument: &str,
    fresh: GarchState<500>,
)
    ensures
        tracker_map(*final(m)) == (if tracker_map(*old(m)).dom().contains(instrument@) {
            tracker_map(*old(m))
        } else {
            tracker_map(*old(m)).insert(instrument@, fresh)
        }),
{
    m.entry(instrument.to_string()).or_insert(fresh);
}

/// Replaces the tracker of an instrument that has one.
///
/// Calls `DashMap::get_mut` and writes through the reference. Trusted: that the
/// value stored under the key becomes the given one, and that no other key is
/// touched.
#[verifier::external_body]
fn replace_tracker(
    m: &mut DashMap<String, GarchState<500>>,
    instrument: &str,
    tracker: GarchState<500>,
)
    requires
        tracker_map(*old(m)).dom().contains(instrument@),
    ensures
        tracker_map(*final(m)) == tracker_map(*old(m)).insert(instrument@, tracker),
{
    *m.get_mut(instrument).unwrap() = tracker;
}

/// Some instrument that the map holds a tracker for.
///
/// Calls `DashMap::iter` and takes the key of the first item. Trusted: that the
/// key is one of the map, and that there is none only where the map is empty.
/// Which one comes first is not stated: it depends on how the keys hash.
#[verifier::external_body]
fn some_tracked_instrument(m: &DashMap<String, GarchState<500>>) -> (r: Option<String>)
    ensures
        match r {
            Some(k) => tracker_map(*m).dom().contains(k@),
            None => tracker_map(*m).dom() == Set::<Seq<char>>::empty(),
        },
{
    m.iter().next().map(|entry| entry.key().clone())
}

/// The parameters that a tracker starts with.
pub open spec fn default_coefficients() -> GarchCoefficients {
    GarchCoefficients {
        alpha: Double { bits: DEFAULT_ALPHA_BITS },
        beta: Double { bits: DEFAULT_BETA_BITS },
        omega: Double { bits: DEFAULT_OMEGA_BITS },
        persistence: Double { bits: DEFAULT_PERSISTENCE_BITS },
        long_run_variance: Double { bits: DEFAULT_LONG_RUN_BITS },
    }
}

/// The tracker of an instrument that no price was seen of.
pub open spec fn fresh_tracker() -> GarchView {
    GarchView::initial(default_coefficients(), DEFAULT_SCALE)
}

/// A tracker with the default parameters.
fn default_tracker() -> (g: GarchState<500>)
    ensures
        g.wf(),
        g@ == fresh_tracker(),
{
    let c: GarchCoefficients = GarchCoefficients {
        alpha: Double::from_bits(DEFAULT_ALPHA_BITS),
        beta: Double::from_bits(DEFAULT_BETA_BITS),
        omega: Double::from_bits(DEFAULT_OMEGA_BITS),
        persistence: Double::from_bits(DEFAULT_PERSISTENCE_BITS),
        long_run_variance: Double::from_bits(DEFAULT_LONG_RUN_BITS),
    };
    proof {
        crate::double::lemma_magnitude_order(0, DEFAULT_OMEGA_BITS as int);
        crate::double::lemma_magnitude_order(
            DEFAULT_PERSISTENCE_BITS as int,
            crate::garch::ONE_BITS as int,
        );
    }
    GarchState::new(c, DEFAULT_SCALE)
}

/// What the state of the engine stands for.
#[verifier::ext_equal]
pub struct EngineView {
    pub portfolio: PortfolioView,
    /// The trackers, by instrument.
    pub trackers: Map<Seq<char>, GarchView>,
    pub gate_config: GateConfig,
}

impl EngineView {
    /// The tracker of an instrument, or a fresh one.
    pub open spec fn tracker(self, instrument: Seq<char>) -> GarchView {
        if self.trackers.dom().contains(instrument) {
            self.trackers[instrument]
        } else {
            fresh_tracker()
        }
    }

    /// The conditional variance of an instrument, or the default where it has no
    /// tracker.
    pub open spec fn sigma_sq(self, instrument: Seq<char>) -> Double {
        if self.trackers.dom().contains(instrument) {
            self.trackers[instrument].sigma_sq
        } else {
            Double { bits: UNTRACKED_SIGMA_SQ_BITS }
        }
    }

    /// The state in which an instrument has a tracker: the one that it had, or a
    /// fresh one.
    pub open spec fn tracking(self, instrument: Seq<char>) -> EngineView {
        EngineView {
            trackers: self.trackers.insert(instrument, self.tracker(instrument)),
            ..self
        }
    }

    /// The state after a price of an instrument was taken in.
    pub open spec fn fed(
        self,
        instrument: Seq<char>,
        price: i64,
        ts_ns: u64,
        next_sigma_sq: Double,
    ) -> EngineView {
        EngineView {
            trackers: self.trackers.insert(
                instrument,
                self.tracker(instrument).observed(
                    price,
                    ts_ns,
                    next_sigma_sq,
                    TRACKED_PRICES as int,
                ),
            ),
            ..self
        }
    }

    /// A variance that stands for the market as a whole: that of some tracker,
    /// or the default where there is none.
    pub open spec fn is_headline(self, sigma_sq: Double) -> bool {
        if self.trackers.dom() == Set::<Seq<char>>::empty() {
            sigma_sq == (Double { bits: UNTRACKED_SIGMA_SQ_BITS })
        } else {
            exists|k: Seq<char>| #[trigger]
                self.trackers.dom().contains(k) && sigma_sq == self.trackers[k].sigma_sq
        }
    }
}

/// The state of the engine.
pub struct EngineState {
    portfolio: PortfolioStateManager,
    garch_trackers: DashMap<String, GarchState<500>>,
    gate_config: GateConfig,
}

impl View for EngineState {
    type V = EngineView;

    closed spec fn view(&self) -> EngineView {
        EngineView {
            portfolio: self.portfolio@,
            trackers: tracker_map(self.garch_trackers).map_values(|g: GarchState<500>| g@),
            gate_config: self.gate_config,
        }
    }
}

impl EngineState {
    /// The portfolio and every tracker keep their invariants.
    pub closed spec fn wf(self) -> bool {
        &&& self.portfolio.wf()
        &&& forall|k: Seq<char>| #[trigger]
            tracker_map(self.garch_trackers).dom().contains(k) ==> tracker_map(
                self.garch_trackers,
            )[k].wf()
    }

    /// A state without positions and without trackers.
    pub fn new(gate_config: GateConfig, initial_aum: FixedDecimal) -> (r: Self)
        ensures
            r.wf(),
            r@.portfolio == (PortfolioView {
                positions: Seq::empty(),
                aum: initial_aum,
                hwm: initial_aum,
            }),
            r@.trackers.dom() == Set::<Seq<char>>::empty(),
            r@.gate_config == gate_config,
    {
        let r: EngineState = EngineState {
            portfolio: PortfolioStateManager::new(initial_aum),
            garch_trackers: no_trackers(),
            gate_config,
        };
        assert(r@.trackers.dom() =~= Set::<Seq<char>>::empty());
        r
    }

    /// The positions.
    pub fn portfolio(&self) -> (r: &PortfolioStateManager)
        requires
            self.wf(),
        ensures
            r@ == self@.portfolio,
            r.wf(),
    {
        &self.portfolio
    }

    /// The thresholds of the risk gates.
    pub fn gate_config(&self) -> (r: GateConfig)
        ensures
            r == self@.gate_config,
    {
        self.gate_config
    }

    /// Opens a position or adds to one.
    pub fn open_position(
        &mut self,
        instrument: &str,
        side: i32,
        notional: FixedDecimal,
        entry_price: FixedDecimal,
        leverage: FixedDecimal,
    )
        requires
            old(self).wf(),
            old(self)@.portfolio.notional_of(instrument@).addable(notional),
        ensures
            final(self).wf(),
            final(self)@ == (EngineView {
                portfolio: old(self)@.portfolio.opened(
                    instrument@,
                    side,
                    notional,
                    entry_price,
                    leverage,
                ),
                ..old(self)@
            }),
    {
        self.portfolio.open_position(instrument, side, notional, entry_price, leverage);
    }

    /// Reduces a position, and removes it where nothing remains. Returns what
    /// remains of it.
    pub fn close_position(&mut self, instrument: &str, reduce_notional: FixedDecimal) -> (r: Option<
        FixedDecimal,
    >)
        requires
            old(self).wf(),
            old(self)@.portfolio.can_close(instrument@, reduce_notional),
        ensures
            final(self).wf(),
            final(self)@ == (EngineView {
                portfolio: old(self)@.portfolio.closed(instrument@, reduce_notional),
                ..old(self)@
            }),
            r == old(self)@.portfolio.remaining(instrument@, reduce_notional),
    {
        self.portfolio.close_position(instrument, reduce_notional)
    }

    /// Gives an instrument a tracker, if it has none.
    pub fn get_or_create_garch(&mut self, instrument: &str)
        requires
            old(self).wf(),
        ensures
            final(self).wf(),
            final(self)@ == old(self)@.tracking(instrument@),
    {
        let ghost before: EngineView = self@;
        let fresh: GarchState<500> = default_tracker();
        add_missing_tracker(&mut self.garch_trackers, instrument, fresh);
        assert(self@.trackers =~= before.tracking(instrument@).trackers);
    }

    /// What the next variance of an instrument is computed from: the log-return
    /// that a new price gives rise to, and the parameters with the variance so
    /// far.
    pub fn variance_inputs(&self, instrument: &str, price: i64) -> (r: (LogReturn, GarchSnapshot))
        requires
            self.wf(),
        ensures
            r.0 == crate::garch::log_return_after(self@.tracker(instrument@).prices, price),
            r.1.sigma_sq == self@.tracker(instrument@).sigma_sq,
            r.1.alpha == self@.tracker(instrument@).alpha,
            r.1.beta == self@.tracker(instrument@).beta,
            r.1.omega == self@.tracker(instrument@).omega,
    {
        let tracker: GarchState<500> = match tracker_of(&self.garch_trackers, instrument) {
            Some(g) => g,
            None => default_tracker(),
        };
        (tracker.log_return(price), tracker.snapshot())
    }

    /// Takes in a price of an instrument. `next_sigma_sq` is what the model gives
    /// for it, from what `variance_inputs` hands out. Returns the variance.
    pub fn feed_price(
        &mut self,
        instrument: &str,
        price: i64,
        ts_ns: u64,
        next_sigma_sq: Double,
    ) -> (sigma_sq: Double)
        requires
            old(self).wf(),
        ensures
            final(self).wf(),
            final(self)@ == old(self)@.fed(instrument@, price, ts_ns, next_sigma_sq),
            sigma_sq == final(self)@.trackers[instrument@].sigma_sq,
    {
        let ghost before: EngineView = self@;
        self.get_or_create_garch(instrument);
        assert(self@.trackers.dom().contains(instrument@));
        let mut tracker: GarchState<500> = tracker_of(&self.garch_trackers, instrument).unwrap();
        assert(tracker@ == before.tracker(instrument@)) by {
            assert(self@.trackers[instrument@] == tracker@);
        }
        let sigma_sq: Double = tracker.update(price, ts_ns, next_sigma_sq);
        let ghost made: EngineView = self@;
        replace_tracker(&mut self.garch_trackers, instrument, tracker);
        assert(self@.trackers =~= made.trackers.insert(instrument@, tracker@));
        assert(self@.trackers =~= before.fed(
            instrument@,
            price,
            ts_ns,
            next_sigma_sq,
        ).trackers);
        sigma_sq
    }

    /// The variance of an instrument, or the default where it has no tracker.
    pub fn get_sigma_sq(&self, instrument: &str) -> (r: Double)
        ensures
            r == self@.sigma_sq(instrument@),
    {
        match tracker_of(&self.garch_trackers, instrument) {
            Some(g) => g.sigma_sq(),
            None => Double::from_bits(UNTRACKED_SIGMA_SQ_BITS),
        }
    }

    /// When the last price of an instrument was observed; 0 before the first.
    pub fn garch_last_ts_ns(&self, instrument: &str) -> (r: u64)
        ensures
            r == self@.tracker(instrument@).last_ts_ns,
    {
        match tracker_of(&self.garch_trackers, instrument) {
            Some(g) => g.last_ts_ns(),
            None => 0,
        }
    }

    /// Some instrument that has a tracker, if there is one.
    pub fn any_instrument(&self) -> (r: Option<String>)
        ensures
            match r {
                Some(k) => self@.trackers.dom().contains(k@),
                None => self@.trackers.dom() == Set::<Seq<char>>::empty(),
            },
    {
        let r: Option<String> = some_tracked_instrument(&self.garch_trackers);
        assert(r is None ==> self@.trackers.dom() =~= Set::<Seq<char>>::empty());
        r
    }

    /// The variance of some instrument that has a tracker, or the default where
    /// none has.
    pub fn headline_sigma_sq(&self) -> (r: Double)
        ensures
            self@.is_headline(r),
    {
        match self.any_instrument() {
            Some(k) => self.get_sigma_sq(k.as_str()),
            None => Double::from_bits(UNTRACKED_SIGMA_SQ_BITS),
        }
    }
}

/// Asking for a tracker a second time changes nothing, and neither time does it
/// change a tracker that is there, the positions or the thresholds.
pub proof fn law_tracking_is_idempotent(v: EngineView, instrument: Seq<char>, other: Seq<char>)
    ensures
        ({
            let w: EngineView = v.tracking(instrument);
            &&& w.trackers.dom().contains(instrument)
            &&& w.tracking(instrument) == w
            &&& v.trackers.dom().contains(instrument) ==> w == v
            &&& w.tracker(other) == v.tracker(other)
            &&& w.portfolio == v.portfolio && w.gate_config == v.gate_config
        }),
{
    let w: EngineView = v.tracking(instrument);
    assert(w.tracking(instrument).trackers =~= w.trackers);
    if v.trackers.dom().contains(instrument) {
        assert(w.trackers =~= v.trackers);
    }
}

/// The variance that is read of an instrument is the one that its last price
/// moved it to: from the second price on the one that came with the price, and
/// at the first price the long-run variance of the model.
pub proof fn law_fed_variance_is_read_back(
    v: EngineView,
    instrument: Seq<char>,
    price: i64,
    ts_ns: u64,
    next_sigma_sq: Double,
)
    ensures
        v.tracker(instrument).prices.len() > 0 ==> v.fed(
            instrument,
            price,
            ts_ns,
            next_sigma_sq,
        ).sigma_sq(instrument) == next_sigma_sq,
        !v.trackers.dom().contains(instrument) ==> v.fed(
            instrument,
            price,
            ts_ns,
            next_sigma_sq,
        ).sigma_sq(instrument) == default_coefficients().long_run_variance,
{
}

/// A price of one instrument touches neither the tracker of another nor the
/// positions.
pub proof fn law_feeding_touches_one_instrument(
    v: EngineView,
    instrument: Seq<char>,
    price: i64,
    ts_ns: u64,
    next_sigma_sq: Double,
    other: Seq<char>,
)
    requires
        other != instrument,
    ensures
        ({
            let w: EngineView = v.fed(instrument, price, ts_ns, next_sigma_sq);
            &&& w.trackers.dom().contains(other) == v.trackers.dom().contains(other)
            &&& w.tracker(other) == v.tracker(other)
            &&& w.sigma_sq(other) == v.sigma_sq(other)
            &&& w.portfolio == v.portfolio && w.gate_config == v.gate_config
        }),
{
}

/// The variance that is read of an instrument: that of its tracker, and 0.0002
/// where it has none.
pub proof fn law_variance_is_that_of_the_tracker(
    state: &EngineState,
    instrument: &str,
    sigma_sq: Double,
    last_ts_ns: u64,
)
    requires
        call_ensures(EngineState::get_sigma_sq, (state, instrument), sigma_sq),
        call_ensures(EngineState::garch_last_ts_ns, (state, instrument), last_ts_ns),
    ensures
        state@.trackers.dom().contains(instrument@) ==> sigma_sq
            == state@.trackers[instrument@].sigma_sq,
        !state@.trackers.dom().contains(instrument@) ==> sigma_sq.bits == 0x3f2a_36e2_eb1c_432d,
        sigma_sq == state@.sigma_sq(instrument@),
        state@.trackers.dom().contains(instrument@) ==> last_ts_ns
            == state@.trackers[instrument@].last_ts_ns,
        !state@.trackers.dom().contains(instrument@) ==> last_ts_ns == 0,
{
}

/// The variance that stands for the market is that of an instrument that is
/// tracked, and 0.0002 where none is.
pub proof fn law_headline_is_that_of_a_tracker(
    state: &EngineState,
    name: Option<String>,
    sigma_sq: Double,
)
    requires
        call_ensures(EngineState::any_instrument, (state,), name),
        call_ensures(EngineState::headline_sigma_sq, (state,), sigma_sq),
    ensures
        name matches Some(k) ==> state@.trackers.dom().contains(k@),
        name is None ==> forall|k: Seq<char>| !(#[trigger] state@.trackers.dom().contains(k)),
        (exists|k: Seq<char>| #[trigger] state@.trackers.dom().contains(k)) ==> name is Some
            && exists|k: Seq<char>| #[trigger]
            state@.trackers.dom().contains(k) && state@.trackers[k].sigma_sq == sigma_sq,
        (forall|k: Seq<char>| !(#[trigger] state@.trackers.dom().contains(k))) ==> sigma_sq.bits
            == 0x3f2a_36e2_eb1c_432d,
{
    if forall|k: Seq<char>| !(#[trigger] state@.trackers.dom().contains(k)) {
        assert(state@.trackers.dom() =~= Set::<Seq<char>>::empty());
    }
}

/// What the next variance of an instrument is computed from: the price that its
/// tracker took in last, and the parameters with the variance so far; where it
/// has no tracker, the default parameters alpha 0.10, beta 0.85 and omega 0.00001
/// at their long-run variance.
pub proof fn law_variance_inputs(
    state: &EngineState,
    instrument: &str,
    price: i64,
    r: (LogReturn, GarchSnapshot),
)
    requires
        call_ensures(EngineState::variance_inputs, (state, instrument, price), r),
    ensures
        ({
            let g: GarchView = state@.trackers[instrument@];
            let n: int = g.prices.len() as int;
            &&& state@.trackers.dom().contains(instrument@) ==> {
                &&& n == 0 ==> r.0 == LogReturn::First
                &&& n > 0 && g.prices[n - 1] > 0 && price > 0 ==> r.0 == (LogReturn::Ratio {
                    previous: g.prices[n - 1],
                    current: price,
                })
                &&& n > 0 && (g.prices[n - 1] <= 0 || price <= 0) ==> r.0 == LogReturn::Zero
                &&& r.1.sigma_sq == g.sigma_sq && r.1.alpha == g.alpha && r.1.beta == g.beta
                &&& r.1.omega == g.omega
            }
            &&& !state@.trackers.dom().contains(instrument@) ==> {
                &&& r.0 == LogReturn::First
                &&& r.1.sigma_sq.bits == 0x3f2a_36e2_eb1c_4327
                &&& r.1.alpha.bits == 0x3fb9_9999_9999_999a
                &&& r.1.beta.bits == 0x3feb_3333_3333_3333
                &&& r.1.omega.bits == 0x3ee4_f8b5_88e3_68f1
            }
        }),
{
}

/// A new tracker has the default parameters and no prices, and starts at their
/// long-run variance.
pub proof fn law_new_tracker_has_the_defaults(v: EngineView, instrument: Seq<char>)
    requires
        !v.trackers.dom().contains(instrument),
    ensures
        ({
            let g: GarchView = v.tracking(instrument).trackers[instrument];
            &&& g.alpha.bits == 0x3fb9_9999_9999_999a
            &&& g.beta.bits == 0x3feb_3333_3333_3333
            &&& g.omega.bits == 0x3ee4_f8b5_88e3_68f1
            &&& g.sigma_sq.bits == 0x3f2a_36e2_eb1c_4327
            &&& g.long_run_variance.bits == 0x3f2a_36e2_eb1c_4327
            &&& g.scale == 8 && g.prices.len() == 0 && g.last_ts_ns == 0
        }),
{
}

/// What a price changes in the state: the tracker of its instrument takes it in,
/// among the last 500, and is made where there was none; nothing else changes.
pub proof fn law_feeding_a_price(
    v: EngineView,
    instrument: Seq<char>,
    price: i64,
    ts_ns: u64,
    next_sigma_sq: Double,
)
    requires
        v.trackers.dom().contains(instrument) ==> v.trackers[instrument].prices.len() <= 500,
    ensures
        ({
            let w: EngineView = v.fed(instrument, price, ts_ns, next_sigma_sq);
            let before: Seq<i64> = if v.trackers.dom().contains(instrument) {
                v.trackers[instrument].prices
            } else {
                Seq::empty()
            };
            let g: GarchView = w.trackers[instrument];
            let n: int = g.prices.len() as int;
            &&& w.trackers.dom() == v.trackers.dom().insert(instrument)
            &&& n == if before.len() < 500 {
                before.len() + 1
            } else {
                500
            }
            &&& g.prices[n - 1] == price
            &&& forall|i: int|
                0 <= i < n - 1 ==> #[trigger] g.prices[i] == before[before.len() - (n - 1) + i]
            &&& g.last_ts_ns == ts_ns
            &&& before.len() > 0 ==> g.sigma_sq == next_sigma_sq
            &&& before.len() == 0 && v.trackers.dom().contains(instrument) ==> g.sigma_sq
                == v.trackers[instrument].sigma_sq
            &&& !v.trackers.dom().contains(instrument) ==> g.sigma_sq.bits
                == 0x3f2a_36e2_eb1c_4327
            &&& forall|k: Seq<char>|
                k != instrument && #[trigger] v.trackers.dom().contains(k) ==> w.trackers[k]
                    == v.trackers[k]
            &&& w.portfolio == v.portfolio && w.gate_config == v.gate_config
        }),
{
    let w: EngineView = v.fed(instrument, price, ts_ns, next_sigma_sq);
    assert(w.trackers.dom() =~= v.trackers.dom().insert(instrument));
}

/// A new state has no positions and no trackers, and keeps the assets and the
/// thresholds that it was given.
pub proof fn law_new_state_is_empty(
    gate_config: GateConfig,
    initial_aum: FixedDecimal,
    state: EngineState,
    config: GateConfig,
)
    requires
        call_ensures(EngineState::new, (gate_config, initial_aum), state),
        call_ensures(EngineState::gate_config, (&state,), config),
    ensures
        state@.portfolio.positions.len() == 0,
        state@.portfolio.aum == initial_aum && state@.portfolio.hwm == initial_aum,
        forall|k: Seq<char>| !(#[trigger] state@.trackers.dom().contains(k)),
        state@.gate_config == gate_config && config == gate_config,
        state.wf(),
{
}

/// What a price does to the state, and what `feed_price` returns.
pub proof fn law_fed_state_has_taken_the_price_in(
    state: &mut EngineState,
    instrument: &str,
    price: i64,
    ts_ns: u64,
    next_sigma_sq: Double,
    r: Double,
)
    requires
        call_ensures(
            EngineState::feed_price,
            (state, instrument, price, ts_ns, next_sigma_sq),
            r,
        ),
    ensures
        final(state).wf(),
        final(state)@ == old(state)@.fed(instrument@, price, ts_ns, next_sigma_sq),
        r == final(state)@.trackers[instrument@].sigma_sq,
{
}

/// Opening, closing and tracking change what they are about, and leave the rest of
/// the state.
pub proof fn law_state_changes_in_one_place(
    a: &mut EngineState,
    b: &mut EngineState,
    c: &mut EngineState,
    instrument: &str,
    side: i32,
    notional: FixedDecimal,
    entry_price: FixedDecimal,
    leverage: FixedDecimal,
    left: Option<FixedDecimal>,
)
    requires
        call_ensures(
            EngineState::open_position,
            (a, instrument, side, notional, entry_price, leverage),
            (),
        ),
        call_ensures(EngineState::close_position, (b, instrument, notional), left),
        call_ensures(EngineState::get_or_create_garch, (c, instrument), ()),
    ensures
        final(a)@.portfolio == old(a)@.portfolio.opened(
            instrument@,
            side,
            notional,
            entry_price,
            leverage,
        ),
        final(a)@.trackers == old(a)@.trackers && final(a)@.gate_config == old(a)@.gate_config,
        final(b)@.portfolio == old(b)@.portfolio.closed(instrument@, notional),
        final(b)@.trackers == old(b)@.trackers && final(b)@.gate_config == old(b)@.gate_config,
        left == old(b)@.portfolio.remaining(instrument@, notional),
        final(c)@.portfolio == old(c)@.portfolio && final(c)@.gate_config == old(
            c,
        )@.gate_config,
        final(c)@.trackers.dom().contains(instrument@),
        old(c)@.trackers.dom().contains(instrument@) ==> final(c)@.trackers == old(c)@.trackers,
        forall|k: Seq<char>|
            k != instrument@ ==> (#[trigger] final(c)@.trackers.dom().contains(k) <==> old(
                c,
            )@.trackers.dom().contains(k)),
{
    if old(c)@.trackers.dom().contains(instrument@) {
        assert(old(c)@.tracking(instrument@).trackers =~= old(c)@.trackers);
    }
}

/// The state shows the portfolio that it holds.
pub proof fn law_state_shows_its_portfolio(state: &EngineState, r: &PortfolioStateManager)
    requires
        call_ensures(EngineState::portfolio, (state,), r),
    ensures
        r@ == state@.portfolio,
{
}

} // verus!
