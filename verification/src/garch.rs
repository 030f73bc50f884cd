//! GARCH(1,1) conditional variance tracking with a fixed-size ring buffer.
//!
//! The model is `s2(t) = omega + alpha * r2(t-1) + beta * s2(t-1)`, where `r` is
//! the log-return between two consecutive prices. This module keeps the state
//! of the estimator: which prices are remembered, which pair of prices the next
//! log-return is taken over, and when the variance moves. The variance itself
//! is a double that the caller computes from what the state hands out.

use crate::double::Double;
use crate::interceptor::GarchSnapshot;
use vstd::prelude::*;

verus! {

/// The parameters of the model, with the two numbers that follow from them.
#[derive(Debug, Clone, Copy, PartialEq, Eq, Structural)]
pub struct GarchCoefficients {
    /// Weight of the previous squared return.
    pub alpha: Double,
    /// Weight of the previous conditional variance.
    pub beta: Double,
    /// Intercept of the long-run variance.
    pub omega: Double,
    /// The sum of `alpha` and `beta`.
    pub persistence: Double,
    /// `omega` divided by one less the sum.
    pub long_run_variance: Double,
}

/// Why an estimator cannot be constructed.
#[derive(Debug, Clone, Copy, PartialEq, Eq, Structural)]
pub enum GarchError {
    /// The sum of alpha and beta reaches one: the process is not stationary.
    AlphaBetaSumExceedsOne { alpha: Double, beta: Double, sum: Double },
    /// Omega is not positive.
    OmegaNonPositive { omega: Double },
    /// The ring buffer would hold nothing.
    InvalidBufferSize { size: usize },
}

/// The log-return that a new price gives rise to.
#[derive(Debug, Clone, Copy, PartialEq, Eq, Structural)]
pub enum LogReturn {
    /// No price came before: there is no return, and the variance stays.
    First,
    /// One of the two prices is not positive: the return counts as zero.
    Zero,
    /// The logarithm of `current` over `previous`.
    Ratio { previous: i64, current: i64 },
}

/// The encoding of one.
pub const ONE_BITS: u64 = 0x3ff0_0000_0000_0000;

/// The last `n` items of a sequence, or all of them where it is shorter.
pub open spec fn last_n(s: Seq<i64>, n: int) -> Seq<i64> {
    if s.len() > n {
        s.skip(s.len() - n)
    } else {
        s
    }
}

/// The first rule that the coefficients and the buffer size break: the size,
/// then omega, then stationarity. What is not a number breaks its rule.
pub open spec fn construction_error(c: GarchCoefficients, size: usize) -> Option<GarchError> {
    if size == 0 {
        Some(GarchError::InvalidBufferSize { size })
    } else if !c.omega.greater_than(Double { bits: 0 }) {
        Some(GarchError::OmegaNonPositive { omega: c.omega })
    } else if !(Double { bits: ONE_BITS }).greater_than(c.persistence) {
        Some(
            GarchError::AlphaBetaSumExceedsOne {
                alpha: c.alpha,
                beta: c.beta,
                sum: c.persistence,
            },
        )
    } else {
        None
    }
}

/// The log-return that `price` gives rise to, after `prices`.
pub open spec fn log_return_after(prices: Seq<i64>, price: i64) -> LogReturn {
    if prices.len() == 0 {
        LogReturn::First
    } else if prices.last() > 0 && price > 0 {
        LogReturn::Ratio { previous: prices.last(), current: price }
    } else {
        LogReturn::Zero
    }
}

/// What an estimator stands for.
#[verifier::ext_equal]
pub struct GarchView {
    pub alpha: Double,
    pub beta: Double,
    pub omega: Double,
    pub scale: u32,
    /// The prices remembered, oldest first.
    pub prices: Seq<i64>,
    /// The variance that the estimator starts at.
    pub long_run_variance: Double,
    /// The current conditional variance.
    pub sigma_sq: Double,
    /// When the last price was observed; 0 before the first.
    pub last_ts_ns: u64,
}

impl GarchView {
    /// A fresh estimator: no prices, at the long-run variance.
    pub open spec fn initial(c: GarchCoefficients, scale: u32) -> GarchView {
        GarchView {
            alpha: c.alpha,
            beta: c.beta,
            omega: c.omega,
            scale,
            prices: Seq::empty(),
            long_run_variance: c.long_run_variance,
            sigma_sq: c.long_run_variance,
            last_ts_ns: 0,
        }
    }

    /// The estimator back in its initial state.
    pub open spec fn restarted(self) -> GarchView {
        GarchView {
            prices: Seq::empty(),
            sigma_sq: self.long_run_variance,
            last_ts_ns: 0,
            ..self
        }
    }

    /// The estimator after a series of prices, each with its time and with the
    /// variance that the model gives for it.
    pub open spec fn fed(self, feed: Seq<(i64, u64, Double)>, n: int) -> GarchView
        decreases feed.len(),
    {
        if feed.len() == 0 {
            self
        } else {
            self.fed(feed.drop_last(), n).observed(feed.last().0, feed.last().1, feed.last().2, n)
        }
    }

    /// The estimator after one more price: the price is remembered among the
    /// last `n`, and from the second price on the variance moves to `next`.
    pub open spec fn observed(self, price: i64, ts_ns: u64, next: Double, n: int) -> GarchView {
        GarchView {
            prices: last_n(self.prices.push(price), n),
            sigma_sq: if self.prices.len() == 0 {
                self.sigma_sq
            } else {
                next
            },
            last_ts_ns: ts_ns,
            ..self
        }
    }
}

/// A GARCH(1,1) state machine that remembers the last `N` prices.
#[derive(Debug, Clone, Copy)]
pub struct GarchState<const N: usize> {
    alpha: Double,
    beta: Double,
    omega: Double,
    /// The ring buffer of raw prices.
    returns: [i64; N],
    scale: u32,
    /// Where the next price goes.
    pos: usize,
    /// How many prices the buffer holds.
    count: usize,
    /// The variance to start at.
    long_run_variance: Double,
    sigma_sq: Double,
    prev_sigma_sq: Double,
    last_ts_ns: u64,
}

impl<const N: usize> View for GarchState<N> {
    type V = GarchView;

    closed spec fn view(&self) -> GarchView {
        GarchView {
            alpha: self.alpha,
            beta: self.beta,
            omega: self.omega,
            scale: self.scale,
            prices: Seq::new(self.count as nat, |i: int| self.returns[self.slot(i)]),
            long_run_variance: self.long_run_variance,
            sigma_sq: self.sigma_sq,
            last_ts_ns: self.last_ts_ns,
        }
    }
}

impl<const N: usize> GarchState<N> {
    /// Where the ring buffer holds the `i`-th oldest price.
    closed spec fn slot(self, i: int) -> int {
        (self.pos + N - self.count + i) % N as int
    }

    /// The buffer fills from its start, then wraps round; the two variances
    /// that the recurrence runs over agree between updates.
    pub closed spec fn wf(self) -> bool {
        &&& N > 0
        &&& self.count <= N
        &&& self.count == 0 ==> self.pos == 0
        &&& self.count < N ==> self.pos == self.count
        &&& self.pos < N
        &&& self.prev_sigma_sq == self.sigma_sq
    }

    /// Constructs an estimator at its long-run variance, or says which rule its
    /// configuration breaks.
    pub fn try_new(c: GarchCoefficients, scale: u32) -> (r: Result<Self, GarchError>)
        ensures
            match construction_error(c, N) {
                Some(e) => r == Err::<Self, GarchError>(e),
                None => r matches Ok(g) && g.wf() && g@ == GarchView::initial(c, scale),
            },
    {
        if N == 0 {
            return Err(GarchError::InvalidBufferSize { size: N });
        }
        if !c.omega.exceeds(Double::from_bits(0)) {
            return Err(GarchError::OmegaNonPositive { omega: c.omega });
        }
        if !Double::from_bits(ONE_BITS).exceeds(c.persistence) {
            return Err(
                GarchError::AlphaBetaSumExceedsOne {
                    alpha: c.alpha,
                    beta: c.beta,
                    sum: c.persistence,
                },
            );
        }
        let g: GarchState<N> = GarchState {
            alpha: c.alpha,
            beta: c.beta,
            omega: c.omega,
            returns: [0i64; N],
            scale,
            pos: 0,
            count: 0,
            long_run_variance: c.long_run_variance,
            sigma_sq: c.long_run_variance,
            prev_sigma_sq: c.long_run_variance,
            last_ts_ns: 0,
        };
        assert(g@ =~= GarchView::initial(c, scale));
        Ok(g)
    }

    /// Constructs an estimator at its long-run variance.
    pub fn new(c: GarchCoefficients, scale: u32) -> (g: Self)
        requires
            construction_error(c, N) is None,
        ensures
            g.wf(),
            g@ == GarchView::initial(c, scale),
    {
        GarchState::try_new(c, scale).unwrap()
    }

    /// The log-return that a new price gives rise to: what the next variance is
    /// to be computed from.
    pub fn log_return(&self, price: i64) -> (r: LogReturn)
        requires
            self.wf(),
        ensures
            r == log_return_after(self@.prices, price),
    {
        if self.count == 0 {
            return LogReturn::First;
        }
        let newest: usize = if self.pos == 0 {
            N - 1
        } else {
            self.pos - 1
        };
        proof {
            self.lemma_newest();
        }
        let previous: i64 = self.returns[newest];
        if previous > 0 && price > 0 {
            LogReturn::Ratio { previous, current: price }
        } else {
            LogReturn::Zero
        }
    }

    /// The slot before the write position holds the newest price.
    proof fn lemma_newest(self)
        requires
            self.wf(),
            self.count > 0,
        ensures
            self@.prices.len() == self.count,
            self@.prices.last() == self.returns[if self.pos == 0 {
                N - 1
            } else {
                self.pos - 1
            }],
    {
        let i: int = self.count - 1;
        assert(self.pos + N - self.count + i == self.pos + N - 1);
        if self.pos == 0 {
            vstd::arithmetic::div_mod::lemma_small_mod((N - 1) as nat, N as nat);
        } else {
            vstd::arithmetic::div_mod::lemma_mod_add_multiples_vanish(self.pos - 1, N as int);
            vstd::arithmetic::div_mod::lemma_small_mod((self.pos - 1) as nat, N as nat);
        }
    }

    /// Takes in a new price, observed at `ts_ns`. From the second price on, the
    /// variance becomes `next_sigma_sq`, which is what the model gives for the
    /// log-return that `log_return` names. Returns the variance.
    pub fn update(&mut self, price: i64, ts_ns: u64, next_sigma_sq: Double) -> (sigma_sq: Double)
        requires
            old(self).wf(),
        ensures
            final(self).wf(),
            final(self)@ == old(self)@.observed(price, ts_ns, next_sigma_sq, N as int),
            sigma_sq == final(self)@.sigma_sq,
    {
        let ghost before: GarchState<N> = *self;
        if self.count == 0 {
            self.returns[0] = price;
            self.pos = if N == 1 {
                0
            } else {
                1
            };
            self.count = 1;
            self.last_ts_ns = ts_ns;
            proof {
                lemma_wrap(N as int, N as int);
                assert(self.slot(0) == 0);
                assert(self@.prices =~= last_n(before@.prices.push(price), N as int));
            }
            return self.sigma_sq;
        }
        self.returns[self.pos] = price;
        self.pos = if self.pos + 1 == N {
            0
        } else {
            self.pos + 1
        };
        self.count = if self.count < N {
            self.count + 1
        } else {
            N
        };
        self.last_ts_ns = ts_ns;
        self.sigma_sq = next_sigma_sq;
        self.prev_sigma_sq = self.sigma_sq;
        proof {
            lemma_ring_push(before, *self, price);
        }
        self.sigma_sq
    }

    /// The current conditional variance.
    pub fn sigma_sq(&self) -> (r: Double)
        ensures
            r == self@.sigma_sq,
    {
        self.sigma_sq
    }

    /// How many prices are remembered: at most `N`.
    pub fn observation_count(&self) -> (r: usize)
        requires
            self.wf(),
        ensures
            r == self@.prices.len(),
            r <= N,
    {
        self.count
    }

    /// When the last price was observed, in nanoseconds; 0 before the first.
    pub fn last_ts_ns(&self) -> (r: u64)
        ensures
            r == self@.last_ts_ns,
    {
        self.last_ts_ns
    }

    /// The variance and the parameters, for the risk gates.
    pub fn snapshot(&self) -> (r: GarchSnapshot)
        ensures
            r == (GarchSnapshot {
                sigma_sq: self@.sigma_sq,
                alpha: self@.alpha,
                beta: self@.beta,
                omega: self@.omega,
            }),
    {
        GarchSnapshot {
            sigma_sq: self.sigma_sq,
            alpha: self.alpha,
            beta: self.beta,
            omega: self.omega,
        }
    }

    /// Goes back to the initial state, at the variance that the estimator started
    /// at; the parameters stay.
    pub fn reset(&mut self)
        requires
            old(self).wf(),
        ensures
            final(self).wf(),
            final(self)@ == old(self)@.restarted(),
    {
        self.sigma_sq = self.long_run_variance;
        self.prev_sigma_sq = self.long_run_variance;
        self.pos = 0;
        self.count = 0;
        self.returns = [0i64; N];
        self.last_ts_ns = 0;
        assert(self@.prices =~= Seq::<i64>::empty());
    }
}

/// The remainder of a number that is short of twice the divisor.
proof fn lemma_wrap(x: int, n: int)
    requires
        0 <= x < 2 * n,
    ensures
        x % n == (if x < n {
            x
        } else {
            x - n
        }),
{
    if x < n {
        vstd::arithmetic::div_mod::lemma_small_mod(x as nat, n as nat);
    } else {
        vstd::arithmetic::div_mod::lemma_mod_add_multiples_vanish(x - n, n);
        vstd::arithmetic::div_mod::lemma_small_mod((x - n) as nat, n as nat);
    }
}

/// Writing at the write position and moving it on appends to the prices
/// remembered, and forgets the oldest where the buffer was full.
proof fn lemma_ring_push<const N: usize>(a: GarchState<N>, b: GarchState<N>, price: i64)
    requires
        a.wf(),
        a.count > 0,
        b.returns@ == a.returns@.update(a.pos as int, price),
        b.pos == (if a.pos + 1 == N {
            0int
        } else {
            a.pos + 1
        }),
        b.count == (if a.count < N {
            a.count + 1
        } else {
            N as int
        }),
    ensures
        b@.prices == last_n(a@.prices.push(price), N as int),
{
    let n: int = N as int;
    let want: Seq<i64> = last_n(a@.prices.push(price), n);
    assert(b@.prices.len() == want.len());
    assert forall|i: int| 0 <= i < b.count implies b@.prices[i] == want[i] by {
        if a.count < N {
            lemma_wrap(n + i, n);
            assert(b.slot(i) == i) by {
                if b.count == N {
                    lemma_wrap(i, n);
                }
            }
            if i < a.count {
                assert(a.slot(i) == i);
            }
        } else {
            lemma_wrap(b.pos + i, n);
            if i < n - 1 {
                lemma_wrap(a.pos + i + 1, n);
                assert(a.slot(i + 1) == b.slot(i));
            }
        }
    }
    assert(b@.prices =~= want);
}

/// An estimator that can be constructed is stationary: omega is above zero, the
/// sum of alpha and beta is below one, and the buffer holds something. Nothing
/// else can be constructed.
pub proof fn law_constructed_is_stationary(c: GarchCoefficients, size: usize)
    ensures
        construction_error(c, size) is None <==> {
            &&& size > 0
            &&& c.omega.greater_than(Double { bits: 0 })
            &&& (Double { bits: ONE_BITS }).greater_than(c.persistence)
        },
{
}

/// The exact sum of alpha and beta is below one in every estimator that can be
/// constructed, where adding them in floating point does not bring a sum that
/// has reached one back below it. `2^1074` is the value of one.
pub proof fn law_parameters_sum_below_one(c: GarchCoefficients, size: usize)
    requires
        construction_error(c, size) is None,
        c.alpha.units() + c.beta.units() >= crate::double::pow2(1074) ==> (Double {
            bits: ONE_BITS,
        }).no_greater_than(c.persistence),
    ensures
        c.alpha.units() + c.beta.units() < crate::double::pow2(1074),
{
}

/// Whatever prices a fresh estimator has taken in, it remembers exactly the
/// last `n` of them, in order; its parameters are those that it was made with,
/// its clock shows the last price, and its variance is the one that came with
/// the last price, from the second price on.
pub proof fn law_remembers_the_last_prices(
    c: GarchCoefficients,
    scale: u32,
    feed: Seq<(i64, u64, Double)>,
    n: int,
)
    requires
        n > 0,
    ensures
        ({
            let start: GarchView = GarchView::initial(c, scale);
            let end: GarchView = start.fed(feed, n);
            &&& end.prices == last_n(feed.map_values(|f: (i64, u64, Double)| f.0), n)
            &&& end.prices.len() <= n
            &&& end.alpha == c.alpha && end.beta == c.beta && end.omega == c.omega
            &&& end.scale == scale && end.long_run_variance == c.long_run_variance
            &&& end.last_ts_ns == (if feed.len() == 0 {
                0
            } else {
                feed.last().1
            })
            &&& end.sigma_sq == (if feed.len() <= 1 {
                c.long_run_variance
            } else {
                feed.last().2
            })
        }),
    decreases feed.len(),
{
    let pick = |f: (i64, u64, Double)| f.0;
    let prices: Seq<i64> = feed.map_values(pick);
    if feed.len() > 0 {
        let less: Seq<(i64, u64, Double)> = feed.drop_last();
        law_remembers_the_last_prices(c, scale, less, n);
        let before: Seq<i64> = less.map_values(pick);
        assert(prices =~= before.push(feed.last().0));
        assert(last_n(last_n(before, n).push(feed.last().0), n) =~= last_n(prices, n));
    } else {
        assert(prices =~= Seq::<i64>::empty());
    }
}

/// A reset makes an estimator as good as new, whatever prices it has taken in.
pub proof fn law_reset_is_a_fresh_start(
    c: GarchCoefficients,
    scale: u32,
    feed: Seq<(i64, u64, Double)>,
    n: int,
)
    requires
        n > 0,
    ensures
        GarchView::initial(c, scale).fed(feed, n).restarted() == GarchView::initial(c, scale),
{
    law_remembers_the_last_prices(c, scale, feed, n);
}

/// The log-return that an estimator hands out for a price: none before the first
/// price; the ratio of the new price over the last one wherever both are
/// positive, whether the price rose or fell; and zero where one of them is not.
pub proof fn law_log_return_is_the_ratio<const N: usize>(
    g: &GarchState<N>,
    price: i64,
    r: LogReturn,
)
    requires
        call_ensures(GarchState::<N>::log_return, (g, price), r),
    ensures
        g@.prices.len() == 0 <==> r == LogReturn::First,
        g@.prices.len() > 0 && g@.prices[g@.prices.len() - 1] > 0 && price > 0 ==> r
            == (LogReturn::Ratio { previous: g@.prices[g@.prices.len() - 1], current: price }),
        g@.prices.len() > 0 && (g@.prices[g@.prices.len() - 1] <= 0 || price <= 0) ==> r
            == LogReturn::Zero,
{
}

/// A log-return runs from the price that was taken in last to the new one, at
/// every size of the buffer.
pub proof fn law_log_return_follows_the_last_price(
    v: GarchView,
    last: i64,
    ts_ns: u64,
    next: Double,
    n: int,
    price: i64,
)
    requires
        n > 0,
        last > 0,
        price > 0,
    ensures
        log_return_after(v.observed(last, ts_ns, next, n).prices, price) == (LogReturn::Ratio {
            previous: last,
            current: price,
        }),
        log_return_after(v.observed(last, ts_ns, next, n).prices, 0) == LogReturn::Zero,
        log_return_after(Seq::empty(), price) == LogReturn::First,
{
}

/// What one more price changes in an estimator: it becomes the newest of the
/// prices remembered, those before it stay in order and the oldest goes where
/// there is no more room; the variance moves from the second price on; the clock
/// shows the price; and nothing else changes.
pub proof fn law_observing_one_price(v: GarchView, price: i64, ts_ns: u64, next: Double, n: int)
    requires
        n > 0,
        v.prices.len() <= n,
    ensures
        ({
            let w: GarchView = v.observed(price, ts_ns, next, n);
            let full: int = if v.prices.len() == n {
                1
            } else {
                0
            };
            &&& w.prices.len() == v.prices.len() + 1 - full
            &&& w.prices[w.prices.len() - 1] == price
            &&& forall|i: int|
                0 <= i < w.prices.len() - 1 ==> w.prices[i] == #[trigger] v.prices[i + full]
            &&& v.prices.len() == 0 ==> w.sigma_sq == v.sigma_sq
            &&& v.prices.len() > 0 ==> w.sigma_sq == next
            &&& w.last_ts_ns == ts_ns
            &&& w.alpha == v.alpha && w.beta == v.beta && w.omega == v.omega
            &&& w.scale == v.scale && w.long_run_variance == v.long_run_variance
        }),
{
}

/// The last `n` items are a suffix: as many items as there are, but no more than
/// `n`, and each counted from the end is the same.
pub proof fn law_last_items_are_a_suffix(s: Seq<i64>, n: int)
    requires
        n >= 0,
    ensures
        last_n(s, n).len() == (if s.len() < n {
            s.len() as int
        } else {
            n
        }),
        forall|i: int|
            0 <= i < last_n(s, n).len() ==> #[trigger] last_n(s, n)[i] == s[s.len() - last_n(
                s,
                n,
            ).len() + i],
{
}

/// What construction gives: the error of the first rule broken, in the order
/// size, omega, sum, with the values that broke it; and otherwise an estimator
/// without prices, at the long-run variance, with the parameters given.
pub proof fn law_construction<const N: usize>(
    c: GarchCoefficients,
    scale: u32,
    r: Result<GarchState<N>, GarchError>,
)
    requires
        call_ensures(GarchState::<N>::try_new, (c, scale), r),
    ensures
        ({
            let positive: bool = !c.omega.not_a_number() && c.omega.units() > 0;
            let below_one: bool = !c.persistence.not_a_number() && c.persistence.units()
                < vstd::arithmetic::power2::pow2(1074);
            &&& N == 0 ==> r == Err::<GarchState<N>, GarchError>(
                GarchError::InvalidBufferSize { size: 0 },
            )
            &&& N > 0 && !positive ==> r == Err::<GarchState<N>, GarchError>(
                GarchError::OmegaNonPositive { omega: c.omega },
            )
            &&& N > 0 && positive && !below_one ==> r == Err::<GarchState<N>, GarchError>(
                GarchError::AlphaBetaSumExceedsOne {
                    alpha: c.alpha,
                    beta: c.beta,
                    sum: c.persistence,
                },
            )
            &&& N > 0 && positive && below_one ==> {
                &&& r matches Ok(g)
                &&& g.wf()
                &&& g@.alpha == c.alpha && g@.beta == c.beta && g@.omega == c.omega
                &&& g@.scale == scale
                &&& g@.prices.len() == 0
                &&& g@.sigma_sq == c.long_run_variance
                &&& g@.long_run_variance == c.long_run_variance
                &&& g@.last_ts_ns == 0
            }
        }),
{
    let one: Double = Double { bits: ONE_BITS };
    assert(one.magnitude() / crate::double::FRACTION_END as int == 1023);
    assert(one.magnitude() % crate::double::FRACTION_END as int == 0);
    vstd::arithmetic::power2::lemma2_to64();
    vstd::arithmetic::power2::lemma2_to64_rest();
    vstd::arithmetic::power2::lemma_pow2_adds(52, 1022);
    assert(one.units() == vstd::arithmetic::power2::pow2(1074));
    assert((Double { bits: 0 }).units() == 0);
}

/// What an estimator tells of itself is what it holds.
pub proof fn law_estimator_tells_what_it_holds<const N: usize>(
    g: &GarchState<N>,
    sigma_sq: Double,
    count: usize,
    last_ts_ns: u64,
    snapshot: GarchSnapshot,
)
    requires
        call_ensures(GarchState::<N>::sigma_sq, (g,), sigma_sq),
        call_ensures(GarchState::<N>::observation_count, (g,), count),
        call_ensures(GarchState::<N>::last_ts_ns, (g,), last_ts_ns),
        call_ensures(GarchState::<N>::snapshot, (g,), snapshot),
    ensures
        sigma_sq == g@.sigma_sq,
        count == g@.prices.len(),
        last_ts_ns == g@.last_ts_ns,
        snapshot.sigma_sq == g@.sigma_sq,
        snapshot.alpha == g@.alpha,
        snapshot.beta == g@.beta,
        snapshot.omega == g@.omega,
{
}

/// What a reset changes in an estimator: the prices are gone, the variance is the
/// one that it started at, the clock is back at zero, and the parameters stay.
pub proof fn law_resetting(v: GarchView)
    ensures
        ({
            let w: GarchView = v.restarted();
            &&& w.prices.len() == 0
            &&& w.sigma_sq == v.long_run_variance && w.last_ts_ns == 0
            &&& w.alpha == v.alpha && w.beta == v.beta && w.omega == v.omega
            &&& w.scale == v.scale && w.long_run_variance == v.long_run_variance
        }),
{
}

/// What `update` does to an estimator and returns: the price becomes the newest of
/// the last `N`, with those before it in order; from the second price on the
/// variance is the one given, which is what is returned; the clock shows the
/// price; and nothing else changes.
pub proof fn law_update_takes_the_price_in<const N: usize>(
    g: &mut GarchState<N>,
    price: i64,
    ts_ns: u64,
    next_sigma_sq: Double,
    r: Double,
)
    requires
        call_ensures(GarchState::<N>::update, (g, price, ts_ns, next_sigma_sq), r),
        N > 0,
        old(g)@.prices.len() <= N,
    ensures
        ({
            let v: GarchView = old(g)@;
            let w: GarchView = final(g)@;
            let full: int = if v.prices.len() == N {
                1
            } else {
                0
            };
            &&& final(g).wf()
            &&& w.prices.len() == v.prices.len() + 1 - full
            &&& w.prices[w.prices.len() - 1] == price
            &&& forall|i: int|
                0 <= i < w.prices.len() - 1 ==> w.prices[i] == #[trigger] v.prices[i + full]
            &&& v.prices.len() == 0 ==> w.sigma_sq == v.sigma_sq
            &&& v.prices.len() > 0 ==> w.sigma_sq == next_sigma_sq
            &&& r == w.sigma_sq
            &&& w.last_ts_ns == ts_ns
            &&& w.alpha == v.alpha && w.beta == v.beta && w.omega == v.omega
            &&& w.scale == v.scale && w.long_run_variance == v.long_run_variance
        }),
{
    law_observing_one_price(old(g)@, price, ts_ns, next_sigma_sq, N as int);
}

/// What `reset` does to an estimator.
pub proof fn law_reset_starts_over<const N: usize>(g: &mut GarchState<N>)
    requires
        call_ensures(GarchState::<N>::reset, (g,), ()),
    ensures
        final(g).wf(),
        final(g)@.prices.len() == 0 && final(g)@.last_ts_ns == 0,
        final(g)@.sigma_sq == old(g)@.long_run_variance,
        final(g)@.long_run_variance == old(g)@.long_run_variance,
        final(g)@.alpha == old(g)@.alpha && final(g)@.beta == old(g)@.beta,
        final(g)@.omega == old(g)@.omega && final(g)@.scale == old(g)@.scale,
{
}

/// Construction that is known to succeed gives what the checked one gives.
pub proof fn law_plain_construction_agrees<const N: usize>(
    c: GarchCoefficients,
    scale: u32,
    g: GarchState<N>,
    checked: Result<GarchState<N>, GarchError>,
)
    requires
        call_ensures(GarchState::<N>::new, (c, scale), g),
        call_ensures(GarchState::<N>::try_new, (c, scale), checked),
    ensures
        checked matches Ok(h) ==> g@ == h@ && g.wf(),
{
}

} // verus!
