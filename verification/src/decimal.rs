//! Fixed-point decimal arithmetic. Every monetary amount and every ratio of the
//! engine is a `FixedDecimal`; the value it stands for is
//! `raw_units * 10^(-scale)`.

use std::cmp::Ordering;

use vstd::prelude::*;

verus! {

/// A decimal number held as an integer and a power of ten.
#[derive(Debug, Clone, Copy, PartialEq, Eq, Structural)]
pub struct FixedDecimal {
    pub raw_units: i64,
    pub scale: u32,
}

/// The power of ten by which a change of scale by `n` digits multiplies.
pub open spec fn pow10(n: int) -> int {
    vstd::arithmetic::power::pow(10, n as nat)
}

/// Division that rounds towards zero, for a positive divisor.
pub open spec fn truncated_quotient(n: int, d: int) -> int {
    if n >= 0 {
        n / d
    } else {
        -((-n) / d)
    }
}

/// The number fits 64 bits.
pub open spec fn fits_i64(n: int) -> bool {
    i64::MIN <= n <= i64::MAX
}

/// The finer of two scales: the one at which both numbers are whole.
pub open spec fn finer_scale(a: FixedDecimal, b: FixedDecimal) -> u32 {
    if a.scale >= b.scale {
        a.scale
    } else {
        b.scale
    }
}

impl FixedDecimal {
    /// The number of units of `10^(-target)` that the value is worth, for a
    /// target at least as fine as the scale of the number.
    pub open spec fn units_at(self, target: int) -> int {
        self.raw_units * pow10(target - self.scale)
    }

    /// The two numbers have the same value.
    pub open spec fn same_value(self, other: Self) -> bool {
        let s: u32 = finer_scale(self, other);
        self.units_at(s as int) == other.units_at(s as int)
    }

    /// The value of this number is below that of the other.
    pub open spec fn less_than(self, other: Self) -> bool {
        let s: u32 = finer_scale(self, other);
        self.units_at(s as int) < other.units_at(s as int)
    }

    /// The number can be brought to the scale `target`: the power of ten and
    /// the result both fit 64 bits.
    pub open spec fn rescalable(self, target: u32) -> bool {
        if self.scale == target {
            true
        } else if self.scale < target {
            &&& pow10(target - self.scale) <= i64::MAX
            &&& fits_i64(self.units_at(target as int))
        } else {
            pow10(self.scale - target) <= i64::MAX
        }
    }

    /// The number brought to the scale `target`. Going to a finer scale keeps
    /// the value; going to a coarser one rounds it towards zero.
    pub open spec fn rescaled(self, target: u32) -> FixedDecimal {
        if self.scale <= target {
            FixedDecimal { raw_units: self.units_at(target as int) as i64, scale: target }
        } else {
            FixedDecimal {
                raw_units: truncated_quotient(
                    self.raw_units as int,
                    pow10(self.scale - target),
                ) as i64,
                scale: target,
            }
        }
    }

    /// Both numbers can be brought to the finer of their two scales.
    pub open spec fn alignable(self, other: Self) -> bool {
        &&& self.rescalable(finer_scale(self, other))
        &&& other.rescalable(finer_scale(self, other))
    }

    /// The sum, in units of the finer scale.
    pub open spec fn sum_units(self, other: Self) -> int {
        let s: u32 = finer_scale(self, other);
        self.units_at(s as int) + other.units_at(s as int)
    }

    /// The difference, in units of the finer scale.
    pub open spec fn difference_units(self, other: Self) -> int {
        let s: u32 = finer_scale(self, other);
        self.units_at(s as int) - other.units_at(s as int)
    }

    /// The sum can be formed.
    pub open spec fn addable(self, other: Self) -> bool {
        self.alignable(other) && fits_i64(self.sum_units(other))
    }

    /// The difference can be formed.
    pub open spec fn subtractable(self, other: Self) -> bool {
        self.alignable(other) && fits_i64(self.difference_units(other))
    }

    /// The sum, at the finer of the two scales.
    pub open spec fn plus(self, other: Self) -> FixedDecimal {
        FixedDecimal {
            raw_units: self.sum_units(other) as i64,
            scale: finer_scale(self, other),
        }
    }

    /// The difference, at the finer of the two scales.
    pub open spec fn minus(self, other: Self) -> FixedDecimal {
        FixedDecimal {
            raw_units: self.difference_units(other) as i64,
            scale: finer_scale(self, other),
        }
    }
}

/// The powers of ten: positive, multiplied by adding exponents, and within 64
/// bits exactly up to the eighteenth.
proof fn lemma_pow10(n: int)
    requires
        0 <= n,
    ensures
        pow10(n) >= 1,
        n <= 18 <==> pow10(n) <= i64::MAX,
        n >= 1 ==> pow10(n) == 10 * pow10(n - 1),
        pow10(18) == 1_000_000_000_000_000_000,
        pow10(0) == 1,
        n >= 19 ==> pow10(n) >= 10_000_000_000_000_000_000,
{
    vstd::arithmetic::power::lemma_pow_positive(10, n as nat);
    if n >= 1 {
        vstd::arithmetic::power::lemma_pow1(10);
        vstd::arithmetic::power::lemma_pow_adds(10, 1, (n - 1) as nat);
    }
    vstd::arithmetic::power::lemma_pow0(10);
    assert(pow10(18) == 1_000_000_000_000_000_000) by {
        reveal_with_fuel(vstd::arithmetic::power::pow, 19);
    }
    assert(pow10(19) == 10_000_000_000_000_000_000) by {
        reveal_with_fuel(vstd::arithmetic::power::pow, 20);
    }
    if n <= 18 {
        vstd::arithmetic::power::lemma_pow_increases(10, n as nat, 18);
    } else {
        vstd::arithmetic::power::lemma_pow_increases(10, 19, n as nat);
    }
}

/// Bringing a number to a still finer scale multiplies its units by the power
/// of ten between the two scales.
pub proof fn lemma_units_at_finer(d: FixedDecimal, s: int, t: int)
    requires
        d.scale <= s <= t,
    ensures
        d.units_at(t) == d.units_at(s) * pow10(t - s),
{
    vstd::arithmetic::power::lemma_pow_adds(10, (s - d.scale) as nat, (t - s) as nat);
    let p: int = pow10(s - d.scale);
    let q: int = pow10(t - s);
    let r: int = d.raw_units as int;
    assert(r * (p * q) == (r * p) * q) by (nonlinear_arith);
}

/// At its own scale a number has as many units as it holds.
pub proof fn lemma_units_at_own_scale(d: FixedDecimal)
    ensures
        d.units_at(d.scale as int) == d.raw_units,
{
    lemma_pow10(0);
    assert(d.raw_units * 1 == d.raw_units);
}

/// A positive number has a positive count of units at every finer scale.
pub proof fn lemma_units_sign(d: FixedDecimal, s: int)
    requires
        d.scale <= s,
    ensures
        d.raw_units > 0 ==> d.units_at(s) >= d.raw_units,
{
    lemma_pow10(s - d.scale);
    let r: int = d.raw_units as int;
    let p: int = pow10(s - d.scale);
    assert(r > 0 ==> r * p >= r) by (nonlinear_arith)
        requires
            p >= 1,
    ;
}

/// Zero is zero units at every scale, and can be brought to the first eighteen.
pub proof fn lemma_zero_units(s: int)
    requires
        0 <= s,
    ensures
        (FixedDecimal { raw_units: 0, scale: 0 }).units_at(s) == 0,
        s <= 18 ==> pow10(s) <= i64::MAX,
{
    lemma_pow10(s);
    assert(0 * pow10(s) == 0);
}

/// Ten to the power `n`, where it fits 64 bits.
fn power_of_ten(n: u32) -> (p: Option<i64>)
    ensures
        match p {
            Some(v) => v == pow10(n as int),
            None => pow10(n as int) > i64::MAX,
        },
{
    proof {
        lemma_pow10(n as int);
    }
    if n > 18 {
        return None;
    }
    let mut v: i64 = 1;
    let mut k: u32 = 0;
    proof {
        lemma_pow10(0);
    }
    while k < n
        invariant
            k <= n <= 18,
            v == pow10(k as int),
        decreases n - k,
    {
        proof {
            lemma_pow10(k as int);
            lemma_pow10(k + 1);
        }
        v = v * 10;
        k = k + 1;
    }
    Some(v)
}

/// Whether `x * 10^d` lies below `y`; formed without overflow for every `d`.
fn shifted_below(x: i64, d: u32, y: i64) -> (r: bool)
    ensures
        r == (x * pow10(d as int) < y),
{
    proof {
        lemma_pow10(d as int);
        lemma_shift_sign(x as int, pow10(d as int));
    }
    match power_of_ten(d) {
        Some(p) => {
            proof {
                lemma_product_bounds(x, p);
            }
            (x as i128) * (p as i128) < y as i128
        },
        None => if x > 0 {
            false
        } else if x < 0 {
            true
        } else {
            0 < y
        },
    }
}

/// Whether `x * 10^d` lies above `y`; formed without overflow for every `d`.
fn shifted_above(x: i64, d: u32, y: i64) -> (r: bool)
    ensures
        r == (x * pow10(d as int) > y),
{
    proof {
        lemma_pow10(d as int);
        lemma_shift_sign(x as int, pow10(d as int));
    }
    match power_of_ten(d) {
        Some(p) => {
            proof {
                lemma_product_bounds(x, p);
            }
            (x as i128) * (p as i128) > y as i128
        },
        None => if x > 0 {
            true
        } else if x < 0 {
            false
        } else {
            0 > y
        },
    }
}

proof fn lemma_shift_sign(x: int, p: int)
    requires
        p >= 1,
    ensures
        x > 0 ==> x * p >= p,
        x < 0 ==> x * p <= -p,
        x == 0 ==> x * p == 0,
{
    assert(x > 0 ==> x * p >= p) by (nonlinear_arith)
        requires
            p >= 1,
    ;
    assert(x < 0 ==> x * p <= -p) by (nonlinear_arith)
        requires
            p >= 1,
    ;
}

proof fn lemma_product_bounds(x: i64, p: i64)
    ensures
        i128::MIN <= x * p <= i128::MAX,
{
    assert(-0x8000_0000_0000_0000 * 0x8000_0000_0000_0000 <= x * p
        <= 0x8000_0000_0000_0000 * 0x8000_0000_0000_0000) by (nonlinear_arith)
        requires
            -0x8000_0000_0000_0000 <= x <= 0x7fff_ffff_ffff_ffff,
            -0x8000_0000_0000_0000 <= p <= 0x7fff_ffff_ffff_ffff,
    ;
}

impl FixedDecimal {
    pub fn new(raw_units: i64, scale: u32) -> (d: Self)
        ensures
            d.raw_units == raw_units,
            d.scale == scale,
    {
        FixedDecimal { raw_units, scale }
    }

    /// Zero, at scale zero.
    pub fn zero() -> (d: Self)
        ensures
            d == (FixedDecimal { raw_units: 0, scale: 0 }),
    {
        FixedDecimal { raw_units: 0, scale: 0 }
    }

    /// This number brought to the scale `target`, where that can be done.
    pub fn checked_rescale(&self, target: u32) -> (r: Option<Self>)
        ensures
            r == (if self.rescalable(target) {
                Some(self.rescaled(target))
            } else {
                None
            }),
    {
        if self.scale == target {
            proof {
                lemma_units_at_own_scale(*self);
            }
            Some(*self)
        } else if self.scale < target {
            match power_of_ten(target - self.scale) {
                Some(p) => match self.raw_units.checked_mul(p) {
                    Some(raw_units) => Some(FixedDecimal { raw_units, scale: target }),
                    None => None,
                },
                None => None,
            }
        } else {
            match power_of_ten(self.scale - target) {
                Some(p) => {
                    proof {
                        lemma_pow10(self.scale - target);
                    }
                    let raw_units: i64 = self.raw_units / p;
                    Some(FixedDecimal { raw_units, scale: target })
                },
                None => None,
            }
        }
    }

    /// Brings this number to a new scale.
    pub fn rescale(&self, target: u32) -> (r: Self)
        requires
            self.rescalable(target),
        ensures
            r == self.rescaled(target),
    {
        self.checked_rescale(target).unwrap()
    }

    /// Both numbers as whole multiples of the finer of their two scales, with
    /// that scale, where both fit.
    pub fn checked_normalize_pair(a: &Self, b: &Self) -> (r: Option<(i64, i64, u32)>)
        ensures
            match r {
                Some((x, y, s)) => {
                    &&& a.alignable(*b)
                    &&& s == finer_scale(*a, *b)
                    &&& x == a.units_at(s as int)
                    &&& y == b.units_at(s as int)
                },
                None => !a.alignable(*b),
            },
    {
        let target: u32 = if a.scale >= b.scale {
            a.scale
        } else {
            b.scale
        };
        proof {
            lemma_units_at_own_scale(*a);
            lemma_units_at_own_scale(*b);
        }
        match (a.checked_rescale(target), b.checked_rescale(target)) {
            (Some(x), Some(y)) => Some((x.raw_units, y.raw_units, target)),
            _ => None,
        }
    }

    /// Rescales two numbers to a common denominator: the two numerators and the
    /// scale that they share.
    pub fn normalize_pair(a: &Self, b: &Self) -> (r: (i64, i64, u32))
        requires
            a.alignable(*b),
        ensures
            r.2 == finer_scale(*a, *b),
            r.0 == a.units_at(r.2 as int),
            r.1 == b.units_at(r.2 as int),
    {
        FixedDecimal::checked_normalize_pair(a, b).unwrap()
    }

    /// The sum, where it fits.
    pub fn checked_add(self, rhs: Self) -> (r: Option<Self>)
        ensures
            r == (if self.addable(rhs) {
                Some(self.plus(rhs))
            } else {
                None
            }),
    {
        match FixedDecimal::checked_normalize_pair(&self, &rhs) {
            Some((a, b, scale)) => match a.checked_add(b) {
                Some(raw_units) => Some(FixedDecimal { raw_units, scale }),
                None => None,
            },
            None => None,
        }
    }

    /// The difference, where it fits.
    pub fn checked_sub(self, rhs: Self) -> (r: Option<Self>)
        ensures
            r == (if self.subtractable(rhs) {
                Some(self.minus(rhs))
            } else {
                None
            }),
    {
        match FixedDecimal::checked_normalize_pair(&self, &rhs) {
            Some((a, b, scale)) => match a.checked_sub(b) {
                Some(raw_units) => Some(FixedDecimal { raw_units, scale }),
                None => None,
            },
            None => None,
        }
    }

    /// Whether the value of this number is below that of the other.
    fn value_below(&self, other: &Self) -> (r: bool)
        ensures
            r == self.less_than(*other),
    {
        proof {
            lemma_units_at_own_scale(*self);
            lemma_units_at_own_scale(*other);
        }
        if self.scale <= other.scale {
            shifted_below(self.raw_units, other.scale - self.scale, other.raw_units)
        } else {
            shifted_above(other.raw_units, self.scale - other.scale, self.raw_units)
        }
    }

    /// Whether the value of this number has reached that of a limit.
    pub fn has_reached(&self, limit: &Self) -> (r: bool)
        ensures
            r == !self.less_than(*limit),
    {
        !self.value_below(limit)
    }

    /// Orders two numbers by value, whatever their scales.
    pub fn cmp(&self, other: &Self) -> (r: Ordering)
        ensures
            r == self.value_order(*other),
    {
        if self.value_below(other) {
            Ordering::Less
        } else if other.value_below(self) {
            Ordering::Greater
        } else {
            Ordering::Equal
        }
    }

    /// How the two values compare.
    pub open spec fn value_order(self, other: Self) -> Ordering {
        if self.less_than(other) {
            Ordering::Less
        } else if other.less_than(self) {
            Ordering::Greater
        } else {
            Ordering::Equal
        }
    }
}

impl Default for FixedDecimal {
    fn default() -> (d: Self)
        ensures
            d == (FixedDecimal { raw_units: 0, scale: 0 }),
    {
        FixedDecimal::zero()
    }
}

impl std::ops::Add for FixedDecimal {
    type Output = FixedDecimal;

    fn add(self, rhs: Self) -> (r: FixedDecimal) {
        self.checked_add(rhs).unwrap()
    }
}

impl vstd::std_specs::ops::AddSpecImpl for FixedDecimal {
    open spec fn obeys_add_spec() -> bool {
        true
    }

    open spec fn add_req(self, rhs: Self) -> bool {
        self.addable(rhs)
    }

    open spec fn add_spec(self, rhs: Self) -> FixedDecimal {
        self.plus(rhs)
    }
}

impl std::ops::Sub for FixedDecimal {
    type Output = FixedDecimal;

    fn sub(self, rhs: Self) -> (r: FixedDecimal) {
        self.checked_sub(rhs).unwrap()
    }
}

impl vstd::std_specs::ops::SubSpecImpl for FixedDecimal {
    open spec fn obeys_sub_spec() -> bool {
        true
    }

    open spec fn sub_req(self, rhs: Self) -> bool {
        self.subtractable(rhs)
    }

    open spec fn sub_spec(self, rhs: Self) -> FixedDecimal {
        self.minus(rhs)
    }
}

impl PartialOrd for FixedDecimal {
    fn partial_cmp(&self, other: &Self) -> (r: Option<Ordering>) {
        Some(FixedDecimal::cmp(self, other))
    }
}

impl vstd::std_specs::cmp::PartialOrdSpecImpl for FixedDecimal {
    open spec fn obeys_partial_cmp_spec() -> bool {
        true
    }

    open spec fn partial_cmp_spec(&self, other: &Self) -> Option<Ordering> {
        Some(self.value_order(*other))
    }
}

/// Two values compare the same at every scale that is fine enough for both.
pub proof fn lemma_order_at_any_scale(a: FixedDecimal, b: FixedDecimal, t: int)
    requires
        finer_scale(a, b) <= t,
    ensures
        a.less_than(b) <==> a.units_at(t) < b.units_at(t),
        a.same_value(b) <==> a.units_at(t) == b.units_at(t),
{
    let s: int = finer_scale(a, b) as int;
    lemma_units_at_finer(a, s, t);
    lemma_units_at_finer(b, s, t);
    lemma_pow10(t - s);
    let x: int = a.units_at(s);
    let y: int = b.units_at(s);
    let p: int = pow10(t - s);
    assert((x < y <==> x * p < y * p) && (x == y <==> x * p == y * p)) by (nonlinear_arith)
        requires
            p >= 1,
    ;
}

/// Bringing a number to a finer scale keeps its value.
pub proof fn law_rescale_keeps_value(d: FixedDecimal, target: u32)
    requires
        d.scale <= target,
        d.rescalable(target),
    ensures
        d.rescaled(target).same_value(d),
{
    lemma_units_at_own_scale(d);
    lemma_units_at_own_scale(d.rescaled(target));
}

/// The sum is worth what its parts are worth together, at every scale that is
/// fine enough for both.
pub proof fn law_sum_is_exact(a: FixedDecimal, b: FixedDecimal, t: int)
    requires
        a.addable(b),
        finer_scale(a, b) <= t,
    ensures
        a.plus(b).units_at(t) == a.units_at(t) + b.units_at(t),
{
    let s: int = finer_scale(a, b) as int;
    lemma_units_at_finer(a, s, t);
    lemma_units_at_finer(b, s, t);
    let x: int = a.units_at(s);
    let y: int = b.units_at(s);
    let p: int = pow10(t - s);
    assert((x + y) * p == x * p + y * p) by (nonlinear_arith);
}

/// The difference is worth what the first number is worth less the second, at
/// every scale that is fine enough for both.
pub proof fn law_difference_is_exact(a: FixedDecimal, b: FixedDecimal, t: int)
    requires
        a.subtractable(b),
        finer_scale(a, b) <= t,
    ensures
        a.minus(b).units_at(t) == a.units_at(t) - b.units_at(t),
{
    let s: int = finer_scale(a, b) as int;
    lemma_units_at_finer(a, s, t);
    lemma_units_at_finer(b, s, t);
    let x: int = a.units_at(s);
    let y: int = b.units_at(s);
    let p: int = pow10(t - s);
    assert((x - y) * p == x * p - y * p) by (nonlinear_arith);
}

/// Addition does not depend on the order of its terms.
pub proof fn law_addition_commutes(a: FixedDecimal, b: FixedDecimal)
    ensures
        a.addable(b) == b.addable(a),
        a.plus(b) == b.plus(a),
{
}

/// Taking away what was just added can always be done, and gives back the value
/// before it.
pub proof fn law_subtraction_undoes_addition(a: FixedDecimal, b: FixedDecimal)
    requires
        a.addable(b),
    ensures
        a.plus(b).subtractable(b),
        a.plus(b).minus(b).same_value(a),
{
    let sum: FixedDecimal = a.plus(b);
    let s: int = finer_scale(a, b) as int;
    lemma_units_at_own_scale(sum);
    lemma_units_at_own_scale(a);
    lemma_units_at_own_scale(b);
    assert(sum.difference_units(b) == a.units_at(s));
    lemma_units_at_own_scale(sum.minus(b));
}

/// Exactly one of "below", "same value" and "above" holds of two numbers.
pub proof fn law_order_is_total(a: FixedDecimal, b: FixedDecimal)
    ensures
        a.less_than(b) ==> !b.less_than(a) && !a.same_value(b),
        a.same_value(b) ==> !a.less_than(b) && !b.less_than(a),
        a.less_than(b) || a.same_value(b) || b.less_than(a),
{
}

/// The order of values is transitive, across any three scales.
pub proof fn law_order_is_transitive(a: FixedDecimal, b: FixedDecimal, c: FixedDecimal)
    requires
        a.less_than(b) || a.same_value(b),
        b.less_than(c) || b.same_value(c),
    ensures
        a.less_than(c) || a.same_value(c),
        a.less_than(b) || b.less_than(c) ==> a.less_than(c),
{
    let t: int = if finer_scale(a, b) >= c.scale {
        finer_scale(a, b) as int
    } else {
        c.scale as int
    };
    lemma_order_at_any_scale(a, b, t);
    lemma_order_at_any_scale(b, c, t);
    lemma_order_at_any_scale(a, c, t);
}

/// The units of a number, times ten to the power `n`.
pub open spec fn shifted(d: FixedDecimal, n: u32) -> int {
    d.raw_units * vstd::arithmetic::power::pow(10, n as nat)
}

/// Two numbers compare as the cross products of their units with the powers of
/// ten of their scales do: `a` is below `b` exactly where `a.raw_units * 10^(b.scale)`
/// is below `b.raw_units * 10^(a.scale)`.
pub proof fn law_order_goes_by_cross_products(a: FixedDecimal, b: FixedDecimal)
    ensures
        a.less_than(b) <==> shifted(a, b.scale) < shifted(b, a.scale),
        a.same_value(b) <==> shifted(a, b.scale) == shifted(b, a.scale),
{
    lemma_order_at_any_scale(a, b, a.scale + b.scale);
}

/// What `cmp`, `partial_cmp` and `has_reached` return is how the cross products
/// compare.
pub proof fn law_comparison_goes_by_cross_products(
    a: FixedDecimal,
    b: FixedDecimal,
    order: Ordering,
    reached: bool,
)
    requires
        call_ensures(FixedDecimal::cmp, (&a, &b), order),
        call_ensures(FixedDecimal::has_reached, (&a, &b), reached),
    ensures
        order == Ordering::Less <==> shifted(a, b.scale) < shifted(b, a.scale),
        order == Ordering::Equal <==> shifted(a, b.scale) == shifted(b, a.scale),
        order == Ordering::Greater <==> shifted(a, b.scale) > shifted(b, a.scale),
        vstd::std_specs::cmp::PartialOrdSpec::partial_cmp_spec(&a, &b) == Some(order),
        reached <==> shifted(a, b.scale) >= shifted(b, a.scale),
{
    law_order_goes_by_cross_products(a, b);
    law_order_goes_by_cross_products(b, a);
}

/// Bringing a number to another scale: a finer scale multiplies its units by the
/// power of ten between the two, and can be had exactly where that power and the
/// product fit 64 bits; a coarser one divides by the power and drops what is left
/// over, which is smaller than the power and has the sign of the number.
pub proof fn law_rescaling(d: FixedDecimal, target: u32, r: Option<FixedDecimal>)
    requires
        call_ensures(FixedDecimal::checked_rescale, (&d, target), r),
    ensures
        d.scale <= target ==> {
            let up: u32 = (target - d.scale) as u32;
            let power: int = vstd::arithmetic::power::pow(10, up as nat);
            &&& r is Some <==> power <= i64::MAX && i64::MIN <= shifted(d, up) <= i64::MAX
            &&& r matches Some(e) ==> e.scale == target && e.raw_units == shifted(d, up)
        },
        target < d.scale ==> {
            let power: int = vstd::arithmetic::power::pow(10, (d.scale - target) as nat);
            &&& r is Some <==> power <= i64::MAX
            &&& r matches Some(e) ==> {
                let rest: int = d.raw_units - e.raw_units * power;
                &&& e.scale == target
                &&& -power < rest < power
                &&& d.raw_units >= 0 ==> rest >= 0
                &&& d.raw_units <= 0 ==> rest <= 0
            }
        },
{
    lemma_units_at_own_scale(d);
    lemma_pow10(0);
    if target < d.scale {
        let p: int = pow10(d.scale - target);
        lemma_pow10(d.scale - target);
        let n: int = if d.raw_units >= 0 {
            d.raw_units as int
        } else {
            -d.raw_units
        };
        let q: int = n / p;
        vstd::arithmetic::div_mod::lemma_fundamental_div_mod(n, p);
        vstd::arithmetic::div_mod::lemma_mod_bound(n, p);
        assert(p * q == q * p && (-q) * p == -(q * p)) by (nonlinear_arith);
        assert(0 <= q <= n) by (nonlinear_arith)
            requires
                n == p * q + n % p,
                0 <= n % p < p,
                n >= 0,
                p >= 1,
        ;
        assert(d.rescaled(target).raw_units == (if d.raw_units >= 0 {
            q
        } else {
            -q
        }));
    }
}

/// The finer of two scales, written out.
pub open spec fn common_scale(a: FixedDecimal, b: FixedDecimal) -> u32 {
    if a.scale < b.scale {
        b.scale
    } else {
        a.scale
    }
}

/// The units of `a` at the scale that it shares with `b`.
pub open spec fn shared_units(a: FixedDecimal, b: FixedDecimal) -> int {
    shifted(a, (common_scale(a, b) - a.scale) as u32)
}

/// Both numbers fit 64 bits at the scale that they share, and so do the powers of
/// ten that take them there.
pub open spec fn shares_a_scale(a: FixedDecimal, b: FixedDecimal) -> bool {
    let s: u32 = common_scale(a, b);
    &&& vstd::arithmetic::power::pow(10, (s - a.scale) as nat) <= i64::MAX
    &&& vstd::arithmetic::power::pow(10, (s - b.scale) as nat) <= i64::MAX
    &&& i64::MIN <= shared_units(a, b) <= i64::MAX
    &&& i64::MIN <= shared_units(b, a) <= i64::MAX
}

/// At the finer of two scales, the order is that of the units there.
pub proof fn lemma_units_at_shared_scale(a: FixedDecimal, b: FixedDecimal)
    ensures
        a.units_at(finer_scale(a, b) as int) == shared_units(a, b),
        b.units_at(finer_scale(a, b) as int) == shared_units(b, a),
        a.less_than(b) <==> shared_units(a, b) < shared_units(b, a),
{
    lemma_shares_a_scale(a, b);
}

proof fn lemma_shares_a_scale(a: FixedDecimal, b: FixedDecimal)
    ensures
        a.alignable(b) <==> shares_a_scale(a, b),
        a.units_at(finer_scale(a, b) as int) == shared_units(a, b),
        b.units_at(finer_scale(a, b) as int) == shared_units(b, a),
        finer_scale(a, b) == common_scale(a, b),
{
    lemma_units_at_own_scale(a);
    lemma_units_at_own_scale(b);
    lemma_pow10(0);
}

/// A pair is brought to the finer of its two scales exactly where both numbers
/// and both powers of ten fit 64 bits, and each keeps its value there.
pub proof fn law_normalizing(
    a: FixedDecimal,
    b: FixedDecimal,
    r: Option<(i64, i64, u32)>,
)
    requires
        call_ensures(FixedDecimal::checked_normalize_pair, (&a, &b), r),
    ensures
        r is Some <==> shares_a_scale(a, b),
        r matches Some((x, y, s)) ==> x == shared_units(a, b) && y == shared_units(b, a) && s
            == common_scale(a, b),
{
    lemma_shares_a_scale(a, b);
}

/// Sums and differences are formed over the units at the finer of the two scales,
/// and exist exactly where the terms and the result fit 64 bits there.
pub proof fn law_sums_and_differences(
    a: FixedDecimal,
    b: FixedDecimal,
    sum: Option<FixedDecimal>,
    difference: Option<FixedDecimal>,
)
    requires
        call_ensures(FixedDecimal::checked_add, (a, b), sum),
        call_ensures(FixedDecimal::checked_sub, (a, b), difference),
    ensures
        ({
            let x: int = shared_units(a, b);
            let y: int = shared_units(b, a);
            &&& sum is Some <==> shares_a_scale(a, b) && i64::MIN <= x + y <= i64::MAX
            &&& difference is Some <==> shares_a_scale(a, b) && i64::MIN <= x - y <= i64::MAX
            &&& sum matches Some(d) ==> d.scale == common_scale(a, b) && d.raw_units == x + y
            &&& difference matches Some(d) ==> d.scale == common_scale(a, b) && d.raw_units == x
                - y
        }),
{
    lemma_shares_a_scale(a, b);
}

/// The specification of sums and differences, written out like the operations.
pub proof fn law_plus_and_minus(a: FixedDecimal, b: FixedDecimal)
    ensures
        ({
            let x: int = shared_units(a, b);
            let y: int = shared_units(b, a);
            &&& a.alignable(b) <==> shares_a_scale(a, b)
            &&& a.addable(b) <==> shares_a_scale(a, b) && i64::MIN <= x + y <= i64::MAX
            &&& a.subtractable(b) <==> shares_a_scale(a, b) && i64::MIN <= x - y <= i64::MAX
            &&& a.addable(b) ==> a.plus(b).scale == common_scale(a, b) && a.plus(b).raw_units == x
                + y
            &&& a.subtractable(b) ==> a.minus(b).scale == common_scale(a, b) && a.minus(
                b,
            ).raw_units == x - y
            &&& vstd::std_specs::ops::AddSpec::add_spec(a, b) == a.plus(b)
            &&& vstd::std_specs::ops::SubSpec::sub_spec(a, b) == a.minus(b)
            &&& vstd::std_specs::ops::AddSpec::add_req(a, b) == a.addable(b)
            &&& vstd::std_specs::ops::SubSpec::sub_req(a, b) == a.subtractable(b)
        }),
{
    lemma_shares_a_scale(a, b);
}

/// The units of a number at a finer scale are its units times the power of ten
/// between the two scales.
pub proof fn law_units_at_a_scale(d: FixedDecimal, t: int)
    requires
        d.scale <= t,
    ensures
        d.units_at(t) == d.raw_units * vstd::arithmetic::power::pow(10, (t - d.scale) as nat),
{
}

/// The operations that need their result to fit give what the checked ones give,
/// and a number holds the units and the scale that it is made of.
pub proof fn law_plain_operations_agree(
    d: FixedDecimal,
    e: FixedDecimal,
    target: u32,
    rescaled: FixedDecimal,
    checked: Option<FixedDecimal>,
    pair: (i64, i64, u32),
    checked_pair: Option<(i64, i64, u32)>,
    raw_units: i64,
    scale: u32,
    made: FixedDecimal,
    zero: FixedDecimal,
)
    requires
        call_ensures(FixedDecimal::rescale, (&d, target), rescaled),
        call_ensures(FixedDecimal::checked_rescale, (&d, target), checked),
        call_ensures(FixedDecimal::normalize_pair, (&d, &e), pair),
        call_ensures(FixedDecimal::checked_normalize_pair, (&d, &e), checked_pair),
        call_ensures(FixedDecimal::new, (raw_units, scale), made),
        call_ensures(FixedDecimal::zero, (), zero),
    ensures
        checked is Some ==> checked == Some(rescaled),
        checked_pair is Some ==> checked_pair == Some(pair),
        made.raw_units == raw_units && made.scale == scale,
        zero.raw_units == 0 && zero.scale == 0,
{
}

} // verus!
