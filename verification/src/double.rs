//! Double-precision numbers as the engine carries them: by their IEEE 754
//! encoding. The arithmetic that produces them happens at the edge of the
//! engine; here they are stored, handed on, and compared exactly.

use vstd::prelude::*;

verus! {

/// A double-precision number, held as its 64-bit encoding.
#[derive(Debug, Clone, Copy, PartialEq, Eq, Structural)]
pub struct Double {
    pub bits: u64,
}

/// The encoding of a positive number has no sign bit: it lies below this.
pub const SIGN_BIT: u64 = 0x8000_0000_0000_0000;

/// Where the exponent field starts: `2^52`, one past the largest fraction.
pub const FRACTION_END: u64 = 0x10_0000_0000_0000;

/// The encoding of positive infinity; a larger magnitude is not a number.
pub const INFINITY_BITS: u64 = 0x7ff0_0000_0000_0000;

/// Two to the power `n`.
pub open spec fn pow2(n: int) -> int {
    vstd::arithmetic::power2::pow2(n as nat) as int
}

/// The size of a number whose encoding without sign is `m`, in units of
/// `2^(-1074)`, the smallest positive double. An infinity counts as `2^1024`,
/// one step past the largest finite number.
pub open spec fn magnitude_units(m: int) -> int {
    let exponent: int = m / FRACTION_END as int;
    let fraction: int = m % FRACTION_END as int;
    if exponent == 0 {
        fraction
    } else {
        (FRACTION_END + fraction) * pow2(exponent - 1)
    }
}

impl Double {
    /// The sign bit is set.
    pub open spec fn negative(self) -> bool {
        self.bits >= SIGN_BIT
    }

    /// The encoding without its sign.
    pub open spec fn magnitude(self) -> int {
        if self.negative() {
            self.bits - SIGN_BIT
        } else {
            self.bits as int
        }
    }

    /// The encoding stands for no number.
    pub open spec fn not_a_number(self) -> bool {
        self.magnitude() > INFINITY_BITS
    }

    /// The value, in units of `2^(-1074)`. Every finite double is a whole
    /// number of these; both zeros are 0.
    pub open spec fn units(self) -> int {
        if self.negative() {
            -magnitude_units(self.magnitude())
        } else {
            magnitude_units(self.magnitude())
        }
    }

    /// Both are numbers, and the first has the larger value.
    pub open spec fn greater_than(self, other: Self) -> bool {
        &&& !self.not_a_number()
        &&& !other.not_a_number()
        &&& self.units() > other.units()
    }

    /// Both are numbers, and the first is not larger than the second.
    pub open spec fn no_greater_than(self, other: Self) -> bool {
        &&& !self.not_a_number()
        &&& !other.not_a_number()
        &&& self.units() <= other.units()
    }
}

/// What `magnitude_units` says of an encoding in each binade: it lies between
/// two powers of two.
proof fn lemma_binade(m: int)
    requires
        0 <= m <= INFINITY_BITS,
    ensures
        ({
            let e: int = m / FRACTION_END as int;
            &&& 0 <= e <= 2047
            &&& 0 <= magnitude_units(m) < pow2(52 + e)
            &&& e >= 1 ==> pow2(51 + e) <= magnitude_units(m)
        }),
{
    let e: int = m / FRACTION_END as int;
    let f: int = m % FRACTION_END as int;
    vstd::arithmetic::power2::lemma2_to64_rest();
    assert(pow2(52) == FRACTION_END);
    if e >= 1 {
        let p: int = pow2(e - 1);
        vstd::arithmetic::power2::lemma_pow2_pos((e - 1) as nat);
        vstd::arithmetic::power2::lemma_pow2_adds(52, (e - 1) as nat);
        vstd::arithmetic::power2::lemma_pow2_unfold((52 + e) as nat);
        assert((FRACTION_END + f) * p >= FRACTION_END * p) by (nonlinear_arith)
            requires
                f >= 0,
                p >= 0,
        ;
        assert((FRACTION_END + f) * p < 2 * (FRACTION_END * p)) by (nonlinear_arith)
            requires
                f < FRACTION_END,
                p > 0,
        ;
    }
}

/// Larger encodings stand for larger magnitudes.
pub proof fn lemma_magnitude_order(m: int, n: int)
    requires
        0 <= m < n <= INFINITY_BITS,
    ensures
        magnitude_units(m) < magnitude_units(n),
{
    let e: int = m / FRACTION_END as int;
    let g: int = n / FRACTION_END as int;
    let f: int = m % FRACTION_END as int;
    let h: int = n % FRACTION_END as int;
    lemma_binade(m);
    lemma_binade(n);
    assert(e <= g);
    if e < g {
        if 52 + e < 51 + g {
            vstd::arithmetic::power2::lemma_pow2_strictly_increases(
                (52 + e) as nat,
                (51 + g) as nat,
            );
        }
    } else if e >= 1 {
        let p: int = pow2(e - 1);
        vstd::arithmetic::power2::lemma_pow2_pos((e - 1) as nat);
        assert((FRACTION_END + f) * p < (FRACTION_END + h) * p) by (nonlinear_arith)
            requires
                f < h,
                p > 0,
        ;
    }
}

impl Double {
    /// Wraps an encoding.
    pub fn from_bits(bits: u64) -> (d: Self)
        ensures
            d.bits == bits,
    {
        Double { bits }
    }

    fn encoding_size(self) -> (m: u64)
        ensures
            m == self.magnitude(),
    {
        if self.bits >= SIGN_BIT {
            self.bits - SIGN_BIT
        } else {
            self.bits
        }
    }

    /// Whether the encoding stands for no number.
    pub fn is_nan(self) -> (r: bool)
        ensures
            r == self.not_a_number(),
    {
        self.encoding_size() > INFINITY_BITS
    }

    /// Whether this number is strictly larger than the other. False where
    /// either is not a number.
    pub fn exceeds(self, other: Self) -> (r: bool)
        ensures
            r == self.greater_than(other),
    {
        if self.is_nan() || other.is_nan() {
            return false;
        }
        let m: u64 = self.encoding_size();
        let n: u64 = other.encoding_size();
        proof {
            if m < n {
                lemma_magnitude_order(m as int, n as int);
            }
            if n < m {
                lemma_magnitude_order(n as int, m as int);
            }
            lemma_binade(m as int);
            lemma_binade(n as int);
            if m > 0 {
                lemma_magnitude_order(0, m as int);
            }
            if n > 0 {
                lemma_magnitude_order(0, n as int);
            }
        }
        let below: bool = self.bits >= SIGN_BIT;
        let other_below: bool = other.bits >= SIGN_BIT;
        if below && other_below {
            m < n
        } else if below {
            false
        } else if other_below {
            m != 0 || n != 0
        } else {
            m > n
        }
    }

    /// The double with the value of a whole number. It is exact.
    pub fn from_u32(n: u32) -> (d: Self)
        ensures
            !d.not_a_number(),
            d.units() == n * pow2(1074),
    {
        if n == 0 {
            return Double { bits: 0 };
        }
        let mut k: u64 = 0;
        let mut top: u64 = 1;
        let mut step: u64 = FRACTION_END;
        proof {
            vstd::arithmetic::power2::lemma2_to64();
            vstd::arithmetic::power2::lemma2_to64_rest();
        }
        while n as u64 - top >= top
            invariant
                top <= n,
                top == pow2(k as int),
                step == pow2(52 - k),
                k <= 31,
                pow2(32) == 0x1_0000_0000,
            decreases 32 - k,
        {
            proof {
                vstd::arithmetic::power2::lemma_pow2_unfold((k + 1) as nat);
                vstd::arithmetic::power2::lemma_pow2_unfold((52 - k) as nat);
                if k == 31 {
                    assert(pow2(32) == 2 * top);
                }
            }
            top = top * 2;
            step = step / 2;
            k = k + 1;
        }
        proof {
            vstd::arithmetic::power2::lemma_pow2_adds(k as nat, (52 - k) as nat);
            vstd::arithmetic::power2::lemma2_to64_rest();
            assert(top * step == FRACTION_END);
            assert((n - top) * step < FRACTION_END) by (nonlinear_arith)
                requires
                    n - top < top,
                    top * step == FRACTION_END,
                    step >= 0,
                    n - top >= 0,
            ;
            assert((n - top) * step >= 0) by (nonlinear_arith)
                requires
                    step >= 0,
                    n - top >= 0,
            ;
        }
        let fraction: u64 = (n as u64 - top) * step;
        let d: Double = Double { bits: (1023 + k) * FRACTION_END + fraction };
        proof {
            let e: int = 1022 + k;
            assert(d.magnitude() / FRACTION_END as int == 1023 + k);
            assert(d.magnitude() % FRACTION_END as int == fraction);
            assert(FRACTION_END + fraction == n * step) by (nonlinear_arith)
                requires
                    top * step == FRACTION_END,
                    fraction == (n - top) * step,
            ;
            vstd::arithmetic::power2::lemma_pow2_adds((52 - k) as nat, e as nat);
            assert(((52 - k) as nat + e as nat) == 1074);
            let p: int = pow2(e);
            assert((n * step) * p == n * (step * p)) by (nonlinear_arith);
        }
        d
    }
}

/// What an encoding stands for: the top bit is the sign, the next eleven are the
/// exponent and the rest the fraction. The value is counted in units of
/// `2^(-1074)`; an exponent of all ones with a fraction is not a number.
pub proof fn law_encoding_has_its_value(d: Double)
    ensures
        ({
            let size: int = d.bits as int % 0x8000_0000_0000_0000;
            let exponent: int = size / 0x10_0000_0000_0000;
            let fraction: int = size % 0x10_0000_0000_0000;
            let units: int = if exponent == 0 {
                fraction
            } else {
                (0x10_0000_0000_0000 + fraction) * vstd::arithmetic::power2::pow2(
                    (exponent - 1) as nat,
                )
            };
            &&& d.not_a_number() <==> exponent == 0x7ff && fraction != 0
            &&& d.bits < 0x8000_0000_0000_0000 ==> d.units() == units
            &&& d.bits >= 0x8000_0000_0000_0000 ==> d.units() == -units
        }),
{
    let size: int = d.bits as int % 0x8000_0000_0000_0000;
    assert(size == d.magnitude());
}

/// `exceeds` goes by the values: of two numbers the one with more units is the
/// larger, and what is not a number neither exceeds nor is exceeded.
pub proof fn law_exceeding_goes_by_value(a: Double, b: Double, r: bool)
    requires
        call_ensures(Double::exceeds, (a, b), r),
    ensures
        a.not_a_number() || b.not_a_number() ==> !r,
        !a.not_a_number() && !b.not_a_number() ==> (r <==> a.units() > b.units()),
        a.greater_than(b) <==> r,
        a.no_greater_than(b) <==> !a.not_a_number() && !b.not_a_number() && !r,
{
}

/// A whole number keeps its value as a double: `n` ones, each of them `2^1074`
/// units.
pub proof fn law_whole_number_keeps_its_value(n: u32, d: Double)
    requires
        call_ensures(Double::from_u32, (n,), d),
    ensures
        !d.not_a_number(),
        d.units() == n * vstd::arithmetic::power2::pow2(1074),
{
}

} // verus!
