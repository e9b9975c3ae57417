//! Rate samples and the trend between two of them.
//!
//! A rate is a single-precision IEEE 754 number. The library never computes
//! with it: it keeps the number's 32 bits and orders two rates by reading
//! sign, exponent and fraction out of them.

use vstd::arithmetic::power2::{
    lemma2_to64, lemma_pow2_pos, lemma_pow2_strictly_increases, lemma_pow2_unfold, pow2,
};
use vstd::prelude::*;

verus! {

/// Two to the power 31: the weight of the sign bit.
pub const SIGN_BIT: u32 = 0x8000_0000;

/// The magnitude bits of both infinities: all exponent bits set, no fraction bit.
pub const INFINITY_MAGNITUDE: u32 = 0x7f80_0000;

/// Two to the power 23: the number of fractions that one exponent has.
pub const FRACTION_RANGE: u32 = 0x80_0000;

/// One exchange rate, as the bit pattern of a single-precision number.
#[derive(Clone, Copy, Debug, PartialEq, Eq, Structural)]
pub struct RateSample {
    pub bits: u32,
}

/// Which way a rate moved since the day before.
#[derive(Clone, Copy, Debug, PartialEq, Eq, Structural)]
pub enum Trend {
    Increased,
    Decreased,
    Unchanged,
}

/// How a rate is shown: red for a fall, green for a rise, plain otherwise.
#[derive(Clone, Copy, Debug, PartialEq, Eq, Structural)]
pub enum Colour {
    Red,
    Green,
    Normal,
}

/// Why two rates could not be compared.
#[derive(Clone, Copy, Debug, PartialEq, Eq, Structural)]
pub enum ComparisonError {
    /// One of the two is not a number.
    Incomparable,
}

impl RateSample {
    /// Exponent and fraction, without the sign.
    pub open spec fn magnitude(self) -> int {
        self.bits as int % (SIGN_BIT as int)
    }

    /// The sign bit is set.
    pub open spec fn is_negative(self) -> bool {
        self.bits >= SIGN_BIT
    }

    /// Not a number: all exponent bits set and some fraction bit.
    pub open spec fn is_nan(self) -> bool {
        self.magnitude() > INFINITY_MAGNITUDE
    }

    /// Neither an infinity nor not-a-number.
    pub open spec fn is_finite(self) -> bool {
        self.magnitude() < INFINITY_MAGNITUDE
    }

    /// The exponent field, from 0 to 255.
    pub open spec fn exponent(self) -> int {
        self.magnitude() / (FRACTION_RANGE as int)
    }

    /// The fraction field, below two to the power 23.
    pub open spec fn fraction(self) -> int {
        self.magnitude() % (FRACTION_RANGE as int)
    }

    /// The absolute value of the number, times two to the power 149.
    ///
    /// With exponent field 0 the number is its fraction times two to the power
    /// -149. With an exponent field `e` from 1 to 254 it is one and the
    /// fraction, `(2^23 + fraction) / 2^23`, times two to the power `e - 127`.
    /// Times two to the power 149 both are integers. An infinity has exponent
    /// field 255 and no fraction, and gets what the same rule gives: the power
    /// of two that follows the largest finite number.
    pub open spec fn scaled_magnitude(self) -> int {
        if self.exponent() == 0 {
            self.fraction()
        } else {
            (FRACTION_RANGE + self.fraction()) * pow2((self.exponent() - 1) as nat)
        }
    }

    /// The number that the sample stands for, times two to the power 149.
    pub open spec fn scaled_value(self) -> int {
        if self.is_negative() {
            -self.scaled_magnitude()
        } else {
            self.scaled_magnitude()
        }
    }

    /// An integer that orders the samples as their numbers are ordered.
    ///
    /// For numbers of one sign a larger magnitude is further from zero, so a
    /// negative sample takes the negated magnitude. Both zeros get 0.
    pub open spec fn order_key(self) -> int {
        if self.is_negative() {
            -self.magnitude()
        } else {
            self.magnitude()
        }
    }

    /// The sample with the given bits.
    pub fn from_bits(bits: u32) -> (sample: RateSample)
        ensures
            sample.bits == bits,
    {
        RateSample { bits }
    }

    /// The bits of the sample.
    pub fn to_bits(self) -> (bits: u32)
        ensures
            bits == self.bits,
    {
        self.bits
    }

    /// Tells whether the sample is not a number.
    pub fn check_nan(self) -> (nan: bool)
        ensures
            nan == self.is_nan(),
    {
        self.bits % SIGN_BIT > INFINITY_MAGNITUDE
    }

    /// Tells whether the sample is a finite number.
    pub fn check_finite(self) -> (finite: bool)
        ensures
            finite == self.is_finite(),
    {
        self.bits % SIGN_BIT < INFINITY_MAGNITUDE
    }

    /// Computes the ordering key.
    pub fn key(self) -> (key: i64)
        ensures
            key == self.order_key(),
    {
        let magnitude: i64 = (self.bits % SIGN_BIT) as i64;
        if self.bits >= SIGN_BIT {
            -magnitude
        } else {
            magnitude
        }
    }
}

/// The way from `yesterday` to `today` for two samples that are numbers.
pub open spec fn direction(today: RateSample, yesterday: RateSample) -> Trend {
    if today.order_key() < yesterday.order_key() {
        Trend::Decreased
    } else if today.order_key() > yesterday.order_key() {
        Trend::Increased
    } else {
        Trend::Unchanged
    }
}

/// The trend from `yesterday` to `today`, or the reason there is none.
///
/// For two numbers it is the order of their values: see
/// `lemma_trend_is_order_of_values`.
pub open spec fn trend_between(today: RateSample, yesterday: RateSample) -> Result<
    Trend,
    ComparisonError,
> {
    if today.is_nan() || yesterday.is_nan() {
        Err(ComparisonError::Incomparable)
    } else {
        Ok(direction(today, yesterday))
    }
}

/// Of two samples the one with the larger magnitude bits is the one further
/// from zero.
proof fn lemma_magnitude_orders_values(a: RateSample, b: RateSample)
    requires
        a.magnitude() < b.magnitude(),
    ensures
        0 <= a.scaled_magnitude() < b.scaled_magnitude(),
{
    let range = FRACTION_RANGE as int;
    let (ea, fa) = (a.exponent(), a.fraction());
    let (eb, fb) = (b.exponent(), b.fraction());
    assert(a.magnitude() == ea * range + fa && b.magnitude() == eb * range + fb);
    assert(0 <= ea <= eb);
    if ea == eb {
        if ea > 0 {
            let power = pow2((ea - 1) as nat) as int;
            lemma_pow2_pos((ea - 1) as nat);
            assert(0 <= (range + fa) * power < (range + fb) * power) by (nonlinear_arith)
                requires
                    0 <= range + fa < range + fb,
                    power > 0,
            ;
        }
    } else {
        // what `a` stands for is below `range * 2^ea`, and `b` stands for no less
        let low = pow2(ea as nat) as int;
        let high = pow2((eb - 1) as nat) as int;
        if ea < eb - 1 {
            lemma_pow2_strictly_increases(ea as nat, (eb - 1) as nat);
        }
        assert(0 < low <= high) by {
            lemma_pow2_pos(ea as nat);
        }
        assert(0 <= a.scaled_magnitude() < range * low) by {
            if ea == 0 {
                lemma2_to64();
            } else {
                let power = pow2((ea - 1) as nat) as int;
                lemma_pow2_pos((ea - 1) as nat);
                lemma_pow2_unfold(ea as nat);
                assert(0 <= (range + fa) * power < range * (2 * power)) by (nonlinear_arith)
                    requires
                        0 <= fa < range,
                        power > 0,
                ;
            }
        }
        assert(range * low <= (range + fb) * high) by (nonlinear_arith)
            requires
                0 < low <= high,
                range > 0,
                fb >= 0,
        ;
    }
}

/// The ordering key orders the samples as the numbers that they stand for:
/// a smaller key is a smaller number, and equal keys are equal numbers.
pub proof fn lemma_key_orders_values(a: RateSample, b: RateSample)
    requires
        !a.is_nan(),
        !b.is_nan(),
    ensures
        a.order_key() < b.order_key() <==> a.scaled_value() < b.scaled_value(),
        a.order_key() == b.order_key() <==> a.scaled_value() == b.scaled_value(),
{
    if a.magnitude() < b.magnitude() {
        lemma_magnitude_orders_values(a, b);
    } else if b.magnitude() < a.magnitude() {
        lemma_magnitude_orders_values(b, a);
    }
    // a sample of magnitude 0 stands for zero, and no other does
    let zero = RateSample { bits: 0 };
    assert(zero.scaled_magnitude() == 0);
    if 0 < a.magnitude() {
        lemma_magnitude_orders_values(zero, a);
    }
    if 0 < b.magnitude() {
        lemma_magnitude_orders_values(zero, b);
    }
}

/// The trend is the order of the two numbers: a fall if today's number is the
/// smaller one, a rise if it is the larger one, no change if they are equal.
pub proof fn lemma_trend_is_order_of_values(today: RateSample, yesterday: RateSample)
    requires
        !today.is_nan(),
        !yesterday.is_nan(),
    ensures
        trend_between(today, yesterday) == Ok::<Trend, ComparisonError>(
            if today.scaled_value() < yesterday.scaled_value() {
                Trend::Decreased
            } else if today.scaled_value() > yesterday.scaled_value() {
                Trend::Increased
            } else {
                Trend::Unchanged
            },
        ),
{
    lemma_key_orders_values(today, yesterday);
}

/// Two finite samples can always be compared.
pub proof fn lemma_finite_is_comparable(today: RateSample, yesterday: RateSample)
    requires
        today.is_finite(),
        yesterday.is_finite(),
    ensures
        trend_between(today, yesterday) == Ok::<Trend, ComparisonError>(direction(today, yesterday)),
{
}


/// The colour a trend is shown in.
pub open spec fn colour_of(trend: Trend) -> Colour {
    match trend {
        Trend::Decreased => Colour::Red,
        Trend::Increased => Colour::Green,
        Trend::Unchanged => Colour::Normal,
    }
}

/// Orders two samples by their keys. For two numbers this is their order.
pub fn compare_keys(today: RateSample, yesterday: RateSample) -> (trend: Trend)
    ensures
        trend == direction(today, yesterday),
{
    let t: i64 = today.key();
    let y: i64 = yesterday.key();
    if t < y {
        Trend::Decreased
    } else if t > y {
        Trend::Increased
    } else {
        Trend::Unchanged
    }
}

/// Compares today's rate with yesterday's.
///
/// `Decreased` if today's is lower, `Increased` if it is higher, `Unchanged`
/// if the two are equal as numbers (a negative zero equals a positive one).
/// Fails if either is not a number.
pub fn classify(today: RateSample, yesterday: RateSample) -> (result: Result<
    Trend,
    ComparisonError,
>)
    ensures
        result == trend_between(today, yesterday),
        result is Err <==> today.is_nan() || yesterday.is_nan(),
        result == Ok::<Trend, ComparisonError>(Trend::Decreased) <==> {
            &&& !today.is_nan() && !yesterday.is_nan()
            &&& today.scaled_value() < yesterday.scaled_value()
        },
        result == Ok::<Trend, ComparisonError>(Trend::Increased) <==> {
            &&& !today.is_nan() && !yesterday.is_nan()
            &&& today.scaled_value() > yesterday.scaled_value()
        },
        result == Ok::<Trend, ComparisonError>(Trend::Unchanged) <==> {
            &&& !today.is_nan() && !yesterday.is_nan()
            &&& today.scaled_value() == yesterday.scaled_value()
        },
{
    if today.check_nan() || yesterday.check_nan() {
        Err(ComparisonError::Incomparable)
    } else {
        proof {
            lemma_trend_is_order_of_values(today, yesterday);
        }
        Ok(compare_keys(today, yesterday))
    }
}

impl Trend {
    /// The colour this trend is shown in.
    pub fn colour(self) -> (colour: Colour)
        ensures
            colour == colour_of(self),
    {
        match self {
            Trend::Decreased => Colour::Red,
            Trend::Increased => Colour::Green,
            Trend::Unchanged => Colour::Normal,
        }
    }
}

/// Decides how today's rate is to be printed next to yesterday's.
///
/// Returns the colour for today's rate. Where the two cannot be compared the
/// caller prints an error in place of the rate.
pub fn compare_and_print_exchange_rate(today_price: RateSample, yesterday_price: RateSample) -> (result:
    Result<Colour, ComparisonError>)
    ensures
        result == match trend_between(today_price, yesterday_price) {
            Ok(trend) => Ok::<Colour, ComparisonError>(colour_of(trend)),
            Err(e) => Err(e),
        },
{
    match classify(today_price, yesterday_price) {
        Ok(trend) => Ok(trend.colour()),
        Err(e) => Err(e),
    }
}

} // verus!
