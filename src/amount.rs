//! Fixed-point decimal amounts.
use vstd::arithmetic::div_mod::{lemma_fundamental_div_mod_converse, lemma_small_mod};
use vstd::prelude::*;

use rust_decimal::Decimal;

use crate::text::{decimal_digits, digit_char};

verus! {

/// `n / p` rounded to the nearest whole number, ties going to the even one.
pub open spec fn half_even_quotient(n: nat, p: nat) -> nat
    recommends
        p > 0,
{
    let q = n / p;
    let r = n % p;
    if 2 * r > p || (2 * r == p && q % 2 == 1) {
        q + 1
    } else {
        q
    }
}

/// A count of units rounded half to even to four fractional digits, counted
/// in units of 10^-4. Rounding is symmetric about zero.
pub open spec fn rounded_to_four_places(units: int) -> int {
    let q = half_even_quotient(abs(units) as nat, pow10((FRACTION_DIGITS - 4) as nat));
    if units < 0 {
        -q
    } else {
        q as int
    }
}

/// The text of `q * 10^-4`: a minus sign where it is negative, the integer
/// digits, a point and exactly four fractional digits.
pub open spec fn four_place_text(q: int) -> Seq<char> {
    let n = abs(q) as nat;
    let f = n % 10000;
    (if q < 0 {
        seq!['-']
    } else {
        Seq::empty()
    }) + decimal_digits(n / 10000) + seq![
        '.',
        digit_char(f / 1000),
        digit_char(f / 100 % 10),
        digit_char(f / 10 % 10),
        digit_char(f % 10),
    ]
}

/// The text of an amount of `units`: rounded half to even to four places.
pub open spec fn amount_text(units: int) -> Seq<char> {
    four_place_text(rounded_to_four_places(units))
}

/// Relies on `Decimal::round_dp`, which rounds half to even ("banker's
/// rounding"), here on `units * 10^-12` to four places: the result has scale
/// 4, and its mantissa is returned.
#[verifier::external_body]
fn round_to_four_places(units: i128) -> (r: i128)
    requires
        representable(units as int),
    ensures
        r == rounded_to_four_places(units as int),
{
    Decimal::from_i128_with_scale(units, FRACTION_DIGITS).round_dp(4).mantissa()
}

/// Relies on `Decimal`'s `Display` with a precision of four places, here on
/// `mantissa * 10^-4`.
#[verifier::external_body]
fn four_place_string(mantissa: i128) -> (r: String)
    requires
        representable(mantissa as int),
    ensures
        r@ == four_place_text(mantissa as int),
{
    format!("{:.4}", Decimal::from_i128_with_scale(mantissa, 4))
}

proof fn lemma_pow10_8()
    ensures
        pow10(8) == 100000000,
        pow10(12) == 1000000000000,
{
    reveal_with_fuel(pow10, 13);
}

/// Rounding to four places keeps an amount in range.
proof fn lemma_rounded_in_range(units: int)
    requires
        representable(units),
    ensures
        representable(rounded_to_four_places(units)),
{
    lemma_pow10_8();
    let n = abs(units) as nat;
    assert(n / 100000000 <= n);
    if n > 0 {
        assert(n / 100000000 < n);
    }
}

/// What `Decimal::from_str` reads from a text: its mantissa and scale.
pub uninterp spec fn decimal_from_text(text: Seq<char>) -> Option<(int, nat)>;

/// Relies on `Decimal::from_str` (through `str::parse`) to read a decimal
/// number; a decimal's mantissa has at most 96 bits and its scale is at
/// most 28.
#[verifier::external_body]
fn parse_decimal(text: &str) -> (r: Option<(i128, u32)>)
    ensures
        match r {
            Some((m, s)) => {
                &&& decimal_from_text(text@) == Some((m as int, s as nat))
                &&& -MAX_UNITS <= m <= MAX_UNITS
                &&& s <= 28
            },
            None => decimal_from_text(text@) is None,
        },
{
    match text.parse::<Decimal>() {
        Ok(d) => Some((d.mantissa(), d.scale())),
        Err(_) => None,
    }
}

/// Number of fractional decimal digits that an [`Amount`] holds exactly.
pub const FRACTION_DIGITS: u32 = 12;

/// Largest magnitude of an amount, counted in units of 10^-12: the largest
/// mantissa that a 96-bit decimal can hold.
pub const MAX_UNITS: i128 = 79228162514264337593543950335;

pub open spec fn abs(x: int) -> int {
    if x < 0 { -x } else { x }
}

pub open spec fn pow10(n: nat) -> nat
    decreases n,
{
    if n == 0 { 1 } else { 10 * pow10((n - 1) as nat) }
}

/// The magnitude `n * 10^-s` counted in units of 10^-12, where that is a
/// whole number of units.
pub open spec fn scaled_magnitude(n: nat, s: nat) -> Option<nat> {
    if s <= FRACTION_DIGITS {
        Some(n * pow10((FRACTION_DIGITS - s) as nat))
    } else if n % pow10((s - FRACTION_DIGITS) as nat) == 0 {
        Some(n / pow10((s - FRACTION_DIGITS) as nat))
    } else {
        None
    }
}

/// The units of the decimal `mantissa * 10^-scale`, where an [`Amount`] holds
/// it exactly.
pub open spec fn units_from_parts(mantissa: int, scale: nat) -> Option<int> {
    match scaled_magnitude(abs(mantissa) as nat, scale) {
        Some(q) => if q <= MAX_UNITS {
            Some(if mantissa < 0 { -q } else { q as int })
        } else {
            None
        },
        None => None,
    }
}

proof fn lemma_pow10_positive(n: nat)
    ensures
        pow10(n) >= 1,
    decreases n,
{
    if n > 0 {
        lemma_pow10_positive((n - 1) as nat);
    }
}

proof fn lemma_pow10_monotone(a: nat, b: nat)
    requires
        a <= b,
    ensures
        pow10(a) <= pow10(b),
    decreases b,
{
    if a < b {
        lemma_pow10_monotone(a, (b - 1) as nat);
        lemma_pow10_positive((b - 1) as nat);
    }
}

proof fn lemma_pow10_29()
    ensures
        pow10(29) == 100000000000000000000000000000,
{
    reveal_with_fuel(pow10, 30);
}

/// `10^n` for the exponents that a 128-bit integer holds with room to spare.
fn power_of_ten(n: u32) -> (r: u128)
    requires
        n <= 29,
    ensures
        r == pow10(n as nat),
{
    proof {
        lemma_pow10_29();
    }
    let mut r: u128 = 1;
    let mut k: u32 = 0;
    while k < n
        invariant
            k <= n <= 29,
            r == pow10(k as nat),
            pow10(29) == 100000000000000000000000000000,
        decreases n - k,
    {
        proof {
            lemma_pow10_monotone((k + 1) as nat, 29);
        }
        r = r * 10;
        k = k + 1;
    }
    r
}

/// Whether a count of units lies within the range of an [`Amount`].
pub open spec fn representable(units: int) -> bool {
    -MAX_UNITS <= units <= MAX_UNITS
}

/// Formatting a whole amount gives its integer digits followed by exactly
/// four zeros after the point.
pub proof fn lemma_whole_amount_text(whole: int)
    requires
        representable(whole * pow10(FRACTION_DIGITS as nat)),
    ensures
        amount_text(whole * pow10(FRACTION_DIGITS as nat)) == (if whole < 0 {
            seq!['-']
        } else {
            Seq::<char>::empty()
        }) + decimal_digits(abs(whole) as nat) + seq!['.', '0', '0', '0', '0'],
{
    lemma_pow10_8();
    let units = whole * 1000000000000;
    let w = abs(whole);
    assert(abs(units) == w * 10000 * 100000000) by (nonlinear_arith)
        requires
            units == whole * 1000000000000,
            w == abs(whole),
    ;
    assert(units < 0 <==> whole < 0) by (nonlinear_arith)
        requires
            units == whole * 1000000000000,
    ;
    lemma_fundamental_div_mod_converse(abs(units), 100000000, w * 10000, 0);
    let q = rounded_to_four_places(units);
    assert(abs(q) == w * 10000);
    assert(q < 0 <==> whole < 0) by (nonlinear_arith)
        requires
            abs(q) == w * 10000,
            w == abs(whole),
            units < 0 <==> whole < 0,
            q == (if units < 0 { -abs(q) } else { abs(q) }),
    ;
    lemma_fundamental_div_mod_converse(w * 10000, 10000, w, 0);
    assert(amount_text(units) =~= (if whole < 0 {
        seq!['-']
    } else {
        Seq::<char>::empty()
    }) + decimal_digits(w as nat) + seq!['.', '0', '0', '0', '0']);
}

/// Rounding to four places is idempotent: an amount that already has at most
/// four fractional digits is rounded to itself, so its text reads back as the
/// rounded value.
pub proof fn lemma_rounding_idempotent(units: int)
    ensures
        rounded_to_four_places(
            rounded_to_four_places(units) * pow10((FRACTION_DIGITS - 4) as nat),
        ) == rounded_to_four_places(units),
{
    lemma_pow10_8();
    let q = rounded_to_four_places(units);
    let v = q * 100000000;
    assert(abs(v) == abs(q) * 100000000 && (v < 0 <==> q < 0)) by (nonlinear_arith)
        requires
            v == q * 100000000,
    ;
    lemma_fundamental_div_mod_converse(abs(v), 100000000, abs(q), 0);
}

/// A signed decimal amount, held exactly as a count of 10^-12 units.
#[derive(Clone, Copy, Debug, PartialEq, Eq)]
pub struct Amount {
    units: i128,
}

impl Amount {
    #[verifier::type_invariant]
    spec fn in_range(self) -> bool {
        representable(self.units as int)
    }

    /// The amount's value, in units of 10^-12.
    pub closed spec fn units(self) -> int {
        self.units as int
    }

    /// The amount `mantissa * 10^-scale`, or `None` where an amount cannot
    /// hold it exactly: it has more than twelve significant fractional digits,
    /// or it lies out of range.
    pub fn new(mantissa: i64, scale: u32) -> (r: Option<Amount>)
        ensures
            match r {
                Some(a) => units_from_parts(mantissa as int, scale as nat) == Some(a.units()),
                None => units_from_parts(mantissa as int, scale as nat) is None,
            },
    {
        Amount::from_parts(mantissa as i128, scale)
    }

    /// As [`Amount::new`], for a mantissa of at most 96 bits.
    pub(crate) fn from_parts(mantissa: i128, scale: u32) -> (r: Option<Amount>)
        requires
            -MAX_UNITS <= mantissa <= MAX_UNITS,
        ensures
            match r {
                Some(a) => units_from_parts(mantissa as int, scale as nat) == Some(a.units()),
                None => units_from_parts(mantissa as int, scale as nat) is None,
            },
    {
        let n: u128 = if mantissa < 0 {
            (-mantissa) as u128
        } else {
            mantissa as u128
        };
        assert(n == abs(mantissa as int));
        let scaled: Option<u128> = if scale <= FRACTION_DIGITS {
            let p = power_of_ten(FRACTION_DIGITS - scale);
            n.checked_mul(p)
        } else if scale - FRACTION_DIGITS >= 30 {
            proof {
                lemma_pow10_29();
                lemma_pow10_monotone(30, (scale - FRACTION_DIGITS) as nat);
                assert(pow10(30) == 10 * pow10(29));
                if n > 0 {
                    lemma_small_mod(n as nat, pow10((scale - FRACTION_DIGITS) as nat));
                }
            }
            if n == 0 {
                Some(0)
            } else {
                None
            }
        } else {
            let p = power_of_ten(scale - FRACTION_DIGITS);
            proof {
                lemma_pow10_positive((scale - FRACTION_DIGITS) as nat);
            }
            if n % p == 0 {
                Some(n / p)
            } else {
                None
            }
        };
        match scaled {
            Some(q) => {
                if q <= MAX_UNITS as u128 {
                    let units: i128 = if mantissa < 0 {
                        -(q as i128)
                    } else {
                        q as i128
                    };
                    Some(Amount { units })
                } else {
                    None
                }
            },
            None => None,
        }
    }

    /// The amount written in `text`, or `None` where the text is no decimal
    /// number or an amount cannot hold its value exactly.
    pub fn parse(text: &str) -> (r: Option<Amount>)
        ensures
            match decimal_from_text(text@) {
                Some((m, s)) => match r {
                    Some(a) => units_from_parts(m, s) == Some(a.units()),
                    None => units_from_parts(m, s) is None,
                },
                None => r is None,
            },
    {
        match parse_decimal(text) {
            Some((m, s)) => Amount::from_parts(m, s),
            None => None,
        }
    }

    /// The amount as text, rounded half to even to exactly four fractional
    /// digits.
    pub fn to_four_place_string(&self) -> (r: String)
        ensures
            r@ == amount_text(self.units()),
    {
        proof {
            use_type_invariant(self);
            lemma_rounded_in_range(self.units());
        }
        let q = round_to_four_places(self.units);
        four_place_string(q)
    }

    pub fn zero() -> (r: Amount)
        ensures
            r.units() == 0,
    {
        Amount { units: 0 }
    }

    /// The sum of two amounts, or `None` where it lies out of range.
    pub fn checked_add(self, other: Amount) -> (r: Option<Amount>)
        ensures
            match r {
                Some(c) => representable(c.units()) && c.units() == self.units() + other.units(),
                None => !representable(self.units() + other.units()),
            },
    {
        proof {
            use_type_invariant(&self);
            use_type_invariant(&other);
        }
        let sum: i128 = self.units + other.units;
        if -MAX_UNITS <= sum && sum <= MAX_UNITS {
            Some(Amount { units: sum })
        } else {
            None
        }
    }

    /// The difference of two amounts, or `None` where it lies out of range.
    pub fn checked_sub(self, other: Amount) -> (r: Option<Amount>)
        ensures
            match r {
                Some(c) => representable(c.units()) && c.units() == self.units() - other.units(),
                None => !representable(self.units() - other.units()),
            },
    {
        proof {
            use_type_invariant(&self);
            use_type_invariant(&other);
        }
        let difference: i128 = self.units - other.units;
        if -MAX_UNITS <= difference && difference <= MAX_UNITS {
            Some(Amount { units: difference })
        } else {
            None
        }
    }

    /// The amount with its sign reversed.
    pub closed spec fn negated(self) -> Amount {
        Amount { units: (-self.units) as i128 }
    }

    #[verifier::when_used_as_spec(negated)]
    pub fn negate(self) -> (r: Amount)
        ensures
            r == self.negated(),
            r.units() == -self.units(),
    {
        proof {
            use_type_invariant(&self);
        }
        Amount { units: -self.units }
    }

    /// Every amount lies in range; this call makes that known where the
    /// amount is used.
    pub(crate) fn is_in_range(&self) -> (r: bool)
        ensures
            r,
            representable(self.units()),
    {
        proof {
            use_type_invariant(self);
        }
        -MAX_UNITS <= self.units && self.units <= MAX_UNITS
    }
}

} // verus!
