//! Fixed-point decimal numbers.
//!
//! A [`Decimal`] is the value `mantissa / 10^scale`, held as two plain integers
//! in the value range of `rust_decimal::Decimal`. All arithmetic is carried out
//! by `rust_decimal`; its results are named by the uninterpreted spec functions
//! below, so that the contracts of the portfolio calculations can speak of them
//! exactly.
use vstd::prelude::*;
use vstd::arithmetic::power::pow;

verus! {

/// Largest magnitude of a mantissa: `2^96 - 1`.
pub const MAX_MANTISSA: i128 = 0xFFFF_FFFF_FFFF_FFFF_FFFF_FFFFi128;

/// Largest number of fractional digits.
pub const MAX_SCALE: u32 = 28u32;

/// The number `mantissa / 10^scale`.
#[derive(Debug, Clone, Copy)]
pub struct Decimal {
    pub mantissa: i128,
    pub scale: u32,
}

impl View for Decimal {
    type V = (int, int);

    open spec fn view(&self) -> (int, int) {
        (self.mantissa as int, self.scale as int)
    }
}

/// The pairs `(mantissa, scale)` that a decimal can hold.
pub open spec fn valid_parts(p: (int, int)) -> bool {
    &&& -MAX_MANTISSA <= p.0 <= MAX_MANTISSA
    &&& 0 <= p.1 <= MAX_SCALE
}

/// The decimal with the given parts (meaningful for valid parts).
pub open spec fn decimal_of(p: (int, int)) -> Decimal {
    Decimal { mantissa: p.0 as i128, scale: p.1 as u32 }
}

/// Lifts a named result on parts to one on decimals.
pub open spec fn decimal_opt(p: Option<(int, int)>) -> Option<Decimal> {
    match p {
        Some(q) => Some(decimal_of(q)),
        None => None,
    }
}

/// What `rust_decimal::Decimal::checked_add` returns on the decimals with these parts.
pub uninterp spec fn decimal_checked_add(a: (int, int), b: (int, int)) -> Option<(int, int)>;

/// What `rust_decimal::Decimal::checked_sub` returns on the decimals with these parts.
pub uninterp spec fn decimal_checked_sub(a: (int, int), b: (int, int)) -> Option<(int, int)>;

/// What `rust_decimal::Decimal::checked_mul` returns on the decimals with these parts.
pub uninterp spec fn decimal_checked_mul(a: (int, int), b: (int, int)) -> Option<(int, int)>;

/// What `rust_decimal::Decimal::checked_div` returns on the decimals with these parts.
pub uninterp spec fn decimal_checked_div(a: (int, int), b: (int, int)) -> Option<(int, int)>;

/// What `<rust_decimal::Decimal as FromStr>::from_str` returns on this text.
pub uninterp spec fn decimal_from_str(s: Seq<char>) -> Option<(int, int)>;

/// What `rust_decimal::Decimal`'s `Display` writes for the decimal with these parts.
pub uninterp spec fn decimal_display(a: (int, int)) -> Seq<char>;

/// Sum of two decimals, as `rust_decimal` computes it; `None` on overflow.
pub open spec fn spec_add(a: Decimal, b: Decimal) -> Option<Decimal> {
    decimal_opt(decimal_checked_add(a@, b@))
}

/// Difference of two decimals, as `rust_decimal` computes it; `None` on overflow.
pub open spec fn spec_sub(a: Decimal, b: Decimal) -> Option<Decimal> {
    decimal_opt(decimal_checked_sub(a@, b@))
}

/// Product of two decimals, as `rust_decimal` computes it; `None` on overflow.
pub open spec fn spec_mul(a: Decimal, b: Decimal) -> Option<Decimal> {
    decimal_opt(decimal_checked_mul(a@, b@))
}

/// Quotient of two decimals, as `rust_decimal` computes it; `None` on overflow
/// or division by zero.
pub open spec fn spec_div(a: Decimal, b: Decimal) -> Option<Decimal> {
    decimal_opt(decimal_checked_div(a@, b@))
}

/// Calls `rust_decimal::Decimal::checked_add`. Claimed: the result is the named
/// result on the arguments' parts, and a decimal that `rust_decimal` returns has
/// parts in its documented range (`|m| < 2^96`, scale at most 28).
#[verifier::external_body]
fn rd_checked_add(a: Decimal, b: Decimal) -> (r: Option<Decimal>)
    requires
        valid_parts(a@),
        valid_parts(b@),
    ensures
        r == decimal_opt(decimal_checked_add(a@, b@)),
        r matches Some(d) ==> valid_parts(d@),
{
    let x = rust_decimal::Decimal::from_i128_with_scale(a.mantissa, a.scale);
    let y = rust_decimal::Decimal::from_i128_with_scale(b.mantissa, b.scale);
    match x.checked_add(y) {
        Some(z) => Some(Decimal { mantissa: z.mantissa(), scale: z.scale() }),
        None => None,
    }
}

/// Calls `rust_decimal::Decimal::checked_sub`. Claimed: the result is the named
/// result on the arguments' parts, and a returned decimal has parts in range.
#[verifier::external_body]
fn rd_checked_sub(a: Decimal, b: Decimal) -> (r: Option<Decimal>)
    requires
        valid_parts(a@),
        valid_parts(b@),
    ensures
        r == decimal_opt(decimal_checked_sub(a@, b@)),
        r matches Some(d) ==> valid_parts(d@),
{
    let x = rust_decimal::Decimal::from_i128_with_scale(a.mantissa, a.scale);
    let y = rust_decimal::Decimal::from_i128_with_scale(b.mantissa, b.scale);
    match x.checked_sub(y) {
        Some(z) => Some(Decimal { mantissa: z.mantissa(), scale: z.scale() }),
        None => None,
    }
}

/// Calls `rust_decimal::Decimal::checked_mul`. Claimed: the result is the named
/// result on the arguments' parts, and a returned decimal has parts in range.
#[verifier::external_body]
fn rd_checked_mul(a: Decimal, b: Decimal) -> (r: Option<Decimal>)
    requires
        valid_parts(a@),
        valid_parts(b@),
    ensures
        r == decimal_opt(decimal_checked_mul(a@, b@)),
        r matches Some(d) ==> valid_parts(d@),
{
    let x = rust_decimal::Decimal::from_i128_with_scale(a.mantissa, a.scale);
    let y = rust_decimal::Decimal::from_i128_with_scale(b.mantissa, b.scale);
    match x.checked_mul(y) {
        Some(z) => Some(Decimal { mantissa: z.mantissa(), scale: z.scale() }),
        None => None,
    }
}

/// Calls `rust_decimal::Decimal::checked_div`. Claimed: the result is the named
/// result on the arguments' parts, a returned decimal has parts in range, and a
/// zero divisor gives `None` (the source maps division by zero to `None`).
#[verifier::external_body]
fn rd_checked_div(a: Decimal, b: Decimal) -> (r: Option<Decimal>)
    requires
        valid_parts(a@),
        valid_parts(b@),
    ensures
        r == decimal_opt(decimal_checked_div(a@, b@)),
        r matches Some(d) ==> valid_parts(d@),
        b.mantissa == 0 ==> r is None,
{
    let x = rust_decimal::Decimal::from_i128_with_scale(a.mantissa, a.scale);
    let y = rust_decimal::Decimal::from_i128_with_scale(b.mantissa, b.scale);
    match x.checked_div(y) {
        Some(z) => Some(Decimal { mantissa: z.mantissa(), scale: z.scale() }),
        None => None,
    }
}

/// Calls `<rust_decimal::Decimal as FromStr>::from_str`. Claimed: the result is
/// the named result on the text, and a parsed decimal has parts in range.
#[verifier::external_body]
fn rd_from_str(s: &str) -> (r: Option<Decimal>)
    ensures
        r == decimal_opt(decimal_from_str(s@)),
        r matches Some(d) ==> valid_parts(d@),
{
    match <rust_decimal::Decimal as core::str::FromStr>::from_str(s) {
        Ok(z) => Some(Decimal { mantissa: z.mantissa(), scale: z.scale() }),
        Err(_) => None,
    }
}

/// Calls `rust_decimal::Decimal`'s `to_string` (its `Display`). Claimed: the text
/// is the named result on the decimal's parts.
#[verifier::external_body]
fn rd_to_string(a: Decimal) -> (r: String)
    requires
        valid_parts(a@),
    ensures
        r@ == decimal_display(a@),
{
    rust_decimal::Decimal::from_i128_with_scale(a.mantissa, a.scale).to_string()
}

/// The number with parts `a` is at most the one with parts `b`:
/// `a.0 / 10^a.1 <= b.0 / 10^b.1`, compared by cross products.
pub open spec fn value_le(a: (int, int), b: (int, int)) -> bool {
    a.0 * pow(10, b.1 as nat) <= b.0 * pow(10, a.1 as nat)
}

proof fn lemma_cross_trans(a0: int, b0: int, c0: int, pa: int, pb: int, pc: int)
    by (nonlinear_arith)
    requires
        pa > 0,
        pb > 0,
        pc > 0,
        a0 * pb <= b0 * pa,
        b0 * pc <= c0 * pb,
    ensures
        a0 * pc <= c0 * pa,
{
    assert(a0 * pb * pc <= b0 * pa * pc);
    assert(b0 * pc * pa <= c0 * pb * pa);
}

/// Comparing the numbers that decimals stand for is total and transitive.
pub proof fn lemma_value_le_order(a: (int, int), b: (int, int), c: (int, int))
    requires
        a.1 >= 0,
        b.1 >= 0,
        c.1 >= 0,
    ensures
        value_le(a, b) || value_le(b, a),
        value_le(a, b) && value_le(b, c) ==> value_le(a, c),
{
    vstd::arithmetic::power::lemma_pow_positive(10, a.1 as nat);
    vstd::arithmetic::power::lemma_pow_positive(10, b.1 as nat);
    vstd::arithmetic::power::lemma_pow_positive(10, c.1 as nat);
    if value_le(a, b) && value_le(b, c) {
        lemma_cross_trans(a.0, b.0, c.0, pow(10, a.1 as nat), pow(10, b.1 as nat), pow(10, c.1 as nat));
    }
}

/// Compares with `<=` of `rust_decimal::Decimal`. Claimed: its `PartialOrd`
/// orders decimals by the numbers they stand for, whatever their scales.
#[verifier::external_body]
fn rd_le(a: Decimal, b: Decimal) -> (r: bool)
    requires
        valid_parts(a@),
        valid_parts(b@),
    ensures
        r == value_le(a@, b@),
{
    let x = rust_decimal::Decimal::from_i128_with_scale(a.mantissa, a.scale);
    let y = rust_decimal::Decimal::from_i128_with_scale(b.mantissa, b.scale);
    x <= y
}

impl Decimal {
    /// Whether the number is at most `other`.
    pub fn at_most(&self, other: &Decimal) -> (r: bool)
        requires
            self.wf(),
            other.wf(),
        ensures
            r == value_le(self@, other@),
    {
        rd_le(*self, *other)
    }

    /// The decimal holds parts in the range of `rust_decimal::Decimal`.
    pub open spec fn wf(self) -> bool {
        valid_parts(self@)
    }

    /// The decimal `mantissa / 10^scale`, where the parts are in range.
    pub fn from_parts(mantissa: i128, scale: u32) -> (r: Option<Decimal>)
        ensures
            r is Some <==> valid_parts((mantissa as int, scale as int)),
            r matches Some(d) ==> d@ == (mantissa as int, scale as int),
    {
        if -MAX_MANTISSA <= mantissa && mantissa <= MAX_MANTISSA && scale <= MAX_SCALE {
            Some(Decimal { mantissa, scale })
        } else {
            None
        }
    }

    /// Zero with the given number of fractional digits (`0`, `0.0`, ...).
    pub fn zero(scale: u32) -> (r: Decimal)
        requires
            scale <= MAX_SCALE,
        ensures
            r@ == (0int, scale as int),
            r.wf(),
    {
        Decimal { mantissa: 0, scale }
    }

    /// The whole number `n` (scale 0).
    pub fn from_u32(n: u32) -> (r: Decimal)
        ensures
            r@ == (n as int, 0int),
            r.wf(),
    {
        Decimal { mantissa: n as i128, scale: 0 }
    }

    /// The mantissa.
    pub fn mantissa(&self) -> (r: i128)
        ensures
            r == self.mantissa,
    {
        self.mantissa
    }

    /// The number of fractional digits.
    pub fn scale(&self) -> (r: u32)
        ensures
            r == self.scale,
    {
        self.scale
    }

    /// Whether the value is zero (whatever the scale).
    pub fn is_zero(&self) -> (r: bool)
        ensures
            r == (self.mantissa == 0),
    {
        self.mantissa == 0
    }

    /// Whether the value is greater than zero.
    pub fn is_positive(&self) -> (r: bool)
        ensures
            r == (self.mantissa > 0),
    {
        self.mantissa > 0
    }

    /// Whether the value is less than zero.
    pub fn is_negative(&self) -> (r: bool)
        ensures
            r == (self.mantissa < 0),
    {
        self.mantissa < 0
    }

    /// `self + other`, or `None` where `rust_decimal` reports overflow.
    pub fn checked_add(self, other: Decimal) -> (r: Option<Decimal>)
        requires
            self.wf(),
            other.wf(),
        ensures
            r == spec_add(self, other),
            r matches Some(d) ==> d.wf(),
    {
        rd_checked_add(self, other)
    }

    /// `self - other`, or `None` where `rust_decimal` reports overflow.
    pub fn checked_sub(self, other: Decimal) -> (r: Option<Decimal>)
        requires
            self.wf(),
            other.wf(),
        ensures
            r == spec_sub(self, other),
            r matches Some(d) ==> d.wf(),
    {
        rd_checked_sub(self, other)
    }

    /// `self * other`, or `None` where `rust_decimal` reports overflow.
    pub fn checked_mul(self, other: Decimal) -> (r: Option<Decimal>)
        requires
            self.wf(),
            other.wf(),
        ensures
            r == spec_mul(self, other),
            r matches Some(d) ==> d.wf(),
    {
        rd_checked_mul(self, other)
    }

    /// `self / other`, or `None` on overflow or when `other` is zero.
    pub fn checked_div(self, other: Decimal) -> (r: Option<Decimal>)
        requires
            self.wf(),
            other.wf(),
        ensures
            r == spec_div(self, other),
            r matches Some(d) ==> d.wf(),
            other.mantissa == 0 ==> r is None,
    {
        rd_checked_div(self, other)
    }

    /// Parses decimal text such as `"45.97"` or `"-0.5"`.
    pub fn parse(s: &str) -> (r: Option<Decimal>)
        ensures
            r == decimal_opt(decimal_from_str(s@)),
            r matches Some(d) ==> d.wf(),
    {
        rd_from_str(s)
    }

    /// The decimal as text, with all its fractional digits.
    pub fn to_string(&self) -> (r: String)
        requires
            self.wf(),
        ensures
            r@ == decimal_display(self@),
    {
        rd_to_string(*self)
    }
}

} // verus!
