//! Fixed-point decimal numbers for monetary amounts.
//!
//! A [`Decimal`] is a signed 96-bit mantissa together with a scale between 0
//! and 28; it denotes the number `mantissa / 10^scale`. Parsing and
//! multiplication are done by the `rust_decimal` crate; comparison is done
//! here and proved against the denoted number.

use vstd::prelude::*;
use core::cmp::Ordering;
use vstd::std_specs::cmp::PartialEqSpecImpl;
use vstd::std_specs::cmp::PartialOrdSpecImpl;

verus! {

/// The largest magnitude of a mantissa: `2^96 - 1`.
pub const MAX_MANTISSA: i128 = 79_228_162_514_264_337_593_543_950_335;

/// The largest scale.
pub const MAX_SCALE: u32 = 28;

/// `10^n`.
pub open spec fn pow10(n: nat) -> int
    decreases n,
{
    if n == 0 {
        1
    } else {
        10 * pow10((n - 1) as nat)
    }
}

/// The mathematical content of a [`Decimal`]: the number
/// `mantissa / 10^scale`.
pub struct DecimalView {
    pub mantissa: int,
    pub scale: nat,
}

impl DecimalView {
    /// The mantissa fits 96 bits and the scale is at most 28.
    pub open spec fn wf(self) -> bool {
        -MAX_MANTISSA <= self.mantissa <= MAX_MANTISSA && self.scale <= MAX_SCALE
    }

    /// Both denote the same number, whatever their scales.
    pub open spec fn same_value(self, other: DecimalView) -> bool {
        self.mantissa * pow10(other.scale) == other.mantissa * pow10(self.scale)
    }

    /// The denoted number is strictly less than the number `other` denotes.
    pub open spec fn less_than(self, other: DecimalView) -> bool {
        self.mantissa * pow10(other.scale) < other.mantissa * pow10(self.scale)
    }

    /// The denoted number is greater than zero.
    pub open spec fn is_positive(self) -> bool {
        self.mantissa > 0
    }

    /// The denoted number is the product of the numbers `a` and `b` denote,
    /// with nothing rounded away.
    pub open spec fn is_product_of(self, a: DecimalView, b: DecimalView) -> bool {
        self.mantissa * pow10(a.scale + b.scale) == (a.mantissa * b.mantissa) * pow10(self.scale)
    }
}

/// The product of `a` and `b` can be represented without rounding: one of
/// them is zero, or the product of the mantissas fits 96 bits and the sum of
/// the scales is at most 28.
pub open spec fn product_fits(a: DecimalView, b: DecimalView) -> bool {
    a.mantissa == 0 || b.mantissa == 0 || (-MAX_MANTISSA <= a.mantissa * b.mantissa <= MAX_MANTISSA
        && a.scale + b.scale <= MAX_SCALE)
}

/// The representation of the product of `a` and `b` where it fits: zero
/// with scale 0 if either is zero, else the product of the mantissas with the
/// sum of the scales.
pub open spec fn exact_product(a: DecimalView, b: DecimalView) -> DecimalView {
    if a.mantissa == 0 || b.mantissa == 0 {
        DecimalView { mantissa: 0, scale: 0 }
    } else {
        DecimalView { mantissa: a.mantissa * b.mantissa, scale: a.scale + b.scale }
    }
}

/// What `rust_decimal::Decimal::checked_mul` returns for two decimals:
/// `None` on overflow, else the product, rounded where it does not fit.
pub uninterp spec fn decimal_product(a: DecimalView, b: DecimalView) -> Option<DecimalView>;

/// What `rust_decimal::Decimal::from_str` makes of a text: `None` where it
/// reports an error.
pub uninterp spec fn parsed_decimal(text: Seq<char>) -> Option<DecimalView>;

/// A decimal number with a 96-bit mantissa and a scale of at most 28.
#[derive(Clone, Copy, Debug)]
pub struct Decimal {
    mantissa: i128,
    scale: u32,
}

/// The text handed to [`Decimal::from_str`] is not a decimal number.
#[derive(Clone, Copy, Debug, PartialEq, Eq, Structural)]
pub struct DecimalParseError {}

impl View for Decimal {
    type V = DecimalView;

    closed spec fn view(&self) -> DecimalView {
        if self.inv() {
            DecimalView { mantissa: self.mantissa as int, scale: self.scale as nat }
        } else {
            DecimalView { mantissa: 0, scale: 0 }
        }
    }
}

/// The number that an optional pair of mantissa and scale denotes.
pub open spec fn parts_view(parts: Option<(i128, u32)>) -> Option<DecimalView> {
    match parts {
        Some((m, s)) => Some(DecimalView { mantissa: m as int, scale: s as nat }),
        None => None,
    }
}

/// The view of an optional decimal.
pub open spec fn option_view(d: Option<Decimal>) -> Option<DecimalView> {
    match d {
        Some(x) => Some(x@),
        None => None,
    }
}

/// `10^n` is positive.
pub proof fn lemma_pow10_positive(n: nat)
    ensures
        pow10(n) > 0,
    decreases n,
{
    if n > 0 {
        lemma_pow10_positive((n - 1) as nat);
    }
}

/// `10^(a + b) == 10^a * 10^b`.
pub proof fn lemma_pow10_adds(a: nat, b: nat)
    ensures
        pow10(a + b) == pow10(a) * pow10(b),
    decreases a,
{
    if a > 0 {
        lemma_pow10_adds((a - 1) as nat, b);
        assert(pow10(a + b) == 10 * pow10((a + b - 1) as nat));
        assert(10 * (pow10((a - 1) as nat) * pow10(b)) == (10 * pow10((a - 1) as nat)) * pow10(b))
            by (nonlinear_arith);
    } else {
        assert(pow10(a) * pow10(b) == pow10(b)) by (nonlinear_arith)
            requires
                pow10(a) == 1,
        ;
    }
}

/// Up to the largest scale, `10^n` lies between 1 and `10^28`.
pub proof fn lemma_pow10_bound(n: nat)
    requires
        n <= MAX_SCALE,
    ensures
        1 <= pow10(n) <= 10_000_000_000_000_000_000_000_000_000,
    decreases MAX_SCALE - n,
{
    if n == MAX_SCALE {
        reveal_with_fuel(pow10, 30);
    } else {
        lemma_pow10_bound(n + 1);
        lemma_pow10_positive(n);
    }
}

/// The exact product denotes the product of the numbers that its factors
/// denote.
pub proof fn lemma_exact_product_is_product(a: DecimalView, b: DecimalView)
    ensures
        exact_product(a, b).is_product_of(a, b),
{
    let p = exact_product(a, b);
    if a.mantissa == 0 || b.mantissa == 0 {
        assert(a.mantissa * b.mantissa == 0) by (nonlinear_arith)
            requires
                a.mantissa == 0 || b.mantissa == 0,
        ;
        assert(0 * pow10(a.scale + b.scale) == 0 * pow10(p.scale)) by (nonlinear_arith);
    }
}

/// `10^n` as a machine integer.
fn pow10_exec(n: u32) -> (r: i128)
    requires
        n <= MAX_SCALE,
    ensures
        r == pow10(n as nat),
        1 <= r <= 10_000_000_000_000_000_000_000_000_000,
{
    let mut r: i128 = 1;
    let mut i: u32 = 0;
    proof {
        lemma_pow10_bound(0);
    }
    while i < n
        invariant
            i <= n <= MAX_SCALE,
            r == pow10(i as nat),
            1 <= r <= 10_000_000_000_000_000_000_000_000_000,
        decreases n - i,
    {
        proof {
            lemma_pow10_bound((i + 1) as nat);
        }
        r = r * 10;
        i = i + 1;
    }
    r
}

/// Calls `rust_decimal::Decimal::checked_mul` on the two decimals and hands
/// back mantissa and scale of the product, `None` where the crate reports
/// overflow. Beyond naming the result, the contract claims what the crate's
/// multiplication shows: the result is a valid decimal; a zero factor gives
/// zero with scale 0; and where the product of the mantissas fits 96 bits and
/// the scales add up to at most 28, the result is that product at that scale,
/// unrounded.
#[verifier::external_body]
fn outside_checked_mul(a: &Decimal, b: &Decimal) -> (r: Option<(i128, u32)>)
    requires
        a@.wf(),
        b@.wf(),
    ensures
        parts_view(r) == decimal_product(a@, b@),
        r matches Some(p) ==> parts_view(r)->0.wf(),
        product_fits(a@, b@) ==> parts_view(r) == Some(exact_product(a@, b@)),
{
    let x = rust_decimal::Decimal::from_i128_with_scale(a.mantissa, a.scale);
    let y = rust_decimal::Decimal::from_i128_with_scale(b.mantissa, b.scale);
    match x.checked_mul(y) {
        Some(p) => Some((p.mantissa(), p.scale())),
        None => None,
    }
}

/// Calls `rust_decimal::Decimal::from_str` (through `str::parse`) and hands
/// back mantissa and scale of the number read, `None` where the crate reports
/// an error. The contract names the result and claims that it is a valid
/// decimal.
#[verifier::external_body]
fn outside_from_str(text: &str) -> (r: Option<(i128, u32)>)
    ensures
        parts_view(r) == parsed_decimal(text@),
        r matches Some(p) ==> parts_view(r)->0.wf(),
{
    match text.parse::<rust_decimal::Decimal>() {
        Ok(d) => Some((d.mantissa(), d.scale())),
        Err(_) => None,
    }
}

impl Decimal {
    #[verifier::type_invariant]
    spec fn inv(self) -> bool {
        -MAX_MANTISSA <= self.mantissa <= MAX_MANTISSA && self.scale <= MAX_SCALE
    }

    /// Every decimal is well formed.
    pub proof fn lemma_wf(self)
        ensures
            self@.wf(),
    {
    }

    /// The decimal `mantissa / 10^scale`, or `None` where the mantissa
    /// exceeds 96 bits or the scale exceeds 28.
    pub fn try_new(mantissa: i128, scale: u32) -> (r: Option<Decimal>)
        ensures
            r is Some <==> (-MAX_MANTISSA <= mantissa <= MAX_MANTISSA && scale <= MAX_SCALE),
            r matches Some(d) ==> d@ == (DecimalView {
                mantissa: mantissa as int,
                scale: scale as nat,
            }),
    {
        if -MAX_MANTISSA <= mantissa && mantissa <= MAX_MANTISSA && scale <= MAX_SCALE {
            Some(Decimal { mantissa, scale })
        } else {
            None
        }
    }

    /// The whole number `n`, at scale 0.
    pub fn from_int(n: i64) -> (d: Decimal)
        ensures
            d@ == (DecimalView { mantissa: n as int, scale: 0 }),
    {
        Decimal { mantissa: n as i128, scale: 0 }
    }

    /// Zero, at scale 0.
    pub fn zero() -> (d: Decimal)
        ensures
            d@ == (DecimalView { mantissa: 0, scale: 0 }),
    {
        Decimal { mantissa: 0, scale: 0 }
    }

    /// Reads a decimal number from text.
    pub fn from_str(text: &str) -> (r: Result<Decimal, DecimalParseError>)
        ensures
            r matches Ok(d) ==> parsed_decimal(text@) == Some(d@),
            r is Err <==> parsed_decimal(text@) is None,
    {
        match outside_from_str(text) {
            Some((m, s)) => Ok(Decimal { mantissa: m, scale: s }),
            None => Err(DecimalParseError {  }),
        }
    }

    /// The mantissa: the number without its decimal point.
    pub fn mantissa(&self) -> (m: i128)
        ensures
            m == self@.mantissa,
    {
        proof {
            use_type_invariant(self);
        }
        self.mantissa
    }

    /// The scale: how many digits stand behind the decimal point.
    pub fn scale(&self) -> (s: u32)
        ensures
            s == self@.scale,
    {
        proof {
            use_type_invariant(self);
        }
        self.scale
    }

    /// Whether the number is greater than zero.
    pub fn is_positive(&self) -> (r: bool)
        ensures
            r == self@.is_positive(),
    {
        proof {
            use_type_invariant(self);
        }
        self.mantissa > 0
    }

    /// The product of two decimals as `rust_decimal` computes it: `None` on
    /// overflow; exact where the product fits.
    pub fn checked_mul(&self, other: &Decimal) -> (r: Option<Decimal>)
        ensures
            option_view(r) == decimal_product(self@, other@),
            product_fits(self@, other@) ==> option_view(r) == Some(exact_product(self@, other@)),
    {
        proof {
            use_type_invariant(self);
            use_type_invariant(other);
        }
        match outside_checked_mul(self, other) {
            Some((m, s)) => Some(Decimal { mantissa: m, scale: s }),
            None => None,
        }
    }

    /// Whether the number is strictly less than `other`.
    pub fn is_less_than(&self, other: &Decimal) -> (r: bool)
        ensures
            r == self@.less_than(other@),
    {
        proof {
            use_type_invariant(self);
            use_type_invariant(other);
        }
        if self.scale <= other.scale {
            let f = pow10_exec(other.scale - self.scale);
            proof {
                lemma_scaled_compare(self@, other@);
                lemma_sign_of_scaled(self.mantissa as int, f as int);
            }
            match self.mantissa.checked_mul(f) {
                Some(scaled) => scaled < other.mantissa,
                None => self.mantissa < 0,
            }
        } else {
            let f = pow10_exec(self.scale - other.scale);
            proof {
                lemma_scaled_compare(other@, self@);
                lemma_sign_of_scaled(other.mantissa as int, f as int);
            }
            match other.mantissa.checked_mul(f) {
                Some(scaled) => self.mantissa < scaled,
                None => other.mantissa > 0,
            }
        }
    }
}

/// A mantissa scaled up by a positive factor keeps its sign.
proof fn lemma_sign_of_scaled(m: int, f: int)
    requires
        f >= 1,
    ensures
        m > 0 ==> m * f >= m,
        m < 0 ==> m * f <= m,
        m == 0 ==> m * f == 0,
{
    assert(m > 0 ==> m * f >= m) by (nonlinear_arith)
        requires
            f >= 1,
    ;
    assert(m < 0 ==> m * f <= m) by (nonlinear_arith)
        requires
            f >= 1,
    ;
    assert(m == 0 ==> m * f == 0) by (nonlinear_arith);
}

/// With `lo.scale <= hi.scale`, comparing `lo` with `hi` is comparing
/// `lo.mantissa * 10^(hi.scale - lo.scale)` with `hi.mantissa`.
proof fn lemma_scaled_compare(lo: DecimalView, hi: DecimalView)
    requires
        lo.scale <= hi.scale,
    ensures
        lo.same_value(hi) <==> lo.mantissa * pow10((hi.scale - lo.scale) as nat) == hi.mantissa,
        lo.less_than(hi) <==> lo.mantissa * pow10((hi.scale - lo.scale) as nat) < hi.mantissa,
        hi.less_than(lo) <==> hi.mantissa < lo.mantissa * pow10((hi.scale - lo.scale) as nat),
{
    let d = (hi.scale - lo.scale) as nat;
    let k = pow10(lo.scale);
    let x = lo.mantissa * pow10(d);
    lemma_pow10_adds(d, lo.scale);
    lemma_pow10_positive(lo.scale);
    assert(pow10(hi.scale) == pow10(d) * k);
    assert(lo.mantissa * (pow10(d) * k) == x * k) by (nonlinear_arith)
        requires
            x == lo.mantissa * pow10(d),
    ;
    assert((x * k == hi.mantissa * k) <==> (x == hi.mantissa)) by (nonlinear_arith)
        requires
            k > 0,
    ;
    assert((x * k < hi.mantissa * k) <==> (x < hi.mantissa)) by (nonlinear_arith)
        requires
            k > 0,
    ;
    assert((hi.mantissa * k < x * k) <==> (hi.mantissa < x)) by (nonlinear_arith)
        requires
            k > 0,
    ;
}

impl PartialEq for Decimal {
    /// Two decimals are equal when they denote the same number: `2.50`
    /// equals `2.5`.
    fn eq(&self, other: &Decimal) -> (r: bool) {
        proof {
            use_type_invariant(self);
            use_type_invariant(other);
        }
        if self.scale <= other.scale {
            let f = pow10_exec(other.scale - self.scale);
            proof {
                lemma_scaled_compare(self@, other@);
                lemma_sign_of_scaled(self.mantissa as int, f as int);
            }
            match self.mantissa.checked_mul(f) {
                Some(scaled) => scaled == other.mantissa,
                None => false,
            }
        } else {
            let f = pow10_exec(self.scale - other.scale);
            proof {
                lemma_scaled_compare(other@, self@);
                lemma_sign_of_scaled(other.mantissa as int, f as int);
            }
            match other.mantissa.checked_mul(f) {
                Some(scaled) => scaled == self.mantissa,
                None => false,
            }
        }
    }
}

impl PartialEqSpecImpl for Decimal {
    open spec fn obeys_eq_spec() -> bool {
        true
    }

    open spec fn eq_spec(&self, other: &Decimal) -> bool {
        self@.same_value(other@)
    }
}

impl PartialOrd for Decimal {
    /// Decimals are ordered as the numbers they denote.
    fn partial_cmp(&self, other: &Decimal) -> (r: Option<Ordering>) {
        if self.is_less_than(other) {
            Some(Ordering::Less)
        } else if other.is_less_than(self) {
            Some(Ordering::Greater)
        } else {
            Some(Ordering::Equal)
        }
    }
}

impl PartialOrdSpecImpl for Decimal {
    open spec fn obeys_partial_cmp_spec() -> bool {
        true
    }

    open spec fn partial_cmp_spec(&self, other: &Decimal) -> Option<Ordering> {
        if self@.less_than(other@) {
            Some(Ordering::Less)
        } else if other@.less_than(self@) {
            Some(Ordering::Greater)
        } else {
            Some(Ordering::Equal)
        }
    }
}

} // verus!
