//! Exact decimal numbers: an integer mantissa of at most 96 bits over a power
//! of ten. The arithmetic is that of the `rust_decimal` crate.
use crate::text::{digit_char, nat_text};
use crate::value::Value;
use vstd::prelude::*;

verus! {

/// Ten to the power `n`.
pub open spec fn pow10(n: nat) -> int
    decreases n,
{
    if n == 0 {
        1
    } else {
        10 * pow10((n - 1) as nat)
    }
}

pub proof fn lemma_pow10_positive(n: nat)
    ensures
        pow10(n) >= 1,
    decreases n,
{
    if n > 0 {
        lemma_pow10_positive((n - 1) as nat);
    }
}

pub proof fn lemma_pow10_add(a: nat, b: nat)
    ensures
        pow10(a + b) == pow10(a) * pow10(b),
    decreases a,
{
    if a == 0 {
        assert(pow10(a) * pow10(b) == pow10(b));
    } else {
        lemma_pow10_add((a - 1) as nat, b);
        assert((10 * pow10((a - 1) as nat)) * pow10(b) == 10 * (pow10((a - 1) as nat) * pow10(b)))
            by (nonlinear_arith);
    }
}

/// The largest magnitude of a mantissa.
pub const MAX_MANTISSA: i128 = 79228162514264337593543950335;

/// The largest number of decimal places.
pub const MAX_SCALE: u32 = 28;

/// Whether a mantissa and a number of places are those of a decimal.
pub open spec fn representable(m: int, s: int) -> bool {
    -MAX_MANTISSA <= m <= MAX_MANTISSA && 0 <= s <= MAX_SCALE
}

/// A decimal number.
#[derive(Clone, Copy, Debug)]
pub struct Decimal {
    mantissa: i128,
    scale: u32,
}

impl Decimal {
    #[verifier::type_invariant]
    spec fn inv(self) -> bool {
        representable(self.mantissa as int, self.scale as int)
    }

    /// The integer over the power of ten.
    pub closed spec fn m(self) -> int {
        self.mantissa as int
    }

    /// The exponent of the power of ten: the number of decimal places.
    pub closed spec fn s(self) -> nat {
        self.scale as nat
    }

    /// Whether the parts are in range. It holds of every decimal that exists
    /// at run time.
    pub open spec fn valid(self) -> bool {
        representable(self.m(), self.s() as int)
    }

    /// The number as a multiple of the smallest decimal place.
    pub open spec fn units(self) -> int {
        self.m() * pow10((MAX_SCALE - self.s()) as nat)
    }

    /// The decimal with the given parts.
    pub closed spec fn of(m: int, s: nat) -> Decimal {
        Decimal { mantissa: m as i128, scale: s as u32 }
    }

    pub open spec fn zero() -> Decimal {
        Decimal::of(0, 0)
    }

    pub open spec fn one() -> Decimal {
        Decimal::of(1, 0)
    }

    /// An integer as a decimal.
    pub open spec fn whole(n: int) -> Decimal {
        Decimal::of(n, 0)
    }
}

/// A decimal has the parts that it is made of.
pub broadcast proof fn lemma_of_parts(m: int, s: nat)
    requires
        representable(m, s as int),
    ensures
        (#[trigger] Decimal::of(m, s)).m() == m,
        Decimal::of(m, s).s() == s,
{
}

/// A decimal is known by its parts.
pub proof fn lemma_known_by_parts(a: Decimal, b: Decimal)
    requires
        a.m() == b.m(),
        a.s() == b.s(),
    ensures
        a == b,
{
}

impl DeepView for Decimal {
    type V = Decimal;

    open spec fn deep_view(&self) -> Decimal {
        *self
    }
}

impl View for Decimal {
    type V = Decimal;

    open spec fn view(&self) -> Decimal {
        *self
    }
}

impl Value for Decimal {
    fn dup(&self) -> (r: Self) {
        *self
    }

    fn same(&self, other: &Self) -> (r: bool) {
        self.mantissa == other.mantissa && self.scale == other.scale
    }
}

/// The larger number of places.
pub open spec fn wider(a: nat, b: nat) -> nat {
    if a < b {
        b
    } else {
        a
    }
}

/// A mantissa brought from `s` to `k` places.
pub open spec fn aligned(m: int, s: nat, k: nat) -> int {
    m * pow10((k - s) as nat)
}

/// Whether adding `b` to `a` needs no rounding: both and their sum fit at the
/// larger number of places.
pub open spec fn sum_is_exact(am: int, ap: nat, bm: int, bp: nat) -> bool {
    let k = wider(ap, bp);
    &&& -MAX_MANTISSA <= aligned(am, ap, k) <= MAX_MANTISSA
    &&& -MAX_MANTISSA <= aligned(bm, bp, k) <= MAX_MANTISSA
    &&& -MAX_MANTISSA <= aligned(am, ap, k) + aligned(bm, bp, k) <= MAX_MANTISSA
}

/// What `rust_decimal::Decimal::checked_add` gives where the sum does not fit
/// at the larger number of places: parts of the rounded sum, or nothing.
pub uninterp spec fn rounded_sum(am: int, ap: nat, bm: int, bp: nat) -> Option<(int, nat)>;

/// What `rust_decimal::Decimal::checked_sub` gives where the difference does
/// not fit at the larger number of places.
pub uninterp spec fn rounded_difference(am: int, ap: nat, bm: int, bp: nat) -> Option<(int, nat)>;

/// What `rust_decimal::Decimal::checked_mul` gives where the product does not
/// fit at the sum of the places.
pub uninterp spec fn rounded_product(am: int, ap: nat, bm: int, bp: nat) -> Option<(int, nat)>;

/// What `rust_decimal::Decimal::checked_div` gives for operands that are not zero.
pub uninterp spec fn rounded_quotient(am: int, ap: nat, bm: int, bp: nat) -> Option<(int, nat)>;

/// What `rust_decimal::Decimal::from_str` reads from a text.
pub uninterp spec fn read_decimal(text: Seq<char>) -> Option<(int, nat)>;

/// What `rust_decimal::Decimal::from_str_exact` reads from a text.
pub uninterp spec fn read_exact_decimal(text: Seq<char>) -> Option<(int, nat)>;

/// A decimal from the parts of a result.
pub open spec fn from_parts(p: Option<(int, nat)>) -> Option<Decimal> {
    match p {
        Some(q) => Some(Decimal::of(q.0, q.1)),
        None => None,
    }
}

/// The parts of a result as mathematical integers.
pub open spec fn parts(p: Option<(i128, u32)>) -> Option<(int, nat)> {
    match p {
        Some(q) => Some((q.0 as int, q.1 as nat)),
        None => None,
    }
}

/// The sum where it needs no rounding: the other operand where one is zero, and
/// the sum at the larger number of places where it fits there.
pub open spec fn exact_sum(am: int, ap: nat, bm: int, bp: nat) -> Option<(int, nat)> {
    let k = wider(ap, bp);
    if am == 0 {
        Some((bm, bp))
    } else if bm == 0 {
        Some((am, ap))
    } else if sum_is_exact(am, ap, bm, bp) {
        Some((aligned(am, ap, k) + aligned(bm, bp, k), k))
    } else {
        None
    }
}

/// The product where it needs no rounding: zero without places where a factor
/// is zero, and the product at the sum of the places where it fits there.
pub open spec fn exact_product(am: int, ap: nat, bm: int, bp: nat) -> Option<(int, nat)> {
    if am == 0 || bm == 0 {
        Some((0, 0))
    } else if product_is_exact(am, ap, bm, bp) {
        Some((am * bm, ap + bp))
    } else {
        None
    }
}

/// `a + b`.
pub open spec fn plus(a: Decimal, b: Decimal) -> Option<Decimal> {
    if exact_sum(a.m(), a.s(), b.m(), b.s()) is Some {
        from_parts(exact_sum(a.m(), a.s(), b.m(), b.s()))
    } else {
        from_parts(rounded_sum(a.m(), a.s(), b.m(), b.s()))
    }
}

/// `a - b`.
pub open spec fn minus(a: Decimal, b: Decimal) -> Option<Decimal> {
    if exact_sum(a.m(), a.s(), -b.m(), b.s()) is Some {
        from_parts(exact_sum(a.m(), a.s(), -b.m(), b.s()))
    } else {
        from_parts(rounded_difference(a.m(), a.s(), b.m(), b.s()))
    }
}

/// Whether the product needs no rounding.
pub open spec fn product_is_exact(am: int, ap: nat, bm: int, bp: nat) -> bool {
    ap + bp <= MAX_SCALE && -MAX_MANTISSA <= am * bm <= MAX_MANTISSA
}

/// `a * b`.
pub open spec fn times(a: Decimal, b: Decimal) -> Option<Decimal> {
    if exact_product(a.m(), a.s(), b.m(), b.s()) is Some {
        from_parts(exact_product(a.m(), a.s(), b.m(), b.s()))
    } else {
        from_parts(rounded_product(a.m(), a.s(), b.m(), b.s()))
    }
}

/// `a / b`: nothing where `b` is zero, zero without places where `a` is.
pub open spec fn over(a: Decimal, b: Decimal) -> Option<Decimal> {
    if b.m() == 0 {
        None
    } else if a.m() == 0 {
        Some(Decimal::zero())
    } else {
        from_parts(rounded_quotient(a.m(), a.s(), b.m(), b.s()))
    }
}

/// The largest integer that is not above the number.
pub open spec fn floored(a: Decimal) -> Decimal {
    Decimal::of(a.m() / pow10(a.s()), 0)
}

/// The parts without trailing zeros among the decimal places.
pub open spec fn normal_parts(m: int, s: nat) -> (int, nat)
    decreases s,
{
    if m == 0 {
        (0, 0)
    } else if s > 0 && m % 10 == 0 {
        normal_parts(m / 10, (s - 1) as nat)
    } else {
        (m, s)
    }
}

/// The same number without trailing zeros among its decimal places.
pub open spec fn normalized(a: Decimal) -> Decimal {
    let p = normal_parts(a.m(), a.s());
    Decimal::of(p.0, p.1)
}

/// How to round to fewer places.
#[derive(Clone, Copy, Debug, PartialEq, Eq, Structural)]
pub enum Rounding {
    /// To the nearest; halves away from zero.
    MidpointAwayFromZero,
    /// Up.
    ToPositiveInfinity,
    /// Down.
    ToNegativeInfinity,
}

/// The integer nearest to `m / p` on the side that `rounding` names.
pub open spec fn rounded_integer(m: int, p: int, rounding: Rounding) -> int {
    match rounding {
        Rounding::MidpointAwayFromZero => if m >= 0 {
            (m + p / 2) / p
        } else {
            -((-m + p / 2) / p)
        },
        Rounding::ToPositiveInfinity => -((-m) / p),
        Rounding::ToNegativeInfinity => m / p,
    }
}

/// The number at no more than `dp` places.
pub open spec fn rounded_to(a: Decimal, dp: nat, rounding: Rounding) -> Decimal {
    if a.s() <= dp {
        a
    } else {
        Decimal::of(rounded_integer(a.m(), pow10((a.s() - dp) as nat), rounding), dp)
    }
}

/// The integer part of `m` over ten to the power `s`, towards zero.
pub open spec fn integer_part(m: int, s: nat) -> int {
    if m >= 0 {
        m / pow10(s)
    } else {
        -((-m) / pow10(s))
    }
}

/// The integer where it fits in 64 bits.
pub open spec fn fitting(n: int) -> Option<i64> {
    if i64::MIN <= n <= i64::MAX {
        Some(n as i64)
    } else {
        None
    }
}

/// The integer part, towards zero.
pub open spec fn truncated(a: Decimal) -> int {
    integer_part(a.m(), a.s())
}

/// `rust_decimal::Decimal::checked_add`: the other operand where one is zero,
/// the exact sum at the larger number of places where it fits there, and else
/// the rounded sum or nothing.
#[verifier::external_body]
fn outside_sum(am: i128, ap: u32, bm: i128, bp: u32) -> (r: Option<(i128, u32)>)
    requires
        representable(am as int, ap as int),
        representable(bm as int, bp as int),
    ensures
        r matches Some(p) ==> representable(p.0 as int, p.1 as int),
        exact_sum(am as int, ap as nat, bm as int, bp as nat) is Some ==> parts(r) == exact_sum(
            am as int,
            ap as nat,
            bm as int,
            bp as nat,
        ),
        exact_sum(am as int, ap as nat, bm as int, bp as nat) is None ==> parts(r) == rounded_sum(
            am as int,
            ap as nat,
            bm as int,
            bp as nat,
        ),
{
    rust_decimal::Decimal::from_i128_with_scale(am, ap)
        .checked_add(rust_decimal::Decimal::from_i128_with_scale(bm, bp))
        .map(|d| (d.mantissa(), d.scale()))
}

/// `rust_decimal::Decimal::checked_sub`: the negated second operand where the
/// first is zero, the first where the second is zero, the exact difference at
/// the larger number of places where it fits there, and else the rounded
/// difference or nothing.
#[verifier::external_body]
fn outside_difference(am: i128, ap: u32, bm: i128, bp: u32) -> (r: Option<(i128, u32)>)
    requires
        representable(am as int, ap as int),
        representable(bm as int, bp as int),
    ensures
        r matches Some(p) ==> representable(p.0 as int, p.1 as int),
        exact_sum(am as int, ap as nat, -(bm as int), bp as nat) is Some ==> parts(r) == exact_sum(
            am as int,
            ap as nat,
            -(bm as int),
            bp as nat,
        ),
        exact_sum(am as int, ap as nat, -(bm as int), bp as nat) is None ==> parts(r)
            == rounded_difference(am as int, ap as nat, bm as int, bp as nat),
{
    rust_decimal::Decimal::from_i128_with_scale(am, ap)
        .checked_sub(rust_decimal::Decimal::from_i128_with_scale(bm, bp))
        .map(|d| (d.mantissa(), d.scale()))
}

/// `rust_decimal::Decimal::checked_mul`: zero without places where a factor is
/// zero, the exact product at the sum of the places where it fits there, and
/// else the product rounded to the nearest at the most places that fit, or
/// nothing. So a first factor that is not negative does not get smaller by a
/// second one of at least one, nor larger by one from zero to one.
#[verifier::external_body]
fn outside_product(am: i128, ap: u32, bm: i128, bp: u32) -> (r: Option<(i128, u32)>)
    requires
        representable(am as int, ap as int),
        representable(bm as int, bp as int),
    ensures
        r matches Some(p) ==> representable(p.0 as int, p.1 as int),
        exact_product(am as int, ap as nat, bm as int, bp as nat) is Some ==> parts(r)
            == exact_product(am as int, ap as nat, bm as int, bp as nat),
        exact_product(am as int, ap as nat, bm as int, bp as nat) is None ==> parts(r)
            == rounded_product(am as int, ap as nat, bm as int, bp as nat),
        r matches Some(p) ==> am >= 0 && bm >= pow10(bp as nat) ==> p.0 * pow10(
            (MAX_SCALE - p.1) as nat,
        ) >= am * pow10((MAX_SCALE - ap) as nat),
        r matches Some(p) ==> am >= 0 && 0 <= bm <= pow10(bp as nat) ==> p.0 * pow10(
            (MAX_SCALE - p.1) as nat,
        ) <= am * pow10((MAX_SCALE - ap) as nat),
{
    rust_decimal::Decimal::from_i128_with_scale(am, ap)
        .checked_mul(rust_decimal::Decimal::from_i128_with_scale(bm, bp))
        .map(|d| (d.mantissa(), d.scale()))
}

/// `rust_decimal::Decimal::checked_div`: nothing where the divisor is zero,
/// zero without places where the dividend is, and else the rounded quotient or
/// nothing.
#[verifier::external_body]
fn outside_quotient(am: i128, ap: u32, bm: i128, bp: u32) -> (r: Option<(i128, u32)>)
    requires
        representable(am as int, ap as int),
        representable(bm as int, bp as int),
    ensures
        r matches Some(p) ==> representable(p.0 as int, p.1 as int),
        bm == 0 ==> r is None,
        bm != 0 && am == 0 ==> r == Some((0i128, 0u32)),
        bm != 0 && am != 0 ==> parts(r) == rounded_quotient(
            am as int,
            ap as nat,
            bm as int,
            bp as nat,
        ),
{
    rust_decimal::Decimal::from_i128_with_scale(am, ap)
        .checked_div(rust_decimal::Decimal::from_i128_with_scale(bm, bp))
        .map(|d| (d.mantissa(), d.scale()))
}

/// `<` of `rust_decimal::Decimal`, which orders by value.
#[verifier::external_body]
fn outside_less(am: i128, ap: u32, bm: i128, bp: u32) -> (r: bool)
    requires
        representable(am as int, ap as int),
        representable(bm as int, bp as int),
    ensures
        r == (am * pow10((MAX_SCALE - ap) as nat) < bm * pow10((MAX_SCALE - bp) as nat)),
{
    rust_decimal::Decimal::from_i128_with_scale(am, ap)
        < rust_decimal::Decimal::from_i128_with_scale(bm, bp)
}

/// `==` of `rust_decimal::Decimal`, which compares by value.
#[verifier::external_body]
fn outside_equal(am: i128, ap: u32, bm: i128, bp: u32) -> (r: bool)
    requires
        representable(am as int, ap as int),
        representable(bm as int, bp as int),
    ensures
        r == (am * pow10((MAX_SCALE - ap) as nat) == bm * pow10((MAX_SCALE - bp) as nat)),
{
    rust_decimal::Decimal::from_i128_with_scale(am, ap)
        == rust_decimal::Decimal::from_i128_with_scale(bm, bp)
}

/// `rust_decimal::Decimal::floor`: the largest integer that is not above the
/// number, without decimal places.
#[verifier::external_body]
fn outside_floor(m: i128, p: u32) -> (r: (i128, u32))
    requires
        representable(m as int, p as int),
    ensures
        representable(r.0 as int, r.1 as int),
        r.0 == m as int / pow10(p as nat),
        r.1 == 0,
{
    let d = rust_decimal::Decimal::from_i128_with_scale(m, p).floor();
    (d.mantissa(), d.scale())
}

/// `rust_decimal::Decimal::normalize`: strips trailing zeros among the decimal
/// places; zero has none.
#[verifier::external_body]
fn outside_normal(m: i128, p: u32) -> (r: (i128, u32))
    requires
        representable(m as int, p as int),
    ensures
        representable(r.0 as int, r.1 as int),
        normal_parts(m as int, p as nat) == (r.0 as int, r.1 as nat),
{
    let d = rust_decimal::Decimal::from_i128_with_scale(m, p).normalize();
    (d.mantissa(), d.scale())
}

/// `rust_decimal::Decimal::round_dp_with_strategy`: unchanged where the number
/// has no more than `dp` places, and else the integer nearest to it on the side
/// of the strategy, over `dp` places.
#[verifier::external_body]
fn outside_round(m: i128, p: u32, dp: u32, rounding: Rounding) -> (r: (i128, u32))
    requires
        representable(m as int, p as int),
    ensures
        representable(r.0 as int, r.1 as int),
        p <= dp ==> r == (m, p),
        p > dp ==> r.1 == dp && r.0 == rounded_integer(
            m as int,
            pow10((p - dp) as nat),
            rounding,
        ),
{
    let strategy = match rounding {
        Rounding::MidpointAwayFromZero => rust_decimal::RoundingStrategy::MidpointAwayFromZero,
        Rounding::ToPositiveInfinity => rust_decimal::RoundingStrategy::ToPositiveInfinity,
        Rounding::ToNegativeInfinity => rust_decimal::RoundingStrategy::ToNegativeInfinity,
    };
    let d = rust_decimal::Decimal::from_i128_with_scale(m, p).round_dp_with_strategy(dp, strategy);
    (d.mantissa(), d.scale())
}

/// `ToPrimitive::to_i64` of `rust_decimal::Decimal`: the integer part where it
/// fits.
#[verifier::external_body]
fn outside_to_i64(m: i128, p: u32) -> (r: Option<i64>)
    requires
        representable(m as int, p as int),
    ensures
        r == fitting(integer_part(m as int, p as nat)),
{
    rust_decimal::prelude::ToPrimitive::to_i64(
        &rust_decimal::Decimal::from_i128_with_scale(m, p),
    )
}

/// `FromStr::from_str` of `rust_decimal::Decimal`: the parts that it reads from
/// the text, or nothing.
#[verifier::external_body]
fn outside_read(text: &str) -> (r: Option<(i128, u32)>)
    ensures
        r matches Some(p) ==> representable(p.0 as int, p.1 as int),
        parts(r) == read_decimal(text@),
{
    text.parse::<rust_decimal::Decimal>().ok().map(|d| (d.mantissa(), d.scale()))
}

/// `rust_decimal::Decimal::from_str_exact`: the parts that it reads from the
/// text without rounding, or nothing.
#[verifier::external_body]
fn outside_read_exact(text: &str) -> (r: Option<(i128, u32)>)
    ensures
        r matches Some(p) ==> representable(p.0 as int, p.1 as int),
        parts(r) == read_exact_decimal(text@),
{
    rust_decimal::Decimal::from_str_exact(text).ok().map(|d| (d.mantissa(), d.scale()))
}

/// The last `k` decimal digits of a number.
pub open spec fn last_digits(n: nat, k: nat) -> Seq<char>
    decreases k,
{
    if k == 0 {
        Seq::empty()
    } else {
        last_digits(n / 10, (k - 1) as nat).push(digit_char(n % 10))
    }
}

/// The number in digits, with as many places as it has.
pub open spec fn decimal_text(m: int, s: nat) -> Seq<char> {
    let n = if m < 0 {
        (-m) as nat
    } else {
        m as nat
    };
    let sign: Seq<char> = if m < 0 {
        seq!['-']
    } else {
        Seq::empty()
    };
    let places: Seq<char> = if s > 0 {
        seq!['.'] + last_digits(n, s)
    } else {
        Seq::empty()
    };
    sign + nat_text((n as int / pow10(s)) as nat) + places
}

/// `rust_decimal::Decimal::to_string`: a sign where the number is negative, the
/// integer part, and after a point as many digits as there are places.
#[verifier::external_body]
fn outside_text(m: i128, p: u32) -> (r: String)
    requires
        representable(m as int, p as int),
    ensures
        r@ == decimal_text(m as int, p as nat),
{
    rust_decimal::Decimal::from_i128_with_scale(m, p).to_string()
}

fn build(p: Option<(i128, u32)>) -> (r: Option<Decimal>)
    requires
        p matches Some(q) ==> representable(q.0 as int, q.1 as int),
    ensures
        r == from_parts(parts(p)),
{
    match p {
        Some(q) => Some(Decimal { mantissa: q.0, scale: q.1 }),
        None => None,
    }
}

impl Decimal {
    /// A decimal from its parts, where they are in range.
    pub fn from_scaled(mantissa: i128, scale: u32) -> (r: Option<Decimal>)
        ensures
            match r {
                Some(d) => representable(mantissa as int, scale as int) && d == Decimal::of(
                    mantissa as int,
                    scale as nat,
                ) && d.m() == mantissa && d.s() == scale,
                None => !representable(mantissa as int, scale as int),
            },
    {
        if mantissa >= -MAX_MANTISSA && mantissa <= MAX_MANTISSA && scale <= MAX_SCALE {
            Some(Decimal { mantissa, scale })
        } else {
            None
        }
    }

    /// What holds of every decimal: its parts are in range.
    pub fn range_known(&self)
        ensures
            self.valid(),
    {
        proof {
            use_type_invariant(self);
        }
    }

    pub fn mantissa(&self) -> (r: i128)
        ensures
            r == self.m(),
            self.valid(),
    {
        proof {
            use_type_invariant(self);
        }
        self.mantissa
    }

    pub fn scale(&self) -> (r: u32)
        ensures
            r == self.s(),
            self.valid(),
    {
        proof {
            use_type_invariant(self);
        }
        self.scale
    }

    /// Zero.
    pub fn nil() -> (r: Decimal)
        ensures
            r == Decimal::zero(),
            r.m() == 0,
            r.units() == 0,
    {
        let r = Decimal { mantissa: 0, scale: 0 };
        assert(0 * pow10(28) == 0);
        r
    }

    /// One.
    pub fn unit() -> (r: Decimal)
        ensures
            r == Decimal::one(),
            r.m() == 1,
            r.s() == 0,
    {
        Decimal { mantissa: 1, scale: 0 }
    }

    /// An integer.
    pub fn from_i64(n: i64) -> (r: Decimal)
        ensures
            r == Decimal::whole(n as int),
            r.m() == n,
            r.s() == 0,
    {
        Decimal { mantissa: n as i128, scale: 0 }
    }

    /// The decimal that a text denotes.
    pub fn parse(text: &str) -> (r: Option<Decimal>)
        ensures
            r == from_parts(read_decimal(text@)),
    {
        build(outside_read(text))
    }

    /// The decimal that a text denotes without rounding.
    pub fn parse_exact(text: &str) -> (r: Option<Decimal>)
        ensures
            r == from_parts(read_exact_decimal(text@)),
            r matches Some(d) ==> d.valid(),
    {
        let r = build(outside_read_exact(text));
        if let Some(d) = r {
            d.range_known();
        }
        r
    }

    pub fn checked_add(self, other: Decimal) -> (r: Option<Decimal>)
        ensures
            r == plus(self, other),
            self.valid() && other.valid(),
    {
        proof {
            use_type_invariant(&self);
            use_type_invariant(&other);
        }
        build(outside_sum(self.mantissa, self.scale, other.mantissa, other.scale))
    }

    pub fn checked_sub(self, other: Decimal) -> (r: Option<Decimal>)
        ensures
            r == minus(self, other),
            self.valid() && other.valid(),
    {
        proof {
            use_type_invariant(&self);
            use_type_invariant(&other);
        }
        build(outside_difference(self.mantissa, self.scale, other.mantissa, other.scale))
    }

    /// The product. A number that is not negative does not get smaller by a factor
    /// of at least one, nor larger by one from zero to one.
    pub fn checked_mul(self, other: Decimal) -> (r: Option<Decimal>)
        ensures
            r == times(self, other),
            r matches Some(p) ==> self.units() >= 0 && other.units() >= Decimal::one().units()
                ==> p.units() >= self.units(),
            r matches Some(p) ==> self.units() >= 0 && 0 <= other.units()
                <= Decimal::one().units() ==> p.units() <= self.units(),
    {
        proof {
            use_type_invariant(&self);
            use_type_invariant(&other);
            lemma_units_sign(self);
            lemma_units_sign(other);
            lemma_against_one(other);
        }
        build(outside_product(self.mantissa, self.scale, other.mantissa, other.scale))
    }

    pub fn checked_div(self, other: Decimal) -> (r: Option<Decimal>)
        ensures
            r == over(self, other),
    {
        proof {
            use_type_invariant(&self);
            use_type_invariant(&other);
        }
        build(outside_quotient(self.mantissa, self.scale, other.mantissa, other.scale))
    }

    /// Whether both denote the same number.
    pub fn equals(&self, other: &Decimal) -> (r: bool)
        ensures
            r == (self.units() == other.units()),
    {
        proof {
            use_type_invariant(self);
            use_type_invariant(other);
        }
        outside_equal(self.mantissa, self.scale, other.mantissa, other.scale)
    }

    pub fn below(&self, other: &Decimal) -> (r: bool)
        ensures
            r == (self.units() < other.units()),
    {
        proof {
            use_type_invariant(self);
            use_type_invariant(other);
        }
        outside_less(self.mantissa, self.scale, other.mantissa, other.scale)
    }

    pub fn at_most(&self, other: &Decimal) -> (r: bool)
        ensures
            r == (self.units() <= other.units()),
    {
        !other.below(self)
    }

    pub fn is_zero(&self) -> (r: bool)
        ensures
            r == (self.m() == 0),
            r == (self.units() == 0),
    {
        proof {
            use_type_invariant(self);
            lemma_units_sign(*self);
        }
        self.mantissa == 0
    }

    pub fn is_negative(&self) -> (r: bool)
        ensures
            r == (self.m() < 0),
            r == (self.units() < 0),
    {
        proof {
            use_type_invariant(self);
            lemma_units_sign(*self);
        }
        self.mantissa < 0
    }

    pub fn is_positive(&self) -> (r: bool)
        ensures
            r == (self.m() > 0),
            r == (self.units() > 0),
    {
        proof {
            use_type_invariant(self);
            lemma_units_sign(*self);
        }
        self.mantissa > 0
    }

    /// The larger of both; the number itself where they are equal.
    pub fn max(self, other: Decimal) -> (r: Decimal)
        ensures
            r == larger(self, other),
    {
        if self.below(&other) {
            other
        } else {
            self
        }
    }

    /// The smaller of both; the number itself where they are equal.
    pub fn min(self, other: Decimal) -> (r: Decimal)
        ensures
            r == smaller(self, other),
    {
        if other.below(&self) {
            other
        } else {
            self
        }
    }

    pub fn floor(self) -> (r: Decimal)
        ensures
            r == floored(self),
    {
        proof {
            use_type_invariant(&self);
        }
        let p = outside_floor(self.mantissa, self.scale);
        Decimal { mantissa: p.0, scale: p.1 }
    }

    pub fn normalize(self) -> (r: Decimal)
        ensures
            r == normalized(self),
    {
        proof {
            use_type_invariant(&self);
        }
        let p = outside_normal(self.mantissa, self.scale);
        Decimal { mantissa: p.0, scale: p.1 }
    }

    /// The number at no more than `dp` places, on the side that `rounding` names.
    pub fn round_dp(self, dp: u32, rounding: Rounding) -> (r: Decimal)
        ensures
            r == rounded_to(self, dp as nat, rounding),
            rounding == Rounding::ToPositiveInfinity ==> r.units() >= self.units(),
            rounding == Rounding::ToNegativeInfinity ==> r.units() <= self.units(),
    {
        proof {
            use_type_invariant(&self);
            lemma_rounded_side(self, dp as nat);
        }
        let p = outside_round(self.mantissa, self.scale, dp, rounding);
        Decimal { mantissa: p.0, scale: p.1 }
    }

    /// The number in digits, with as many places as it has.
    pub fn text(&self) -> (r: String)
        ensures
            r@ == decimal_text(self.m(), self.s()),
    {
        proof {
            use_type_invariant(self);
        }
        outside_text(self.mantissa, self.scale)
    }

    /// The integer part, where it fits.
    pub fn to_i64(self) -> (r: Option<i64>)
        ensures
            r == fitting(truncated(self)),
    {
        proof {
            use_type_invariant(&self);
        }
        outside_to_i64(self.mantissa, self.scale)
    }
}

/// The larger of both; the first where they are equal.
pub open spec fn larger(a: Decimal, b: Decimal) -> Decimal {
    if a.units() < b.units() {
        b
    } else {
        a
    }
}

/// The smaller of both; the first where they are equal.
pub open spec fn smaller(a: Decimal, b: Decimal) -> Decimal {
    if a.units() > b.units() {
        b
    } else {
        a
    }
}

/// The value has the sign of the mantissa.
pub proof fn lemma_units_sign(a: Decimal)
    requires
        a.valid(),
    ensures
        a.units() == 0 <==> a.m() == 0,
        a.units() < 0 <==> a.m() < 0,
        a.units() > 0 <==> a.m() > 0,
{
    let p = pow10((MAX_SCALE - a.s()) as nat);
    lemma_pow10_positive((MAX_SCALE - a.s()) as nat);
    let m = a.m();
    assert(m == 0 ==> m * p == 0) by (nonlinear_arith);
    assert(m > 0 ==> m * p > 0) by (nonlinear_arith)
        requires
            p >= 1,
    ;
    assert(m < 0 ==> m * p < 0) by (nonlinear_arith)
        requires
            p >= 1,
    ;
}

/// A number is at least one where its mantissa is at least a whole one.
proof fn lemma_against_one(a: Decimal)
    requires
        a.valid(),
    ensures
        a.units() >= Decimal::one().units() <==> a.m() >= pow10(a.s()),
        a.units() <= Decimal::one().units() <==> a.m() <= pow10(a.s()),
{
    lemma_of_parts(1, 0);
    lemma_pow10_add(a.s(), (MAX_SCALE - a.s()) as nat);
    lemma_pow10_positive((MAX_SCALE - a.s()) as nat);
    let m = a.m();
    let w = pow10(a.s());
    let p = pow10((MAX_SCALE - a.s()) as nat);
    assert(m >= w ==> m * p >= w * p) by (nonlinear_arith)
        requires
            p >= 1,
    ;
    assert(m > w ==> m * p > w * p) by (nonlinear_arith)
        requires
            p >= 1,
    ;
    assert(m < w ==> m * p < w * p) by (nonlinear_arith)
        requires
            p >= 1,
    ;
}

/// Rounding up makes a number no smaller, rounding down no larger.
proof fn lemma_rounded_side(a: Decimal, dp: nat)
    requires
        a.valid(),
    ensures
        rounded_to(a, dp, Rounding::ToPositiveInfinity).units() >= a.units(),
        rounded_to(a, dp, Rounding::ToNegativeInfinity).units() <= a.units(),
{
    if a.s() > dp {
        let k = (a.s() - dp) as nat;
        let q = pow10(k);
        let rest = pow10((MAX_SCALE - a.s()) as nat);
        lemma_pow10_positive(k);
        lemma_pow10_positive((MAX_SCALE - a.s()) as nat);
        lemma_pow10_add(k, (MAX_SCALE - a.s()) as nat);
        let m = a.m();
        let up = -((-m) / q);
        let down = m / q;
        assert(down * q <= m <= up * q && -MAX_MANTISSA <= down <= MAX_MANTISSA && -MAX_MANTISSA
            <= up <= MAX_MANTISSA) by (nonlinear_arith)
            requires
                q >= 1,
                up == -((-m) / q),
                down == m / q,
                -MAX_MANTISSA <= m <= MAX_MANTISSA,
        ;
        lemma_of_parts(up, dp);
        lemma_of_parts(down, dp);
        assert(up * (q * rest) >= m * rest) by (nonlinear_arith)
            requires
                up * q >= m,
                rest >= 1,
        ;
        assert(down * (q * rest) <= m * rest) by (nonlinear_arith)
            requires
                down * q <= m,
                rest >= 1,
        ;
    }
}

/// One and a part of one are added and subtracted without rounding.
pub proof fn lemma_part_of_one(a: Decimal)
    requires
        a.valid(),
        0 <= a.units() < Decimal::one().units(),
    ensures
        plus(Decimal::one(), a) matches Some(c) && c.valid() && c.units() == Decimal::one().units()
            + a.units(),
        minus(Decimal::one(), a) matches Some(c) && c.valid() && c.units() == Decimal::one().units()
            - a.units(),
{
    lemma_of_parts(1, 0);
    lemma_against_one(a);
    lemma_units_sign(a);
    let w = pow10(a.s());
    assert(a.m() < w);
    assert(w <= 10000000000000000000000000000) by {
        lemma_pow10_add(a.s(), (MAX_SCALE - a.s()) as nat);
        lemma_pow10_positive((MAX_SCALE - a.s()) as nat);
        let p = pow10((MAX_SCALE - a.s()) as nat);
        assert(pow10(28) == 10000000000000000000000000000) by {
            reveal_with_fuel(pow10, 29);
        }
        assert(w <= w * p) by (nonlinear_arith)
            requires
                p >= 1,
                w >= 0,
        ;
    }
    lemma_pow10_positive(a.s());
    assert(pow10(0) == 1);
    assert(wider(0, a.s()) == a.s());
    assert(aligned(1, 0, a.s()) == w);
    assert(aligned(a.m(), a.s(), a.s()) == a.m());
    assert(aligned(-a.m(), a.s(), a.s()) == -a.m());
    lemma_plus_exact(Decimal::one(), a);
    lemma_minus_exact(Decimal::one(), a);
}

/// Whether `a + b` needs no rounding, a zero operand included.
pub open spec fn adds_exactly(a: Decimal, b: Decimal) -> bool {
    a.m() == 0 || b.m() == 0 || sum_is_exact(a.m(), a.s(), b.m(), b.s())
}

/// Whether `a - b` needs no rounding, a zero operand included.
pub open spec fn subtracts_exactly(a: Decimal, b: Decimal) -> bool {
    a.m() == 0 || b.m() == 0 || sum_is_exact(a.m(), a.s(), -b.m(), b.s())
}

proof fn lemma_aligned_units(m: int, s: nat, k: nat)
    requires
        s <= k <= MAX_SCALE,
    ensures
        aligned(m, s, k) * pow10((MAX_SCALE - k) as nat) == m * pow10((MAX_SCALE - s) as nat),
{
    lemma_pow10_add((k - s) as nat, (MAX_SCALE - k) as nat);
    let x = pow10((k - s) as nat);
    let y = pow10((MAX_SCALE - k) as nat);
    assert((m * x) * y == m * (x * y)) by (nonlinear_arith);
}

/// An exact sum adds the values.
pub proof fn lemma_plus_exact(a: Decimal, b: Decimal)
    requires
        a.valid(),
        b.valid(),
        adds_exactly(a, b),
    ensures
        plus(a, b) matches Some(c) && c.valid() && c.units() == a.units() + b.units(),
{
    lemma_units_sign(a);
    lemma_units_sign(b);
    if a.m() != 0 && b.m() != 0 {
        let k = wider(a.s(), b.s());
        lemma_aligned_units(a.m(), a.s(), k);
        lemma_aligned_units(b.m(), b.s(), k);
        let x = aligned(a.m(), a.s(), k);
        let y = aligned(b.m(), b.s(), k);
        let p = pow10((MAX_SCALE - k) as nat);
        assert((x + y) * p == x * p + y * p) by (nonlinear_arith);
        lemma_of_parts(x + y, k);
    }
}

/// An exact difference subtracts the values.
pub proof fn lemma_minus_exact(a: Decimal, b: Decimal)
    requires
        a.valid(),
        b.valid(),
        subtracts_exactly(a, b),
    ensures
        minus(a, b) matches Some(c) && c.valid() && c.units() == a.units() - b.units(),
{
    lemma_units_sign(a);
    lemma_units_sign(b);
    if a.m() == 0 {
        lemma_of_parts(-b.m(), b.s());
        let p = pow10((MAX_SCALE - b.s()) as nat);
        let m = b.m();
        assert((-m) * p == -(m * p)) by (nonlinear_arith);
    } else if b.m() != 0 {
        let k = wider(a.s(), b.s());
        lemma_aligned_units(a.m(), a.s(), k);
        lemma_aligned_units(b.m(), b.s(), k);
        let x = aligned(a.m(), a.s(), k);
        let y = aligned(b.m(), b.s(), k);
        let q = pow10((k - b.s()) as nat);
        let m = b.m();
        assert((-m) * q == -(m * q)) by (nonlinear_arith);
        let p = pow10((MAX_SCALE - k) as nat);
        assert((x - y) * p == x * p - y * p) by (nonlinear_arith);
        lemma_of_parts(x - y, k);
    }
}

/// Whether `a * b` needs no rounding, a zero operand included.
pub open spec fn multiplies_exactly(a: Decimal, b: Decimal) -> bool {
    a.m() == 0 || b.m() == 0 || product_is_exact(a.m(), a.s(), b.m(), b.s())
}

/// A product that needs no rounding is the product of the numbers.
pub proof fn lemma_times_exact(a: Decimal, b: Decimal)
    requires
        a.valid(),
        b.valid(),
        multiplies_exactly(a, b),
    ensures
        times(a, b) matches Some(c) && c.valid() && c.units() * pow10(MAX_SCALE as nat) == a.units()
            * b.units(),
{
    lemma_units_sign(a);
    lemma_units_sign(b);
    lemma_of_parts(0, 0);
    if a.m() == 0 || b.m() == 0 {
        assert(a.units() * b.units() == 0) by (nonlinear_arith)
            requires
                a.units() == 0 || b.units() == 0,
        ;
        assert(Decimal::zero().units() == 0);
    } else {
        let k = (a.s() + b.s()) as nat;
        lemma_of_parts(a.m() * b.m(), k);
        let x = pow10((MAX_SCALE - a.s()) as nat);
        let y = pow10((MAX_SCALE - b.s()) as nat);
        let z = pow10((MAX_SCALE - k) as nat);
        let w = pow10(MAX_SCALE as nat);
        lemma_pow10_add((MAX_SCALE - a.s()) as nat, (MAX_SCALE - b.s()) as nat);
        lemma_pow10_add((MAX_SCALE - k) as nat, MAX_SCALE as nat);
        assert((MAX_SCALE - a.s()) as nat + (MAX_SCALE - b.s()) as nat == (MAX_SCALE - k) as nat
            + MAX_SCALE as nat);
        assert(x * y == z * w);
        let m = a.m();
        let n = b.m();
        assert((m * x) * (n * y) == (m * n) * (x * y)) by (nonlinear_arith);
        assert(((m * n) * z) * w == (m * n) * (z * w)) by (nonlinear_arith);
    }
}

/// The product with a whole number, where it needs no rounding.
pub proof fn lemma_times_whole(a: Decimal, n: int)
    requires
        a.valid(),
        -MAX_MANTISSA <= n <= MAX_MANTISSA,
        multiplies_exactly(a, Decimal::whole(n)),
    ensures
        times(a, Decimal::whole(n)) matches Some(c) && c.valid() && c.units() == a.units() * n,
{
    lemma_of_parts(n, 0);
    let b = Decimal::whole(n);
    lemma_times_exact(a, b);
    let w = pow10(MAX_SCALE as nat);
    lemma_pow10_positive(MAX_SCALE as nat);
    assert(b.units() == n * w);
    let c = times(a, b)->0;
    assert(c.units() == a.units() * n) by (nonlinear_arith)
        requires
            c.units() * w == a.units() * b.units(),
            b.units() == n * w,
            w >= 1,
    ;
}

/// Zero less a number is the number with the other sign.
pub proof fn lemma_negated(a: Decimal)
    requires
        a.valid(),
    ensures
        minus(Decimal::zero(), a) == Some(Decimal::of(-a.m(), a.s())),
        Decimal::of(-a.m(), a.s()).valid(),
        Decimal::of(-a.m(), a.s()).m() == -a.m(),
        Decimal::of(-a.m(), a.s()).s() == a.s(),
        Decimal::of(-a.m(), a.s()).units() == -a.units(),
{
    lemma_of_parts(0, 0);
    lemma_of_parts(-a.m(), a.s());
    let p = pow10((MAX_SCALE - a.s()) as nat);
    let m = a.m();
    assert((-m) * p == -(m * p)) by (nonlinear_arith);
}

/// Stripping trailing zeros keeps the value.
pub proof fn lemma_normal_units(m: int, s: nat)
    requires
        representable(m, s as int),
    ensures
        ({
            let p = normal_parts(m, s);
            &&& representable(p.0, p.1 as int)
            &&& p.1 <= s
            &&& p.0 * pow10((MAX_SCALE - p.1) as nat) == m * pow10((MAX_SCALE - s) as nat)
        }),
    decreases s,
{
    if m == 0 {
        assert(0 * pow10(28) == 0 * pow10((MAX_SCALE - s) as nat)) by (nonlinear_arith);
    } else if s > 0 && m % 10 == 0 {
        lemma_normal_units(m / 10, (s - 1) as nat);
        let q = pow10((MAX_SCALE - s) as nat);
        assert(pow10((MAX_SCALE - (s - 1)) as nat) == 10 * q);
        assert((m / 10) * (10 * q) == m * q) by (nonlinear_arith)
            requires
                m % 10 == 0,
        ;
    }
}

/// A number without trailing zeros is the same number.
pub proof fn law_normalizing_keeps_the_number(a: Decimal)
    requires
        a.valid(),
    ensures
        normalized(a).valid(),
        normalized(a).units() == a.units(),
{
    lemma_normal_units(a.m(), a.s());
    let p = normal_parts(a.m(), a.s());
    lemma_of_parts(p.0, p.1);
}

impl PartialEq for Decimal {
    fn eq(&self, other: &Self) -> (r: bool) {
        self.equals(other)
    }
}

impl vstd::std_specs::cmp::PartialEqSpecImpl for Decimal {
    open spec fn obeys_eq_spec() -> bool {
        true
    }

    open spec fn eq_spec(&self, other: &Self) -> bool {
        self.units() == other.units()
    }
}

} // verus!
