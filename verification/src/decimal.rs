//! Exact fixed-point decimal values.
//!
//! Every price, fee and quantity in the engine is a `Decimal`: a 128-bit
//! mantissa together with a power-of-ten scale.  A value is well formed when
//! its mantissa fits in 96 bits and its scale is at most [`MAX_SCALE`], the
//! same envelope the wire formats use.  All arithmetic on well-formed values
//! is exact; operations report `None` instead of rounding when a result
//! would leave the envelope.

use vstd::prelude::*;
use vstd::arithmetic::mul::*;
use vstd::math::abs;

verus! {

/// Largest number of digits a value may carry after the decimal point.
pub const MAX_SCALE: u32 = 28;

/// Largest magnitude a well-formed mantissa may take: `2^96 - 1`.
pub const MAX_MANTISSA: i128 = 79_228_162_514_264_337_593_543_950_335;

/// A fixed-point decimal number: the rational `mantissa / 10^scale`.
#[derive(Clone, Copy, Debug)]
pub struct Decimal {
    mantissa: i128,
    scale: u32,
}

/// The mathematical image of a `Decimal`: an unbounded mantissa and scale.
pub struct DecView {
    pub m: int,
    pub s: nat,
}

impl View for Decimal {
    type V = DecView;

    closed spec fn view(&self) -> DecView {
        DecView { m: self.mantissa as int, s: self.scale as nat }
    }
}

/// `10^e`.
pub open spec fn pow10(e: nat) -> int
    decreases e,
{
    if e == 0 {
        1
    } else {
        10 * pow10((e - 1) as nat)
    }
}

/// A value is well formed when its scale and mantissa fit the envelope that
/// every producer of `Decimal`s in this crate maintains.
pub open spec fn wf_v(d: DecView) -> bool {
    &&& d.s <= MAX_SCALE
    &&& -(MAX_MANTISSA as int) <= d.m <= MAX_MANTISSA as int
}

/// The value of `d` scaled onto the common `10^MAX_SCALE` grid.  Two views
/// denote the same number exactly when their `vnum` images agree, and the
/// image of a sum is the sum of the images, which makes this the yardstick
/// for every arithmetic contract in the crate.
pub open spec fn vnum(d: DecView) -> int {
    d.m * pow10((MAX_SCALE - d.s) as nat)
}

/// The larger of two scales.
pub open spec fn scale_max(a: nat, b: nat) -> nat {
    if a >= b {
        a
    } else {
        b
    }
}

/// The grid factor of a scale: what a mantissa at scale `s` is multiplied
/// by to land on the common grid.
pub open spec fn grid(s: nat) -> int {
    pow10((MAX_SCALE - s) as nat)
}

/// Whether the exact sum of two values is representable at the coarser of
/// their scales.
pub open spec fn can_add(a: DecView, b: DecView) -> bool {
    abs(vnum(a) + vnum(b)) <= MAX_MANTISSA * grid(scale_max(a.s, b.s))
}

/// Whether the exact difference of two values is representable at the
/// coarser of their scales.
pub open spec fn can_sub(a: DecView, b: DecView) -> bool {
    abs(vnum(a) - vnum(b)) <= MAX_MANTISSA * grid(scale_max(a.s, b.s))
}

/// The view of the exact sum, meaningful when `can_add` holds.
pub open spec fn sum_v(a: DecView, b: DecView) -> DecView {
    DecView { m: (vnum(a) + vnum(b)) / grid(scale_max(a.s, b.s)), s: scale_max(a.s, b.s) }
}

/// The view of the exact difference, meaningful when `can_sub` holds.
pub open spec fn diff_v(a: DecView, b: DecView) -> DecView {
    DecView { m: (vnum(a) - vnum(b)) / grid(scale_max(a.s, b.s)), s: scale_max(a.s, b.s) }
}

/// Whether the exact product of two values is representable at the sum of
/// their scales.
pub open spec fn can_mul(a: DecView, b: DecView) -> bool {
    a.s + b.s <= MAX_SCALE && abs(a.m * b.m) <= MAX_MANTISSA
}

/// The view of the exact product, meaningful when `can_mul` holds.
pub open spec fn prod_v(a: DecView, b: DecView) -> DecView {
    DecView { m: a.m * b.m, s: (a.s + b.s) as nat }
}

/// The view of the exact quotient by one hundred, meaningful when the
/// scale stays within the envelope.
pub open spec fn div100_v(a: DecView) -> DecView {
    DecView { m: a.m, s: (a.s + 2) as nat }
}

/// The view of the magnitude.
pub open spec fn abs_v(a: DecView) -> DecView {
    DecView { m: if a.m >= 0 { a.m } else { -a.m }, s: a.s }
}

pub proof fn lemma_pow10_pos(e: nat)
    ensures
        pow10(e) >= 1,
    decreases e,
{
    if e > 0 {
        lemma_pow10_pos((e - 1) as nat);
    }
}

pub proof fn lemma_pow10_add(a: nat, b: nat)
    ensures
        pow10(a + b) == pow10(a) * pow10(b),
    decreases a,
{
    if a == 0 {
        assert(pow10(0 + b) == 1 * pow10(b));
    } else {
        lemma_pow10_add((a - 1) as nat, b);
        assert(pow10((a - 1) as nat + b) == pow10((a - 1) as nat) * pow10(b));
        assert(pow10(a + b) == 10 * pow10((a + b - 1) as nat));
        assert((a + b - 1) as nat == (a - 1) as nat + b);
        assert(pow10(a) * pow10(b) == (10 * pow10((a - 1) as nat)) * pow10(b));
        lemma_mul_is_associative(10, pow10((a - 1) as nat), pow10(b));
    }
}

/// The sign of a view's value is the sign of its mantissa.
pub proof fn lemma_vnum_sign(d: DecView)
    ensures
        (vnum(d) > 0) == (d.m > 0),
        (vnum(d) < 0) == (d.m < 0),
        (vnum(d) == 0) == (d.m == 0),
{
    let p = pow10((MAX_SCALE - d.s) as nat);
    lemma_pow10_pos((MAX_SCALE - d.s) as nat);
    if d.m > 0 {
        lemma_mul_strictly_positive(d.m, p);
    }
    if d.m < 0 {
        lemma_mul_unary_negation(d.m, p);
        lemma_mul_strictly_positive(-d.m, p);
    }
    if d.m == 0 {
        lemma_mul_by_zero_is_zero(p);
    }
}

pub proof fn lemma_pow10_mono(a: nat, b: nat)
    requires
        a <= b,
    ensures
        pow10(a) <= pow10(b),
    decreases b,
{
    lemma_pow10_pos(a);
    if a < b {
        lemma_pow10_mono(a, (b - 1) as nat);
        lemma_pow10_pos((b - 1) as nat);
    }
}

/// Magnitudes multiply.
pub proof fn lemma_abs_mul(x: int, y: int)
    ensures
        abs(x * y) == abs(x) * abs(y),
{
    if x >= 0 && y >= 0 {
        lemma_mul_nonnegative(x, y);
    } else if x < 0 && y >= 0 {
        lemma_mul_unary_negation(x, y);
        lemma_mul_nonnegative(-x, y);
    } else if x >= 0 && y < 0 {
        lemma_mul_unary_negation(y, x);
        lemma_mul_is_commutative(x, y);
        lemma_mul_is_commutative(-y, x);
        lemma_mul_nonnegative(x, -y);
    } else {
        lemma_mul_cancels_negatives(x, y);
        lemma_mul_nonnegative(-x, -y);
    }
}

/// Multiplies `m` by `10^e` within `i128`, reporting `None` on overflow.
fn mul_pow10(m: i128, e: u32) -> (r: Option<i128>)
    requires
        e <= MAX_SCALE,
    ensures
        r matches Some(v) ==> v == m * pow10(e as nat),
        r is None ==> abs(m as int) * pow10(e as nat) > i128::MAX as int,
{
    let mut cur: i128 = m;
    let mut i: u32 = 0;
    while i < e
        invariant
            i <= e,
            e <= MAX_SCALE,
            cur == m * pow10(i as nat),
        decreases e - i,
    {
        match cur.checked_mul(10) {
            Some(next) => {
                proof {
                    assert(pow10((i + 1) as nat) == 10 * pow10(i as nat));
                    lemma_mul_is_associative(m as int, pow10(i as nat), 10);
                    lemma_mul_is_commutative(pow10(i as nat), 10);
                }
                cur = next;
                i = i + 1;
            },
            None => {
                proof {
                    lemma_overflow_propagates(m, cur, i as nat, e as nat);
                }
                return None;
            },
        }
    }
    Some(cur)
}

/// If multiplying the partial product by ten already overflows, the full
/// product's magnitude exceeds the machine range.
proof fn lemma_overflow_propagates(m: i128, cur: i128, i: nat, e: nat)
    requires
        i < e,
        cur == m * pow10(i),
        cur * 10 > i128::MAX || cur * 10 < i128::MIN,
    ensures
        abs(m as int) * pow10(e) > i128::MAX as int,
{
    lemma_abs_mul(cur as int, 10);
    assert(abs(cur as int) * 10 > i128::MAX as int);
    lemma_abs_mul(m as int, pow10(i));
    lemma_pow10_pos(i);
    // abs(m) * pow10(e) == abs(cur) * pow10(e - i)
    lemma_pow10_add(i, (e - i) as nat);
    lemma_mul_is_associative(abs(m as int) as int, pow10(i), pow10((e - i) as nat));
    // pow10(e - i) >= 10 since e - i >= 1
    assert(pow10(0) == 1);
    assert(pow10(1) == 10);
    lemma_pow10_mono(1, (e - i) as nat);
    lemma_mul_inequality(10, pow10((e - i) as nat), abs(cur as int) as int);
    lemma_mul_is_commutative(abs(cur as int) as int, pow10((e - i) as nat));
    lemma_mul_is_commutative(abs(cur as int) as int, 10);
}

/// A value at a finer grid is its mantissa lifted to any coarser scale.
proof fn lemma_grid_decompose(a: DecView, t: nat)
    requires
        a.s <= t <= MAX_SCALE,
    ensures
        vnum(a) == (a.m * pow10((t - a.s) as nat)) * grid(t),
{
    lemma_pow10_add((t - a.s) as nat, (MAX_SCALE - t) as nat);
    assert((MAX_SCALE - a.s) as nat == (t - a.s) as nat + (MAX_SCALE - t) as nat);
    lemma_mul_is_associative(a.m, pow10((t - a.s) as nat), grid(t));
}

/// The exact-sum and exact-difference views denote exactly the sum and
/// the difference of the values.
pub proof fn lemma_sum_diff_vnum(a: DecView, b: DecView)
    requires
        a.s <= MAX_SCALE,
        b.s <= MAX_SCALE,
    ensures
        vnum(sum_v(a, b)) == vnum(a) + vnum(b),
        vnum(diff_v(a, b)) == vnum(a) - vnum(b),
{
    let t = scale_max(a.s, b.s);
    let g = grid(t);
    lemma_pow10_pos((MAX_SCALE - t) as nat);
    lemma_grid_decompose(a, t);
    lemma_grid_decompose(b, t);
    let ka = a.m * pow10((t - a.s) as nat);
    let kb = b.m * pow10((t - b.s) as nat);
    lemma_mul_is_distributive_add_other_way(g, ka, kb);
    lemma_mul_is_distributive_sub_other_way(g, ka, kb);
    lemma_mul_is_commutative(ka + kb, g);
    lemma_mul_is_commutative(ka - kb, g);
    vstd::arithmetic::div_mod::lemma_div_multiples_vanish(ka + kb, g);
    vstd::arithmetic::div_mod::lemma_div_multiples_vanish(ka - kb, g);
    assert(sum_v(a, b).m == ka + kb);
    assert(diff_v(a, b).m == ka - kb);
}

/// A sum of two views, written on the coarser scale's grid.
proof fn lemma_sum_views(a: DecView, b: DecView)
    requires
        b.s <= a.s <= MAX_SCALE,
    ensures
        vnum(a) + vnum(b) == (a.m + b.m * pow10((a.s - b.s) as nat)) * pow10(
            (MAX_SCALE - a.s) as nat,
        ),
{
    let p = pow10((a.s - b.s) as nat);
    let r = pow10((MAX_SCALE - a.s) as nat);
    lemma_pow10_add((a.s - b.s) as nat, (MAX_SCALE - a.s) as nat);
    assert(vnum(b) == b.m * (p * r));
    assert(a.m * r + b.m * (p * r) == (a.m + b.m * p) * r) by (nonlinear_arith);
}

/// A mantissa beyond the 96-bit envelope puts the value beyond every
/// well-formed value of the same scale.
proof fn lemma_big_mag(mexact: int, rest: nat)
    requires
        abs(mexact) > MAX_MANTISSA,
    ensures
        abs(mexact * pow10(rest)) > MAX_MANTISSA * pow10(rest),
{
    lemma_pow10_pos(rest);
    lemma_abs_mul(mexact, pow10(rest));
    lemma_mul_strict_inequality(MAX_MANTISSA as int, abs(mexact) as int, pow10(rest));
}

/// A product of two views, written on the doubled grid.
proof fn lemma_prod_views(a: DecView, b: DecView)
    requires
        a.s + b.s <= MAX_SCALE,
    ensures
        (a.m * b.m) * pow10((MAX_SCALE - a.s - b.s) as nat) * pow10(MAX_SCALE as nat) == vnum(a)
            * vnum(b),
{
    let pa = pow10((MAX_SCALE - a.s) as nat);
    let pb = pow10((MAX_SCALE - b.s) as nat);
    let pc = pow10((MAX_SCALE - a.s - b.s) as nat);
    let pm = pow10(MAX_SCALE as nat);
    // the exponents agree, so pa * pb == pc * pm
    lemma_pow10_add((MAX_SCALE - a.s) as nat, (MAX_SCALE - b.s) as nat);
    lemma_pow10_add((MAX_SCALE - a.s - b.s) as nat, MAX_SCALE as nat);
    assert(pa * pb == pc * pm);
    assert((a.m * b.m) * pc * pm == (a.m * b.m) * (pc * pm)) by (nonlinear_arith);
    assert((a.m * b.m) * (pa * pb) == (a.m * pa) * (b.m * pb)) by (nonlinear_arith);
}

impl Decimal {
    /// Well-formedness of the carried representation.
    pub open spec fn wf(&self) -> bool {
        wf_v(self@)
    }

    /// Builds the value `m / 10^s`.
    pub fn new(m: i64, s: u32) -> (r: Decimal)
        requires
            s <= MAX_SCALE,
        ensures
            r@ == (DecView { m: m as int, s: s as nat }),
            r.wf(),
    {
        Decimal { mantissa: m as i128, scale: s }
    }

    /// Builds the value `m / 10^s` from a full-width mantissa.
    pub fn from_parts(m: i128, s: u32) -> (r: Decimal)
        requires
            s <= MAX_SCALE,
            -MAX_MANTISSA <= m <= MAX_MANTISSA,
        ensures
            r@ == (DecView { m: m as int, s: s as nat }),
            r.wf(),
    {
        Decimal { mantissa: m, scale: s }
    }

    /// The value zero.
    pub fn zero() -> (r: Decimal)
        ensures
            r@ == (DecView { m: 0, s: 0 }),
            vnum(r@) == 0,
            r.wf(),
    {
        proof {
            lemma_pow10_pos(MAX_SCALE as nat);
        }
        Decimal { mantissa: 0, scale: 0 }
    }

    pub fn mantissa(&self) -> (r: i128)
        ensures
            r == self@.m,
    {
        self.mantissa
    }

    pub fn scale(&self) -> (r: u32)
        ensures
            r == self@.s,
    {
        self.scale
    }

    /// Whether the value is strictly positive.
    pub fn is_positive(&self) -> (r: bool)
        requires
            self.wf(),
        ensures
            r == (vnum(self@) > 0),
    {
        proof {
            lemma_vnum_sign(self@);
        }
        self.mantissa > 0
    }

    /// Whether the value is strictly negative.
    pub fn is_negative(&self) -> (r: bool)
        requires
            self.wf(),
        ensures
            r == (vnum(self@) < 0),
    {
        proof {
            lemma_vnum_sign(self@);
        }
        self.mantissa < 0
    }

    /// Whether the value is zero.
    pub fn is_zero(&self) -> (r: bool)
        requires
            self.wf(),
        ensures
            r == (vnum(self@) == 0),
    {
        proof {
            lemma_vnum_sign(self@);
        }
        self.mantissa == 0
    }

    /// The negated value.
    pub fn neg(&self) -> (r: Decimal)
        requires
            self.wf(),
        ensures
            r.wf(),
            r@ == (DecView { m: -self@.m, s: self@.s }),
            vnum(r@) == -vnum(self@),
    {
        proof {
            lemma_mul_unary_negation(self@.m, pow10((MAX_SCALE - self@.s) as nat));
        }
        Decimal { mantissa: -self.mantissa, scale: self.scale }
    }

    /// Exact sum at the coarser of the two scales; `None` when the result's
    /// mantissa would leave the 96-bit envelope.
    pub fn checked_add(&self, other: &Decimal) -> (r: Option<Decimal>)
        requires
            self.wf(),
            other.wf(),
        ensures
            r matches Some(c) ==> c.wf() && c@ == sum_v(self@, other@) && vnum(c@) == vnum(self@)
                + vnum(other@),
            r is Some <==> can_add(self@, other@),
    {
        let (hi, lo) = if self.scale >= other.scale {
            (self, other)
        } else {
            (other, self)
        };
        let s: u32 = hi.scale;
        let delta: u32 = s - lo.scale;
        let ghost rest = (MAX_SCALE - s) as nat;
        proof {
            lemma_pow10_pos(rest);
            lemma_pow10_pos(delta as nat);
            lemma_sum_views(hi@, lo@);
            lemma_abs_mul(lo@.m, pow10(delta as nat));
            lemma_abs_mul(hi@.m + lo@.m * pow10(delta as nat), pow10(rest));
        }
        match mul_pow10(lo.mantissa, delta) {
            None => {
                proof {
                    let mexact = hi@.m + lo@.m * pow10(delta as nat);
                    assert(abs(mexact) >= abs(lo@.m) * pow10(delta as nat) - abs(hi@.m));
                    assert(abs(mexact) > MAX_MANTISSA);
                    lemma_big_mag(mexact, rest);
                }
                None
            },
            Some(lifted) => {
                match hi.mantissa.checked_add(lifted) {
                    None => {
                        proof {
                            lemma_big_mag(hi@.m + lifted, rest);
                        }
                        None
                    },
                    Some(sum) => {
                        if sum > MAX_MANTISSA || sum < -MAX_MANTISSA {
                            proof {
                                lemma_big_mag(sum as int, rest);
                            }
                            None
                        } else {
                            proof {
                                let t = scale_max(self@.s, other@.s);
                                lemma_pow10_pos((MAX_SCALE - t) as nat);
                                lemma_mul_is_commutative(sum as int, grid(t));
                                vstd::arithmetic::div_mod::lemma_div_multiples_vanish(
                                    sum as int,
                                    grid(t),
                                );
                                lemma_abs_mul(sum as int, grid(t));
                                lemma_mul_inequality(
                                    abs(sum as int) as int,
                                    MAX_MANTISSA as int,
                                    grid(t),
                                );
                            }
                            Some(Decimal { mantissa: sum, scale: s })
                        }
                    },
                }
            },
        }
    }

    /// Exact difference at the coarser of the two scales; `None` when the
    /// result's mantissa would leave the 96-bit envelope.
    pub fn checked_sub(&self, other: &Decimal) -> (r: Option<Decimal>)
        requires
            self.wf(),
            other.wf(),
        ensures
            r matches Some(c) ==> c.wf() && c@ == diff_v(self@, other@) && vnum(c@) == vnum(self@)
                - vnum(other@),
            r is Some <==> can_sub(self@, other@),
    {
        let n = other.neg();
        self.checked_add(&n)
    }

    /// Exact product; `None` when the result's scale or mantissa would
    /// leave the envelope.
    pub fn checked_mul(&self, other: &Decimal) -> (r: Option<Decimal>)
        requires
            self.wf(),
            other.wf(),
        ensures
            r matches Some(c) ==> c.wf() && c@ == prod_v(self@, other@) && vnum(c@) * pow10(
                MAX_SCALE as nat,
            ) == vnum(self@) * vnum(other@),
            r is Some <==> can_mul(self@, other@),
    {
        if self.scale > MAX_SCALE - other.scale {
            return None;
        }
        let s: u32 = self.scale + other.scale;
        proof {
            lemma_abs_mul(self@.m, other@.m);
        }
        match self.mantissa.checked_mul(other.mantissa) {
            None => None,
            Some(m) => {
                if m > MAX_MANTISSA || m < -MAX_MANTISSA {
                    None
                } else {
                    proof {
                        lemma_prod_views(self@, other@);
                    }
                    Some(Decimal { mantissa: m, scale: s })
                }
            },
        }
    }

    /// Exact division by one hundred: the scale grows by two.
    pub fn div_by_100(&self) -> (r: Decimal)
        requires
            self.wf(),
            self@.s + 2 <= MAX_SCALE,
        ensures
            r.wf(),
            r@ == div100_v(self@),
            100 * vnum(r@) == vnum(self@),
    {
        proof {
            let rest = (MAX_SCALE - self@.s - 2) as nat;
            assert(pow10(0) == 1);
            assert(pow10(1) == 10);
            assert(pow10(2) == 100);
            lemma_pow10_add(2, rest);
            assert(self@.m * (100 * pow10(rest)) == 100 * (self@.m * pow10(rest)))
                by (nonlinear_arith);
        }
        Decimal { mantissa: self.mantissa, scale: self.scale + 2 }
    }

    /// Exact halving: the scale grows by one.
    pub fn half(&self) -> (r: Decimal)
        requires
            self.wf(),
            self@.s + 1 <= MAX_SCALE,
            abs(self@.m) * 5 <= MAX_MANTISSA,
        ensures
            r.wf(),
            r@.s == self@.s + 1,
            2 * vnum(r@) == vnum(self@),
    {
        proof {
            let rest = (MAX_SCALE - self@.s - 1) as nat;
            assert(pow10(0) == 1);
            assert(pow10(1) == 10);
            lemma_pow10_add(1, rest);
            assert(self@.m * (10 * pow10(rest)) == 2 * ((5 * self@.m) * pow10(rest)))
                by (nonlinear_arith);
        }
        Decimal { mantissa: self.mantissa * 5, scale: self.scale + 1 }
    }

    /// The magnitude of the value.
    pub fn abs(&self) -> (r: Decimal)
        requires
            self.wf(),
        ensures
            r.wf(),
            r@ == abs_v(self@),
            vnum(r@) == if vnum(self@) >= 0 {
                vnum(self@)
            } else {
                -vnum(self@)
            },
    {
        proof {
            lemma_vnum_sign(self@);
        }
        if self.is_negative() {
            self.neg()
        } else {
            *self
        }
    }

    /// Whether `self` denotes a strictly smaller number than `other`.
    pub fn lt(&self, other: &Decimal) -> (r: bool)
        requires
            self.wf(),
            other.wf(),
        ensures
            r == (vnum(self@) < vnum(other@)),
    {
        rd_lt(self, other)
    }

    /// Whether `self` and `other` denote the same number.
    pub fn eq_value(&self, other: &Decimal) -> (r: bool)
        requires
            self.wf(),
            other.wf(),
        ensures
            r == (vnum(self@) == vnum(other@)),
    {
        !rd_lt(self, other) && !rd_lt(other, self)
    }
}

/// What decimal division assigns to a pair of values: exact where it
/// terminates within the precision envelope, rounded otherwise, and
/// `None` on a zero divisor or overflow.
pub uninterp spec fn quot_of(a: DecView, b: DecView) -> Option<DecView>;

/// What decimal multiplication assigns to a pair of values: the plain
/// product where it fits the envelope, a rounded image where it does not,
/// and `None` on overflow.
pub uninterp spec fn rd_product(a: DecView, b: DecView) -> Option<DecView>;

/// The value that the decimal string parser assigns to a piece of text,
/// `None` where the text does not parse as a number.
pub uninterp spec fn rd_parse(s: Seq<char>) -> Option<DecView>;

/// Relies on rust_decimal's `Ord` impl: decimals compare by numeric value.
#[verifier::external_body]
fn rd_lt(a: &Decimal, b: &Decimal) -> (r: bool)
    requires
        a.wf(),
        b.wf(),
    ensures
        r == (vnum(a@) < vnum(b@)),
{
    let da = rust_decimal::Decimal::from_i128_with_scale(a.mantissa, a.scale);
    let db = rust_decimal::Decimal::from_i128_with_scale(b.mantissa, b.scale);
    da < db
}

/// Relies on rust_decimal's `checked_div`: the numeric quotient, `None` on
/// a zero divisor or on overflow.
#[verifier::external_body]
pub(crate) fn rd_div(a: &Decimal, b: &Decimal) -> (r: Option<Decimal>)
    requires
        a.wf(),
        b.wf(),
    ensures
        r matches Some(q) ==> q.wf() && quot_of(a@, b@) == Some(q@),
        r is None ==> quot_of(a@, b@) is None,
        b@.m == 0 ==> r is None,
{
    let da = rust_decimal::Decimal::from_i128_with_scale(a.mantissa, a.scale);
    let db = rust_decimal::Decimal::from_i128_with_scale(b.mantissa, b.scale);
    match da.checked_div(db) {
        Some(q) => Some(Decimal { mantissa: q.mantissa(), scale: q.scale() }),
        None => None,
    }
}

/// Relies on rust_decimal's `checked_mul`: exact where the plain product
/// fits the envelope, and a value of the factors alone otherwise.
#[verifier::external_body]
pub(crate) fn rd_mul(a: &Decimal, b: &Decimal) -> (r: Option<Decimal>)
    requires
        a.wf(),
        b.wf(),
    ensures
        r matches Some(p) ==> p.wf() && rd_product(a@, b@) == Some(p@) && (wf_v(
            (DecView { m: a@.m * b@.m, s: a@.s + b@.s }),
        ) ==> vnum(p@) * pow10(MAX_SCALE as nat) == vnum(a@) * vnum(b@)),
        r is None ==> rd_product(a@, b@) is None && !wf_v(
            (DecView { m: a@.m * b@.m, s: a@.s + b@.s }),
        ),
{
    let da = rust_decimal::Decimal::from_i128_with_scale(a.mantissa, a.scale);
    let db = rust_decimal::Decimal::from_i128_with_scale(b.mantissa, b.scale);
    match da.checked_mul(db) {
        Some(p) => Some(Decimal { mantissa: p.mantissa(), scale: p.scale() }),
        None => None,
    }
}

/// Relies on rust_decimal's `FromStr`: parses decimal text to a value.
#[verifier::external_body]
pub(crate) fn rd_from_str(s: &str) -> (r: Option<Decimal>)
    ensures
        r matches Some(d) ==> d.wf() && rd_parse(s@) == Some(d@),
        r is None ==> rd_parse(s@) is None,
{
    match s.parse::<rust_decimal::Decimal>() {
        Ok(d) => Some(Decimal { mantissa: d.mantissa(), scale: d.scale() }),
        Err(_) => None,
    }
}

} // verus!
