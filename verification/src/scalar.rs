//! The numeric kinds of the three coordinate domains.
//!
//! Map space and input-device space are integers. Screen space is continuous:
//! a `ScreenDistance` is an exact fraction, so that dividing the drawing
//! surface among tiles loses nothing.

use vstd::prelude::*;
use vstd::std_specs::ops::AddSpec;
use vstd::std_specs::ops::DivSpec;
use vstd::std_specs::ops::MulSpec;
use vstd::std_specs::ops::SubSpec;

verus! {

/// A distance in map space, counted in tiles.
pub type MapDistance = u32;

/// A distance in input-device space, as a pointer reports it.
pub type MouseDistance = i32;

/// A distance on the drawing surface, in whole pixels.
pub type PixelDistance = u32;

/// Whether an `i128` can hold `v` and its negative.
pub open spec fn fits(v: int) -> bool {
    -i128::MAX <= v <= i128::MAX
}

/// The integer part of `num / den`, rounding toward zero.
pub open spec fn truncate(num: int, den: int) -> int
    recommends
        den > 0,
{
    if num >= 0 {
        num / den
    } else {
        -((-num) / den)
    }
}

/// A distance in screen space: the fraction `num / den` of a pixel, with
/// `den > 0` and a `num` that has a negative.
///
/// The fraction is kept as it was computed and is never reduced, so `==`
/// compares numerators and denominators; `same_value` compares what the
/// fractions are worth.
#[derive(Clone, Copy, Debug, PartialEq, Eq, Structural)]
pub struct ScreenDistance {
    num: i128,
    den: i128,
}

impl ScreenDistance {
    #[verifier::type_invariant]
    spec fn positive_denominator(self) -> bool {
        self.den > 0 && self.num > i128::MIN
    }

    /// The numerator.
    pub closed spec fn num(self) -> int {
        self.num as int
    }

    /// The denominator.
    pub closed spec fn den(self) -> int {
        self.den as int
    }

    /// The fraction with the given numerator and denominator.
    pub closed spec fn fraction(num: int, den: int) -> ScreenDistance {
        ScreenDistance { num: num as i128, den: den as i128 }
    }

    /// A fraction is determined by its numerator and denominator.
    pub broadcast proof fn lemma_fraction(num: int, den: int)
        requires
            fits(num),
            fits(den),
        ensures
            (#[trigger] Self::fraction(num, den)).num() == num,
            Self::fraction(num, den).den() == den,
    {
    }

    /// `num / den`, or nothing where `den` is not positive or `num` is the
    /// one number that has no negative.
    pub fn new(num: i128, den: i128) -> (r: Option<ScreenDistance>)
        ensures
            r == (if den > 0 && fits(num as int) {
                Some(Self::fraction(num as int, den as int))
            } else {
                None
            }),
    {
        if den > 0 && num > i128::MIN {
            Some(ScreenDistance { num, den })
        } else {
            None
        }
    }

    /// The numerator.
    pub fn numerator(self) -> (r: i128)
        ensures
            r == self.num(),
    {
        self.num
    }

    /// The denominator, which is positive.
    pub fn denominator(self) -> (r: i128)
        ensures
            r == self.den(),
            r > 0,
    {
        proof {
            use_type_invariant(&self);
        }
        self.den
    }

    /// Whether the sum and the difference of the two distances can be held.
    pub open spec fn sum_fits(self, rhs: ScreenDistance) -> bool {
        &&& fits(self.num() * rhs.den())
        &&& fits(rhs.num() * self.den())
        &&& fits(self.num() * rhs.den() + rhs.num() * self.den())
        &&& fits(self.num() * rhs.den() - rhs.num() * self.den())
        &&& fits(self.den() * rhs.den())
    }

    /// Whether the two cross products by which distances are compared can be
    /// held.
    pub open spec fn cross_fits(self, rhs: ScreenDistance) -> bool {
        &&& fits(self.num() * rhs.den())
        &&& fits(rhs.num() * self.den())
    }

    /// Whether the product of the two distances can be held.
    pub open spec fn product_fits(self, rhs: ScreenDistance) -> bool {
        &&& fits(self.num() * rhs.num())
        &&& fits(self.den() * rhs.den())
    }

    /// Whether the quotient of the two distances exists and can be held.
    pub open spec fn quotient_fits(self, rhs: ScreenDistance) -> bool {
        &&& rhs.num() != 0
        &&& fits(self.num() * rhs.den())
        &&& fits(self.den() * rhs.num())
    }

    /// Whether `self` is worth less than `rhs`.
    pub open spec fn lt_spec(self, rhs: ScreenDistance) -> bool {
        self.num() * rhs.den() < rhs.num() * self.den()
    }

    /// Whether `self` is worth no more than `rhs`.
    pub open spec fn le_spec(self, rhs: ScreenDistance) -> bool {
        self.num() * rhs.den() <= rhs.num() * self.den()
    }

    /// Whether the two distances are worth the same.
    pub open spec fn same_value_spec(self, rhs: ScreenDistance) -> bool {
        self.num() * rhs.den() == rhs.num() * self.den()
    }

    /// The integer part of the distance, rounding toward zero.
    pub open spec fn trunc_spec(self) -> int {
        truncate(self.num(), self.den())
    }

    /// Whether `self` is worth less than `rhs`.
    pub fn lt(self, rhs: ScreenDistance) -> (r: bool)
        requires
            self.cross_fits(rhs),
        ensures
            r == self.lt_spec(rhs),
    {
        self.num * rhs.den < rhs.num * self.den
    }

    /// Whether `self` is worth more than `rhs`.
    pub fn gt(self, rhs: ScreenDistance) -> (r: bool)
        requires
            self.cross_fits(rhs),
        ensures
            r == rhs.lt_spec(self),
    {
        self.num * rhs.den > rhs.num * self.den
    }

    /// Whether `self` is worth at least `rhs`.
    pub fn ge(self, rhs: ScreenDistance) -> (r: bool)
        requires
            self.cross_fits(rhs),
        ensures
            r == rhs.le_spec(self),
    {
        self.num * rhs.den >= rhs.num * self.den
    }

    /// Whether the two distances are worth the same, whatever their
    /// denominators.
    pub fn same_value(self, rhs: ScreenDistance) -> (r: bool)
        requires
            self.cross_fits(rhs),
        ensures
            r == self.same_value_spec(rhs),
    {
        self.num * rhs.den == rhs.num * self.den
    }

    /// Whether the two distances can be compared.
    pub fn can_compare(self, rhs: ScreenDistance) -> (r: bool)
        ensures
            r == self.cross_fits(rhs),
    {
        match (self.num.checked_mul(rhs.den), rhs.num.checked_mul(self.den)) {
            (Some(left), Some(right)) => left > i128::MIN && right > i128::MIN,
            _ => false,
        }
    }

    /// `self + rhs` where that can be held, else nothing.
    pub fn checked_add(self, rhs: ScreenDistance) -> (r: Option<ScreenDistance>)
        ensures
            r == (if self.add_req(rhs) {
                Some(self.add_spec(rhs))
            } else {
                None
            }),
    {
        if self.sum_can_be_held(rhs) {
            Some(self + rhs)
        } else {
            None
        }
    }

    /// `self - rhs` where that can be held, else nothing.
    pub fn checked_sub(self, rhs: ScreenDistance) -> (r: Option<ScreenDistance>)
        ensures
            r == (if self.sub_req(rhs) {
                Some(self.sub_spec(rhs))
            } else {
                None
            }),
    {
        if self.sum_can_be_held(rhs) {
            Some(self - rhs)
        } else {
            None
        }
    }

    /// Whether the sum and the difference of the two distances can be held.
    fn sum_can_be_held(self, rhs: ScreenDistance) -> (r: bool)
        ensures
            r == self.sum_fits(rhs),
    {
        match (
            self.num.checked_mul(rhs.den),
            rhs.num.checked_mul(self.den),
            self.den.checked_mul(rhs.den),
        ) {
            (Some(left), Some(right), Some(den)) => {
                match (left.checked_add(right), left.checked_sub(right)) {
                    (Some(sum), Some(difference)) => left > i128::MIN && right > i128::MIN && den
                        > i128::MIN && sum > i128::MIN && difference > i128::MIN,
                    _ => false,
                }
            },
            _ => false,
        }
    }

    /// `self * rhs` where that can be held, else nothing.
    pub fn checked_mul(self, rhs: ScreenDistance) -> (r: Option<ScreenDistance>)
        ensures
            r == (if self.mul_req(rhs) {
                Some(self.mul_spec(rhs))
            } else {
                None
            }),
    {
        match (self.num.checked_mul(rhs.num), self.den.checked_mul(rhs.den)) {
            (Some(num), Some(den)) => {
                if num > i128::MIN && den > i128::MIN {
                    Some(self * rhs)
                } else {
                    None
                }
            },
            _ => None,
        }
    }

    /// `self / rhs` where that exists and can be held, else nothing.
    pub fn checked_div(self, rhs: ScreenDistance) -> (r: Option<ScreenDistance>)
        ensures
            r == (if self.div_req(rhs) {
                Some(self.div_spec(rhs))
            } else {
                None
            }),
    {
        if rhs.num == 0 {
            return None;
        }
        match (self.num.checked_mul(rhs.den), self.den.checked_mul(rhs.num)) {
            (Some(num), Some(den)) => {
                if num > i128::MIN && den > i128::MIN {
                    Some(self / rhs)
                } else {
                    None
                }
            },
            _ => None,
        }
    }

    /// The integer part of the distance, rounding toward zero.
    pub fn trunc(self) -> (r: i128)
        ensures
            r == self.trunc_spec(),
    {
        proof {
            use_type_invariant(&self);
        }
        if self.num >= 0 {
            self.num / self.den
        } else {
            let n: i128 = -self.num;
            let q: i128 = n / self.den;
            proof {
                lemma_quotient_bounds(n as int, self.den as int);
            }
            -q
        }
    }

    /// The distance as a number of tiles: its integer part where a
    /// `MapDistance` can hold that, else nothing.
    pub fn lossy_cast(self) -> (r: Option<MapDistance>)
        ensures
            r == (if 0 <= self.trunc_spec() <= MapDistance::MAX {
                Some(self.trunc_spec() as MapDistance)
            } else {
                None
            }),
    {
        cast_i128_to_u32(self.trunc())
    }
}

impl vstd::std_specs::ops::AddSpecImpl for ScreenDistance {
    open spec fn obeys_add_spec() -> bool {
        true
    }

    open spec fn add_req(self, rhs: ScreenDistance) -> bool {
        self.sum_fits(rhs)
    }

    open spec fn add_spec(self, rhs: ScreenDistance) -> ScreenDistance {
        ScreenDistance::fraction(
            self.num() * rhs.den() + rhs.num() * self.den(),
            self.den() * rhs.den(),
        )
    }
}

impl core::ops::Add for ScreenDistance {
    type Output = ScreenDistance;

    /// `self + rhs`, over the product of the denominators.
    fn add(self, rhs: ScreenDistance) -> (r: ScreenDistance) {
        proof {
            use_type_invariant(&self);
            use_type_invariant(&rhs);
            lemma_positive_product(self.den as int, rhs.den as int);
        }
        ScreenDistance { num: self.num * rhs.den + rhs.num * self.den, den: self.den * rhs.den }
    }
}

impl vstd::std_specs::ops::SubSpecImpl for ScreenDistance {
    open spec fn obeys_sub_spec() -> bool {
        true
    }

    open spec fn sub_req(self, rhs: ScreenDistance) -> bool {
        self.sum_fits(rhs)
    }

    open spec fn sub_spec(self, rhs: ScreenDistance) -> ScreenDistance {
        ScreenDistance::fraction(
            self.num() * rhs.den() - rhs.num() * self.den(),
            self.den() * rhs.den(),
        )
    }
}

impl core::ops::Sub for ScreenDistance {
    type Output = ScreenDistance;

    /// `self - rhs`, over the product of the denominators.
    fn sub(self, rhs: ScreenDistance) -> (r: ScreenDistance) {
        proof {
            use_type_invariant(&self);
            use_type_invariant(&rhs);
            lemma_positive_product(self.den as int, rhs.den as int);
        }
        ScreenDistance { num: self.num * rhs.den - rhs.num * self.den, den: self.den * rhs.den }
    }
}

impl vstd::std_specs::ops::MulSpecImpl for ScreenDistance {
    open spec fn obeys_mul_spec() -> bool {
        true
    }

    open spec fn mul_req(self, rhs: ScreenDistance) -> bool {
        self.product_fits(rhs)
    }

    open spec fn mul_spec(self, rhs: ScreenDistance) -> ScreenDistance {
        ScreenDistance::fraction(self.num() * rhs.num(), self.den() * rhs.den())
    }
}

impl core::ops::Mul for ScreenDistance {
    type Output = ScreenDistance;

    /// `self * rhs`, numerator by numerator and denominator by denominator.
    fn mul(self, rhs: ScreenDistance) -> (r: ScreenDistance) {
        proof {
            use_type_invariant(&self);
            use_type_invariant(&rhs);
            lemma_positive_product(self.den as int, rhs.den as int);
        }
        ScreenDistance { num: self.num * rhs.num, den: self.den * rhs.den }
    }
}

impl vstd::std_specs::ops::DivSpecImpl for ScreenDistance {
    open spec fn obeys_div_spec() -> bool {
        true
    }

    open spec fn div_req(self, rhs: ScreenDistance) -> bool {
        self.quotient_fits(rhs)
    }

    open spec fn div_spec(self, rhs: ScreenDistance) -> ScreenDistance {
        if rhs.num() > 0 {
            ScreenDistance::fraction(self.num() * rhs.den(), self.den() * rhs.num())
        } else {
            ScreenDistance::fraction(-(self.num() * rhs.den()), -(self.den() * rhs.num()))
        }
    }
}

impl core::ops::Div for ScreenDistance {
    type Output = ScreenDistance;

    /// `self / rhs` for an `rhs` other than zero: the product with the inverse
    /// of `rhs`, the sign carried by the numerator.
    fn div(self, rhs: ScreenDistance) -> (r: ScreenDistance) {
        proof {
            use_type_invariant(&self);
            use_type_invariant(&rhs);
        }
        if rhs.num > 0 {
            proof {
                lemma_positive_product(self.den as int, rhs.num as int);
            }
            ScreenDistance { num: self.num * rhs.den, den: self.den * rhs.num }
        } else {
            proof {
                lemma_positive_product(self.den as int, -(rhs.num as int));
                assert(self.den * (-(rhs.num as int)) == -(self.den * rhs.num))
                    by (nonlinear_arith);
            }
            ScreenDistance { num: -(self.num * rhs.den), den: -(self.den * rhs.num) }
        }
    }
}

impl vstd::std_specs::convert::FromSpecImpl<MapDistance> for ScreenDistance {
    open spec fn obeys_from_spec() -> bool {
        true
    }

    open spec fn from_spec(v: MapDistance) -> ScreenDistance {
        ScreenDistance::fraction(v as int, 1)
    }
}

impl From<MapDistance> for ScreenDistance {
    /// A whole number of pixels or tiles, over one.
    fn from(v: MapDistance) -> (r: ScreenDistance) {
        ScreenDistance { num: v as i128, den: 1 }
    }
}

impl vstd::std_specs::convert::FromSpecImpl<MouseDistance> for ScreenDistance {
    open spec fn obeys_from_spec() -> bool {
        true
    }

    open spec fn from_spec(v: MouseDistance) -> ScreenDistance {
        ScreenDistance::fraction(v as int, 1)
    }
}

impl From<MouseDistance> for ScreenDistance {
    /// A pointer coordinate, over one.
    fn from(v: MouseDistance) -> (r: ScreenDistance) {
        ScreenDistance { num: v as i128, den: 1 }
    }
}

/// A whole number of pixels or tiles as a screen distance.
pub open spec fn whole(v: int) -> ScreenDistance {
    ScreenDistance::fraction(v, 1)
}

/// A whole number divided by a positive whole number is the fraction of the
/// two.
pub proof fn lemma_whole_div_whole(a: int, b: int)
    requires
        fits(a),
        fits(b),
        b > 0,
    ensures
        whole(a).div_spec(whole(b)) == ScreenDistance::fraction(a, b),
{
    broadcast use ScreenDistance::lemma_fraction;

    let x = whole(a);
    let y = whole(b);
    assert(x.num() * y.den() == a) by (nonlinear_arith)
        requires
            x.num() == a,
            y.den() == 1,
    ;
    assert(x.den() * y.num() == b) by (nonlinear_arith)
        requires
            x.den() == 1,
            y.num() == b,
    ;
}

/// The difference of two whole numbers is whole.
pub proof fn lemma_whole_sub_whole(a: int, b: int)
    requires
        fits(a),
        fits(b),
    ensures
        whole(a).sub_spec(whole(b)) == whole(a - b),
{
    broadcast use ScreenDistance::lemma_fraction;

    let x = whole(a);
    let y = whole(b);
    assert(x.num() * y.den() - y.num() * x.den() == a - b) by (nonlinear_arith)
        requires
            x.num() == a,
            y.den() == 1,
            y.num() == b,
            x.den() == 1,
    ;
    assert(x.den() * y.den() == 1) by (nonlinear_arith)
        requires
            x.den() == 1,
            y.den() == 1,
    ;
}

/// A fraction times a whole number has that many times the numerator.
pub proof fn lemma_mul_whole(num: int, den: int, k: int)
    requires
        fits(num),
        fits(den),
        fits(k),
    ensures
        ScreenDistance::fraction(num, den).mul_spec(whole(k)) == ScreenDistance::fraction(
            num * k,
            den,
        ),
{
    broadcast use ScreenDistance::lemma_fraction;

    let x = ScreenDistance::fraction(num, den);
    let y = whole(k);
    assert(x.num() * y.num() == num * k) by (nonlinear_arith)
        requires
            x.num() == num,
            y.num() == k,
    ;
    assert(x.den() * y.den() == den) by (nonlinear_arith)
        requires
            x.den() == den,
            y.den() == 1,
    ;
}

/// A fraction divided by a positive whole number has that many times the
/// denominator.
pub proof fn lemma_div_whole(num: int, den: int, k: int)
    requires
        fits(num),
        fits(den),
        fits(k),
        k > 0,
    ensures
        ScreenDistance::fraction(num, den).div_spec(whole(k)) == ScreenDistance::fraction(
            num,
            den * k,
        ),
{
    broadcast use ScreenDistance::lemma_fraction;

    let x = ScreenDistance::fraction(num, den);
    let y = whole(k);
    assert(x.num() * y.den() == num) by (nonlinear_arith)
        requires
            x.num() == num,
            y.den() == 1,
    ;
    assert(x.den() * y.num() == den * k) by (nonlinear_arith)
        requires
            x.den() == den,
            y.num() == k,
    ;
}

/// A whole number less a fraction, over the fraction's denominator.
pub proof fn lemma_whole_sub(a: int, num: int, den: int)
    requires
        fits(a),
        fits(num),
        fits(den),
    ensures
        whole(a).sub_spec(ScreenDistance::fraction(num, den)) == ScreenDistance::fraction(
            a * den - num,
            den,
        ),
{
    broadcast use ScreenDistance::lemma_fraction;

    let x = whole(a);
    let y = ScreenDistance::fraction(num, den);
    assert(x.num() * y.den() - y.num() * x.den() == a * den - num) by (nonlinear_arith)
        requires
            x.num() == a,
            y.den() == den,
            y.num() == num,
            x.den() == 1,
    ;
    assert(x.den() * y.den() == den) by (nonlinear_arith)
        requires
            x.den() == 1,
            y.den() == den,
    ;
}

/// Products of numbers that `left` and `right` bound lie within the product
/// of the two bounds.
pub proof fn lemma_bounded_products(a: int, b: int, c: int, d: int, left: int, right: int)
    by (nonlinear_arith)
    requires
        -left <= a <= left,
        -left <= b <= left,
        -right <= c <= right,
        -right <= d <= right,
    ensures
        -(left * right) <= a * c <= left * right,
        -(left * right) <= a * d <= left * right,
        -(left * right) <= b * c <= left * right,
        -(left * right) <= b * d <= left * right,
{
}

/// Two distances whose numerators and denominators are bounded, the product
/// of the two bounds small enough, can be added, subtracted, multiplied,
/// compared, and divided where the divisor is not zero.
pub proof fn lemma_operands_fit(a: ScreenDistance, b: ScreenDistance, left: int, right: int)
    requires
        -left <= a.num() <= left,
        -left <= a.den() <= left,
        -right <= b.num() <= right,
        -right <= b.den() <= right,
        left * right <= 0x1000_0000_0000_0000_0000_0000_0000_0000,
    ensures
        a.add_req(b),
        a.sub_req(b),
        a.mul_req(b),
        b.num() != 0 ==> a.div_req(b),
        a.cross_fits(b),
        b.cross_fits(a),
{
    lemma_bounded_products(a.num(), a.den(), b.num(), b.den(), left, right);
}

/// The product of two fractions: numerator by numerator, denominator by
/// denominator.
pub proof fn lemma_mul_fraction(a: int, b: int, c: int, d: int)
    requires
        fits(a),
        fits(b),
        fits(c),
        fits(d),
    ensures
        ScreenDistance::fraction(a, b).mul_spec(ScreenDistance::fraction(c, d))
            == ScreenDistance::fraction(a * c, b * d),
{
    broadcast use ScreenDistance::lemma_fraction;

    let x = ScreenDistance::fraction(a, b);
    let y = ScreenDistance::fraction(c, d);
    assert(x.num() * y.num() == a * c) by (nonlinear_arith)
        requires
            x.num() == a,
            y.num() == c,
    ;
    assert(x.den() * y.den() == b * d) by (nonlinear_arith)
        requires
            x.den() == b,
            y.den() == d,
    ;
}

/// A fraction divided by a positive fraction: numerator by denominator.
pub proof fn lemma_div_fraction(a: int, b: int, c: int, d: int)
    requires
        fits(a),
        fits(b),
        fits(c),
        fits(d),
        c > 0,
    ensures
        ScreenDistance::fraction(a, b).div_spec(ScreenDistance::fraction(c, d))
            == ScreenDistance::fraction(a * d, b * c),
{
    broadcast use ScreenDistance::lemma_fraction;

    let x = ScreenDistance::fraction(a, b);
    let y = ScreenDistance::fraction(c, d);
    assert(x.num() * y.den() == a * d) by (nonlinear_arith)
        requires
            x.num() == a,
            y.den() == d,
    ;
    assert(x.den() * y.num() == b * c) by (nonlinear_arith)
        requires
            x.den() == b,
            y.num() == c,
    ;
}

/// The product of two positive numbers is positive.
proof fn lemma_positive_product(a: int, b: int)
    by (nonlinear_arith)
    requires
        a > 0,
        b > 0,
    ensures
        a * b > 0,
{
}

/// A quotient of a number that is not negative by a positive one lies between
/// zero and that number.
proof fn lemma_quotient_bounds(n: int, d: int)
    by (nonlinear_arith)
    requires
        n >= 0,
        d > 0,
    ensures
        0 <= n / d <= n,
{
}

/// `num_traits::NumCast::from`, from `i128` to `u32`: the same number where it
/// lies in the range of `u32`, else nothing.
#[verifier::external_body]
fn cast_i128_to_u32(n: i128) -> (r: Option<u32>)
    ensures
        r == (if 0 <= n <= u32::MAX {
            Some(n as u32)
        } else {
            None
        }),
{
    <u32 as num_traits::NumCast>::from(n)
}

/// `num_traits::NumCast::from`, from `u32` to `usize`: the same number where
/// `usize` can hold it, else nothing.
#[verifier::external_body]
pub(crate) fn cast_u32_to_usize(n: u32) -> (r: Option<usize>)
    ensures
        r == (if n <= usize::MAX {
            Some(n as usize)
        } else {
            None
        }),
{
    <usize as num_traits::NumCast>::from(n)
}

} // verus!
