use crate::abs::Abs;
use std::ops::Add;
use std::ops::Div;
use std::ops::Mul;
use std::ops::Neg;
use std::ops::Sub;
use vstd::math::abs;
use vstd::prelude::*;
use vstd::std_specs::cmp::PartialEqSpec;
use vstd::std_specs::cmp::PartialOrdIs;
use vstd::std_specs::cmp::PartialOrdSpec;
use vstd::std_specs::ops::AddSpec;
use vstd::std_specs::ops::DivSpec;
use vstd::std_specs::ops::MulSpec;
use vstd::std_specs::ops::NegSpec;
use vstd::std_specs::ops::SubSpec;

verus! {

/// The quotient of `a` by `b` rounded toward zero, which is how the integer
/// types divide.
pub open spec fn quotient_toward_zero(a: int, b: int) -> int {
    if a >= 0 {
        a / b
    } else {
        -((-a) / b)
    }
}

/// The base tier of scalars: a copyable value that stands for an integer,
/// with `+ - * /`, `==` and `<` that compute on it what they compute on
/// integers.
///
/// For an operator `op`, `a.op_req(b)` says when `a op b` may be evaluated
/// and `a.op_spec(b)` says what it yields; [`Natural::obeys_arithmetic`]
/// says what both mean for the integers that `a` and `b` stand for.
pub trait Natural: Add<Output = Self> + Sub<Output = Self> + Mul<Output = Self> + Div<
    Output = Self,
> + Copy + PartialEq + PartialOrd + Sized {
    /// The integer that the scalar stands for.
    spec fn value(self) -> int;

    /// Whether some scalar of this type stands for `v`.
    spec fn representable(v: int) -> bool;

    /// The multiplicative unit.
    spec fn one_spec() -> Self;

    fn one() -> (r: Self)
        ensures
            r == Self::one_spec(),
    ;

    /// The operators compute what their specifications say. Two scalars
    /// that stand for the same integer are the same scalar, and `==` and `<`
    /// compare the integers. An operator may be applied exactly where the
    /// exact result is representable (and, for `/`, the divisor is not
    /// zero), and then yields the scalar that stands for it.
    proof fn obeys_arithmetic()
        ensures
            Self::obeys_add_spec(),
            Self::obeys_sub_spec(),
            Self::obeys_mul_spec(),
            Self::obeys_div_spec(),
            Self::obeys_eq_spec(),
            Self::obeys_partial_cmp_spec(),
            Self::one_spec().value() == 1,
            forall|a: Self| Self::representable(#[trigger] a.value()),
            forall|a: Self, b: Self| #[trigger] a.value() == #[trigger] b.value() ==> a == b,
            forall|a: Self, b: Self| #[trigger] a.eq_spec(&b) <==> a == b,
            forall|a: Self, b: Self|
                #![trigger a.partial_cmp_spec(&b)]
                a.is_lt(&b) <==> a.value() < b.value(),
            forall|a: Self, b: Self| #[trigger]
                a.add_req(b) <==> Self::representable(a.value() + b.value()),
            forall|a: Self, b: Self|
                a.add_req(b) ==> #[trigger] a.add_spec(b).value() == a.value() + b.value(),
            forall|a: Self, b: Self| #[trigger]
                a.sub_req(b) <==> Self::representable(a.value() - b.value()),
            forall|a: Self, b: Self|
                a.sub_req(b) ==> #[trigger] a.sub_spec(b).value() == a.value() - b.value(),
            forall|a: Self, b: Self| #[trigger]
                a.mul_req(b) <==> Self::representable(a.value() * b.value()),
            forall|a: Self, b: Self|
                a.mul_req(b) ==> #[trigger] a.mul_spec(b).value() == a.value() * b.value(),
            forall|a: Self, b: Self| #[trigger]
                a.div_req(b) <==> b.value() != 0 && Self::representable(
                    quotient_toward_zero(a.value(), b.value()),
                ),
            forall|a: Self, b: Self|
                a.div_req(b) ==> #[trigger] a.div_spec(b).value() == quotient_toward_zero(
                    a.value(),
                    b.value(),
                ),
    ;
}

/// The tier of scalars that tuples and vectors are built from: base
/// arithmetic, total equality, and an absolute value that is the magnitude
/// of the integer the scalar stands for.
pub trait Numeric: Natural + Abs<Item = Self> + Eq {
    /// The absolute value exists exactly where the magnitude is
    /// representable, and then stands for it.
    proof fn abs_is_magnitude()
        ensures
            forall|t: Self| #[trigger]
                Self::abs_req(t) <==> Self::representable(abs(t.value()) as int),
            forall|t: Self|
                Self::abs_req(t) ==> #[trigger] Self::abs_spec(t).value() == abs(t.value()),
    ;
}

/// A scalar with a sign: it can be negated, and its absolute value is the
/// value itself or its negation.
pub trait Signed: Natural + Abs<Item = Self> + Neg<Output = Self> {
    fn abs(self) -> (r: Self)
        requires
            Self::abs_req(self),
        ensures
            r == Self::abs_spec(self),
    ;

    /// Wherever the absolute value exists, so does the negation, and the
    /// absolute value is one of the two.
    proof fn abs_is_self_or_negation(self)
        requires
            Self::abs_req(self),
        ensures
            Self::obeys_neg_spec(),
            self.neg_req(),
            Self::abs_spec(self) == self || Self::abs_spec(self) == self.neg_spec(),
    ;
}

impl Natural for u8 {
    open spec fn value(self) -> int {
        self as int
    }

    open spec fn representable(v: int) -> bool {
        u8::MIN <= v <= u8::MAX
    }

    open spec fn one_spec() -> u8 {
        1
    }

    fn one() -> (r: u8) {
        1
    }

    proof fn obeys_arithmetic() {
    }
}

impl Numeric for u8 {
    proof fn abs_is_magnitude() {
    }
}

impl Natural for u16 {
    open spec fn value(self) -> int {
        self as int
    }

    open spec fn representable(v: int) -> bool {
        u16::MIN <= v <= u16::MAX
    }

    open spec fn one_spec() -> u16 {
        1
    }

    fn one() -> (r: u16) {
        1
    }

    proof fn obeys_arithmetic() {
    }
}

impl Numeric for u16 {
    proof fn abs_is_magnitude() {
    }
}

impl Natural for u32 {
    open spec fn value(self) -> int {
        self as int
    }

    open spec fn representable(v: int) -> bool {
        u32::MIN <= v <= u32::MAX
    }

    open spec fn one_spec() -> u32 {
        1
    }

    fn one() -> (r: u32) {
        1
    }

    proof fn obeys_arithmetic() {
    }
}

impl Numeric for u32 {
    proof fn abs_is_magnitude() {
    }
}

impl Natural for u64 {
    open spec fn value(self) -> int {
        self as int
    }

    open spec fn representable(v: int) -> bool {
        u64::MIN <= v <= u64::MAX
    }

    open spec fn one_spec() -> u64 {
        1
    }

    fn one() -> (r: u64) {
        1
    }

    proof fn obeys_arithmetic() {
    }
}

impl Numeric for u64 {
    proof fn abs_is_magnitude() {
    }
}

impl Natural for u128 {
    open spec fn value(self) -> int {
        self as int
    }

    open spec fn representable(v: int) -> bool {
        u128::MIN <= v <= u128::MAX
    }

    open spec fn one_spec() -> u128 {
        1
    }

    fn one() -> (r: u128) {
        1
    }

    proof fn obeys_arithmetic() {
    }
}

impl Numeric for u128 {
    proof fn abs_is_magnitude() {
    }
}

impl Natural for usize {
    open spec fn value(self) -> int {
        self as int
    }

    open spec fn representable(v: int) -> bool {
        usize::MIN <= v <= usize::MAX
    }

    open spec fn one_spec() -> usize {
        1
    }

    fn one() -> (r: usize) {
        1
    }

    proof fn obeys_arithmetic() {
    }
}

impl Numeric for usize {
    proof fn abs_is_magnitude() {
    }
}

impl Natural for i8 {
    open spec fn value(self) -> int {
        self as int
    }

    open spec fn representable(v: int) -> bool {
        i8::MIN <= v <= i8::MAX
    }

    open spec fn one_spec() -> i8 {
        1
    }

    fn one() -> (r: i8) {
        1
    }

    proof fn obeys_arithmetic() {
        assert forall|a: i8, b: i8| #[trigger] a.div_req(b) implies Self::representable(
            quotient_toward_zero(a as int, b as int),
        ) by {
            lemma_quotient_bounds(a as int, b as int);
        }
    }
}

impl Numeric for i8 {
    proof fn abs_is_magnitude() {
    }
}

impl Natural for i16 {
    open spec fn value(self) -> int {
        self as int
    }

    open spec fn representable(v: int) -> bool {
        i16::MIN <= v <= i16::MAX
    }

    open spec fn one_spec() -> i16 {
        1
    }

    fn one() -> (r: i16) {
        1
    }

    proof fn obeys_arithmetic() {
        assert forall|a: i16, b: i16| #[trigger] a.div_req(b) implies Self::representable(
            quotient_toward_zero(a as int, b as int),
        ) by {
            lemma_quotient_bounds(a as int, b as int);
        }
    }
}

impl Numeric for i16 {
    proof fn abs_is_magnitude() {
    }
}

impl Natural for i32 {
    open spec fn value(self) -> int {
        self as int
    }

    open spec fn representable(v: int) -> bool {
        i32::MIN <= v <= i32::MAX
    }

    open spec fn one_spec() -> i32 {
        1
    }

    fn one() -> (r: i32) {
        1
    }

    proof fn obeys_arithmetic() {
        assert forall|a: i32, b: i32| #[trigger] a.div_req(b) implies Self::representable(
            quotient_toward_zero(a as int, b as int),
        ) by {
            lemma_quotient_bounds(a as int, b as int);
        }
    }
}

impl Numeric for i32 {
    proof fn abs_is_magnitude() {
    }
}

impl Natural for i64 {
    open spec fn value(self) -> int {
        self as int
    }

    open spec fn representable(v: int) -> bool {
        i64::MIN <= v <= i64::MAX
    }

    open spec fn one_spec() -> i64 {
        1
    }

    fn one() -> (r: i64) {
        1
    }

    proof fn obeys_arithmetic() {
        assert forall|a: i64, b: i64| #[trigger] a.div_req(b) implies Self::representable(
            quotient_toward_zero(a as int, b as int),
        ) by {
            lemma_quotient_bounds(a as int, b as int);
        }
    }
}

impl Numeric for i64 {
    proof fn abs_is_magnitude() {
    }
}

impl Natural for i128 {
    open spec fn value(self) -> int {
        self as int
    }

    open spec fn representable(v: int) -> bool {
        i128::MIN <= v <= i128::MAX
    }

    open spec fn one_spec() -> i128 {
        1
    }

    fn one() -> (r: i128) {
        1
    }

    proof fn obeys_arithmetic() {
        assert forall|a: i128, b: i128| #[trigger] a.div_req(b) implies Self::representable(
            quotient_toward_zero(a as int, b as int),
        ) by {
            lemma_quotient_bounds(a as int, b as int);
        }
    }
}

impl Numeric for i128 {
    proof fn abs_is_magnitude() {
    }
}

impl Natural for isize {
    open spec fn value(self) -> int {
        self as int
    }

    open spec fn representable(v: int) -> bool {
        isize::MIN <= v <= isize::MAX
    }

    open spec fn one_spec() -> isize {
        1
    }

    fn one() -> (r: isize) {
        1
    }

    proof fn obeys_arithmetic() {
        assert forall|a: isize, b: isize| #[trigger] a.div_req(b) implies Self::representable(
            quotient_toward_zero(a as int, b as int),
        ) by {
            lemma_quotient_bounds(a as int, b as int);
        }
    }
}

impl Numeric for isize {
    proof fn abs_is_magnitude() {
    }
}

impl Signed for i8 {
    fn abs(self) -> (r: i8) {
        <i8 as Abs>::abs(self)
    }

    proof fn abs_is_self_or_negation(self) {
    }
}

impl Signed for i16 {
    fn abs(self) -> (r: i16) {
        <i16 as Abs>::abs(self)
    }

    proof fn abs_is_self_or_negation(self) {
    }
}

impl Signed for i32 {
    fn abs(self) -> (r: i32) {
        <i32 as Abs>::abs(self)
    }

    proof fn abs_is_self_or_negation(self) {
    }
}

impl Signed for i64 {
    fn abs(self) -> (r: i64) {
        <i64 as Abs>::abs(self)
    }

    proof fn abs_is_self_or_negation(self) {
    }
}

impl Signed for i128 {
    fn abs(self) -> (r: i128) {
        <i128 as Abs>::abs(self)
    }

    proof fn abs_is_self_or_negation(self) {
    }
}

impl Signed for isize {
    fn abs(self) -> (r: isize) {
        <isize as Abs>::abs(self)
    }

    proof fn abs_is_self_or_negation(self) {
    }
}

/// A quotient rounded toward zero is no larger in magnitude than the
/// dividend, and reaches the negated dividend only when dividing by `-1`.
proof fn lemma_quotient_bounds(a: int, b: int)
    requires
        b != 0,
    ensures
        -abs(a) <= quotient_toward_zero(a, b) <= abs(a),
        a < 0 && b != -1 ==> quotient_toward_zero(a, b) < -a,
{
    let m = abs(a) as int;
    assert(-m <= m / b <= m) by (nonlinear_arith)
        requires
            m >= 0,
            b != 0,
    ;
    if m > 0 && b != -1 {
        assert(m / b > -m) by (nonlinear_arith)
            requires
                m > 0,
                b != 0,
                b != -1,
        ;
    }
}

} // verus!
