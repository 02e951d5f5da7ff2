use crate::abs::Abs;
use crate::assign::CompoundAssign;
use crate::ceil::Ceil;
use crate::floor::Floor;
use crate::numeric::quotient_toward_zero;
use crate::numeric::Natural;
use crate::numeric::Numeric;
use std::ops::Add;
use std::ops::Div;
use std::ops::Index;
use std::ops::Mul;
use std::ops::Sub;
use vstd::math::abs;
use vstd::math::max;
use vstd::math::min;
use vstd::prelude::*;
use vstd::std_specs::cmp::PartialEqSpec;
use vstd::std_specs::ops::AddSpec;
use vstd::std_specs::ops::DivSpec;
use vstd::std_specs::ops::MulSpec;
use vstd::std_specs::ops::SubSpec;

verus! {

/// The interpolation `a * (1 - t) + b * t` is `a` at 0 and `b` at 1.
proof fn lemma_interpolation_ends(a: int, b: int, t: int)
    ensures
        t == 0 ==> a * (1 - t) + b * t == a,
        t == 1 ==> a * (1 - t) + b * t == b,
{
    assert(t == 0 ==> a * (1 - t) + b * t == a) by (nonlinear_arith);
    assert(t == 1 ==> a * (1 - t) + b * t == b) by (nonlinear_arith);
}

/// A pair of scalars of one type.
///
/// Its view is the sequence of its components in declaration order.
#[derive(Debug, Copy)]
pub struct Tuple2<T: Numeric> {
    pub x: T,
    pub y: T,
}

impl<T: Numeric> Clone for Tuple2<T> {
    fn clone(&self) -> (r: Self)
        ensures
            r == *self,
    {
        *self
    }
}

impl<T: Numeric> View for Tuple2<T> {
    type V = Seq<T>;

    open spec fn view(&self) -> Seq<T> {
        seq![self.x, self.y]
    }
}

impl<T: Numeric> Tuple2<T> {
    pub fn new(x: T, y: T) -> (r: Self)
        ensures
            r.x == x,
            r.y == y,
    {
        Tuple2 { x, y }
    }

    pub fn x(&self) -> (r: T)
        ensures
            r == self.x,
    {
        self.x
    }

    pub fn y(&self) -> (r: T)
        ensures
            r == self.y,
    {
        self.y
    }

    /// The number of components.
    pub fn ndim() -> (r: usize)
        ensures
            r == 2,
    {
        2
    }

    /// Whether every component has an absolute value.
    pub open spec fn abs_req(self) -> bool {
        T::abs_req(self.x) && T::abs_req(self.y)
    }

    pub open spec fn abs_spec(self) -> Self {
        Tuple2 { x: T::abs_spec(self.x), y: T::abs_spec(self.y) }
    }

    /// Replaces each component by its absolute value.
    pub fn abs(self) -> (r: Self)
        requires
            self.abs_req(),
        ensures
            r == self.abs_spec(),
    {
        Tuple2 { x: T::abs(self.x), y: T::abs(self.y) }
    }

    pub open spec fn max_spec(t0: Self, t1: Self) -> Self {
        Tuple2 {
            x: if t0.x.value() < t1.x.value() { t1.x } else { t0.x },
            y: if t0.y.value() < t1.y.value() { t1.y } else { t0.y },
        }
    }

    /// The componentwise maximum.
    pub fn max(t0: Self, t1: Self) -> (r: Self)
        ensures
            r == Self::max_spec(t0, t1),
    {
        proof {
            T::obeys_arithmetic();
        }
        Tuple2 {
            x: if t0.x < t1.x { t1.x } else { t0.x },
            y: if t0.y < t1.y { t1.y } else { t0.y },
        }
    }

    pub open spec fn min_spec(t0: Self, t1: Self) -> Self {
        Tuple2 {
            x: if t1.x.value() < t0.x.value() { t1.x } else { t0.x },
            y: if t1.y.value() < t0.y.value() { t1.y } else { t0.y },
        }
    }

    /// The componentwise minimum.
    pub fn min(t0: Self, t1: Self) -> (r: Self)
        ensures
            r == Self::min_spec(t0, t1),
    {
        proof {
            T::obeys_arithmetic();
        }
        Tuple2 {
            x: if t1.x < t0.x { t1.x } else { t0.x },
            y: if t1.y < t0.y { t1.y } else { t0.y },
        }
    }

    /// Whether `t0 * t1 + t2` can be evaluated component by component.
    pub open spec fn fma_req(t0: Self, t1: Self, t2: Self) -> bool {
        &&& t0.x.mul_req(t1.x) && t0.x.mul_spec(t1.x).add_req(t2.x)
        &&& t0.y.mul_req(t1.y) && t0.y.mul_spec(t1.y).add_req(t2.y)
    }

    pub open spec fn fma_spec(t0: Self, t1: Self, t2: Self) -> Self {
        Tuple2 {
            x: t0.x.mul_spec(t1.x).add_spec(t2.x),
            y: t0.y.mul_spec(t1.y).add_spec(t2.y),
        }
    }

    /// The componentwise multiply-add `t0 * t1 + t2`.
    pub fn fma(t0: Self, t1: Self, t2: Self) -> (r: Self)
        requires
            Self::fma_req(t0, t1, t2),
        ensures
            r == Self::fma_spec(t0, t1, t2),
    {
        proof {
            T::obeys_arithmetic();
        }
        Tuple2 { x: t0.x * t1.x + t2.x, y: t0.y * t1.y + t2.y }
    }

    /// Whether `t0 * (1 - t) + t1 * t` can be evaluated component by
    /// component.
    pub open spec fn lerp_req(t0: Self, t1: Self, t: T) -> bool {
        &&& T::one_spec().sub_req(t)
        &&& t0.x.mul_req(T::one_spec().sub_spec(t)) && t1.x.mul_req(t)
        &&& t0.y.mul_req(T::one_spec().sub_spec(t)) && t1.y.mul_req(t)
        &&& t0.x.mul_spec(T::one_spec().sub_spec(t)).add_req(t1.x.mul_spec(t))
        &&& t0.y.mul_spec(T::one_spec().sub_spec(t)).add_req(t1.y.mul_spec(t))
    }

    pub open spec fn lerp_spec(t0: Self, t1: Self, t: T) -> Self {
        Tuple2 {
            x: t0.x.mul_spec(T::one_spec().sub_spec(t)).add_spec(t1.x.mul_spec(t)),
            y: t0.y.mul_spec(T::one_spec().sub_spec(t)).add_spec(t1.y.mul_spec(t)),
        }
    }

    /// The linear interpolation `t0 * (1 - t) + t1 * t` between two tuples,
    /// where the ratio `t` is a scalar. The ratio is not clamped.
    pub fn lerp(t0: Self, t1: Self, t: T) -> (r: Self)
        requires
            Self::lerp_req(t0, t1, t),
        ensures
            r == Self::lerp_spec(t0, t1, t),
    {
        proof {
            T::obeys_arithmetic();
        }
        let s = T::one() - t;
        Tuple2 { x: t0.x * s + t1.x * t, y: t0.y * s + t1.y * t }
    }

    /// A cursor that stands before the first component.
    pub fn into_iter(self) -> (it: Tuple2Iter<T>)
        ensures
            it.remaining() == self@,
    {
        let it = Tuple2Iter { tup: self, index: 0 };
        assert(it.remaining() =~= self@);
        it
    }

    /// A mutable borrow of the component at `index`.
    pub fn index_mut(&mut self, index: usize) -> (r: &mut T)
        requires
            index < 2,
        ensures
            *r == old(self)@[index as int],
            final(self)@ == old(self)@.update(index as int, *final(r)),
    {
        match index {
            0 => &mut self.x,
            1 => &mut self.y,
            _ => unreached(),
        }
    }
}

impl<T: Numeric + Ceil<Item = T> + Floor<Item = T>> Tuple2<T> {
    pub open spec fn ceil_spec(self) -> Self {
        Tuple2 { x: T::ceil_spec(self.x), y: T::ceil_spec(self.y) }
    }

    /// Rounds each component up.
    pub fn ceil(self) -> (r: Self)
        ensures
            r == self.ceil_spec(),
    {
        Tuple2 { x: T::ceil(self.x), y: T::ceil(self.y) }
    }

    pub open spec fn floor_spec(self) -> Self {
        Tuple2 { x: T::floor_spec(self.x), y: T::floor_spec(self.y) }
    }

    /// Rounds each component down.
    pub fn floor(self) -> (r: Self)
        ensures
            r == self.floor_spec(),
    {
        Tuple2 { x: T::floor(self.x), y: T::floor(self.y) }
    }
}

/// A cursor over the components of a [`Tuple2`]: a copy of the tuple and the
/// position of the component that comes next.
pub struct Tuple2Iter<T: Numeric> {
    tup: Tuple2<T>,
    index: usize,
}

impl<T: Numeric> Tuple2Iter<T> {
    /// The components that are still to come, in order.
    pub closed spec fn remaining(&self) -> Seq<T> {
        if self.index < 2 {
            self.tup@.skip(self.index as int)
        } else {
            Seq::empty()
        }
    }

    /// Hands out the next component and moves past it, or returns `None`
    /// once both have been handed out.
    pub fn next(&mut self) -> (r: Option<T>)
        ensures
            old(self).remaining().len() == 0 ==> r.is_none() && final(self).remaining() == old(
                self,
            ).remaining(),
            old(self).remaining().len() > 0 ==> r == Some(old(self).remaining().first())
                && final(self).remaining() == old(self).remaining().drop_first(),
    {
        let result = match self.index {
            0 => self.tup.x,
            1 => self.tup.y,
            _ => {
                return None;
            },
        };
        self.index += 1;
        assert(self.remaining() =~= old(self).remaining().drop_first());
        Some(result)
    }
}

impl<T: Numeric> PartialEq for Tuple2<T> {
    /// Two tuples are equal when both components are.
    fn eq(&self, other: &Self) -> (r: bool)
        ensures
            r == (*self == *other),
    {
        proof {
            T::obeys_arithmetic();
        }
        self.x == other.x && self.y == other.y
    }
}

impl<T: Numeric> vstd::std_specs::cmp::PartialEqSpecImpl for Tuple2<T> {
    open spec fn obeys_eq_spec() -> bool {
        true
    }

    open spec fn eq_spec(&self, other: &Self) -> bool {
        *self == *other
    }
}

impl<T: Numeric> Add<Tuple2<T>> for Tuple2<T> {
    type Output = Tuple2<T>;

    /// The componentwise sum of two tuples.
    fn add(self, rhs: Self) -> (r: Self)
        ensures
            r.x == self.x.add_spec(rhs.x),
            r.y == self.y.add_spec(rhs.y),
    {
        proof {
            T::obeys_arithmetic();
        }
        Tuple2 { x: self.x + rhs.x, y: self.y + rhs.y }
    }
}

impl<T: Numeric> vstd::std_specs::ops::AddSpecImpl<Tuple2<T>> for Tuple2<T> {
    open spec fn obeys_add_spec() -> bool {
        true
    }

    open spec fn add_req(self, rhs: Self) -> bool {
        self.x.add_req(rhs.x) && self.y.add_req(rhs.y)
    }

    open spec fn add_spec(self, rhs: Self) -> Self {
        Tuple2 { x: self.x.add_spec(rhs.x), y: self.y.add_spec(rhs.y) }
    }
}

impl<T: Numeric> Add<T> for Tuple2<T> {
    type Output = Tuple2<T>;

    /// The sum of each component and the scalar `rhs`.
    fn add(self, rhs: T) -> (r: Self)
        ensures
            r.x == self.x.add_spec(rhs),
            r.y == self.y.add_spec(rhs),
    {
        proof {
            T::obeys_arithmetic();
        }
        Tuple2 { x: self.x + rhs, y: self.y + rhs }
    }
}

impl<T: Numeric> vstd::std_specs::ops::AddSpecImpl<T> for Tuple2<T> {
    open spec fn obeys_add_spec() -> bool {
        true
    }

    open spec fn add_req(self, rhs: T) -> bool {
        self.x.add_req(rhs) && self.y.add_req(rhs)
    }

    open spec fn add_spec(self, rhs: T) -> Self {
        Tuple2 { x: self.x.add_spec(rhs), y: self.y.add_spec(rhs) }
    }
}

impl<T: Numeric> Sub<Tuple2<T>> for Tuple2<T> {
    type Output = Tuple2<T>;

    /// The componentwise difference of two tuples.
    fn sub(self, rhs: Self) -> (r: Self)
        ensures
            r.x == self.x.sub_spec(rhs.x),
            r.y == self.y.sub_spec(rhs.y),
    {
        proof {
            T::obeys_arithmetic();
        }
        Tuple2 { x: self.x - rhs.x, y: self.y - rhs.y }
    }
}

impl<T: Numeric> vstd::std_specs::ops::SubSpecImpl<Tuple2<T>> for Tuple2<T> {
    open spec fn obeys_sub_spec() -> bool {
        true
    }

    open spec fn sub_req(self, rhs: Self) -> bool {
        self.x.sub_req(rhs.x) && self.y.sub_req(rhs.y)
    }

    open spec fn sub_spec(self, rhs: Self) -> Self {
        Tuple2 { x: self.x.sub_spec(rhs.x), y: self.y.sub_spec(rhs.y) }
    }
}

impl<T: Numeric> Sub<T> for Tuple2<T> {
    type Output = Tuple2<T>;

    /// The difference of each component and the scalar `rhs`.
    fn sub(self, rhs: T) -> (r: Self)
        ensures
            r.x == self.x.sub_spec(rhs),
            r.y == self.y.sub_spec(rhs),
    {
        proof {
            T::obeys_arithmetic();
        }
        Tuple2 { x: self.x - rhs, y: self.y - rhs }
    }
}

impl<T: Numeric> vstd::std_specs::ops::SubSpecImpl<T> for Tuple2<T> {
    open spec fn obeys_sub_spec() -> bool {
        true
    }

    open spec fn sub_req(self, rhs: T) -> bool {
        self.x.sub_req(rhs) && self.y.sub_req(rhs)
    }

    open spec fn sub_spec(self, rhs: T) -> Self {
        Tuple2 { x: self.x.sub_spec(rhs), y: self.y.sub_spec(rhs) }
    }
}

impl<T: Numeric> Mul<Tuple2<T>> for Tuple2<T> {
    type Output = Tuple2<T>;

    /// The componentwise product of two tuples.
    fn mul(self, rhs: Self) -> (r: Self)
        ensures
            r.x == self.x.mul_spec(rhs.x),
            r.y == self.y.mul_spec(rhs.y),
    {
        proof {
            T::obeys_arithmetic();
        }
        Tuple2 { x: self.x * rhs.x, y: self.y * rhs.y }
    }
}

impl<T: Numeric> vstd::std_specs::ops::MulSpecImpl<Tuple2<T>> for Tuple2<T> {
    open spec fn obeys_mul_spec() -> bool {
        true
    }

    open spec fn mul_req(self, rhs: Self) -> bool {
        self.x.mul_req(rhs.x) && self.y.mul_req(rhs.y)
    }

    open spec fn mul_spec(self, rhs: Self) -> Self {
        Tuple2 { x: self.x.mul_spec(rhs.x), y: self.y.mul_spec(rhs.y) }
    }
}

impl<T: Numeric> Mul<T> for Tuple2<T> {
    type Output = Tuple2<T>;

    /// The product of each component and the scalar `rhs`.
    fn mul(self, rhs: T) -> (r: Self)
        ensures
            r.x == self.x.mul_spec(rhs),
            r.y == self.y.mul_spec(rhs),
    {
        proof {
            T::obeys_arithmetic();
        }
        Tuple2 { x: self.x * rhs, y: self.y * rhs }
    }
}

impl<T: Numeric> vstd::std_specs::ops::MulSpecImpl<T> for Tuple2<T> {
    open spec fn obeys_mul_spec() -> bool {
        true
    }

    open spec fn mul_req(self, rhs: T) -> bool {
        self.x.mul_req(rhs) && self.y.mul_req(rhs)
    }

    open spec fn mul_spec(self, rhs: T) -> Self {
        Tuple2 { x: self.x.mul_spec(rhs), y: self.y.mul_spec(rhs) }
    }
}

impl<T: Numeric> Div<Tuple2<T>> for Tuple2<T> {
    type Output = Tuple2<T>;

    /// The componentwise quotient of two tuples.
    fn div(self, rhs: Self) -> (r: Self)
        ensures
            r.x == self.x.div_spec(rhs.x),
            r.y == self.y.div_spec(rhs.y),
    {
        proof {
            T::obeys_arithmetic();
        }
        Tuple2 { x: self.x / rhs.x, y: self.y / rhs.y }
    }
}

impl<T: Numeric> vstd::std_specs::ops::DivSpecImpl<Tuple2<T>> for Tuple2<T> {
    open spec fn obeys_div_spec() -> bool {
        true
    }

    open spec fn div_req(self, rhs: Self) -> bool {
        self.x.div_req(rhs.x) && self.y.div_req(rhs.y)
    }

    open spec fn div_spec(self, rhs: Self) -> Self {
        Tuple2 { x: self.x.div_spec(rhs.x), y: self.y.div_spec(rhs.y) }
    }
}

impl<T: Numeric> Div<T> for Tuple2<T> {
    type Output = Tuple2<T>;

    /// The quotient of each component and the scalar `rhs`.
    fn div(self, rhs: T) -> (r: Self)
        ensures
            r.x == self.x.div_spec(rhs),
            r.y == self.y.div_spec(rhs),
    {
        proof {
            T::obeys_arithmetic();
        }
        Tuple2 { x: self.x / rhs, y: self.y / rhs }
    }
}

impl<T: Numeric> vstd::std_specs::ops::DivSpecImpl<T> for Tuple2<T> {
    open spec fn obeys_div_spec() -> bool {
        true
    }

    open spec fn div_req(self, rhs: T) -> bool {
        self.x.div_req(rhs) && self.y.div_req(rhs)
    }

    open spec fn div_spec(self, rhs: T) -> Self {
        Tuple2 { x: self.x.div_spec(rhs), y: self.y.div_spec(rhs) }
    }
}

impl<T: Numeric> CompoundAssign<Tuple2<T>> for Tuple2<T> {
    fn add_assign(&mut self, rhs: Tuple2<T>)
        ensures
            *final(self) == old(self).add_spec(rhs),
    {
        proof {
            T::obeys_arithmetic();
        }
        self.x = self.x + rhs.x;
        self.y = self.y + rhs.y;
    }

    fn sub_assign(&mut self, rhs: Tuple2<T>)
        ensures
            *final(self) == old(self).sub_spec(rhs),
    {
        proof {
            T::obeys_arithmetic();
        }
        self.x = self.x - rhs.x;
        self.y = self.y - rhs.y;
    }

    fn mul_assign(&mut self, rhs: Tuple2<T>)
        ensures
            *final(self) == old(self).mul_spec(rhs),
    {
        proof {
            T::obeys_arithmetic();
        }
        self.x = self.x * rhs.x;
        self.y = self.y * rhs.y;
    }

    fn div_assign(&mut self, rhs: Tuple2<T>)
        ensures
            *final(self) == old(self).div_spec(rhs),
    {
        proof {
            T::obeys_arithmetic();
        }
        self.x = self.x / rhs.x;
        self.y = self.y / rhs.y;
    }
}

impl<T: Numeric> CompoundAssign<T> for Tuple2<T> {
    fn add_assign(&mut self, rhs: T)
        ensures
            *final(self) == old(self).add_spec(rhs),
    {
        proof {
            T::obeys_arithmetic();
        }
        self.x = self.x + rhs;
        self.y = self.y + rhs;
    }

    fn sub_assign(&mut self, rhs: T)
        ensures
            *final(self) == old(self).sub_spec(rhs),
    {
        proof {
            T::obeys_arithmetic();
        }
        self.x = self.x - rhs;
        self.y = self.y - rhs;
    }

    fn mul_assign(&mut self, rhs: T)
        ensures
            *final(self) == old(self).mul_spec(rhs),
    {
        proof {
            T::obeys_arithmetic();
        }
        self.x = self.x * rhs;
        self.y = self.y * rhs;
    }

    fn div_assign(&mut self, rhs: T)
        ensures
            *final(self) == old(self).div_spec(rhs),
    {
        proof {
            T::obeys_arithmetic();
        }
        self.x = self.x / rhs;
        self.y = self.y / rhs;
    }
}

impl<T: Numeric> Index<usize> for Tuple2<T> {
    type Output = T;

    /// The component at `index`.
    fn index(&self, index: usize) -> (r: &T)
        ensures
            *r == self@[index as int],
    {
        match index {
            0 => &self.x,
            1 => &self.y,
            _ => unreached(),
        }
    }
}

impl<T: Numeric> vstd::std_specs::core::IndexSpecImpl<usize> for Tuple2<T> {
    /// Only the positions `0` to `1` hold a component.
    open spec fn index_req(&self, index: &usize) -> bool {
        *index < 2
    }
}

/// Arithmetic is componentwise: at every position, the result of `+ - * /`
/// with another tuple or with a scalar is the result of the same operator
/// on the components at that position, and the operator may be applied to
/// the tuple only where it may be applied to those components.
pub proof fn lemma_tuple2_componentwise<T: Numeric>(a: Tuple2<T>, b: Tuple2<T>, k: T, i: int)
    requires
        0 <= i < 2,
    ensures
        a.add_spec(b)@[i] == a@[i].add_spec(b@[i]),
        a.add_spec(k)@[i] == a@[i].add_spec(k),
        a.add_req(b) ==> a@[i].add_req(b@[i]),
        a.add_req(k) ==> a@[i].add_req(k),
        a.sub_spec(b)@[i] == a@[i].sub_spec(b@[i]),
        a.sub_spec(k)@[i] == a@[i].sub_spec(k),
        a.sub_req(b) ==> a@[i].sub_req(b@[i]),
        a.sub_req(k) ==> a@[i].sub_req(k),
        a.mul_spec(b)@[i] == a@[i].mul_spec(b@[i]),
        a.mul_spec(k)@[i] == a@[i].mul_spec(k),
        a.mul_req(b) ==> a@[i].mul_req(b@[i]),
        a.mul_req(k) ==> a@[i].mul_req(k),
        a.div_spec(b)@[i] == a@[i].div_spec(b@[i]),
        a.div_spec(k)@[i] == a@[i].div_spec(k),
        a.div_req(b) ==> a@[i].div_req(b@[i]),
        a.div_req(k) ==> a@[i].div_req(k),
{
}

/// Arithmetic is exact: wherever `+ - * /` may be applied, with another
/// tuple or with a scalar, the exact result at every position is
/// representable, and the component of the result stands for it. Division
/// rounds toward zero and is by a scalar other than zero.
pub proof fn lemma_tuple2_arithmetic_values<T: Numeric>(a: Tuple2<T>, b: Tuple2<T>, k: T, i: int)
    requires
        0 <= i < 2,
    ensures
        a.add_req(b) ==> T::representable(a@[i].value() + b@[i].value()),
        a.add_req(b) ==> a.add_spec(b)@[i].value() == a@[i].value() + b@[i].value(),
        a.add_req(k) ==> T::representable(a@[i].value() + k.value()),
        a.add_req(k) ==> a.add_spec(k)@[i].value() == a@[i].value() + k.value(),
        a.sub_req(b) ==> T::representable(a@[i].value() - b@[i].value()),
        a.sub_req(b) ==> a.sub_spec(b)@[i].value() == a@[i].value() - b@[i].value(),
        a.sub_req(k) ==> T::representable(a@[i].value() - k.value()),
        a.sub_req(k) ==> a.sub_spec(k)@[i].value() == a@[i].value() - k.value(),
        a.mul_req(b) ==> T::representable(a@[i].value() * b@[i].value()),
        a.mul_req(b) ==> a.mul_spec(b)@[i].value() == a@[i].value() * b@[i].value(),
        a.mul_req(k) ==> T::representable(a@[i].value() * k.value()),
        a.mul_req(k) ==> a.mul_spec(k)@[i].value() == a@[i].value() * k.value(),
        a.div_req(b) ==> b@[i].value() != 0,
        a.div_req(b) ==> T::representable(quotient_toward_zero(a@[i].value(), b@[i].value())),
        a.div_req(b) ==> a.div_spec(b)@[i].value() ==
            quotient_toward_zero(a@[i].value(), b@[i].value()),
        a.div_req(k) ==> k.value() != 0,
        a.div_req(k) ==> T::representable(quotient_toward_zero(a@[i].value(), k.value())),
        a.div_req(k) ==> a.div_spec(k)@[i].value() ==
            quotient_toward_zero(a@[i].value(), k.value()),
{
    T::obeys_arithmetic();
}

/// An operator may be applied to a tuple exactly where, at every position,
/// the exact result is representable and, for `/`, the divisor is not zero.
pub proof fn lemma_tuple2_arithmetic_defined<T: Numeric>(a: Tuple2<T>, b: Tuple2<T>, k: T)
    ensures
        a.add_req(b) <==> T::representable(a.x.value() + b.x.value())
            && T::representable(a.y.value() + b.y.value()),
        a.add_req(k) <==> T::representable(a.x.value() + k.value())
            && T::representable(a.y.value() + k.value()),
        a.sub_req(b) <==> T::representable(a.x.value() - b.x.value())
            && T::representable(a.y.value() - b.y.value()),
        a.sub_req(k) <==> T::representable(a.x.value() - k.value())
            && T::representable(a.y.value() - k.value()),
        a.mul_req(b) <==> T::representable(a.x.value() * b.x.value())
            && T::representable(a.y.value() * b.y.value()),
        a.mul_req(k) <==> T::representable(a.x.value() * k.value())
            && T::representable(a.y.value() * k.value()),
        a.div_req(b) <==> b.x.value() != 0
            && T::representable(quotient_toward_zero(a.x.value(), b.x.value()))
            && b.y.value() != 0
            && T::representable(quotient_toward_zero(a.y.value(), b.y.value())),
        a.div_req(k) <==> k.value() != 0
            && T::representable(quotient_toward_zero(a.x.value(), k.value()))
            && k.value() != 0
            && T::representable(quotient_toward_zero(a.y.value(), k.value())),
{
    T::obeys_arithmetic();
}

/// In-place and binary arithmetic agree: an in-place operator leaves
/// `a.op_spec(rhs)` in the receiver, and that tuple has at each position
/// what the binary operator returns there.
pub proof fn lemma_tuple2_compound_assignment<T: Numeric>(a: Tuple2<T>, b: Tuple2<T>, k: T)
    ensures
        a.add_spec(b) == (Tuple2 { x: a.x.add_spec(b.x), y: a.y.add_spec(b.y) }),
        a.add_spec(k) == (Tuple2 { x: a.x.add_spec(k), y: a.y.add_spec(k) }),
        a.sub_spec(b) == (Tuple2 { x: a.x.sub_spec(b.x), y: a.y.sub_spec(b.y) }),
        a.sub_spec(k) == (Tuple2 { x: a.x.sub_spec(k), y: a.y.sub_spec(k) }),
        a.mul_spec(b) == (Tuple2 { x: a.x.mul_spec(b.x), y: a.y.mul_spec(b.y) }),
        a.mul_spec(k) == (Tuple2 { x: a.x.mul_spec(k), y: a.y.mul_spec(k) }),
        a.div_spec(b) == (Tuple2 { x: a.x.div_spec(b.x), y: a.y.div_spec(b.y) }),
        a.div_spec(k) == (Tuple2 { x: a.x.div_spec(k), y: a.y.div_spec(k) }),
{
}

/// A tuple has two components; writing one position changes that position
/// and no other, and reading it back gives the value written. Exactly the
/// positions below 2 can be read.
pub proof fn lemma_tuple2_index_round_trip<T: Numeric>(v: Tuple2<T>, i: int, j: int, value: T)
    requires
        0 <= i < 2,
        0 <= j < 2,
    ensures
        v@.len() == 2,
        v@.update(i, value)[i] == value,
        i != j ==> v@.update(i, value)[j] == v@[j],
        forall|p: usize| #![auto] vstd::std_specs::core::IndexSpec::index_req(&v, &p) <==> p < 2,
{
}

/// Iteration runs through the components in declaration order and then ends:
/// taking the first of what remains and dropping it, twice over, yields
/// `x`, then `y`, and leaves nothing. A cursor does not change the tuple it
/// was made from, so each fresh cursor runs through the same sequence.
pub proof fn lemma_tuple2_iteration<T: Numeric>(v: Tuple2<T>)
    ensures
        v@ == seq![v.x, v.y],
        v@.first() == v.x,
        v@.drop_first().first() == v.y,
        v@.drop_first().drop_first().len() == 0,
{
    assert(v@.drop_first() =~= seq![v.y]);
}

/// Taking the absolute value twice is the same as taking it once.
pub proof fn lemma_tuple2_abs_idempotent<T: Numeric>(v: Tuple2<T>)
    requires
        v.abs_req(),
    ensures
        v.abs_spec().abs_req(),
        v.abs_spec().abs_spec() == v.abs_spec(),
{
    T::abs_idempotent(v.x);
    T::abs_idempotent(v.y);
}

/// Over a scalar type without negative values, as every unsigned integer
/// type is, the absolute value of a tuple is the tuple itself.
pub proof fn lemma_tuple2_abs_identity<T: Numeric>(v: Tuple2<T>)
    requires
        forall|t: T| #![auto] t.value() >= 0,
    ensures
        v.abs_req(),
        v.abs_spec() == v,
{
    T::obeys_arithmetic();
    T::abs_is_magnitude();
    assert(T::abs_spec(v.x).value() == v.x.value());
    assert(T::abs_spec(v.y).value() == v.y.value());
}

/// The absolute value exists where every magnitude is representable, and
/// each component of it stands for the magnitude of the component it
/// replaces.
pub proof fn lemma_tuple2_abs_values<T: Numeric>(v: Tuple2<T>, i: int)
    requires
        0 <= i < 2,
    ensures
        v.abs_req() <==> T::representable(abs(v.x.value()) as int)
            && T::representable(abs(v.y.value()) as int),
        v.abs_req() ==> v.abs_spec()@[i].value() == abs(v@[i].value()),
{
    T::abs_is_magnitude();
}

/// Each component of the multiply-add stands for the product of the
/// components of `t0` and `t1` at its position plus that of `t2`.
pub proof fn lemma_tuple2_fma_values<T: Numeric>(
    t0: Tuple2<T>,
    t1: Tuple2<T>,
    t2: Tuple2<T>,
    i: int,
)
    requires
        0 <= i < 2,
        Tuple2::fma_req(t0, t1, t2),
    ensures
        Tuple2::fma_spec(t0, t1, t2)@[i].value() == t0@[i].value() * t1@[i].value()
            + t2@[i].value(),
        Tuple2::fma_spec(t0, t1, t2) == t0.mul_spec(t1).add_spec(t2),
{
    T::obeys_arithmetic();
}

/// Each component of the interpolation stands for `a * (1 - t) + b * t`,
/// where `a` and `b` are the components of `t0` and `t1` at its position.
/// At the ratio 0 the interpolation is `t0`, and at the ratio 1 it is `t1`.
pub proof fn lemma_tuple2_lerp_values<T: Numeric>(t0: Tuple2<T>, t1: Tuple2<T>, t: T, i: int)
    requires
        0 <= i < 2,
        Tuple2::lerp_req(t0, t1, t),
    ensures
        Tuple2::lerp_spec(t0, t1, t)@[i].value() == t0@[i].value() * (1 - t.value())
            + t1@[i].value()
            * t.value(),
        t.value() == 0 ==> Tuple2::lerp_spec(t0, t1, t) == t0,
        t.value() == 1 ==> Tuple2::lerp_spec(t0, t1, t) == t1,
{
    T::obeys_arithmetic();
    let r = Tuple2::lerp_spec(t0, t1, t);
    let s = T::one_spec().sub_spec(t);
    assert(s.value() == 1 - t.value());
    assert(r.x.value() == t0.x.value() * s.value() + t1.x.value() * t.value());
    assert(r.y.value() == t0.y.value() * s.value() + t1.y.value() * t.value());
    lemma_interpolation_ends(t0.x.value(), t1.x.value(), t.value());
    lemma_interpolation_ends(t0.y.value(), t1.y.value(), t.value());
}

/// Each component of the maximum stands for the larger, and each component
/// of the minimum for the smaller, of the two integers at its position.
pub proof fn lemma_tuple2_max_min_values<T: Numeric>(t0: Tuple2<T>, t1: Tuple2<T>, i: int)
    requires
        0 <= i < 2,
    ensures
        Tuple2::max_spec(t0, t1)@[i].value() == max(t0@[i].value(), t1@[i].value()),
        Tuple2::min_spec(t0, t1)@[i].value() == min(t0@[i].value(), t1@[i].value()),
        Tuple2::max_spec(t0, t1)@[i] == t0@[i] || Tuple2::max_spec(t0, t1)@[i] == t1@[i],
        Tuple2::min_spec(t0, t1)@[i] == t0@[i] || Tuple2::min_spec(t0, t1)@[i] == t1@[i],
{
}

/// A triple of scalars of one type.
///
/// Its view is the sequence of its components in declaration order.
#[derive(Debug, Copy)]
pub struct Tuple3<T: Numeric> {
    pub x: T,
    pub y: T,
    pub z: T,
}

impl<T: Numeric> Clone for Tuple3<T> {
    fn clone(&self) -> (r: Self)
        ensures
            r == *self,
    {
        *self
    }
}

impl<T: Numeric> View for Tuple3<T> {
    type V = Seq<T>;

    open spec fn view(&self) -> Seq<T> {
        seq![self.x, self.y, self.z]
    }
}

impl<T: Numeric> Tuple3<T> {
    pub fn new(x: T, y: T, z: T) -> (r: Self)
        ensures
            r.x == x,
            r.y == y,
            r.z == z,
    {
        Tuple3 { x, y, z }
    }

    pub fn x(&self) -> (r: T)
        ensures
            r == self.x,
    {
        self.x
    }

    pub fn y(&self) -> (r: T)
        ensures
            r == self.y,
    {
        self.y
    }

    pub fn z(&self) -> (r: T)
        ensures
            r == self.z,
    {
        self.z
    }

    /// The number of components.
    pub fn ndim() -> (r: usize)
        ensures
            r == 3,
    {
        3
    }

    /// Whether every component has an absolute value.
    pub open spec fn abs_req(self) -> bool {
        T::abs_req(self.x) && T::abs_req(self.y) && T::abs_req(self.z)
    }

    pub open spec fn abs_spec(self) -> Self {
        Tuple3 { x: T::abs_spec(self.x), y: T::abs_spec(self.y), z: T::abs_spec(self.z) }
    }

    /// Replaces each component by its absolute value.
    pub fn abs(self) -> (r: Self)
        requires
            self.abs_req(),
        ensures
            r == self.abs_spec(),
    {
        Tuple3 { x: T::abs(self.x), y: T::abs(self.y), z: T::abs(self.z) }
    }

    pub open spec fn max_spec(t0: Self, t1: Self) -> Self {
        Tuple3 {
            x: if t0.x.value() < t1.x.value() { t1.x } else { t0.x },
            y: if t0.y.value() < t1.y.value() { t1.y } else { t0.y },
            z: if t0.z.value() < t1.z.value() { t1.z } else { t0.z },
        }
    }

    /// The componentwise maximum.
    pub fn max(t0: Self, t1: Self) -> (r: Self)
        ensures
            r == Self::max_spec(t0, t1),
    {
        proof {
            T::obeys_arithmetic();
        }
        Tuple3 {
            x: if t0.x < t1.x { t1.x } else { t0.x },
            y: if t0.y < t1.y { t1.y } else { t0.y },
            z: if t0.z < t1.z { t1.z } else { t0.z },
        }
    }

    pub open spec fn min_spec(t0: Self, t1: Self) -> Self {
        Tuple3 {
            x: if t1.x.value() < t0.x.value() { t1.x } else { t0.x },
            y: if t1.y.value() < t0.y.value() { t1.y } else { t0.y },
            z: if t1.z.value() < t0.z.value() { t1.z } else { t0.z },
        }
    }

    /// The componentwise minimum.
    pub fn min(t0: Self, t1: Self) -> (r: Self)
        ensures
            r == Self::min_spec(t0, t1),
    {
        proof {
            T::obeys_arithmetic();
        }
        Tuple3 {
            x: if t1.x < t0.x { t1.x } else { t0.x },
            y: if t1.y < t0.y { t1.y } else { t0.y },
            z: if t1.z < t0.z { t1.z } else { t0.z },
        }
    }

    /// Whether `t0 * t1 + t2` can be evaluated component by component.
    pub open spec fn fma_req(t0: Self, t1: Self, t2: Self) -> bool {
        &&& t0.x.mul_req(t1.x) && t0.x.mul_spec(t1.x).add_req(t2.x)
        &&& t0.y.mul_req(t1.y) && t0.y.mul_spec(t1.y).add_req(t2.y)
        &&& t0.z.mul_req(t1.z) && t0.z.mul_spec(t1.z).add_req(t2.z)
    }

    pub open spec fn fma_spec(t0: Self, t1: Self, t2: Self) -> Self {
        Tuple3 {
            x: t0.x.mul_spec(t1.x).add_spec(t2.x),
            y: t0.y.mul_spec(t1.y).add_spec(t2.y),
            z: t0.z.mul_spec(t1.z).add_spec(t2.z),
        }
    }

    /// The componentwise multiply-add `t0 * t1 + t2`.
    pub fn fma(t0: Self, t1: Self, t2: Self) -> (r: Self)
        requires
            Self::fma_req(t0, t1, t2),
        ensures
            r == Self::fma_spec(t0, t1, t2),
    {
        proof {
            T::obeys_arithmetic();
        }
        Tuple3 { x: t0.x * t1.x + t2.x, y: t0.y * t1.y + t2.y, z: t0.z * t1.z + t2.z }
    }

    /// Whether `t0 * (1 - t) + t1 * t` can be evaluated component by
    /// component.
    pub open spec fn lerp_req(t0: Self, t1: Self, t: T) -> bool {
        &&& T::one_spec().sub_req(t)
        &&& t0.x.mul_req(T::one_spec().sub_spec(t)) && t1.x.mul_req(t)
        &&& t0.y.mul_req(T::one_spec().sub_spec(t)) && t1.y.mul_req(t)
        &&& t0.z.mul_req(T::one_spec().sub_spec(t)) && t1.z.mul_req(t)
        &&& t0.x.mul_spec(T::one_spec().sub_spec(t)).add_req(t1.x.mul_spec(t))
        &&& t0.y.mul_spec(T::one_spec().sub_spec(t)).add_req(t1.y.mul_spec(t))
        &&& t0.z.mul_spec(T::one_spec().sub_spec(t)).add_req(t1.z.mul_spec(t))
    }

    pub open spec fn lerp_spec(t0: Self, t1: Self, t: T) -> Self {
        Tuple3 {
            x: t0.x.mul_spec(T::one_spec().sub_spec(t)).add_spec(t1.x.mul_spec(t)),
            y: t0.y.mul_spec(T::one_spec().sub_spec(t)).add_spec(t1.y.mul_spec(t)),
            z: t0.z.mul_spec(T::one_spec().sub_spec(t)).add_spec(t1.z.mul_spec(t)),
        }
    }

    /// The linear interpolation `t0 * (1 - t) + t1 * t` between two tuples,
    /// where the ratio `t` is a scalar. The ratio is not clamped.
    pub fn lerp(t0: Self, t1: Self, t: T) -> (r: Self)
        requires
            Self::lerp_req(t0, t1, t),
        ensures
            r == Self::lerp_spec(t0, t1, t),
    {
        proof {
            T::obeys_arithmetic();
        }
        let s = T::one() - t;
        Tuple3 { x: t0.x * s + t1.x * t, y: t0.y * s + t1.y * t, z: t0.z * s + t1.z * t }
    }

    /// A cursor that stands before the first component.
    pub fn into_iter(self) -> (it: Tuple3Iter<T>)
        ensures
            it.remaining() == self@,
    {
        let it = Tuple3Iter { tup: self, index: 0 };
        assert(it.remaining() =~= self@);
        it
    }

    /// A mutable borrow of the component at `index`.
    pub fn index_mut(&mut self, index: usize) -> (r: &mut T)
        requires
            index < 3,
        ensures
            *r == old(self)@[index as int],
            final(self)@ == old(self)@.update(index as int, *final(r)),
    {
        match index {
            0 => &mut self.x,
            1 => &mut self.y,
            2 => &mut self.z,
            _ => unreached(),
        }
    }
}

impl<T: Numeric + Ceil<Item = T> + Floor<Item = T>> Tuple3<T> {
    pub open spec fn ceil_spec(self) -> Self {
        Tuple3 { x: T::ceil_spec(self.x), y: T::ceil_spec(self.y), z: T::ceil_spec(self.z) }
    }

    /// Rounds each component up.
    pub fn ceil(self) -> (r: Self)
        ensures
            r == self.ceil_spec(),
    {
        Tuple3 { x: T::ceil(self.x), y: T::ceil(self.y), z: T::ceil(self.z) }
    }

    pub open spec fn floor_spec(self) -> Self {
        Tuple3 { x: T::floor_spec(self.x), y: T::floor_spec(self.y), z: T::floor_spec(self.z) }
    }

    /// Rounds each component down.
    pub fn floor(self) -> (r: Self)
        ensures
            r == self.floor_spec(),
    {
        Tuple3 { x: T::floor(self.x), y: T::floor(self.y), z: T::floor(self.z) }
    }
}

/// A cursor over the components of a [`Tuple3`]: a copy of the tuple and the
/// position of the component that comes next.
pub struct Tuple3Iter<T: Numeric> {
    tup: Tuple3<T>,
    index: usize,
}

impl<T: Numeric> Tuple3Iter<T> {
    /// The components that are still to come, in order.
    pub closed spec fn remaining(&self) -> Seq<T> {
        if self.index < 3 {
            self.tup@.skip(self.index as int)
        } else {
            Seq::empty()
        }
    }

    /// Hands out the next component and moves past it, or returns `None`
    /// once all three have been handed out.
    pub fn next(&mut self) -> (r: Option<T>)
        ensures
            old(self).remaining().len() == 0 ==> r.is_none() && final(self).remaining() == old(
                self,
            ).remaining(),
            old(self).remaining().len() > 0 ==> r == Some(old(self).remaining().first())
                && final(self).remaining() == old(self).remaining().drop_first(),
    {
        let result = match self.index {
            0 => self.tup.x,
            1 => self.tup.y,
            2 => self.tup.z,
            _ => {
                return None;
            },
        };
        self.index += 1;
        assert(self.remaining() =~= old(self).remaining().drop_first());
        Some(result)
    }
}

impl<T: Numeric> PartialEq for Tuple3<T> {
    /// Two tuples are equal when all three components are.
    fn eq(&self, other: &Self) -> (r: bool)
        ensures
            r == (*self == *other),
    {
        proof {
            T::obeys_arithmetic();
        }
        self.x == other.x && self.y == other.y && self.z == other.z
    }
}

impl<T: Numeric> vstd::std_specs::cmp::PartialEqSpecImpl for Tuple3<T> {
    open spec fn obeys_eq_spec() -> bool {
        true
    }

    open spec fn eq_spec(&self, other: &Self) -> bool {
        *self == *other
    }
}

impl<T: Numeric> Add<Tuple3<T>> for Tuple3<T> {
    type Output = Tuple3<T>;

    /// The componentwise sum of two tuples.
    fn add(self, rhs: Self) -> (r: Self)
        ensures
            r.x == self.x.add_spec(rhs.x),
            r.y == self.y.add_spec(rhs.y),
            r.z == self.z.add_spec(rhs.z),
    {
        proof {
            T::obeys_arithmetic();
        }
        Tuple3 { x: self.x + rhs.x, y: self.y + rhs.y, z: self.z + rhs.z }
    }
}

impl<T: Numeric> vstd::std_specs::ops::AddSpecImpl<Tuple3<T>> for Tuple3<T> {
    open spec fn obeys_add_spec() -> bool {
        true
    }

    open spec fn add_req(self, rhs: Self) -> bool {
        self.x.add_req(rhs.x) && self.y.add_req(rhs.y) && self.z.add_req(rhs.z)
    }

    open spec fn add_spec(self, rhs: Self) -> Self {
        Tuple3 { x: self.x.add_spec(rhs.x), y: self.y.add_spec(rhs.y), z: self.z.add_spec(rhs.z) }
    }
}

impl<T: Numeric> Add<T> for Tuple3<T> {
    type Output = Tuple3<T>;

    /// The sum of each component and the scalar `rhs`.
    fn add(self, rhs: T) -> (r: Self)
        ensures
            r.x == self.x.add_spec(rhs),
            r.y == self.y.add_spec(rhs),
            r.z == self.z.add_spec(rhs),
    {
        proof {
            T::obeys_arithmetic();
        }
        Tuple3 { x: self.x + rhs, y: self.y + rhs, z: self.z + rhs }
    }
}

impl<T: Numeric> vstd::std_specs::ops::AddSpecImpl<T> for Tuple3<T> {
    open spec fn obeys_add_spec() -> bool {
        true
    }

    open spec fn add_req(self, rhs: T) -> bool {
        self.x.add_req(rhs) && self.y.add_req(rhs) && self.z.add_req(rhs)
    }

    open spec fn add_spec(self, rhs: T) -> Self {
        Tuple3 { x: self.x.add_spec(rhs), y: self.y.add_spec(rhs), z: self.z.add_spec(rhs) }
    }
}

impl<T: Numeric> Sub<Tuple3<T>> for Tuple3<T> {
    type Output = Tuple3<T>;

    /// The componentwise difference of two tuples.
    fn sub(self, rhs: Self) -> (r: Self)
        ensures
            r.x == self.x.sub_spec(rhs.x),
            r.y == self.y.sub_spec(rhs.y),
            r.z == self.z.sub_spec(rhs.z),
    {
        proof {
            T::obeys_arithmetic();
        }
        Tuple3 { x: self.x - rhs.x, y: self.y - rhs.y, z: self.z - rhs.z }
    }
}

impl<T: Numeric> vstd::std_specs::ops::SubSpecImpl<Tuple3<T>> for Tuple3<T> {
    open spec fn obeys_sub_spec() -> bool {
        true
    }

    open spec fn sub_req(self, rhs: Self) -> bool {
        self.x.sub_req(rhs.x) && self.y.sub_req(rhs.y) && self.z.sub_req(rhs.z)
    }

    open spec fn sub_spec(self, rhs: Self) -> Self {
        Tuple3 { x: self.x.sub_spec(rhs.x), y: self.y.sub_spec(rhs.y), z: self.z.sub_spec(rhs.z) }
    }
}

impl<T: Numeric> Sub<T> for Tuple3<T> {
    type Output = Tuple3<T>;

    /// The difference of each component and the scalar `rhs`.
    fn sub(self, rhs: T) -> (r: Self)
        ensures
            r.x == self.x.sub_spec(rhs),
            r.y == self.y.sub_spec(rhs),
            r.z == self.z.sub_spec(rhs),
    {
        proof {
            T::obeys_arithmetic();
        }
        Tuple3 { x: self.x - rhs, y: self.y - rhs, z: self.z - rhs }
    }
}

impl<T: Numeric> vstd::std_specs::ops::SubSpecImpl<T> for Tuple3<T> {
    open spec fn obeys_sub_spec() -> bool {
        true
    }

    open spec fn sub_req(self, rhs: T) -> bool {
        self.x.sub_req(rhs) && self.y.sub_req(rhs) && self.z.sub_req(rhs)
    }

    open spec fn sub_spec(self, rhs: T) -> Self {
        Tuple3 { x: self.x.sub_spec(rhs), y: self.y.sub_spec(rhs), z: self.z.sub_spec(rhs) }
    }
}

impl<T: Numeric> Mul<Tuple3<T>> for Tuple3<T> {
    type Output = Tuple3<T>;

    /// The componentwise product of two tuples.
    fn mul(self, rhs: Self) -> (r: Self)
        ensures
            r.x == self.x.mul_spec(rhs.x),
            r.y == self.y.mul_spec(rhs.y),
            r.z == self.z.mul_spec(rhs.z),
    {
        proof {
            T::obeys_arithmetic();
        }
        Tuple3 { x: self.x * rhs.x, y: self.y * rhs.y, z: self.z * rhs.z }
    }
}

impl<T: Numeric> vstd::std_specs::ops::MulSpecImpl<Tuple3<T>> for Tuple3<T> {
    open spec fn obeys_mul_spec() -> bool {
        true
    }

    open spec fn mul_req(self, rhs: Self) -> bool {
        self.x.mul_req(rhs.x) && self.y.mul_req(rhs.y) && self.z.mul_req(rhs.z)
    }

    open spec fn mul_spec(self, rhs: Self) -> Self {
        Tuple3 { x: self.x.mul_spec(rhs.x), y: self.y.mul_spec(rhs.y), z: self.z.mul_spec(rhs.z) }
    }
}

impl<T: Numeric> Mul<T> for Tuple3<T> {
    type Output = Tuple3<T>;

    /// The product of each component and the scalar `rhs`.
    fn mul(self, rhs: T) -> (r: Self)
        ensures
            r.x == self.x.mul_spec(rhs),
            r.y == self.y.mul_spec(rhs),
            r.z == self.z.mul_spec(rhs),
    {
        proof {
            T::obeys_arithmetic();
        }
        Tuple3 { x: self.x * rhs, y: self.y * rhs, z: self.z * rhs }
    }
}

impl<T: Numeric> vstd::std_specs::ops::MulSpecImpl<T> for Tuple3<T> {
    open spec fn obeys_mul_spec() -> bool {
        true
    }

    open spec fn mul_req(self, rhs: T) -> bool {
        self.x.mul_req(rhs) && self.y.mul_req(rhs) && self.z.mul_req(rhs)
    }

    open spec fn mul_spec(self, rhs: T) -> Self {
        Tuple3 { x: self.x.mul_spec(rhs), y: self.y.mul_spec(rhs), z: self.z.mul_spec(rhs) }
    }
}

impl<T: Numeric> Div<Tuple3<T>> for Tuple3<T> {
    type Output = Tuple3<T>;

    /// The componentwise quotient of two tuples.
    fn div(self, rhs: Self) -> (r: Self)
        ensures
            r.x == self.x.div_spec(rhs.x),
            r.y == self.y.div_spec(rhs.y),
            r.z == self.z.div_spec(rhs.z),
    {
        proof {
            T::obeys_arithmetic();
        }
        Tuple3 { x: self.x / rhs.x, y: self.y / rhs.y, z: self.z / rhs.z }
    }
}

impl<T: Numeric> vstd::std_specs::ops::DivSpecImpl<Tuple3<T>> for Tuple3<T> {
    open spec fn obeys_div_spec() -> bool {
        true
    }

    open spec fn div_req(self, rhs: Self) -> bool {
        self.x.div_req(rhs.x) && self.y.div_req(rhs.y) && self.z.div_req(rhs.z)
    }

    open spec fn div_spec(self, rhs: Self) -> Self {
        Tuple3 { x: self.x.div_spec(rhs.x), y: self.y.div_spec(rhs.y), z: self.z.div_spec(rhs.z) }
    }
}

impl<T: Numeric> Div<T> for Tuple3<T> {
    type Output = Tuple3<T>;

    /// The quotient of each component and the scalar `rhs`.
    fn div(self, rhs: T) -> (r: Self)
        ensures
            r.x == self.x.div_spec(rhs),
            r.y == self.y.div_spec(rhs),
            r.z == self.z.div_spec(rhs),
    {
        proof {
            T::obeys_arithmetic();
        }
        Tuple3 { x: self.x / rhs, y: self.y / rhs, z: self.z / rhs }
    }
}

impl<T: Numeric> vstd::std_specs::ops::DivSpecImpl<T> for Tuple3<T> {
    open spec fn obeys_div_spec() -> bool {
        true
    }

    open spec fn div_req(self, rhs: T) -> bool {
        self.x.div_req(rhs) && self.y.div_req(rhs) && self.z.div_req(rhs)
    }

    open spec fn div_spec(self, rhs: T) -> Self {
        Tuple3 { x: self.x.div_spec(rhs), y: self.y.div_spec(rhs), z: self.z.div_spec(rhs) }
    }
}

impl<T: Numeric> CompoundAssign<Tuple3<T>> for Tuple3<T> {
    fn add_assign(&mut self, rhs: Tuple3<T>)
        ensures
            *final(self) == old(self).add_spec(rhs),
    {
        proof {
            T::obeys_arithmetic();
        }
        self.x = self.x + rhs.x;
        self.y = self.y + rhs.y;
        self.z = self.z + rhs.z;
    }

    fn sub_assign(&mut self, rhs: Tuple3<T>)
        ensures
            *final(self) == old(self).sub_spec(rhs),
    {
        proof {
            T::obeys_arithmetic();
        }
        self.x = self.x - rhs.x;
        self.y = self.y - rhs.y;
        self.z = self.z - rhs.z;
    }

    fn mul_assign(&mut self, rhs: Tuple3<T>)
        ensures
            *final(self) == old(self).mul_spec(rhs),
    {
        proof {
            T::obeys_arithmetic();
        }
        self.x = self.x * rhs.x;
        self.y = self.y * rhs.y;
        self.z = self.z * rhs.z;
    }

    fn div_assign(&mut self, rhs: Tuple3<T>)
        ensures
            *final(self) == old(self).div_spec(rhs),
    {
        proof {
            T::obeys_arithmetic();
        }
        self.x = self.x / rhs.x;
        self.y = self.y / rhs.y;
        self.z = self.z / rhs.z;
    }
}

impl<T: Numeric> CompoundAssign<T> for Tuple3<T> {
    fn add_assign(&mut self, rhs: T)
        ensures
            *final(self) == old(self).add_spec(rhs),
    {
        proof {
            T::obeys_arithmetic();
        }
        self.x = self.x + rhs;
        self.y = self.y + rhs;
        self.z = self.z + rhs;
    }

    fn sub_assign(&mut self, rhs: T)
        ensures
            *final(self) == old(self).sub_spec(rhs),
    {
        proof {
            T::obeys_arithmetic();
        }
        self.x = self.x - rhs;
        self.y = self.y - rhs;
        self.z = self.z - rhs;
    }

    fn mul_assign(&mut self, rhs: T)
        ensures
            *final(self) == old(self).mul_spec(rhs),
    {
        proof {
            T::obeys_arithmetic();
        }
        self.x = self.x * rhs;
        self.y = self.y * rhs;
        self.z = self.z * rhs;
    }

    fn div_assign(&mut self, rhs: T)
        ensures
            *final(self) == old(self).div_spec(rhs),
    {
        proof {
            T::obeys_arithmetic();
        }
        self.x = self.x / rhs;
        self.y = self.y / rhs;
        self.z = self.z / rhs;
    }
}

impl<T: Numeric> Index<usize> for Tuple3<T> {
    type Output = T;

    /// The component at `index`.
    fn index(&self, index: usize) -> (r: &T)
        ensures
            *r == self@[index as int],
    {
        match index {
            0 => &self.x,
            1 => &self.y,
            2 => &self.z,
            _ => unreached(),
        }
    }
}

impl<T: Numeric> vstd::std_specs::core::IndexSpecImpl<usize> for Tuple3<T> {
    /// Only the positions `0` to `2` hold a component.
    open spec fn index_req(&self, index: &usize) -> bool {
        *index < 3
    }
}

/// Arithmetic is componentwise: at every position, the result of `+ - * /`
/// with another tuple or with a scalar is the result of the same operator
/// on the components at that position, and the operator may be applied to
/// the tuple only where it may be applied to those components.
pub proof fn lemma_tuple3_componentwise<T: Numeric>(a: Tuple3<T>, b: Tuple3<T>, k: T, i: int)
    requires
        0 <= i < 3,
    ensures
        a.add_spec(b)@[i] == a@[i].add_spec(b@[i]),
        a.add_spec(k)@[i] == a@[i].add_spec(k),
        a.add_req(b) ==> a@[i].add_req(b@[i]),
        a.add_req(k) ==> a@[i].add_req(k),
        a.sub_spec(b)@[i] == a@[i].sub_spec(b@[i]),
        a.sub_spec(k)@[i] == a@[i].sub_spec(k),
        a.sub_req(b) ==> a@[i].sub_req(b@[i]),
        a.sub_req(k) ==> a@[i].sub_req(k),
        a.mul_spec(b)@[i] == a@[i].mul_spec(b@[i]),
        a.mul_spec(k)@[i] == a@[i].mul_spec(k),
        a.mul_req(b) ==> a@[i].mul_req(b@[i]),
        a.mul_req(k) ==> a@[i].mul_req(k),
        a.div_spec(b)@[i] == a@[i].div_spec(b@[i]),
        a.div_spec(k)@[i] == a@[i].div_spec(k),
        a.div_req(b) ==> a@[i].div_req(b@[i]),
        a.div_req(k) ==> a@[i].div_req(k),
{
}

/// Arithmetic is exact: wherever `+ - * /` may be applied, with another
/// tuple or with a scalar, the exact result at every position is
/// representable, and the component of the result stands for it. Division
/// rounds toward zero and is by a scalar other than zero.
pub proof fn lemma_tuple3_arithmetic_values<T: Numeric>(a: Tuple3<T>, b: Tuple3<T>, k: T, i: int)
    requires
        0 <= i < 3,
    ensures
        a.add_req(b) ==> T::representable(a@[i].value() + b@[i].value()),
        a.add_req(b) ==> a.add_spec(b)@[i].value() == a@[i].value() + b@[i].value(),
        a.add_req(k) ==> T::representable(a@[i].value() + k.value()),
        a.add_req(k) ==> a.add_spec(k)@[i].value() == a@[i].value() + k.value(),
        a.sub_req(b) ==> T::representable(a@[i].value() - b@[i].value()),
        a.sub_req(b) ==> a.sub_spec(b)@[i].value() == a@[i].value() - b@[i].value(),
        a.sub_req(k) ==> T::representable(a@[i].value() - k.value()),
        a.sub_req(k) ==> a.sub_spec(k)@[i].value() == a@[i].value() - k.value(),
        a.mul_req(b) ==> T::representable(a@[i].value() * b@[i].value()),
        a.mul_req(b) ==> a.mul_spec(b)@[i].value() == a@[i].value() * b@[i].value(),
        a.mul_req(k) ==> T::representable(a@[i].value() * k.value()),
        a.mul_req(k) ==> a.mul_spec(k)@[i].value() == a@[i].value() * k.value(),
        a.div_req(b) ==> b@[i].value() != 0,
        a.div_req(b) ==> T::representable(quotient_toward_zero(a@[i].value(), b@[i].value())),
        a.div_req(b) ==> a.div_spec(b)@[i].value() ==
            quotient_toward_zero(a@[i].value(), b@[i].value()),
        a.div_req(k) ==> k.value() != 0,
        a.div_req(k) ==> T::representable(quotient_toward_zero(a@[i].value(), k.value())),
        a.div_req(k) ==> a.div_spec(k)@[i].value() ==
            quotient_toward_zero(a@[i].value(), k.value()),
{
    T::obeys_arithmetic();
}

/// An operator may be applied to a tuple exactly where, at every position,
/// the exact result is representable and, for `/`, the divisor is not zero.
pub proof fn lemma_tuple3_arithmetic_defined<T: Numeric>(a: Tuple3<T>, b: Tuple3<T>, k: T)
    ensures
        a.add_req(b) <==> T::representable(a.x.value() + b.x.value())
            && T::representable(a.y.value() + b.y.value())
            && T::representable(a.z.value() + b.z.value()),
        a.add_req(k) <==> T::representable(a.x.value() + k.value())
            && T::representable(a.y.value() + k.value())
            && T::representable(a.z.value() + k.value()),
        a.sub_req(b) <==> T::representable(a.x.value() - b.x.value())
            && T::representable(a.y.value() - b.y.value())
            && T::representable(a.z.value() - b.z.value()),
        a.sub_req(k) <==> T::representable(a.x.value() - k.value())
            && T::representable(a.y.value() - k.value())
            && T::representable(a.z.value() - k.value()),
        a.mul_req(b) <==> T::representable(a.x.value() * b.x.value())
            && T::representable(a.y.value() * b.y.value())
            && T::representable(a.z.value() * b.z.value()),
        a.mul_req(k) <==> T::representable(a.x.value() * k.value())
            && T::representable(a.y.value() * k.value())
            && T::representable(a.z.value() * k.value()),
        a.div_req(b) <==> b.x.value() != 0
            && T::representable(quotient_toward_zero(a.x.value(), b.x.value()))
            && b.y.value() != 0
            && T::representable(quotient_toward_zero(a.y.value(), b.y.value()))
            && b.z.value() != 0
            && T::representable(quotient_toward_zero(a.z.value(), b.z.value())),
        a.div_req(k) <==> k.value() != 0
            && T::representable(quotient_toward_zero(a.x.value(), k.value()))
            && k.value() != 0
            && T::representable(quotient_toward_zero(a.y.value(), k.value()))
            && k.value() != 0
            && T::representable(quotient_toward_zero(a.z.value(), k.value())),
{
    T::obeys_arithmetic();
}

/// In-place and binary arithmetic agree: an in-place operator leaves
/// `a.op_spec(rhs)` in the receiver, and that tuple has at each position
/// what the binary operator returns there.
pub proof fn lemma_tuple3_compound_assignment<T: Numeric>(a: Tuple3<T>, b: Tuple3<T>, k: T)
    ensures
        a.add_spec(b) == (Tuple3 {
            x: a.x.add_spec(b.x),
            y: a.y.add_spec(b.y),
            z: a.z.add_spec(b.z),
        }),
        a.add_spec(k) == (Tuple3 { x: a.x.add_spec(k), y: a.y.add_spec(k), z: a.z.add_spec(k) }),
        a.sub_spec(b) == (Tuple3 {
            x: a.x.sub_spec(b.x),
            y: a.y.sub_spec(b.y),
            z: a.z.sub_spec(b.z),
        }),
        a.sub_spec(k) == (Tuple3 { x: a.x.sub_spec(k), y: a.y.sub_spec(k), z: a.z.sub_spec(k) }),
        a.mul_spec(b) == (Tuple3 {
            x: a.x.mul_spec(b.x),
            y: a.y.mul_spec(b.y),
            z: a.z.mul_spec(b.z),
        }),
        a.mul_spec(k) == (Tuple3 { x: a.x.mul_spec(k), y: a.y.mul_spec(k), z: a.z.mul_spec(k) }),
        a.div_spec(b) == (Tuple3 {
            x: a.x.div_spec(b.x),
            y: a.y.div_spec(b.y),
            z: a.z.div_spec(b.z),
        }),
        a.div_spec(k) == (Tuple3 { x: a.x.div_spec(k), y: a.y.div_spec(k), z: a.z.div_spec(k) }),
{
}

/// A tuple has three components; writing one position changes that position
/// and no other, and reading it back gives the value written. Exactly the
/// positions below 3 can be read.
pub proof fn lemma_tuple3_index_round_trip<T: Numeric>(v: Tuple3<T>, i: int, j: int, value: T)
    requires
        0 <= i < 3,
        0 <= j < 3,
    ensures
        v@.len() == 3,
        v@.update(i, value)[i] == value,
        i != j ==> v@.update(i, value)[j] == v@[j],
        forall|p: usize| #![auto] vstd::std_specs::core::IndexSpec::index_req(&v, &p) <==> p < 3,
{
}

/// Iteration runs through the components in declaration order and then ends:
/// taking the first of what remains and dropping it, three times over, yields
/// `x`, then `y`, then `z`, and leaves nothing. A cursor does not change the tuple it
/// was made from, so each fresh cursor runs through the same sequence.
pub proof fn lemma_tuple3_iteration<T: Numeric>(v: Tuple3<T>)
    ensures
        v@ == seq![v.x, v.y, v.z],
        v@.first() == v.x,
        v@.drop_first().first() == v.y,
        v@.drop_first().drop_first().first() == v.z,
        v@.drop_first().drop_first().drop_first().len() == 0,
{
    assert(v@.drop_first() =~= seq![v.y, v.z]);
    assert(v@.drop_first().drop_first() =~= seq![v.z]);
}

/// Taking the absolute value twice is the same as taking it once.
pub proof fn lemma_tuple3_abs_idempotent<T: Numeric>(v: Tuple3<T>)
    requires
        v.abs_req(),
    ensures
        v.abs_spec().abs_req(),
        v.abs_spec().abs_spec() == v.abs_spec(),
{
    T::abs_idempotent(v.x);
    T::abs_idempotent(v.y);
    T::abs_idempotent(v.z);
}

/// Over a scalar type without negative values, as every unsigned integer
/// type is, the absolute value of a tuple is the tuple itself.
pub proof fn lemma_tuple3_abs_identity<T: Numeric>(v: Tuple3<T>)
    requires
        forall|t: T| #![auto] t.value() >= 0,
    ensures
        v.abs_req(),
        v.abs_spec() == v,
{
    T::obeys_arithmetic();
    T::abs_is_magnitude();
    assert(T::abs_spec(v.x).value() == v.x.value());
    assert(T::abs_spec(v.y).value() == v.y.value());
    assert(T::abs_spec(v.z).value() == v.z.value());
}

/// The absolute value exists where every magnitude is representable, and
/// each component of it stands for the magnitude of the component it
/// replaces.
pub proof fn lemma_tuple3_abs_values<T: Numeric>(v: Tuple3<T>, i: int)
    requires
        0 <= i < 3,
    ensures
        v.abs_req() <==> T::representable(abs(v.x.value()) as int)
            && T::representable(abs(v.y.value()) as int)
            && T::representable(abs(v.z.value()) as int),
        v.abs_req() ==> v.abs_spec()@[i].value() == abs(v@[i].value()),
{
    T::abs_is_magnitude();
}

/// Each component of the multiply-add stands for the product of the
/// components of `t0` and `t1` at its position plus that of `t2`.
pub proof fn lemma_tuple3_fma_values<T: Numeric>(
    t0: Tuple3<T>,
    t1: Tuple3<T>,
    t2: Tuple3<T>,
    i: int,
)
    requires
        0 <= i < 3,
        Tuple3::fma_req(t0, t1, t2),
    ensures
        Tuple3::fma_spec(t0, t1, t2)@[i].value() == t0@[i].value() * t1@[i].value()
            + t2@[i].value(),
        Tuple3::fma_spec(t0, t1, t2) == t0.mul_spec(t1).add_spec(t2),
{
    T::obeys_arithmetic();
}

/// Each component of the interpolation stands for `a * (1 - t) + b * t`,
/// where `a` and `b` are the components of `t0` and `t1` at its position.
/// At the ratio 0 the interpolation is `t0`, and at the ratio 1 it is `t1`.
pub proof fn lemma_tuple3_lerp_values<T: Numeric>(t0: Tuple3<T>, t1: Tuple3<T>, t: T, i: int)
    requires
        0 <= i < 3,
        Tuple3::lerp_req(t0, t1, t),
    ensures
        Tuple3::lerp_spec(t0, t1, t)@[i].value() == t0@[i].value() * (1 - t.value())
            + t1@[i].value()
            * t.value(),
        t.value() == 0 ==> Tuple3::lerp_spec(t0, t1, t) == t0,
        t.value() == 1 ==> Tuple3::lerp_spec(t0, t1, t) == t1,
{
    T::obeys_arithmetic();
    let r = Tuple3::lerp_spec(t0, t1, t);
    let s = T::one_spec().sub_spec(t);
    assert(s.value() == 1 - t.value());
    assert(r.x.value() == t0.x.value() * s.value() + t1.x.value() * t.value());
    assert(r.y.value() == t0.y.value() * s.value() + t1.y.value() * t.value());
    assert(r.z.value() == t0.z.value() * s.value() + t1.z.value() * t.value());
    lemma_interpolation_ends(t0.x.value(), t1.x.value(), t.value());
    lemma_interpolation_ends(t0.y.value(), t1.y.value(), t.value());
    lemma_interpolation_ends(t0.z.value(), t1.z.value(), t.value());
}

/// Each component of the maximum stands for the larger, and each component
/// of the minimum for the smaller, of the two integers at its position.
pub proof fn lemma_tuple3_max_min_values<T: Numeric>(t0: Tuple3<T>, t1: Tuple3<T>, i: int)
    requires
        0 <= i < 3,
    ensures
        Tuple3::max_spec(t0, t1)@[i].value() == max(t0@[i].value(), t1@[i].value()),
        Tuple3::min_spec(t0, t1)@[i].value() == min(t0@[i].value(), t1@[i].value()),
        Tuple3::max_spec(t0, t1)@[i] == t0@[i] || Tuple3::max_spec(t0, t1)@[i] == t1@[i],
        Tuple3::min_spec(t0, t1)@[i] == t0@[i] || Tuple3::min_spec(t0, t1)@[i] == t1@[i],
{
}

} // verus!
