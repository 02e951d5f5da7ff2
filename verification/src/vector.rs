use crate::abs::Abs;
use crate::assign::CompoundAssign;
use crate::numeric::quotient_toward_zero;
use crate::numeric::Natural;
use crate::numeric::Numeric;
use std::ops::Add;
use std::ops::Div;
use std::ops::Index;
use std::ops::Mul;
use std::ops::Sub;
use vstd::math::abs;
use vstd::prelude::*;
use vstd::std_specs::cmp::PartialEqSpec;
use vstd::std_specs::ops::AddSpec;
use vstd::std_specs::ops::DivSpec;
use vstd::std_specs::ops::MulSpec;
use vstd::std_specs::ops::SubSpec;

verus! {

/// A generic vector: a fixed number of scalars with an absolute value and a
/// dot product.
///
/// `abs_req` and `dot_req` say when the operation can be evaluated without
/// leaving the scalar type; `abs_spec` and `dot_spec` say what it yields.
pub trait Vector<T: Numeric>: Add<Self, Output = Self> + Add<T, Output = Self> + CompoundAssign<
    Self,
> + CompoundAssign<T> + Div<Self, Output = Self> + Div<T, Output = Self> + Index<usize> + Mul<
    Self,
    Output = Self,
> + Mul<T, Output = Self> + PartialEq + Sub<Self, Output = Self> + Sub<T, Output = Self> + Sized {
    /// The number of components of every vector of this type.
    spec fn spec_ndim() -> nat;

    spec fn abs_req(&self) -> bool;

    spec fn abs_spec(&self) -> Self;

    spec fn dot_req(&self, other: &Self) -> bool;

    spec fn dot_spec(&self, other: &Self) -> T;

    /// Returns a vector where each of the components are of their respective
    /// absolute values.
    fn abs(&self) -> (r: Self)
        requires
            self.abs_req(),
        ensures
            r == self.abs_spec(),
    ;

    /// Returns the number of elements in the vector.
    fn ndim() -> (n: usize)
        ensures
            n == Self::spec_ndim(),
    ;

    /// Computes the dot product between two vectors.
    fn dot(&self, other: &Self) -> (r: T)
        requires
            self.dot_req(other),
        ensures
            r == self.dot_spec(other),
    ;
}

/// A pair of scalars of one type, with a dot product.
///
/// Its view is the sequence of its components in declaration order.
#[derive(Debug, Copy)]
pub struct Vector2<T: Numeric> {
    pub x: T,
    pub y: T,
}

impl<T: Numeric> Clone for Vector2<T> {
    fn clone(&self) -> (r: Self)
        ensures
            r == *self,
    {
        *self
    }
}

impl<T: Numeric> View for Vector2<T> {
    type V = Seq<T>;

    open spec fn view(&self) -> Seq<T> {
        seq![self.x, self.y]
    }
}

impl<T: Numeric> Vector2<T> {
    pub fn new(x: T, y: T) -> (r: Self)
        ensures
            r.x == x,
            r.y == y,
    {
        Vector2 { x, y }
    }

    /// A cursor that stands before the first component.
    pub fn into_iter(self) -> (it: Vector2Iter<T>)
        ensures
            it.remaining() == self@,
    {
        let it = Vector2Iter { vec: self, index: 0 };
        assert(it.remaining() =~= self@);
        it
    }

    /// A mutable borrow of the component at `index`.
    pub fn index_mut(&mut self, index: usize) -> (r: &mut T)
        requires
            index < 2,
        ensures
            *r == old(self)@[index as int],
            final(self)@ == old(self)@.update(index as int, *final(r)),
    {
        match index {
            0 => &mut self.x,
            1 => &mut self.y,
            _ => unreached(),
        }
    }
}

impl<T: Numeric> Vector<T> for Vector2<T> {
    open spec fn spec_ndim() -> nat {
        2
    }

    open spec fn abs_req(&self) -> bool {
        T::abs_req(self.x) && T::abs_req(self.y)
    }

    open spec fn abs_spec(&self) -> Self {
        Vector2 { x: T::abs_spec(self.x), y: T::abs_spec(self.y) }
    }

    /// Every product and every partial sum, taken from left to right, can be
    /// evaluated.
    open spec fn dot_req(&self, other: &Self) -> bool {
        &&& self.x.mul_req(other.x)
        &&& self.y.mul_req(other.y)
        &&& self.x.mul_spec(other.x).add_req(self.y.mul_spec(other.y))
    }

    open spec fn dot_spec(&self, other: &Self) -> T {
        self.x.mul_spec(other.x).add_spec(self.y.mul_spec(other.y))
    }

    fn ndim() -> (n: usize)
        ensures
            n == 2,
    {
        2
    }

    fn dot(&self, other: &Self) -> (r: T) {
        proof {
            T::obeys_arithmetic();
        }
        self.x * other.x + self.y * other.y
    }

    fn abs(&self) -> (r: Self) {
        Vector2 { x: T::abs(self.x), y: T::abs(self.y) }
    }
}

/// A cursor over the components of a [`Vector2`]: a copy of the vector and the
/// position of the component that comes next.
pub struct Vector2Iter<T: Numeric> {
    vec: Vector2<T>,
    index: usize,
}

impl<T: Numeric> Vector2Iter<T> {
    /// The components that are still to come, in order.
    pub closed spec fn remaining(&self) -> Seq<T> {
        if self.index < 2 {
            self.vec@.skip(self.index as int)
        } else {
            Seq::empty()
        }
    }

    /// Hands out the next component and moves past it, or returns `None`
    /// once both have been handed out.
    pub fn next(&mut self) -> (r: Option<T>)
        ensures
            old(self).remaining().len() == 0 ==> r.is_none() && final(self).remaining() == old(
                self,
            ).remaining(),
            old(self).remaining().len() > 0 ==> r == Some(old(self).remaining().first())
                && final(self).remaining() == old(self).remaining().drop_first(),
    {
        let result = match self.index {
            0 => self.vec.x,
            1 => self.vec.y,
            _ => {
                return None;
            },
        };
        self.index += 1;
        assert(self.remaining() =~= old(self).remaining().drop_first());
        Some(result)
    }
}

impl<T: Numeric> PartialEq for Vector2<T> {
    /// Two vectors are equal when both components are.
    fn eq(&self, other: &Self) -> (r: bool)
        ensures
            r == (*self == *other),
    {
        proof {
            T::obeys_arithmetic();
        }
        self.x == other.x && self.y == other.y
    }
}

impl<T: Numeric> vstd::std_specs::cmp::PartialEqSpecImpl for Vector2<T> {
    open spec fn obeys_eq_spec() -> bool {
        true
    }

    open spec fn eq_spec(&self, other: &Self) -> bool {
        *self == *other
    }
}

impl<T: Numeric> Add<Vector2<T>> for Vector2<T> {
    type Output = Vector2<T>;

    /// The componentwise sum of two vectors.
    fn add(self, rhs: Self) -> (r: Self)
        ensures
            r.x == self.x.add_spec(rhs.x),
            r.y == self.y.add_spec(rhs.y),
    {
        proof {
            T::obeys_arithmetic();
        }
        Vector2 { x: self.x + rhs.x, y: self.y + rhs.y }
    }
}

impl<T: Numeric> vstd::std_specs::ops::AddSpecImpl<Vector2<T>> for Vector2<T> {
    open spec fn obeys_add_spec() -> bool {
        true
    }

    open spec fn add_req(self, rhs: Self) -> bool {
        self.x.add_req(rhs.x) && self.y.add_req(rhs.y)
    }

    open spec fn add_spec(self, rhs: Self) -> Self {
        Vector2 { x: self.x.add_spec(rhs.x), y: self.y.add_spec(rhs.y) }
    }
}

impl<T: Numeric> Add<T> for Vector2<T> {
    type Output = Vector2<T>;

    /// The sum of each component and the scalar `rhs`.
    fn add(self, rhs: T) -> (r: Self)
        ensures
            r.x == self.x.add_spec(rhs),
            r.y == self.y.add_spec(rhs),
    {
        proof {
            T::obeys_arithmetic();
        }
        Vector2 { x: self.x + rhs, y: self.y + rhs }
    }
}

impl<T: Numeric> vstd::std_specs::ops::AddSpecImpl<T> for Vector2<T> {
    open spec fn obeys_add_spec() -> bool {
        true
    }

    open spec fn add_req(self, rhs: T) -> bool {
        self.x.add_req(rhs) && self.y.add_req(rhs)
    }

    open spec fn add_spec(self, rhs: T) -> Self {
        Vector2 { x: self.x.add_spec(rhs), y: self.y.add_spec(rhs) }
    }
}

impl<T: Numeric> Sub<Vector2<T>> for Vector2<T> {
    type Output = Vector2<T>;

    /// The componentwise difference of two vectors.
    fn sub(self, rhs: Self) -> (r: Self)
        ensures
            r.x == self.x.sub_spec(rhs.x),
            r.y == self.y.sub_spec(rhs.y),
    {
        proof {
            T::obeys_arithmetic();
        }
        Vector2 { x: self.x - rhs.x, y: self.y - rhs.y }
    }
}

impl<T: Numeric> vstd::std_specs::ops::SubSpecImpl<Vector2<T>> for Vector2<T> {
    open spec fn obeys_sub_spec() -> bool {
        true
    }

    open spec fn sub_req(self, rhs: Self) -> bool {
        self.x.sub_req(rhs.x) && self.y.sub_req(rhs.y)
    }

    open spec fn sub_spec(self, rhs: Self) -> Self {
        Vector2 { x: self.x.sub_spec(rhs.x), y: self.y.sub_spec(rhs.y) }
    }
}

impl<T: Numeric> Sub<T> for Vector2<T> {
    type Output = Vector2<T>;

    /// The difference of each component and the scalar `rhs`.
    fn sub(self, rhs: T) -> (r: Self)
        ensures
            r.x == self.x.sub_spec(rhs),
            r.y == self.y.sub_spec(rhs),
    {
        proof {
            T::obeys_arithmetic();
        }
        Vector2 { x: self.x - rhs, y: self.y - rhs }
    }
}

impl<T: Numeric> vstd::std_specs::ops::SubSpecImpl<T> for Vector2<T> {
    open spec fn obeys_sub_spec() -> bool {
        true
    }

    open spec fn sub_req(self, rhs: T) -> bool {
        self.x.sub_req(rhs) && self.y.sub_req(rhs)
    }

    open spec fn sub_spec(self, rhs: T) -> Self {
        Vector2 { x: self.x.sub_spec(rhs), y: self.y.sub_spec(rhs) }
    }
}

impl<T: Numeric> Mul<Vector2<T>> for Vector2<T> {
    type Output = Vector2<T>;

    /// The componentwise product of two vectors.
    fn mul(self, rhs: Self) -> (r: Self)
        ensures
            r.x == self.x.mul_spec(rhs.x),
            r.y == self.y.mul_spec(rhs.y),
    {
        proof {
            T::obeys_arithmetic();
        }
        Vector2 { x: self.x * rhs.x, y: self.y * rhs.y }
    }
}

impl<T: Numeric> vstd::std_specs::ops::MulSpecImpl<Vector2<T>> for Vector2<T> {
    open spec fn obeys_mul_spec() -> bool {
        true
    }

    open spec fn mul_req(self, rhs: Self) -> bool {
        self.x.mul_req(rhs.x) && self.y.mul_req(rhs.y)
    }

    open spec fn mul_spec(self, rhs: Self) -> Self {
        Vector2 { x: self.x.mul_spec(rhs.x), y: self.y.mul_spec(rhs.y) }
    }
}

impl<T: Numeric> Mul<T> for Vector2<T> {
    type Output = Vector2<T>;

    /// The product of each component and the scalar `rhs`.
    fn mul(self, rhs: T) -> (r: Self)
        ensures
            r.x == self.x.mul_spec(rhs),
            r.y == self.y.mul_spec(rhs),
    {
        proof {
            T::obeys_arithmetic();
        }
        Vector2 { x: self.x * rhs, y: self.y * rhs }
    }
}

impl<T: Numeric> vstd::std_specs::ops::MulSpecImpl<T> for Vector2<T> {
    open spec fn obeys_mul_spec() -> bool {
        true
    }

    open spec fn mul_req(self, rhs: T) -> bool {
        self.x.mul_req(rhs) && self.y.mul_req(rhs)
    }

    open spec fn mul_spec(self, rhs: T) -> Self {
        Vector2 { x: self.x.mul_spec(rhs), y: self.y.mul_spec(rhs) }
    }
}

impl<T: Numeric> Div<Vector2<T>> for Vector2<T> {
    type Output = Vector2<T>;

    /// The componentwise quotient of two vectors.
    fn div(self, rhs: Self) -> (r: Self)
        ensures
            r.x == self.x.div_spec(rhs.x),
            r.y == self.y.div_spec(rhs.y),
    {
        proof {
            T::obeys_arithmetic();
        }
        Vector2 { x: self.x / rhs.x, y: self.y / rhs.y }
    }
}

impl<T: Numeric> vstd::std_specs::ops::DivSpecImpl<Vector2<T>> for Vector2<T> {
    open spec fn obeys_div_spec() -> bool {
        true
    }

    open spec fn div_req(self, rhs: Self) -> bool {
        self.x.div_req(rhs.x) && self.y.div_req(rhs.y)
    }

    open spec fn div_spec(self, rhs: Self) -> Self {
        Vector2 { x: self.x.div_spec(rhs.x), y: self.y.div_spec(rhs.y) }
    }
}

impl<T: Numeric> Div<T> for Vector2<T> {
    type Output = Vector2<T>;

    /// The quotient of each component and the scalar `rhs`.
    fn div(self, rhs: T) -> (r: Self)
        ensures
            r.x == self.x.div_spec(rhs),
            r.y == self.y.div_spec(rhs),
    {
        proof {
            T::obeys_arithmetic();
        }
        Vector2 { x: self.x / rhs, y: self.y / rhs }
    }
}

impl<T: Numeric> vstd::std_specs::ops::DivSpecImpl<T> for Vector2<T> {
    open spec fn obeys_div_spec() -> bool {
        true
    }

    open spec fn div_req(self, rhs: T) -> bool {
        self.x.div_req(rhs) && self.y.div_req(rhs)
    }

    open spec fn div_spec(self, rhs: T) -> Self {
        Vector2 { x: self.x.div_spec(rhs), y: self.y.div_spec(rhs) }
    }
}

impl<T: Numeric> CompoundAssign<Vector2<T>> for Vector2<T> {
    fn add_assign(&mut self, rhs: Vector2<T>)
        ensures
            *final(self) == old(self).add_spec(rhs),
    {
        proof {
            T::obeys_arithmetic();
        }
        self.x = self.x + rhs.x;
        self.y = self.y + rhs.y;
    }

    fn sub_assign(&mut self, rhs: Vector2<T>)
        ensures
            *final(self) == old(self).sub_spec(rhs),
    {
        proof {
            T::obeys_arithmetic();
        }
        self.x = self.x - rhs.x;
        self.y = self.y - rhs.y;
    }

    fn mul_assign(&mut self, rhs: Vector2<T>)
        ensures
            *final(self) == old(self).mul_spec(rhs),
    {
        proof {
            T::obeys_arithmetic();
        }
        self.x = self.x * rhs.x;
        self.y = self.y * rhs.y;
    }

    fn div_assign(&mut self, rhs: Vector2<T>)
        ensures
            *final(self) == old(self).div_spec(rhs),
    {
        proof {
            T::obeys_arithmetic();
        }
        self.x = self.x / rhs.x;
        self.y = self.y / rhs.y;
    }
}

impl<T: Numeric> CompoundAssign<T> for Vector2<T> {
    fn add_assign(&mut self, rhs: T)
        ensures
            *final(self) == old(self).add_spec(rhs),
    {
        proof {
            T::obeys_arithmetic();
        }
        self.x = self.x + rhs;
        self.y = self.y + rhs;
    }

    fn sub_assign(&mut self, rhs: T)
        ensures
            *final(self) == old(self).sub_spec(rhs),
    {
        proof {
            T::obeys_arithmetic();
        }
        self.x = self.x - rhs;
        self.y = self.y - rhs;
    }

    fn mul_assign(&mut self, rhs: T)
        ensures
            *final(self) == old(self).mul_spec(rhs),
    {
        proof {
            T::obeys_arithmetic();
        }
        self.x = self.x * rhs;
        self.y = self.y * rhs;
    }

    fn div_assign(&mut self, rhs: T)
        ensures
            *final(self) == old(self).div_spec(rhs),
    {
        proof {
            T::obeys_arithmetic();
        }
        self.x = self.x / rhs;
        self.y = self.y / rhs;
    }
}

impl<T: Numeric> Index<usize> for Vector2<T> {
    type Output = T;

    /// The component at `index`.
    fn index(&self, index: usize) -> (r: &T)
        ensures
            *r == self@[index as int],
    {
        match index {
            0 => &self.x,
            1 => &self.y,
            _ => unreached(),
        }
    }
}

impl<T: Numeric> vstd::std_specs::core::IndexSpecImpl<usize> for Vector2<T> {
    /// Only the positions `0` to `1` hold a component.
    open spec fn index_req(&self, index: &usize) -> bool {
        *index < 2
    }
}

/// Arithmetic is componentwise: at every position, the result of `+ - * /`
/// with another vector or with a scalar is the result of the same operator
/// on the components at that position, and the operator may be applied to
/// the vector only where it may be applied to those components.
pub proof fn lemma_vector2_componentwise<T: Numeric>(a: Vector2<T>, b: Vector2<T>, k: T, i: int)
    requires
        0 <= i < 2,
    ensures
        a.add_spec(b)@[i] == a@[i].add_spec(b@[i]),
        a.add_spec(k)@[i] == a@[i].add_spec(k),
        a.add_req(b) ==> a@[i].add_req(b@[i]),
        a.add_req(k) ==> a@[i].add_req(k),
        a.sub_spec(b)@[i] == a@[i].sub_spec(b@[i]),
        a.sub_spec(k)@[i] == a@[i].sub_spec(k),
        a.sub_req(b) ==> a@[i].sub_req(b@[i]),
        a.sub_req(k) ==> a@[i].sub_req(k),
        a.mul_spec(b)@[i] == a@[i].mul_spec(b@[i]),
        a.mul_spec(k)@[i] == a@[i].mul_spec(k),
        a.mul_req(b) ==> a@[i].mul_req(b@[i]),
        a.mul_req(k) ==> a@[i].mul_req(k),
        a.div_spec(b)@[i] == a@[i].div_spec(b@[i]),
        a.div_spec(k)@[i] == a@[i].div_spec(k),
        a.div_req(b) ==> a@[i].div_req(b@[i]),
        a.div_req(k) ==> a@[i].div_req(k),
{
}

/// Arithmetic is exact: wherever `+ - * /` may be applied, with another
/// vector or with a scalar, the exact result at every position is
/// representable, and the component of the result stands for it. Division
/// rounds toward zero and is by a scalar other than zero.
pub proof fn lemma_vector2_arithmetic_values<T: Numeric>(a: Vector2<T>, b: Vector2<T>, k: T, i: int)
    requires
        0 <= i < 2,
    ensures
        a.add_req(b) ==> T::representable(a@[i].value() + b@[i].value()),
        a.add_req(b) ==> a.add_spec(b)@[i].value() == a@[i].value() + b@[i].value(),
        a.add_req(k) ==> T::representable(a@[i].value() + k.value()),
        a.add_req(k) ==> a.add_spec(k)@[i].value() == a@[i].value() + k.value(),
        a.sub_req(b) ==> T::representable(a@[i].value() - b@[i].value()),
        a.sub_req(b) ==> a.sub_spec(b)@[i].value() == a@[i].value() - b@[i].value(),
        a.sub_req(k) ==> T::representable(a@[i].value() - k.value()),
        a.sub_req(k) ==> a.sub_spec(k)@[i].value() == a@[i].value() - k.value(),
        a.mul_req(b) ==> T::representable(a@[i].value() * b@[i].value()),
        a.mul_req(b) ==> a.mul_spec(b)@[i].value() == a@[i].value() * b@[i].value(),
        a.mul_req(k) ==> T::representable(a@[i].value() * k.value()),
        a.mul_req(k) ==> a.mul_spec(k)@[i].value() == a@[i].value() * k.value(),
        a.div_req(b) ==> b@[i].value() != 0,
        a.div_req(b) ==> T::representable(quotient_toward_zero(a@[i].value(), b@[i].value())),
        a.div_req(b) ==> a.div_spec(b)@[i].value() ==
            quotient_toward_zero(a@[i].value(), b@[i].value()),
        a.div_req(k) ==> k.value() != 0,
        a.div_req(k) ==> T::representable(quotient_toward_zero(a@[i].value(), k.value())),
        a.div_req(k) ==> a.div_spec(k)@[i].value() ==
            quotient_toward_zero(a@[i].value(), k.value()),
{
    T::obeys_arithmetic();
}

/// An operator may be applied to a vector exactly where, at every position,
/// the exact result is representable and, for `/`, the divisor is not zero.
pub proof fn lemma_vector2_arithmetic_defined<T: Numeric>(a: Vector2<T>, b: Vector2<T>, k: T)
    ensures
        a.add_req(b) <==> T::representable(a.x.value() + b.x.value())
            && T::representable(a.y.value() + b.y.value()),
        a.add_req(k) <==> T::representable(a.x.value() + k.value())
            && T::representable(a.y.value() + k.value()),
        a.sub_req(b) <==> T::representable(a.x.value() - b.x.value())
            && T::representable(a.y.value() - b.y.value()),
        a.sub_req(k) <==> T::representable(a.x.value() - k.value())
            && T::representable(a.y.value() - k.value()),
        a.mul_req(b) <==> T::representable(a.x.value() * b.x.value())
            && T::representable(a.y.value() * b.y.value()),
        a.mul_req(k) <==> T::representable(a.x.value() * k.value())
            && T::representable(a.y.value() * k.value()),
        a.div_req(b) <==> b.x.value() != 0
            && T::representable(quotient_toward_zero(a.x.value(), b.x.value()))
            && b.y.value() != 0
            && T::representable(quotient_toward_zero(a.y.value(), b.y.value())),
        a.div_req(k) <==> k.value() != 0
            && T::representable(quotient_toward_zero(a.x.value(), k.value()))
            && k.value() != 0
            && T::representable(quotient_toward_zero(a.y.value(), k.value())),
{
    T::obeys_arithmetic();
}

/// In-place and binary arithmetic agree: an in-place operator leaves
/// `a.op_spec(rhs)` in the receiver, and that vector has at each position
/// what the binary operator returns there.
pub proof fn lemma_vector2_compound_assignment<T: Numeric>(a: Vector2<T>, b: Vector2<T>, k: T)
    ensures
        a.add_spec(b) == (Vector2 { x: a.x.add_spec(b.x), y: a.y.add_spec(b.y) }),
        a.add_spec(k) == (Vector2 { x: a.x.add_spec(k), y: a.y.add_spec(k) }),
        a.sub_spec(b) == (Vector2 { x: a.x.sub_spec(b.x), y: a.y.sub_spec(b.y) }),
        a.sub_spec(k) == (Vector2 { x: a.x.sub_spec(k), y: a.y.sub_spec(k) }),
        a.mul_spec(b) == (Vector2 { x: a.x.mul_spec(b.x), y: a.y.mul_spec(b.y) }),
        a.mul_spec(k) == (Vector2 { x: a.x.mul_spec(k), y: a.y.mul_spec(k) }),
        a.div_spec(b) == (Vector2 { x: a.x.div_spec(b.x), y: a.y.div_spec(b.y) }),
        a.div_spec(k) == (Vector2 { x: a.x.div_spec(k), y: a.y.div_spec(k) }),
{
}

/// A vector has two components; writing one position changes that position
/// and no other, and reading it back gives the value written. Exactly the
/// positions below 2 can be read.
pub proof fn lemma_vector2_index_round_trip<T: Numeric>(v: Vector2<T>, i: int, j: int, value: T)
    requires
        0 <= i < 2,
        0 <= j < 2,
    ensures
        v@.len() == 2,
        Vector2::<T>::spec_ndim() == v@.len(),
        v@.update(i, value)[i] == value,
        i != j ==> v@.update(i, value)[j] == v@[j],
        forall|p: usize| #![auto] vstd::std_specs::core::IndexSpec::index_req(&v, &p) <==> p < 2,
{
}

/// Iteration runs through the components in declaration order and then ends:
/// taking the first of what remains and dropping it, twice over, yields
/// `x`, then `y`, and leaves nothing. A cursor does not change the vector it
/// was made from, so each fresh cursor runs through the same sequence.
pub proof fn lemma_vector2_iteration<T: Numeric>(v: Vector2<T>)
    ensures
        v@ == seq![v.x, v.y],
        v@.first() == v.x,
        v@.drop_first().first() == v.y,
        v@.drop_first().drop_first().len() == 0,
{
    assert(v@.drop_first() =~= seq![v.y]);
}

/// Taking the absolute value twice is the same as taking it once.
pub proof fn lemma_vector2_abs_idempotent<T: Numeric>(v: Vector2<T>)
    requires
        v.abs_req(),
    ensures
        v.abs_spec().abs_req(),
        v.abs_spec().abs_spec() == v.abs_spec(),
{
    T::abs_idempotent(v.x);
    T::abs_idempotent(v.y);
}

/// Over a scalar type without negative values, as every unsigned integer
/// type is, the absolute value of a vector is the vector itself.
pub proof fn lemma_vector2_abs_identity<T: Numeric>(v: Vector2<T>)
    requires
        forall|t: T| #![auto] t.value() >= 0,
    ensures
        v.abs_req(),
        v.abs_spec() == v,
{
    T::obeys_arithmetic();
    T::abs_is_magnitude();
    assert(T::abs_spec(v.x).value() == v.x.value());
    assert(T::abs_spec(v.y).value() == v.y.value());
}

/// The absolute value exists where every magnitude is representable, and
/// each component of it stands for the magnitude of the component it
/// replaces.
pub proof fn lemma_vector2_abs_values<T: Numeric>(v: Vector2<T>, i: int)
    requires
        0 <= i < 2,
    ensures
        v.abs_req() <==> T::representable(abs(v.x.value()) as int)
            && T::representable(abs(v.y.value()) as int),
        v.abs_req() ==> v.abs_spec()@[i].value() == abs(v@[i].value()),
{
    T::abs_is_magnitude();
}

/// The dot product can be evaluated exactly where every product and every
/// sum of the first two or more products is representable, and then stands
/// for the sum of the products of the components at each position.
pub proof fn lemma_vector2_dot_value<T: Numeric>(v: Vector2<T>, w: Vector2<T>)
    ensures
        v.dot_req(&w) <==> T::representable(v.x.value() * w.x.value())
            && T::representable(v.y.value() * w.y.value())
            && T::representable(v.x.value() * w.x.value() + v.y.value() * w.y.value()),
        v.dot_req(&w) ==> v.dot_spec(&w).value() == v.x.value() * w.x.value()
            + v.y.value() * w.y.value(),
{
    T::obeys_arithmetic();
}

/// A pair of `i32` components.
pub type Vector2i32 = Vector2<i32>;

/// A triple of scalars of one type, with a dot product.
///
/// Its view is the sequence of its components in declaration order.
#[derive(Debug, Copy)]
pub struct Vector3<T: Numeric> {
    pub x: T,
    pub y: T,
    pub z: T,
}

impl<T: Numeric> Clone for Vector3<T> {
    fn clone(&self) -> (r: Self)
        ensures
            r == *self,
    {
        *self
    }
}

impl<T: Numeric> View for Vector3<T> {
    type V = Seq<T>;

    open spec fn view(&self) -> Seq<T> {
        seq![self.x, self.y, self.z]
    }
}

impl<T: Numeric> Vector3<T> {
    pub fn new(x: T, y: T, z: T) -> (r: Self)
        ensures
            r.x == x,
            r.y == y,
            r.z == z,
    {
        Vector3 { x, y, z }
    }

    /// A cursor that stands before the first component.
    pub fn into_iter(self) -> (it: Vector3Iter<T>)
        ensures
            it.remaining() == self@,
    {
        let it = Vector3Iter { vec: self, index: 0 };
        assert(it.remaining() =~= self@);
        it
    }

    /// A mutable borrow of the component at `index`.
    pub fn index_mut(&mut self, index: usize) -> (r: &mut T)
        requires
            index < 3,
        ensures
            *r == old(self)@[index as int],
            final(self)@ == old(self)@.update(index as int, *final(r)),
    {
        match index {
            0 => &mut self.x,
            1 => &mut self.y,
            2 => &mut self.z,
            _ => unreached(),
        }
    }
}

impl<T: Numeric> Vector<T> for Vector3<T> {
    open spec fn spec_ndim() -> nat {
        3
    }

    open spec fn abs_req(&self) -> bool {
        T::abs_req(self.x) && T::abs_req(self.y) && T::abs_req(self.z)
    }

    open spec fn abs_spec(&self) -> Self {
        Vector3 { x: T::abs_spec(self.x), y: T::abs_spec(self.y), z: T::abs_spec(self.z) }
    }

    /// Every product and every partial sum, taken from left to right, can be
    /// evaluated.
    open spec fn dot_req(&self, other: &Self) -> bool {
        &&& self.x.mul_req(other.x)
        &&& self.y.mul_req(other.y)
        &&& self.z.mul_req(other.z)
        &&& self.x.mul_spec(other.x).add_req(self.y.mul_spec(other.y))
        &&& self.x.mul_spec(other.x).add_spec(self.y.mul_spec(other.y)).add_req(
            self.z.mul_spec(other.z),
        )
    }

    open spec fn dot_spec(&self, other: &Self) -> T {
        self.x.mul_spec(other.x).add_spec(self.y.mul_spec(other.y)).add_spec(
            self.z.mul_spec(other.z),
        )
    }

    fn ndim() -> (n: usize)
        ensures
            n == 3,
    {
        3
    }

    fn dot(&self, other: &Self) -> (r: T) {
        proof {
            T::obeys_arithmetic();
        }
        self.x * other.x + self.y * other.y + self.z * other.z
    }

    fn abs(&self) -> (r: Self) {
        Vector3 { x: T::abs(self.x), y: T::abs(self.y), z: T::abs(self.z) }
    }
}

/// A cursor over the components of a [`Vector3`]: a copy of the vector and the
/// position of the component that comes next.
pub struct Vector3Iter<T: Numeric> {
    vec: Vector3<T>,
    index: usize,
}

impl<T: Numeric> Vector3Iter<T> {
    /// The components that are still to come, in order.
    pub closed spec fn remaining(&self) -> Seq<T> {
        if self.index < 3 {
            self.vec@.skip(self.index as int)
        } else {
            Seq::empty()
        }
    }

    /// Hands out the next component and moves past it, or returns `None`
    /// once all three have been handed out.
    pub fn next(&mut self) -> (r: Option<T>)
        ensures
            old(self).remaining().len() == 0 ==> r.is_none() && final(self).remaining() == old(
                self,
            ).remaining(),
            old(self).remaining().len() > 0 ==> r == Some(old(self).remaining().first())
                && final(self).remaining() == old(self).remaining().drop_first(),
    {
        let result = match self.index {
            0 => self.vec.x,
            1 => self.vec.y,
            2 => self.vec.z,
            _ => {
                return None;
            },
        };
        self.index += 1;
        assert(self.remaining() =~= old(self).remaining().drop_first());
        Some(result)
    }
}

impl<T: Numeric> PartialEq for Vector3<T> {
    /// Two vectors are equal when all three components are.
    fn eq(&self, other: &Self) -> (r: bool)
        ensures
            r == (*self == *other),
    {
        proof {
            T::obeys_arithmetic();
        }
        self.x == other.x && self.y == other.y && self.z == other.z
    }
}

impl<T: Numeric> vstd::std_specs::cmp::PartialEqSpecImpl for Vector3<T> {
    open spec fn obeys_eq_spec() -> bool {
        true
    }

    open spec fn eq_spec(&self, other: &Self) -> bool {
        *self == *other
    }
}

impl<T: Numeric> Add<Vector3<T>> for Vector3<T> {
    type Output = Vector3<T>;

    /// The componentwise sum of two vectors.
    fn add(self, rhs: Self) -> (r: Self)
        ensures
            r.x == self.x.add_spec(rhs.x),
            r.y == self.y.add_spec(rhs.y),
            r.z == self.z.add_spec(rhs.z),
    {
        proof {
            T::obeys_arithmetic();
        }
        Vector3 { x: self.x + rhs.x, y: self.y + rhs.y, z: self.z + rhs.z }
    }
}

impl<T: Numeric> vstd::std_specs::ops::AddSpecImpl<Vector3<T>> for Vector3<T> {
    open spec fn obeys_add_spec() -> bool {
        true
    }

    open spec fn add_req(self, rhs: Self) -> bool {
        self.x.add_req(rhs.x) && self.y.add_req(rhs.y) && self.z.add_req(rhs.z)
    }

    open spec fn add_spec(self, rhs: Self) -> Self {
        Vector3 { x: self.x.add_spec(rhs.x), y: self.y.add_spec(rhs.y), z: self.z.add_spec(rhs.z) }
    }
}

impl<T: Numeric> Add<T> for Vector3<T> {
    type Output = Vector3<T>;

    /// The sum of each component and the scalar `rhs`.
    fn add(self, rhs: T) -> (r: Self)
        ensures
            r.x == self.x.add_spec(rhs),
            r.y == self.y.add_spec(rhs),
            r.z == self.z.add_spec(rhs),
    {
        proof {
            T::obeys_arithmetic();
        }
        Vector3 { x: self.x + rhs, y: self.y + rhs, z: self.z + rhs }
    }
}

impl<T: Numeric> vstd::std_specs::ops::AddSpecImpl<T> for Vector3<T> {
    open spec fn obeys_add_spec() -> bool {
        true
    }

    open spec fn add_req(self, rhs: T) -> bool {
        self.x.add_req(rhs) && self.y.add_req(rhs) && self.z.add_req(rhs)
    }

    open spec fn add_spec(self, rhs: T) -> Self {
        Vector3 { x: self.x.add_spec(rhs), y: self.y.add_spec(rhs), z: self.z.add_spec(rhs) }
    }
}

impl<T: Numeric> Sub<Vector3<T>> for Vector3<T> {
    type Output = Vector3<T>;

    /// The componentwise difference of two vectors.
    fn sub(self, rhs: Self) -> (r: Self)
        ensures
            r.x == self.x.sub_spec(rhs.x),
            r.y == self.y.sub_spec(rhs.y),
            r.z == self.z.sub_spec(rhs.z),
    {
        proof {
            T::obeys_arithmetic();
        }
        Vector3 { x: self.x - rhs.x, y: self.y - rhs.y, z: self.z - rhs.z }
    }
}

impl<T: Numeric> vstd::std_specs::ops::SubSpecImpl<Vector3<T>> for Vector3<T> {
    open spec fn obeys_sub_spec() -> bool {
        true
    }

    open spec fn sub_req(self, rhs: Self) -> bool {
        self.x.sub_req(rhs.x) && self.y.sub_req(rhs.y) && self.z.sub_req(rhs.z)
    }

    open spec fn sub_spec(self, rhs: Self) -> Self {
        Vector3 { x: self.x.sub_spec(rhs.x), y: self.y.sub_spec(rhs.y), z: self.z.sub_spec(rhs.z) }
    }
}

impl<T: Numeric> Sub<T> for Vector3<T> {
    type Output = Vector3<T>;

    /// The difference of each component and the scalar `rhs`.
    fn sub(self, rhs: T) -> (r: Self)
        ensures
            r.x == self.x.sub_spec(rhs),
            r.y == self.y.sub_spec(rhs),
            r.z == self.z.sub_spec(rhs),
    {
        proof {
            T::obeys_arithmetic();
        }
        Vector3 { x: self.x - rhs, y: self.y - rhs, z: self.z - rhs }
    }
}

impl<T: Numeric> vstd::std_specs::ops::SubSpecImpl<T> for Vector3<T> {
    open spec fn obeys_sub_spec() -> bool {
        true
    }

    open spec fn sub_req(self, rhs: T) -> bool {
        self.x.sub_req(rhs) && self.y.sub_req(rhs) && self.z.sub_req(rhs)
    }

    open spec fn sub_spec(self, rhs: T) -> Self {
        Vector3 { x: self.x.sub_spec(rhs), y: self.y.sub_spec(rhs), z: self.z.sub_spec(rhs) }
    }
}

impl<T: Numeric> Mul<Vector3<T>> for Vector3<T> {
    type Output = Vector3<T>;

    /// The componentwise product of two vectors.
    fn mul(self, rhs: Self) -> (r: Self)
        ensures
            r.x == self.x.mul_spec(rhs.x),
            r.y == self.y.mul_spec(rhs.y),
            r.z == self.z.mul_spec(rhs.z),
    {
        proof {
            T::obeys_arithmetic();
        }
        Vector3 { x: self.x * rhs.x, y: self.y * rhs.y, z: self.z * rhs.z }
    }
}

impl<T: Numeric> vstd::std_specs::ops::MulSpecImpl<Vector3<T>> for Vector3<T> {
    open spec fn obeys_mul_spec() -> bool {
        true
    }

    open spec fn mul_req(self, rhs: Self) -> bool {
        self.x.mul_req(rhs.x) && self.y.mul_req(rhs.y) && self.z.mul_req(rhs.z)
    }

    open spec fn mul_spec(self, rhs: Self) -> Self {
        Vector3 { x: self.x.mul_spec(rhs.x), y: self.y.mul_spec(rhs.y), z: self.z.mul_spec(rhs.z) }
    }
}

impl<T: Numeric> Mul<T> for Vector3<T> {
    type Output = Vector3<T>;

    /// The product of each component and the scalar `rhs`.
    fn mul(self, rhs: T) -> (r: Self)
        ensures
            r.x == self.x.mul_spec(rhs),
            r.y == self.y.mul_spec(rhs),
            r.z == self.z.mul_spec(rhs),
    {
        proof {
            T::obeys_arithmetic();
        }
        Vector3 { x: self.x * rhs, y: self.y * rhs, z: self.z * rhs }
    }
}

impl<T: Numeric> vstd::std_specs::ops::MulSpecImpl<T> for Vector3<T> {
    open spec fn obeys_mul_spec() -> bool {
        true
    }

    open spec fn mul_req(self, rhs: T) -> bool {
        self.x.mul_req(rhs) && self.y.mul_req(rhs) && self.z.mul_req(rhs)
    }

    open spec fn mul_spec(self, rhs: T) -> Self {
        Vector3 { x: self.x.mul_spec(rhs), y: self.y.mul_spec(rhs), z: self.z.mul_spec(rhs) }
    }
}

impl<T: Numeric> Div<Vector3<T>> for Vector3<T> {
    type Output = Vector3<T>;

    /// The componentwise quotient of two vectors.
    fn div(self, rhs: Self) -> (r: Self)
        ensures
            r.x == self.x.div_spec(rhs.x),
            r.y == self.y.div_spec(rhs.y),
            r.z == self.z.div_spec(rhs.z),
    {
        proof {
            T::obeys_arithmetic();
        }
        Vector3 { x: self.x / rhs.x, y: self.y / rhs.y, z: self.z / rhs.z }
    }
}

impl<T: Numeric> vstd::std_specs::ops::DivSpecImpl<Vector3<T>> for Vector3<T> {
    open spec fn obeys_div_spec() -> bool {
        true
    }

    open spec fn div_req(self, rhs: Self) -> bool {
        self.x.div_req(rhs.x) && self.y.div_req(rhs.y) && self.z.div_req(rhs.z)
    }

    open spec fn div_spec(self, rhs: Self) -> Self {
        Vector3 { x: self.x.div_spec(rhs.x), y: self.y.div_spec(rhs.y), z: self.z.div_spec(rhs.z) }
    }
}

impl<T: Numeric> Div<T> for Vector3<T> {
    type Output = Vector3<T>;

    /// The quotient of each component and the scalar `rhs`.
    fn div(self, rhs: T) -> (r: Self)
        ensures
            r.x == self.x.div_spec(rhs),
            r.y == self.y.div_spec(rhs),
            r.z == self.z.div_spec(rhs),
    {
        proof {
            T::obeys_arithmetic();
        }
        Vector3 { x: self.x / rhs, y: self.y / rhs, z: self.z / rhs }
    }
}

impl<T: Numeric> vstd::std_specs::ops::DivSpecImpl<T> for Vector3<T> {
    open spec fn obeys_div_spec() -> bool {
        true
    }

    open spec fn div_req(self, rhs: T) -> bool {
        self.x.div_req(rhs) && self.y.div_req(rhs) && self.z.div_req(rhs)
    }

    open spec fn div_spec(self, rhs: T) -> Self {
        Vector3 { x: self.x.div_spec(rhs), y: self.y.div_spec(rhs), z: self.z.div_spec(rhs) }
    }
}

impl<T: Numeric> CompoundAssign<Vector3<T>> for Vector3<T> {
    fn add_assign(&mut self, rhs: Vector3<T>)
        ensures
            *final(self) == old(self).add_spec(rhs),
    {
        proof {
            T::obeys_arithmetic();
        }
        self.x = self.x + rhs.x;
        self.y = self.y + rhs.y;
        self.z = self.z + rhs.z;
    }

    fn sub_assign(&mut self, rhs: Vector3<T>)
        ensures
            *final(self) == old(self).sub_spec(rhs),
    {
        proof {
            T::obeys_arithmetic();
        }
        self.x = self.x - rhs.x;
        self.y = self.y - rhs.y;
        self.z = self.z - rhs.z;
    }

    fn mul_assign(&mut self, rhs: Vector3<T>)
        ensures
            *final(self) == old(self).mul_spec(rhs),
    {
        proof {
            T::obeys_arithmetic();
        }
        self.x = self.x * rhs.x;
        self.y = self.y * rhs.y;
        self.z = self.z * rhs.z;
    }

    fn div_assign(&mut self, rhs: Vector3<T>)
        ensures
            *final(self) == old(self).div_spec(rhs),
    {
        proof {
            T::obeys_arithmetic();
        }
        self.x = self.x / rhs.x;
        self.y = self.y / rhs.y;
        self.z = self.z / rhs.z;
    }
}

impl<T: Numeric> CompoundAssign<T> for Vector3<T> {
    fn add_assign(&mut self, rhs: T)
        ensures
            *final(self) == old(self).add_spec(rhs),
    {
        proof {
            T::obeys_arithmetic();
        }
        self.x = self.x + rhs;
        self.y = self.y + rhs;
        self.z = self.z + rhs;
    }

    fn sub_assign(&mut self, rhs: T)
        ensures
            *final(self) == old(self).sub_spec(rhs),
    {
        proof {
            T::obeys_arithmetic();
        }
        self.x = self.x - rhs;
        self.y = self.y - rhs;
        self.z = self.z - rhs;
    }

    fn mul_assign(&mut self, rhs: T)
        ensures
            *final(self) == old(self).mul_spec(rhs),
    {
        proof {
            T::obeys_arithmetic();
        }
        self.x = self.x * rhs;
        self.y = self.y * rhs;
        self.z = self.z * rhs;
    }

    fn div_assign(&mut self, rhs: T)
        ensures
            *final(self) == old(self).div_spec(rhs),
    {
        proof {
            T::obeys_arithmetic();
        }
        self.x = self.x / rhs;
        self.y = self.y / rhs;
        self.z = self.z / rhs;
    }
}

impl<T: Numeric> Index<usize> for Vector3<T> {
    type Output = T;

    /// The component at `index`.
    fn index(&self, index: usize) -> (r: &T)
        ensures
            *r == self@[index as int],
    {
        match index {
            0 => &self.x,
            1 => &self.y,
            2 => &self.z,
            _ => unreached(),
        }
    }
}

impl<T: Numeric> vstd::std_specs::core::IndexSpecImpl<usize> for Vector3<T> {
    /// Only the positions `0` to `2` hold a component.
    open spec fn index_req(&self, index: &usize) -> bool {
        *index < 3
    }
}

/// Arithmetic is componentwise: at every position, the result of `+ - * /`
/// with another vector or with a scalar is the result of the same operator
/// on the components at that position, and the operator may be applied to
/// the vector only where it may be applied to those components.
pub proof fn lemma_vector3_componentwise<T: Numeric>(a: Vector3<T>, b: Vector3<T>, k: T, i: int)
    requires
        0 <= i < 3,
    ensures
        a.add_spec(b)@[i] == a@[i].add_spec(b@[i]),
        a.add_spec(k)@[i] == a@[i].add_spec(k),
        a.add_req(b) ==> a@[i].add_req(b@[i]),
        a.add_req(k) ==> a@[i].add_req(k),
        a.sub_spec(b)@[i] == a@[i].sub_spec(b@[i]),
        a.sub_spec(k)@[i] == a@[i].sub_spec(k),
        a.sub_req(b) ==> a@[i].sub_req(b@[i]),
        a.sub_req(k) ==> a@[i].sub_req(k),
        a.mul_spec(b)@[i] == a@[i].mul_spec(b@[i]),
        a.mul_spec(k)@[i] == a@[i].mul_spec(k),
        a.mul_req(b) ==> a@[i].mul_req(b@[i]),
        a.mul_req(k) ==> a@[i].mul_req(k),
        a.div_spec(b)@[i] == a@[i].div_spec(b@[i]),
        a.div_spec(k)@[i] == a@[i].div_spec(k),
        a.div_req(b) ==> a@[i].div_req(b@[i]),
        a.div_req(k) ==> a@[i].div_req(k),
{
}

/// Arithmetic is exact: wherever `+ - * /` may be applied, with another
/// vector or with a scalar, the exact result at every position is
/// representable, and the component of the result stands for it. Division
/// rounds toward zero and is by a scalar other than zero.
pub proof fn lemma_vector3_arithmetic_values<T: Numeric>(a: Vector3<T>, b: Vector3<T>, k: T, i: int)
    requires
        0 <= i < 3,
    ensures
        a.add_req(b) ==> T::representable(a@[i].value() + b@[i].value()),
        a.add_req(b) ==> a.add_spec(b)@[i].value() == a@[i].value() + b@[i].value(),
        a.add_req(k) ==> T::representable(a@[i].value() + k.value()),
        a.add_req(k) ==> a.add_spec(k)@[i].value() == a@[i].value() + k.value(),
        a.sub_req(b) ==> T::representable(a@[i].value() - b@[i].value()),
        a.sub_req(b) ==> a.sub_spec(b)@[i].value() == a@[i].value() - b@[i].value(),
        a.sub_req(k) ==> T::representable(a@[i].value() - k.value()),
        a.sub_req(k) ==> a.sub_spec(k)@[i].value() == a@[i].value() - k.value(),
        a.mul_req(b) ==> T::representable(a@[i].value() * b@[i].value()),
        a.mul_req(b) ==> a.mul_spec(b)@[i].value() == a@[i].value() * b@[i].value(),
        a.mul_req(k) ==> T::representable(a@[i].value() * k.value()),
        a.mul_req(k) ==> a.mul_spec(k)@[i].value() == a@[i].value() * k.value(),
        a.div_req(b) ==> b@[i].value() != 0,
        a.div_req(b) ==> T::representable(quotient_toward_zero(a@[i].value(), b@[i].value())),
        a.div_req(b) ==> a.div_spec(b)@[i].value() ==
            quotient_toward_zero(a@[i].value(), b@[i].value()),
        a.div_req(k) ==> k.value() != 0,
        a.div_req(k) ==> T::representable(quotient_toward_zero(a@[i].value(), k.value())),
        a.div_req(k) ==> a.div_spec(k)@[i].value() ==
            quotient_toward_zero(a@[i].value(), k.value()),
{
    T::obeys_arithmetic();
}

/// An operator may be applied to a vector exactly where, at every position,
/// the exact result is representable and, for `/`, the divisor is not zero.
pub proof fn lemma_vector3_arithmetic_defined<T: Numeric>(a: Vector3<T>, b: Vector3<T>, k: T)
    ensures
        a.add_req(b) <==> T::representable(a.x.value() + b.x.value())
            && T::representable(a.y.value() + b.y.value())
            && T::representable(a.z.value() + b.z.value()),
        a.add_req(k) <==> T::representable(a.x.value() + k.value())
            && T::representable(a.y.value() + k.value())
            && T::representable(a.z.value() + k.value()),
        a.sub_req(b) <==> T::representable(a.x.value() - b.x.value())
            && T::representable(a.y.value() - b.y.value())
            && T::representable(a.z.value() - b.z.value()),
        a.sub_req(k) <==> T::representable(a.x.value() - k.value())
            && T::representable(a.y.value() - k.value())
            && T::representable(a.z.value() - k.value()),
        a.mul_req(b) <==> T::representable(a.x.value() * b.x.value())
            && T::representable(a.y.value() * b.y.value())
            && T::representable(a.z.value() * b.z.value()),
        a.mul_req(k) <==> T::representable(a.x.value() * k.value())
            && T::representable(a.y.value() * k.value())
            && T::representable(a.z.value() * k.value()),
        a.div_req(b) <==> b.x.value() != 0
            && T::representable(quotient_toward_zero(a.x.value(), b.x.value()))
            && b.y.value() != 0
            && T::representable(quotient_toward_zero(a.y.value(), b.y.value()))
            && b.z.value() != 0
            && T::representable(quotient_toward_zero(a.z.value(), b.z.value())),
        a.div_req(k) <==> k.value() != 0
            && T::representable(quotient_toward_zero(a.x.value(), k.value()))
            && k.value() != 0
            && T::representable(quotient_toward_zero(a.y.value(), k.value()))
            && k.value() != 0
            && T::representable(quotient_toward_zero(a.z.value(), k.value())),
{
    T::obeys_arithmetic();
}

/// In-place and binary arithmetic agree: an in-place operator leaves
/// `a.op_spec(rhs)` in the receiver, and that vector has at each position
/// what the binary operator returns there.
pub proof fn lemma_vector3_compound_assignment<T: Numeric>(a: Vector3<T>, b: Vector3<T>, k: T)
    ensures
        a.add_spec(b) == (Vector3 {
            x: a.x.add_spec(b.x),
            y: a.y.add_spec(b.y),
            z: a.z.add_spec(b.z),
        }),
        a.add_spec(k) == (Vector3 { x: a.x.add_spec(k), y: a.y.add_spec(k), z: a.z.add_spec(k) }),
        a.sub_spec(b) == (Vector3 {
            x: a.x.sub_spec(b.x),
            y: a.y.sub_spec(b.y),
            z: a.z.sub_spec(b.z),
        }),
        a.sub_spec(k) == (Vector3 { x: a.x.sub_spec(k), y: a.y.sub_spec(k), z: a.z.sub_spec(k) }),
        a.mul_spec(b) == (Vector3 {
            x: a.x.mul_spec(b.x),
            y: a.y.mul_spec(b.y),
            z: a.z.mul_spec(b.z),
        }),
        a.mul_spec(k) == (Vector3 { x: a.x.mul_spec(k), y: a.y.mul_spec(k), z: a.z.mul_spec(k) }),
        a.div_spec(b) == (Vector3 {
            x: a.x.div_spec(b.x),
            y: a.y.div_spec(b.y),
            z: a.z.div_spec(b.z),
        }),
        a.div_spec(k) == (Vector3 { x: a.x.div_spec(k), y: a.y.div_spec(k), z: a.z.div_spec(k) }),
{
}

/// A vector has three components; writing one position changes that position
/// and no other, and reading it back gives the value written. Exactly the
/// positions below 3 can be read.
pub proof fn lemma_vector3_index_round_trip<T: Numeric>(v: Vector3<T>, i: int, j: int, value: T)
    requires
        0 <= i < 3,
        0 <= j < 3,
    ensures
        v@.len() == 3,
        Vector3::<T>::spec_ndim() == v@.len(),
        v@.update(i, value)[i] == value,
        i != j ==> v@.update(i, value)[j] == v@[j],
        forall|p: usize| #![auto] vstd::std_specs::core::IndexSpec::index_req(&v, &p) <==> p < 3,
{
}

/// Iteration runs through the components in declaration order and then ends:
/// taking the first of what remains and dropping it, three times over, yields
/// `x`, then `y`, then `z`, and leaves nothing. A cursor does not change the vector it
/// was made from, so each fresh cursor runs through the same sequence.
pub proof fn lemma_vector3_iteration<T: Numeric>(v: Vector3<T>)
    ensures
        v@ == seq![v.x, v.y, v.z],
        v@.first() == v.x,
        v@.drop_first().first() == v.y,
        v@.drop_first().drop_first().first() == v.z,
        v@.drop_first().drop_first().drop_first().len() == 0,
{
    assert(v@.drop_first() =~= seq![v.y, v.z]);
    assert(v@.drop_first().drop_first() =~= seq![v.z]);
}

/// Taking the absolute value twice is the same as taking it once.
pub proof fn lemma_vector3_abs_idempotent<T: Numeric>(v: Vector3<T>)
    requires
        v.abs_req(),
    ensures
        v.abs_spec().abs_req(),
        v.abs_spec().abs_spec() == v.abs_spec(),
{
    T::abs_idempotent(v.x);
    T::abs_idempotent(v.y);
    T::abs_idempotent(v.z);
}

/// Over a scalar type without negative values, as every unsigned integer
/// type is, the absolute value of a vector is the vector itself.
pub proof fn lemma_vector3_abs_identity<T: Numeric>(v: Vector3<T>)
    requires
        forall|t: T| #![auto] t.value() >= 0,
    ensures
        v.abs_req(),
        v.abs_spec() == v,
{
    T::obeys_arithmetic();
    T::abs_is_magnitude();
    assert(T::abs_spec(v.x).value() == v.x.value());
    assert(T::abs_spec(v.y).value() == v.y.value());
    assert(T::abs_spec(v.z).value() == v.z.value());
}

/// The absolute value exists where every magnitude is representable, and
/// each component of it stands for the magnitude of the component it
/// replaces.
pub proof fn lemma_vector3_abs_values<T: Numeric>(v: Vector3<T>, i: int)
    requires
        0 <= i < 3,
    ensures
        v.abs_req() <==> T::representable(abs(v.x.value()) as int)
            && T::representable(abs(v.y.value()) as int)
            && T::representable(abs(v.z.value()) as int),
        v.abs_req() ==> v.abs_spec()@[i].value() == abs(v@[i].value()),
{
    T::abs_is_magnitude();
}

/// The dot product can be evaluated exactly where every product and every
/// sum of the first two or more products is representable, and then stands
/// for the sum of the products of the components at each position.
pub proof fn lemma_vector3_dot_value<T: Numeric>(v: Vector3<T>, w: Vector3<T>)
    ensures
        v.dot_req(&w) <==> T::representable(v.x.value() * w.x.value())
            && T::representable(v.y.value() * w.y.value())
            && T::representable(v.z.value() * w.z.value())
            && T::representable(v.x.value() * w.x.value() + v.y.value() * w.y.value())
            && T::representable(v.x.value() * w.x.value()
                + v.y.value() * w.y.value()
                + v.z.value() * w.z.value()),
        v.dot_req(&w) ==> v.dot_spec(&w).value() == v.x.value() * w.x.value()
            + v.y.value() * w.y.value()
            + v.z.value() * w.z.value(),
{
    T::obeys_arithmetic();
}

/// A triple of `i32` components.
pub type Vector3i32 = Vector3<i32>;

} // verus!
