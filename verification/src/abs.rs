use vstd::math::abs;
use vstd::prelude::*;

verus! {

/// Absolute value of a scalar.
///
/// `abs_req` says on which values the magnitude can be represented, and
/// `abs_spec` says what it is. Every implementation also proves that taking
/// the absolute value twice changes nothing.
pub trait Abs {
    type Item;

    /// Whether the magnitude of `t` fits in `Self::Item`.
    spec fn abs_req(t: Self::Item) -> bool;

    /// The magnitude of `t`.
    spec fn abs_spec(t: Self::Item) -> Self::Item;

    fn abs(t: Self::Item) -> (r: Self::Item)
        requires
            Self::abs_req(t),
        ensures
            r == Self::abs_spec(t),
    ;

    /// A magnitude is its own magnitude.
    proof fn abs_idempotent(t: Self::Item)
        requires
            Self::abs_req(t),
        ensures
            Self::abs_req(Self::abs_spec(t)),
            Self::abs_spec(Self::abs_spec(t)) == Self::abs_spec(t),
    ;
}

impl Abs for u8 {
    type Item = u8;

    open spec fn abs_req(t: u8) -> bool {
        true
    }

    open spec fn abs_spec(t: u8) -> u8 {
        t
    }

    fn abs(t: u8) -> (r: u8) {
        t
    }

    proof fn abs_idempotent(t: u8) {
    }
}

impl Abs for u16 {
    type Item = u16;

    open spec fn abs_req(t: u16) -> bool {
        true
    }

    open spec fn abs_spec(t: u16) -> u16 {
        t
    }

    fn abs(t: u16) -> (r: u16) {
        t
    }

    proof fn abs_idempotent(t: u16) {
    }
}

impl Abs for u32 {
    type Item = u32;

    open spec fn abs_req(t: u32) -> bool {
        true
    }

    open spec fn abs_spec(t: u32) -> u32 {
        t
    }

    fn abs(t: u32) -> (r: u32) {
        t
    }

    proof fn abs_idempotent(t: u32) {
    }
}

impl Abs for u64 {
    type Item = u64;

    open spec fn abs_req(t: u64) -> bool {
        true
    }

    open spec fn abs_spec(t: u64) -> u64 {
        t
    }

    fn abs(t: u64) -> (r: u64) {
        t
    }

    proof fn abs_idempotent(t: u64) {
    }
}

impl Abs for u128 {
    type Item = u128;

    open spec fn abs_req(t: u128) -> bool {
        true
    }

    open spec fn abs_spec(t: u128) -> u128 {
        t
    }

    fn abs(t: u128) -> (r: u128) {
        t
    }

    proof fn abs_idempotent(t: u128) {
    }
}

impl Abs for usize {
    type Item = usize;

    open spec fn abs_req(t: usize) -> bool {
        true
    }

    open spec fn abs_spec(t: usize) -> usize {
        t
    }

    fn abs(t: usize) -> (r: usize) {
        t
    }

    proof fn abs_idempotent(t: usize) {
    }
}

impl Abs for i8 {
    type Item = i8;

    /// `i8::MIN` has no positive counterpart.
    open spec fn abs_req(t: i8) -> bool {
        t != i8::MIN
    }

    open spec fn abs_spec(t: i8) -> i8 {
        if t < 0 {
            (0 - t) as i8
        } else {
            t
        }
    }

    fn abs(t: i8) -> (r: i8) {
        if t < 0 {
            -t
        } else {
            t
        }
    }

    proof fn abs_idempotent(t: i8) {
    }
}

impl Abs for i16 {
    type Item = i16;

    /// `i16::MIN` has no positive counterpart.
    open spec fn abs_req(t: i16) -> bool {
        t != i16::MIN
    }

    open spec fn abs_spec(t: i16) -> i16 {
        if t < 0 {
            (0 - t) as i16
        } else {
            t
        }
    }

    fn abs(t: i16) -> (r: i16) {
        if t < 0 {
            -t
        } else {
            t
        }
    }

    proof fn abs_idempotent(t: i16) {
    }
}

impl Abs for i32 {
    type Item = i32;

    /// `i32::MIN` has no positive counterpart.
    open spec fn abs_req(t: i32) -> bool {
        t != i32::MIN
    }

    open spec fn abs_spec(t: i32) -> i32 {
        if t < 0 {
            (0 - t) as i32
        } else {
            t
        }
    }

    fn abs(t: i32) -> (r: i32) {
        if t < 0 {
            -t
        } else {
            t
        }
    }

    proof fn abs_idempotent(t: i32) {
    }
}

impl Abs for i64 {
    type Item = i64;

    /// `i64::MIN` has no positive counterpart.
    open spec fn abs_req(t: i64) -> bool {
        t != i64::MIN
    }

    open spec fn abs_spec(t: i64) -> i64 {
        if t < 0 {
            (0 - t) as i64
        } else {
            t
        }
    }

    fn abs(t: i64) -> (r: i64) {
        if t < 0 {
            -t
        } else {
            t
        }
    }

    proof fn abs_idempotent(t: i64) {
    }
}

impl Abs for i128 {
    type Item = i128;

    /// `i128::MIN` has no positive counterpart.
    open spec fn abs_req(t: i128) -> bool {
        t != i128::MIN
    }

    open spec fn abs_spec(t: i128) -> i128 {
        if t < 0 {
            (0 - t) as i128
        } else {
            t
        }
    }

    fn abs(t: i128) -> (r: i128) {
        if t < 0 {
            -t
        } else {
            t
        }
    }

    proof fn abs_idempotent(t: i128) {
    }
}

impl Abs for isize {
    type Item = isize;

    /// `isize::MIN` has no positive counterpart.
    open spec fn abs_req(t: isize) -> bool {
        t != isize::MIN
    }

    open spec fn abs_spec(t: isize) -> isize {
        if t < 0 {
            (0 - t) as isize
        } else {
            t
        }
    }

    fn abs(t: isize) -> (r: isize) {
        if t < 0 {
            -t
        } else {
            t
        }
    }

    proof fn abs_idempotent(t: isize) {
    }
}

/// On every unsigned type the absolute value is the identity.
pub proof fn lemma_abs_unsigned_is_identity()
    ensures
        forall|t: u8| #![auto] u8::abs_req(t) && u8::abs_spec(t) == t,
        forall|t: u16| #![auto] u16::abs_req(t) && u16::abs_spec(t) == t,
        forall|t: u32| #![auto] u32::abs_req(t) && u32::abs_spec(t) == t,
        forall|t: u64| #![auto] u64::abs_req(t) && u64::abs_spec(t) == t,
        forall|t: u128| #![auto] u128::abs_req(t) && u128::abs_spec(t) == t,
        forall|t: usize| #![auto] usize::abs_req(t) && usize::abs_spec(t) == t,
{
}

/// On every signed type the absolute value exists for all values but the
/// least, and is the distance from zero.
pub proof fn lemma_abs_signed_is_magnitude()
    ensures
        forall|t: i8| #![auto] i8::abs_req(t) <==> t != i8::MIN,
        forall|t: i8| #![auto] i8::abs_req(t) ==> i8::abs_spec(t) == abs(t as int),
        forall|t: i16| #![auto] i16::abs_req(t) <==> t != i16::MIN,
        forall|t: i16| #![auto] i16::abs_req(t) ==> i16::abs_spec(t) == abs(t as int),
        forall|t: i32| #![auto] i32::abs_req(t) <==> t != i32::MIN,
        forall|t: i32| #![auto] i32::abs_req(t) ==> i32::abs_spec(t) == abs(t as int),
        forall|t: i64| #![auto] i64::abs_req(t) <==> t != i64::MIN,
        forall|t: i64| #![auto] i64::abs_req(t) ==> i64::abs_spec(t) == abs(t as int),
        forall|t: i128| #![auto] i128::abs_req(t) <==> t != i128::MIN,
        forall|t: i128| #![auto] i128::abs_req(t) ==> i128::abs_spec(t) == abs(t as int),
        forall|t: isize| #![auto] isize::abs_req(t) <==> t != isize::MIN,
        forall|t: isize| #![auto] isize::abs_req(t) ==> isize::abs_spec(t) == abs(t as int),
{
}

} // verus!
