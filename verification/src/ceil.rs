use vstd::prelude::*;

verus! {

/// Rounding a scalar up to the nearest whole value.
///
/// `ceil_spec` says what the rounded value is. An integer is already whole,
/// so every integer type rounds to itself.
pub trait Ceil {
    type Item;

    /// The value `t` rounds to.
    spec fn ceil_spec(t: Self::Item) -> Self::Item;

    fn ceil(t: Self::Item) -> (r: Self::Item)
        ensures
            r == Self::ceil_spec(t),
    ;
}

impl Ceil for u8 {
    type Item = u8;

    open spec fn ceil_spec(t: u8) -> u8 {
        t
    }

    fn ceil(t: u8) -> (r: u8) {
        t
    }
}

impl Ceil for u16 {
    type Item = u16;

    open spec fn ceil_spec(t: u16) -> u16 {
        t
    }

    fn ceil(t: u16) -> (r: u16) {
        t
    }
}

impl Ceil for u32 {
    type Item = u32;

    open spec fn ceil_spec(t: u32) -> u32 {
        t
    }

    fn ceil(t: u32) -> (r: u32) {
        t
    }
}

impl Ceil for u64 {
    type Item = u64;

    open spec fn ceil_spec(t: u64) -> u64 {
        t
    }

    fn ceil(t: u64) -> (r: u64) {
        t
    }
}

impl Ceil for u128 {
    type Item = u128;

    open spec fn ceil_spec(t: u128) -> u128 {
        t
    }

    fn ceil(t: u128) -> (r: u128) {
        t
    }
}

impl Ceil for usize {
    type Item = usize;

    open spec fn ceil_spec(t: usize) -> usize {
        t
    }

    fn ceil(t: usize) -> (r: usize) {
        t
    }
}

impl Ceil for i8 {
    type Item = i8;

    open spec fn ceil_spec(t: i8) -> i8 {
        t
    }

    fn ceil(t: i8) -> (r: i8) {
        t
    }
}

impl Ceil for i16 {
    type Item = i16;

    open spec fn ceil_spec(t: i16) -> i16 {
        t
    }

    fn ceil(t: i16) -> (r: i16) {
        t
    }
}

impl Ceil for i32 {
    type Item = i32;

    open spec fn ceil_spec(t: i32) -> i32 {
        t
    }

    fn ceil(t: i32) -> (r: i32) {
        t
    }
}

impl Ceil for i64 {
    type Item = i64;

    open spec fn ceil_spec(t: i64) -> i64 {
        t
    }

    fn ceil(t: i64) -> (r: i64) {
        t
    }
}

impl Ceil for i128 {
    type Item = i128;

    open spec fn ceil_spec(t: i128) -> i128 {
        t
    }

    fn ceil(t: i128) -> (r: i128) {
        t
    }
}

impl Ceil for isize {
    type Item = isize;

    open spec fn ceil_spec(t: isize) -> isize {
        t
    }

    fn ceil(t: isize) -> (r: isize) {
        t
    }
}

/// Rounding an integer leaves it unchanged, whatever its type.
pub proof fn lemma_ceil_integer_is_identity()
    ensures
        forall|t: u8| #![auto] u8::ceil_spec(t) == t,
        forall|t: u16| #![auto] u16::ceil_spec(t) == t,
        forall|t: u32| #![auto] u32::ceil_spec(t) == t,
        forall|t: u64| #![auto] u64::ceil_spec(t) == t,
        forall|t: u128| #![auto] u128::ceil_spec(t) == t,
        forall|t: usize| #![auto] usize::ceil_spec(t) == t,
        forall|t: i8| #![auto] i8::ceil_spec(t) == t,
        forall|t: i16| #![auto] i16::ceil_spec(t) == t,
        forall|t: i32| #![auto] i32::ceil_spec(t) == t,
        forall|t: i64| #![auto] i64::ceil_spec(t) == t,
        forall|t: i128| #![auto] i128::ceil_spec(t) == t,
        forall|t: isize| #![auto] isize::ceil_spec(t) == t,
{
}

} // verus!
