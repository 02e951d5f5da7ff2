use vstd::prelude::*;

verus! {

/// Rounding a scalar down to the nearest whole value.
///
/// `floor_spec` says what the rounded value is. An integer is already whole,
/// so every integer type rounds to itself.
pub trait Floor {
    type Item;

    /// The value `t` rounds to.
    spec fn floor_spec(t: Self::Item) -> Self::Item;

    fn floor(t: Self::Item) -> (r: Self::Item)
        ensures
            r == Self::floor_spec(t),
    ;
}

impl Floor for u8 {
    type Item = u8;

    open spec fn floor_spec(t: u8) -> u8 {
        t
    }

    fn floor(t: u8) -> (r: u8) {
        t
    }
}

impl Floor for u16 {
    type Item = u16;

    open spec fn floor_spec(t: u16) -> u16 {
        t
    }

    fn floor(t: u16) -> (r: u16) {
        t
    }
}

impl Floor for u32 {
    type Item = u32;

    open spec fn floor_spec(t: u32) -> u32 {
        t
    }

    fn floor(t: u32) -> (r: u32) {
        t
    }
}

impl Floor for u64 {
    type Item = u64;

    open spec fn floor_spec(t: u64) -> u64 {
        t
    }

    fn floor(t: u64) -> (r: u64) {
        t
    }
}

impl Floor for u128 {
    type Item = u128;

    open spec fn floor_spec(t: u128) -> u128 {
        t
    }

    fn floor(t: u128) -> (r: u128) {
        t
    }
}

impl Floor for usize {
    type Item = usize;

    open spec fn floor_spec(t: usize) -> usize {
        t
    }

    fn floor(t: usize) -> (r: usize) {
        t
    }
}

impl Floor for i8 {
    type Item = i8;

    open spec fn floor_spec(t: i8) -> i8 {
        t
    }

    fn floor(t: i8) -> (r: i8) {
        t
    }
}

impl Floor for i16 {
    type Item = i16;

    open spec fn floor_spec(t: i16) -> i16 {
        t
    }

    fn floor(t: i16) -> (r: i16) {
        t
    }
}

impl Floor for i32 {
    type Item = i32;

    open spec fn floor_spec(t: i32) -> i32 {
        t
    }

    fn floor(t: i32) -> (r: i32) {
        t
    }
}

impl Floor for i64 {
    type Item = i64;

    open spec fn floor_spec(t: i64) -> i64 {
        t
    }

    fn floor(t: i64) -> (r: i64) {
        t
    }
}

impl Floor for i128 {
    type Item = i128;

    open spec fn floor_spec(t: i128) -> i128 {
        t
    }

    fn floor(t: i128) -> (r: i128) {
        t
    }
}

impl Floor for isize {
    type Item = isize;

    open spec fn floor_spec(t: isize) -> isize {
        t
    }

    fn floor(t: isize) -> (r: isize) {
        t
    }
}

/// Rounding an integer leaves it unchanged, whatever its type.
pub proof fn lemma_floor_integer_is_identity()
    ensures
        forall|t: u8| #![auto] u8::floor_spec(t) == t,
        forall|t: u16| #![auto] u16::floor_spec(t) == t,
        forall|t: u32| #![auto] u32::floor_spec(t) == t,
        forall|t: u64| #![auto] u64::floor_spec(t) == t,
        forall|t: u128| #![auto] u128::floor_spec(t) == t,
        forall|t: usize| #![auto] usize::floor_spec(t) == t,
        forall|t: i8| #![auto] i8::floor_spec(t) == t,
        forall|t: i16| #![auto] i16::floor_spec(t) == t,
        forall|t: i32| #![auto] i32::floor_spec(t) == t,
        forall|t: i64| #![auto] i64::floor_spec(t) == t,
        forall|t: i128| #![auto] i128::floor_spec(t) == t,
        forall|t: isize| #![auto] isize::floor_spec(t) == t,
{
}

} // verus!
