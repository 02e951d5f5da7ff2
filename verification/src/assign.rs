use std::ops::Add;
use std::ops::Div;
use std::ops::Mul;
use std::ops::Sub;
use vstd::prelude::*;
use vstd::std_specs::ops::AddSpec;
use vstd::std_specs::ops::DivSpec;
use vstd::std_specs::ops::MulSpec;
use vstd::std_specs::ops::SubSpec;

verus! {

/// The in-place forms of `+ - * /`.
///
/// Each method may be called exactly where the binary operator may be
/// evaluated, and leaves in the receiver what the binary operator would have
/// returned.
pub trait CompoundAssign<Rhs = Self>: Add<Rhs, Output = Self> + Sub<Rhs, Output = Self> + Mul<
    Rhs,
    Output = Self,
> + Div<Rhs, Output = Self> + Sized {
    fn add_assign(&mut self, rhs: Rhs)
        requires
            old(self).add_req(rhs),
        ensures
            <Self as AddSpec<Rhs>>::obeys_add_spec() ==> *final(self) == old(self).add_spec(rhs),
    ;

    fn sub_assign(&mut self, rhs: Rhs)
        requires
            old(self).sub_req(rhs),
        ensures
            <Self as SubSpec<Rhs>>::obeys_sub_spec() ==> *final(self) == old(self).sub_spec(rhs),
    ;

    fn mul_assign(&mut self, rhs: Rhs)
        requires
            old(self).mul_req(rhs),
        ensures
            <Self as MulSpec<Rhs>>::obeys_mul_spec() ==> *final(self) == old(self).mul_spec(rhs),
    ;

    fn div_assign(&mut self, rhs: Rhs)
        requires
            old(self).div_req(rhs),
        ensures
            <Self as DivSpec<Rhs>>::obeys_div_spec() ==> *final(self) == old(self).div_spec(rhs),
    ;
}

} // verus!
