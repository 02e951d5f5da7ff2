use maths::assign::CompoundAssign;
use maths::tuple::Tuple2;
use maths::tuple::Tuple3;

#[test]
fn test_ndim() {
    assert_eq!(Tuple2::<i32>::ndim(), 2);
}

#[test]
fn tuple3_ndim_is_three() {
    assert_eq!(Tuple3::<u64>::ndim(), 3);
}

#[test]
fn tuple2_new_keeps_components() {
    let tup = Tuple2::new(7u8, 9u8);
    assert_eq!(tup.x, 7);
    assert_eq!(tup.y, 9);
    assert_eq!(tup.x(), 7);
    assert_eq!(tup.y(), 9);
}

#[test]
fn tuple3_new_keeps_components() {
    let tup = Tuple3::new(-1i64, 0, 1);
    assert_eq!(tup.x(), -1);
    assert_eq!(tup.y(), 0);
    assert_eq!(tup.z(), 1);
}

#[test]
fn tuple2_add_tuple() {
    assert_eq!(Tuple2::new(10, 20) + Tuple2::new(30, 40), Tuple2::new(40, 60));
}

#[test]
fn tuple2_add_scalar() {
    assert_eq!(Tuple2::new(10, 20) + 5, Tuple2::new(15, 25));
}

#[test]
fn tuple2_arithmetic_is_componentwise() {
    let a = Tuple2::new(24i32, -12);
    let b = Tuple2::new(5i32, 4);
    let k = 3i32;
    for i in 0..2usize {
        assert_eq!((a + b)[i], a[i] + b[i]);
        assert_eq!((a - b)[i], a[i] - b[i]);
        assert_eq!((a * b)[i], a[i] * b[i]);
        assert_eq!((a / b)[i], a[i] / b[i]);
        assert_eq!((a + k)[i], a[i] + k);
        assert_eq!((a - k)[i], a[i] - k);
        assert_eq!((a * k)[i], a[i] * k);
        assert_eq!((a / k)[i], a[i] / k);
    }
}

#[test]
fn tuple3_arithmetic_is_componentwise() {
    let a = Tuple3::new(24u16, 12, 7);
    let b = Tuple3::new(5u16, 4, 7);
    let k = 2u16;
    for i in 0..3usize {
        assert_eq!((a + b)[i], a[i] + b[i]);
        assert_eq!((a - b)[i], a[i] - b[i]);
        assert_eq!((a * b)[i], a[i] * b[i]);
        assert_eq!((a / b)[i], a[i] / b[i]);
        assert_eq!((a + k)[i], a[i] + k);
        assert_eq!((a - k)[i], a[i] - k);
        assert_eq!((a * k)[i], a[i] * k);
        assert_eq!((a / k)[i], a[i] / k);
    }
}

#[test]
fn tuple2_division_truncates_toward_zero() {
    assert_eq!(Tuple2::new(-7i32, 7) / 2, Tuple2::new(-3, 3));
    assert_eq!(Tuple2::new(-7i32, 7) / Tuple2::new(-2, -2), Tuple2::new(3, -3));
}

#[test]
fn tuple2_compound_assignment_matches_binary() {
    let a = Tuple2::new(50i64, 24);
    let b = Tuple2::new(25i64, 12);
    let mut s = a;
    s.add_assign(b);
    assert_eq!(s, a + b);
    let mut s = a;
    s.sub_assign(b);
    assert_eq!(s, a - b);
    let mut s = a;
    s.mul_assign(b);
    assert_eq!(s, a * b);
    let mut s = a;
    s.div_assign(b);
    assert_eq!(s, a / b);
    let mut s = a;
    s.add_assign(4);
    assert_eq!(s, a + 4);
    let mut s = a;
    s.sub_assign(4);
    assert_eq!(s, a - 4);
    let mut s = a;
    s.mul_assign(4);
    assert_eq!(s, a * 4);
    let mut s = a;
    s.div_assign(4);
    assert_eq!(s, a / 4);
}

#[test]
fn tuple3_compound_assignment_matches_binary() {
    let a = Tuple3::new(12u32, 24, 36);
    let b = Tuple3::new(3u32, 4, 18);
    let mut s = a;
    s.add_assign(b);
    assert_eq!(s, Tuple3::new(15, 28, 54));
    let mut s = a;
    s.sub_assign(b);
    assert_eq!(s, Tuple3::new(9, 20, 18));
    let mut s = a;
    s.mul_assign(b);
    assert_eq!(s, Tuple3::new(36, 96, 648));
    let mut s = a;
    s.div_assign(b);
    assert_eq!(s, Tuple3::new(4, 6, 2));
    let mut s = a;
    s.div_assign(3);
    assert_eq!(s, Tuple3::new(4, 8, 12));
}

#[test]
fn tuple2_equality_needs_every_component() {
    assert_eq!(Tuple2::new(1, 2), Tuple2::new(1, 2));
    assert_ne!(Tuple2::new(1, 2), Tuple2::new(1, 3));
    assert_ne!(Tuple2::new(1, 2), Tuple2::new(0, 2));
    assert_eq!(Tuple2::new(1, 2).clone(), Tuple2::new(1, 2));
}

#[test]
fn tuple3_equality_needs_every_component() {
    assert_eq!(Tuple3::new(1, 2, 3), Tuple3::new(1, 2, 3));
    assert_ne!(Tuple3::new(1, 2, 3), Tuple3::new(1, 2, 4));
}

#[test]
fn tuple2_index_round_trip() {
    let mut tup = Tuple2::new(1, 2);
    *tup.index_mut(0) = 3;
    assert_eq!(tup, Tuple2::new(3, 2));
    *tup.index_mut(1) = 4;
    assert_eq!(tup[0], 3);
    assert_eq!(tup[1], 4);
}

#[test]
fn tuple3_index_round_trip() {
    let mut tup = Tuple3::new(1, 2, 3);
    *tup.index_mut(2) = 9;
    assert_eq!(tup, Tuple3::new(1, 2, 9));
    assert_eq!(tup[2], 9);
}

#[test]
fn tuple2_iteration_is_complete_and_restarts() {
    let tup = Tuple2::new(5u8, 6);
    let mut first = tup.into_iter();
    assert_eq!(first.next(), Some(5));
    assert_eq!(first.next(), Some(6));
    assert_eq!(first.next(), None);
    assert_eq!(first.next(), None);
    let mut second = tup.into_iter();
    assert_eq!(second.next(), Some(5));
    assert_eq!(second.next(), Some(6));
    assert_eq!(second.next(), None);
}

#[test]
fn tuple3_iteration_is_complete_and_restarts() {
    let tup = Tuple3::new(5i16, -6, 7);
    let mut first = tup.into_iter();
    assert_eq!(first.next(), Some(5));
    let mut second = tup.into_iter();
    assert_eq!(first.next(), Some(-6));
    assert_eq!(first.next(), Some(7));
    assert_eq!(first.next(), None);
    assert_eq!(second.next(), Some(5));
    assert_eq!(second.next(), Some(-6));
    assert_eq!(second.next(), Some(7));
    assert_eq!(second.next(), None);
}

#[test]
fn tuple2_abs_of_signed() {
    assert_eq!(Tuple2::new(-4i32, -9).abs(), Tuple2::new(4, 9));
    assert_eq!(Tuple2::new(i32::MAX, i32::MIN + 1).abs(), Tuple2::new(i32::MAX, i32::MAX));
}

#[test]
fn tuple3_abs_of_signed() {
    assert_eq!(Tuple3::new(-4i64, -9, 10).abs(), Tuple3::new(4, 9, 10));
}

#[test]
fn tuple_abs_is_idempotent() {
    let t = Tuple3::new(-4i8, 0, 127);
    assert_eq!(t.abs().abs(), t.abs());
    let u = Tuple2::new(-128i16, 5);
    assert_eq!(u.abs().abs(), u.abs());
}

#[test]
fn tuple_abs_of_unsigned_is_identity() {
    let t = Tuple2::new(0u8, 255);
    assert_eq!(t.abs(), t);
    let u = Tuple3::new(1usize, 2, usize::MAX);
    assert_eq!(u.abs(), u);
}

#[test]
fn tuple_ceil_and_floor_of_integers() {
    let t = Tuple2::new(3i32, -15);
    assert_eq!(t.ceil(), t);
    assert_eq!(t.floor(), t);
    let u = Tuple3::new(3u64, 15, 15);
    assert_eq!(u.ceil(), u);
    assert_eq!(u.floor(), u);
}

#[test]
fn tuple2_lerp_at_the_ends_and_beyond() {
    let a = Tuple2::new(2i32, 5);
    let b = Tuple2::new(10i32, 14);
    assert_eq!(Tuple2::lerp(a, b, 0), a);
    assert_eq!(Tuple2::lerp(a, b, 1), b);
    assert_eq!(Tuple2::lerp(a, b, 2), Tuple2::new(18, 23));
    assert_eq!(Tuple2::lerp(a, b, -1), Tuple2::new(-6, -4));
}

#[test]
fn tuple3_lerp_at_the_ends() {
    let a = Tuple3::new(2u8, 5, 7);
    let b = Tuple3::new(10u8, 14, 6);
    assert_eq!(Tuple3::lerp(a, b, 0), a);
    assert_eq!(Tuple3::lerp(a, b, 1), b);
}

#[test]
fn tuple2_fma() {
    let a = Tuple2::new(1, 2);
    let b = Tuple2::new(2, 3);
    let c = Tuple2::new(4, 5);
    assert_eq!(Tuple2::fma(a, b, c), Tuple2::new(6, 11));
}

#[test]
fn tuple3_fma() {
    let a = Tuple3::new(1, 2, 3);
    let b = Tuple3::new(4, 5, 6);
    let c = Tuple3::new(7, 8, 9);
    assert_eq!(Tuple3::fma(a, b, c), Tuple3::new(11, 18, 27));
}

#[test]
fn tuple2_min_and_max() {
    let a = Tuple2::new(1, 9);
    let b = Tuple2::new(4, 3);
    assert_eq!(Tuple2::max(a, b), Tuple2::new(4, 9));
    assert_eq!(Tuple2::min(a, b), Tuple2::new(1, 3));
    assert_eq!(Tuple2::max(a, a), a);
    assert_eq!(Tuple2::min(a, a), a);
}

#[test]
fn tuple3_min_and_max() {
    let a = Tuple3::new(-1i8, 9, 0);
    let b = Tuple3::new(4i8, -3, 0);
    assert_eq!(Tuple3::max(a, b), Tuple3::new(4, 9, 0));
    assert_eq!(Tuple3::min(a, b), Tuple3::new(-1, -3, 0));
}
