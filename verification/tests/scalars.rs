use maths::abs::Abs;
use maths::ceil::Ceil;
use maths::floor::Floor;
use maths::numeric::Natural;
use maths::numeric::Signed;

#[test]
fn abs_of_unsigned_is_the_value() {
    assert_eq!(<u8 as Abs>::abs(0), 0);
    assert_eq!(<u8 as Abs>::abs(255), 255);
    assert_eq!(<u16 as Abs>::abs(65535), 65535);
    assert_eq!(<u32 as Abs>::abs(7), 7);
    assert_eq!(<u64 as Abs>::abs(u64::MAX), u64::MAX);
    assert_eq!(<u128 as Abs>::abs(u128::MAX), u128::MAX);
    assert_eq!(<usize as Abs>::abs(9), 9);
}

#[test]
fn abs_of_signed_is_the_magnitude() {
    assert_eq!(<i8 as Abs>::abs(-127), 127);
    assert_eq!(<i8 as Abs>::abs(127), 127);
    assert_eq!(<i16 as Abs>::abs(-300), 300);
    assert_eq!(<i32 as Abs>::abs(-84), 84);
    assert_eq!(<i32 as Abs>::abs(0), 0);
    assert_eq!(<i64 as Abs>::abs(i64::MIN + 1), i64::MAX);
    assert_eq!(<i128 as Abs>::abs(-1), 1);
    assert_eq!(<isize as Abs>::abs(-5), 5);
}

#[test]
fn abs_twice_is_abs_once() {
    for t in [-128i16, -1, 0, 1, 127] {
        let once = <i16 as Abs>::abs(t);
        assert_eq!(<i16 as Abs>::abs(once), once);
    }
}

#[test]
fn ceil_and_floor_of_integers_are_the_value() {
    assert_eq!(<i32 as Ceil>::ceil(-3), -3);
    assert_eq!(<i32 as Floor>::floor(-3), -3);
    assert_eq!(<u8 as Ceil>::ceil(200), 200);
    assert_eq!(<u8 as Floor>::floor(200), 200);
    assert_eq!(<i128 as Ceil>::ceil(i128::MIN), i128::MIN);
    assert_eq!(<usize as Floor>::floor(usize::MAX), usize::MAX);
}

#[test]
fn one_is_the_unit() {
    assert_eq!(<u8 as Natural>::one(), 1);
    assert_eq!(<i64 as Natural>::one(), 1);
    assert_eq!(<usize as Natural>::one() * 17, 17);
}

#[test]
fn signed_abs_agrees_with_abs() {
    assert_eq!(Signed::abs(-9i32), 9);
    assert_eq!(Signed::abs(9i64), 9);
    assert_eq!(Signed::abs(-128i16), <i16 as Abs>::abs(-128));
}
