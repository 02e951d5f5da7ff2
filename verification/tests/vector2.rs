use maths::assign::CompoundAssign;
use maths::vector::Vector;
use maths::vector::Vector2i32;

#[test]
fn new() {
    let vec = Vector2i32::new(42, 16);
    assert!(vec.x == 42);
    assert!(vec.y == 16);
}

#[test]
fn ndim() {
    assert!(Vector2i32::ndim() == 2);
}

#[test]
fn dot() {
    let vec_a = Vector2i32::new(1, 2);
    let vec_b = Vector2i32::new(3, 4);
    assert_eq!(vec_a.dot(&vec_b), 11);
}

#[test]
fn eq() {
    let vec_a = Vector2i32::new(10, 20);
    let vec_b = vec_a.clone();
    assert_eq!(vec_a, vec_b);

    let vec_c = Vector2i32::new(1, 2);
    let vec_d = Vector2i32::new(3, 4);
    assert_ne!(vec_c, vec_d);
}

#[test]
fn add_vec() {
    let vec_a = Vector2i32::new(10, 20);
    let vec_b = Vector2i32::new(30, 40);
    let expected = Vector2i32::new(40, 60);
    assert_eq!(vec_a + vec_b, expected);
}

#[test]
fn add_t() {
    let vec = Vector2i32::new(10, 20);
    assert_eq!(vec + 5, Vector2i32::new(15, 25));
}

#[test]
fn add_assign_vec() {
    let mut vec = Vector2i32::new(1, 2);
    vec.add_assign(Vector2i32::new(3, 4));
    assert_eq!(vec, Vector2i32::new(4, 6));
}

#[test]
fn add_assign_t() {
    let mut vec = Vector2i32::new(1, 2);
    vec.add_assign(5);
    assert_eq!(vec, Vector2i32::new(6, 7));
}

#[test]
fn sub_vec() {
    let vec_a = Vector2i32::new(50, 25);
    let vec_b = Vector2i32::new(25, 12);
    let expected = Vector2i32::new(25, 13);
    assert_eq!(vec_a - vec_b, expected);
}

#[test]
fn sub_t() {
    let vec = Vector2i32::new(10, 20);
    assert_eq!(vec - 5, Vector2i32::new(5, 15));
}

#[test]
fn sub_assign_vec() {
    let mut vec = Vector2i32::new(50, 25);
    vec.sub_assign(Vector2i32::new(25, 12));
    assert_eq!(vec, Vector2i32::new(25, 13));
}

#[test]
fn sub_assign_t() {
    let mut vec = Vector2i32::new(10, 20);
    vec.sub_assign(5);
    assert_eq!(vec, Vector2i32::new(5, 15));
}

#[test]
fn mul_vec() {
    let vec_a = Vector2i32::new(1, 2);
    let vec_b = Vector2i32::new(3, 4);
    assert_eq!(vec_a * vec_b, Vector2i32::new(3, 8));
}

#[test]
fn mul_t() {
    let vec = Vector2i32::new(1, 2);
    assert_eq!(vec * 5, Vector2i32::new(5, 10));
}

#[test]
fn mul_assign_vec() {
    let mut vec = Vector2i32::new(1, 2);
    vec.mul_assign(Vector2i32::new(3, 4));
    assert_eq!(vec, Vector2i32::new(3, 8));
}

#[test]
fn mul_assign_t() {
    let mut vec = Vector2i32::new(1, 2);
    vec.mul_assign(5);
    assert_eq!(vec, Vector2i32::new(5, 10));
}

#[test]
fn div_vec() {
    let vec_a = Vector2i32::new(24, 12);
    let vec_b = Vector2i32::new(2, 4);
    assert_eq!(vec_a / vec_b, Vector2i32::new(12, 3));
}

#[test]
fn div_t() {
    let vec = Vector2i32::new(10, 20);
    assert_eq!(vec / 5, Vector2i32::new(2, 4))
}

#[test]
fn div_assign_vec() {
    let mut vec = Vector2i32::new(24, 12);
    vec.div_assign(Vector2i32::new(2, 4));
    assert_eq!(vec, Vector2i32::new(12, 3));
}

#[test]
fn div_assign_t() {
    let mut vec = Vector2i32::new(24, 12);
    vec.div_assign(2);
    assert_eq!(vec, Vector2i32::new(12, 6));
}

#[test]
fn index() {
    let mut vec = Vector2i32::new(1, 2);
    *vec.index_mut(0) = 3;
    *vec.index_mut(1) = 4;
    assert_eq!(vec[0], 3);
    assert_eq!(vec[1], 4);
}

#[test]
#[should_panic]
fn index_panic() {
    let vec = Vector2i32::new(1, 2);
    vec[2];
}

#[test]
fn iter() {
    let mut iter = Vector2i32::new(1, 2).into_iter();
    assert_eq!(iter.next(), Some(1));
    assert_eq!(iter.next(), Some(2));
    assert_eq!(iter.next(), None);
}

#[test]
fn abs() {
    let vec = Vector2i32::new(32, -84);
    assert_eq!(vec.abs(), Vector2i32::new(32, 84));
}

#[test]
fn vector2_abs_is_idempotent() {
    let vec = Vector2i32::new(-32, 84);
    assert_eq!(vec.abs().abs(), vec.abs());
}

#[test]
fn vector2_arithmetic_is_componentwise() {
    let a = Vector2i32::new(24, -12);
    let b = Vector2i32::new(5, 4);
    for i in 0..2usize {
        assert_eq!((a + b)[i], a[i] + b[i]);
        assert_eq!((a - b)[i], a[i] - b[i]);
        assert_eq!((a * b)[i], a[i] * b[i]);
        assert_eq!((a / b)[i], a[i] / b[i]);
        assert_eq!((a + 7)[i], a[i] + 7);
        assert_eq!((a - 7)[i], a[i] - 7);
        assert_eq!((a * 7)[i], a[i] * 7);
        assert_eq!((a / 7)[i], a[i] / 7);
    }
}

#[test]
fn vector2_compound_assignment_matches_binary() {
    let a = Vector2i32::new(50, 24);
    let b = Vector2i32::new(25, 12);
    let mut s = a;
    s.add_assign(b);
    assert_eq!(s, a + b);
    let mut s = a;
    s.sub_assign(b);
    assert_eq!(s, a - b);
    let mut s = a;
    s.mul_assign(b);
    assert_eq!(s, a * b);
    let mut s = a;
    s.div_assign(b);
    assert_eq!(s, a / b);
}

#[test]
fn vector2_iteration_restarts() {
    let vec = Vector2i32::new(1, 2);
    let mut first = vec.into_iter();
    assert_eq!(first.next(), Some(1));
    let mut second = vec.into_iter();
    assert_eq!(second.next(), Some(1));
    assert_eq!(second.next(), Some(2));
    assert_eq!(second.next(), None);
    assert_eq!(first.next(), Some(2));
    assert_eq!(first.next(), None);
    assert_eq!(first.next(), None);
}

#[test]
fn vector2_dot_with_negative_components() {
    assert_eq!(Vector2i32::new(-3, 4).dot(&Vector2i32::new(5, -6)), -39);
}
