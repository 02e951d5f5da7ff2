use maths::assign::CompoundAssign;
use maths::vector::Vector;
use maths::vector::Vector3i32;

#[test]
fn vector_new() {
    let vec = Vector3i32::new(13, 51, 79);
    assert_eq!(vec.x, 13);
    assert_eq!(vec.y, 51);
    assert_eq!(vec.z, 79);
}

#[test]
fn vector_ndim() {
    assert_eq!(Vector3i32::ndim(), 3);
}

#[test]
fn vector_dot() {
    let vec_a = Vector3i32::new(1, 2, 3);
    let vec_b = Vector3i32::new(4, 5, 6);
    assert_eq!(vec_a.dot(&vec_b), 32);
}

#[test]
fn vector_eq() {
    let vec = Vector3i32::new(13, 51, 79);
    assert_eq!(vec, Vector3i32::new(13, 51, 79));
    assert_ne!(vec, Vector3i32::new(13, 51, 80))
}

#[test]
fn vector_add_vec() {
    let vec_a = Vector3i32::new(1, 2, 3);
    let vec_b = Vector3i32::new(4, 5, 6);
    assert_eq!(vec_a + vec_b, Vector3i32::new(5, 7, 9));
}

#[test]
fn vector_add_t() {
    let vec = Vector3i32::new(1, 2, 3);
    assert_eq!(vec + 5, Vector3i32::new(6, 7, 8));
}

#[test]
fn vector_add_assign_vec() {
    let mut vec = Vector3i32::new(1, 2, 3);
    vec.add_assign(Vector3i32::new(4, 5, 6));
    assert_eq!(vec, Vector3i32::new(5, 7, 9));
}

#[test]
fn vector_add_assign_t() {
    let mut vec = Vector3i32::new(1, 2, 3);
    vec.add_assign(5);
    assert_eq!(vec, Vector3i32::new(6, 7, 8));
}

#[test]
fn vector_sub_vec() {
    let vec_a = Vector3i32::new(10, 20, 30);
    let vec_b = Vector3i32::new(4, 5, 6);
    let expected = Vector3i32::new(6, 15, 24);
    assert_eq!(vec_a - vec_b, expected);
}

#[test]
fn vector_sub_t() {
    let vec = Vector3i32::new(10, 20, 30);
    assert_eq!(vec - 5, Vector3i32::new(5, 15, 25));
}

#[test]
fn vector_sub_assign_vec() {
    let mut vec = Vector3i32::new(10, 20, 30);
    vec.sub_assign(Vector3i32::new(4, 5, 6));
    assert_eq!(vec, Vector3i32::new(6, 15, 24));
}

#[test]
fn vector_sub_assign_t() {
    let mut vec = Vector3i32::new(10, 20, 30);
    vec.sub_assign(5);
    assert_eq!(vec, Vector3i32::new(5, 15, 25));
}

#[test]
fn vector_mul_vec() {
    let vec_a = Vector3i32::new(1, 2, 3);
    let vec_b = Vector3i32::new(4, 5, 6);
    assert_eq!(vec_a * vec_b, Vector3i32::new(4, 10, 18));
}

#[test]
fn vector_mul_t() {
    let vec = Vector3i32::new(1, 2, 3);
    assert_eq!(vec * 5, Vector3i32::new(5, 10, 15));
}

#[test]
fn vector_mul_assign_vec() {
    let mut vec = Vector3i32::new(1, 2, 3);
    vec.mul_assign(Vector3i32::new(4, 5, 6));
    assert_eq!(vec, Vector3i32::new(4, 10, 18));
}

#[test]
fn vector_mul_assign_t() {
    let mut vec = Vector3i32::new(1, 2, 3);
    vec.mul_assign(5);
    assert_eq!(vec, Vector3i32::new(5, 10, 15));
}

#[test]
fn vector_div_vec() {
    let vec_a = Vector3i32::new(12, 24, 36);
    let vec_b = Vector3i32::new(3, 4, 9);
    assert_eq!(vec_a / vec_b, Vector3i32::new(4, 6, 4))
}

#[test]
fn vector_div_t() {
    let vec = Vector3i32::new(12, 24, 36);
    assert_eq!(vec / 3, Vector3i32::new(4, 8, 12));
}

#[test]
fn vector_div_assign_vec() {
    let mut vec = Vector3i32::new(12, 24, 36);
    vec.div_assign(Vector3i32::new(3, 4, 18));
    assert_eq!(vec, Vector3i32::new(4, 6, 2));
}

#[test]
fn vector_div_assign_t() {
    let mut vec = Vector3i32::new(12, 24, 36);
    vec.div_assign(3);
    assert_eq!(vec, Vector3i32::new(4, 8, 12));
}

#[test]
fn vector_index() {
    let mut vec = Vector3i32::new(1, 2, 3);
    *vec.index_mut(0) = 4;
    *vec.index_mut(1) = 5;
    *vec.index_mut(2) = 6;
    assert_eq!(vec[0], 4);
    assert_eq!(vec[1], 5);
    assert_eq!(vec[2], 6);
}

#[test]
#[should_panic]
fn vector_index_panic() {
    let vec = Vector3i32::new(1, 2, 3);
    vec[3];
}

#[test]
fn vector_iter() {
    let mut iter = Vector3i32::new(1, 2, 3).into_iter();
    assert_eq!(iter.next(), Some(1));
    assert_eq!(iter.next(), Some(2));
    assert_eq!(iter.next(), Some(3));
    assert_eq!(iter.next(), None);
}

#[test]
fn vector_abs() {
    let vec = Vector3i32::new(32, -84, -121);
    assert_eq!(vec.abs(), Vector3i32::new(32, 84, 121));
}

#[test]
fn vector3_abs_is_idempotent() {
    let vec = Vector3i32::new(32, -84, -121);
    assert_eq!(vec.abs().abs(), vec.abs());
}

#[test]
fn vector3_abs_of_unsigned_is_identity() {
    let vec = maths::vector::Vector3::new(1u16, 0, 65535);
    assert_eq!(vec.abs(), vec);
}

#[test]
fn vector3_index_round_trip_leaves_others() {
    let mut vec = Vector3i32::new(1, 2, 3);
    *vec.index_mut(1) = 9;
    assert_eq!(vec, Vector3i32::new(1, 9, 3));
    assert_eq!(vec[1], 9);
}

#[test]
fn vector3_iteration_restarts() {
    let vec = Vector3i32::new(1, 2, 3);
    let mut first = vec.into_iter();
    assert_eq!(first.next(), Some(1));
    assert_eq!(first.next(), Some(2));
    let mut second = vec.into_iter();
    assert_eq!(second.next(), Some(1));
    assert_eq!(first.next(), Some(3));
    assert_eq!(first.next(), None);
}

#[test]
fn vector3_division_truncates_toward_zero() {
    assert_eq!(Vector3i32::new(-7, 7, -9) / 2, Vector3i32::new(-3, 3, -4));
}
