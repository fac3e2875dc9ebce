use rokoko::math::new::{New, NewError, Piece};

type IVec3 = rokoko::math::vec::vec<i64, 3>;
type IVec4 = rokoko::math::vec::vec<i64, 4>;
type BVec3 = rokoko::math::vec::vec<bool, 3>;

#[test]
fn single_fills_every_slot() {
    let v = IVec4::single(7);
    assert_eq!(v.as_array(), &vec![7, 7, 7, 7]);
}

#[test]
fn from_array_round_trips_through_into_array() {
    let v = IVec3::from_array([1, 2, 3]);
    assert_eq!(v.into_array(), vec![1, 2, 3]);
}

#[test]
fn index_returns_each_element() {
    let v = IVec3::from_array([4, 5, 6]);
    assert_eq!(*v.index(0), 4);
    assert_eq!(*v.index(1), 5);
    assert_eq!(*v.index(2), 6);
}

#[test]
fn index_mut_replaces_exactly_one_element() {
    let mut v = IVec3::from_array([1, 2, 3]);
    *v.index_mut(1) = 12;
    assert_eq!(v.as_array(), &vec![1, 12, 3]);
}

#[test]
fn as_array_mut_edits_are_observed() {
    let mut v = IVec3::from_array([1, 2, 3]);
    v.as_array_mut()[0] = 9;
    assert_eq!(v.as_array(), &vec![9, 2, 3]);
}

#[test]
fn add_is_elementwise() {
    let a = IVec3::from_array([1, 2, 3]);
    let b = IVec3::from_array([30, 20, 10]);
    let sum = a.add(&b);
    for i in 0..3 {
        assert_eq!(*sum.index(i), *a.index(i) + *b.index(i));
    }
    assert_eq!(sum.as_array(), &vec![31, 22, 13]);
}

#[test]
fn sub_and_mul_and_neg_are_elementwise() {
    let a = IVec3::from_array([5, 7, 9]);
    let b = IVec3::from_array([1, 2, 3]);
    assert_eq!(a.sub(&b).as_array(), &vec![4, 5, 6]);
    assert_eq!(a.mul(&b).as_array(), &vec![5, 14, 27]);
    assert_eq!(b.neg().as_array(), &vec![-1, -2, -3]);
}

#[test]
fn add_assign_modifies_in_place() {
    let mut a = IVec3::from_array([1, 2, 3]);
    let b = IVec3::from_array([10, 10, 10]);
    a.add_assign(&b);
    assert_eq!(a.as_array(), &vec![11, 12, 13]);
}

#[test]
fn equality_is_reflexive_and_elementwise() {
    let a = IVec3::from_array([3, 17, 21]);
    let b = IVec3::from_array([3, 17, 21]);
    let c = IVec3::from_array([3, 17, 22]);
    assert!(a == a);
    assert!(a == b);
    assert!(a != c);
}

#[test]
fn apply_binary_with_custom_operation() {
    let a = IVec3::from_array([1, 2, 3]);
    let b = IVec3::from_array([3, 4, 5]);
    let multiplied = a.apply_binary(&b, |x: i64, y: i64| x * y);
    assert_eq!(multiplied.as_array(), &vec![3, 8, 15]);
}

#[test]
fn apply_binary_single_applies_scalar_operand() {
    let v = IVec3::from_array([3, 7, 1]);
    let scaled = v.apply_binary_single(4, |x: i64, y: i64| x * y);
    assert_eq!(scaled.as_array(), &vec![12, 28, 4]);
}

#[test]
fn apply_unary_transforms_each_element() {
    let v = BVec3::from_array([false, true, false]);
    let negated = v.apply_unary(|x: bool| !x);
    assert_eq!(negated.as_array(), &vec![true, false, true]);
}

#[test]
fn not_negates_each_element() {
    let v = BVec3::from_array([false, false, true]);
    assert_eq!(v.not().as_array(), &vec![true, true, false]);
}

#[test]
fn modify_operations_work_in_place() {
    let mut v = IVec3::from_array([1, 2, 3]);
    v.modify_binary(&IVec3::from_array([3, 4, 5]), |x: i64, y: i64| x * y);
    assert_eq!(v.as_array(), &vec![3, 8, 15]);
    v.modify_binary_single(5, |x: i64, y: i64| x - y);
    assert_eq!(v.as_array(), &vec![-2, 3, 10]);
    v.modify_unary(|x: i64| x + 1);
    assert_eq!(v.as_array(), &vec![-1, 4, 11]);
}

#[test]
fn apply_binary_bool_is_a_short_circuit_conjunction() {
    let a = IVec3::from_array([3, 17, 21]);
    let b = IVec3::from_array([3, 17, 21]);
    assert!(a.apply_binary_bool(&b, |x: i64, y: i64| x == y));
    let c = IVec3::from_array([3, 18, 21]);
    assert!(!a.apply_binary_bool(&c, |x: i64, y: i64| x == y));
}

#[test]
fn apply_unary_bool_checks_every_element() {
    let v = rokoko::math::vec::vec::<i64, 2>::from_array([4, 16]);
    assert!(v.apply_unary_bool(|x: i64| x % 2 == 0));
    assert!(!v.apply_unary_bool(|x: i64| x > 10));
}

#[test]
fn pieces_with_exact_slot_count_fill_in_emission_order() {
    let inner = Piece::list(vec![Piece::scalar(2i64), Piece::scalar(3)]).unwrap();
    let args = vec![Piece::scalar(1i64), inner];
    let v: IVec3 = New.call(&args, 0).unwrap();
    assert_eq!(v.as_array(), &vec![1, 2, 3]);
}

#[test]
fn pieces_below_the_size_are_padded_with_the_default() {
    let args = vec![Piece::scalar(7i64), Piece::scalar(8)];
    let v: IVec3 = New.call(&args, 0).unwrap();
    assert_eq!(v.as_array(), &vec![7, 8, 0]);
}

#[test]
fn pieces_beyond_the_size_are_rejected_not_truncated() {
    let args = vec![
        Piece::scalar(1i64),
        Piece::scalar(2),
        Piece::scalar(3),
        Piece::scalar(4),
    ];
    let r: Result<IVec3, NewError> = New.call(&args, 0);
    assert_eq!(r.unwrap_err(), NewError::TooManyArgs);
}

#[test]
fn tuple_pieces_embed_their_members_in_sequence() {
    let pair = Piece::tuple(vec![Piece::scalar(13i64), Piece::scalar(21)]).unwrap();
    let args = vec![Piece::scalar(1i64), pair, Piece::scalar(34)];
    let v: IVec4 = New.call(&args, 0).unwrap();
    assert_eq!(v.as_array(), &vec![1, 13, 21, 34]);
}

#[test]
fn a_vector_can_be_used_as_a_piece() {
    let first = rokoko::math::vec::vec::<i64, 2>::from_array([1, 2]);
    let args = vec![Piece::of_vec(&first), Piece::scalar(3i64)];
    let v: IVec3 = New.call(&args, 0).unwrap();
    assert_eq!(v.as_array(), &vec![1, 2, 3]);
}

#[test]
fn an_uneven_list_piece_is_rejected() {
    let inner = Piece::list(vec![Piece::scalar(1i64), Piece::scalar(2)]).unwrap();
    let r = Piece::list(vec![Piece::scalar(0i64), inner]);
    assert_eq!(r.unwrap_err(), NewError::UnevenList);
}

#[test]
fn an_oversize_tuple_piece_is_rejected() {
    let members: Vec<Piece<i64>> = (0..11).map(|i| Piece::scalar(i as i64)).collect();
    let r = Piece::tuple(members);
    assert_eq!(r.unwrap_err(), NewError::OversizeTuple);
}

#[test]
fn slot_count_matches_the_slots_written() {
    let inner = Piece::list(vec![Piece::scalar(2i64), Piece::scalar(3)]).unwrap();
    assert_eq!(Piece::scalar(1i64).slot_count(), Some(1));
    assert_eq!(inner.slot_count(), Some(2));
    let pair = Piece::tuple(vec![Piece::scalar(0i64), inner]).unwrap();
    assert_eq!(pair.slot_count(), Some(3));
}

#[test]
fn a_tuple_of_exactly_ten_members_is_accepted() {
    let members: Vec<Piece<i64>> = (0..10).map(|i| Piece::scalar(i as i64)).collect();
    let pair = Piece::tuple(members).unwrap();
    assert_eq!(pair.slot_count(), Some(10));
    let v: rokoko::math::vec::vec<i64, 10> = New.call(&vec![pair], 0).unwrap();
    assert_eq!(v.as_array(), &vec![0, 1, 2, 3, 4, 5, 6, 7, 8, 9]);
}

#[test]
fn nested_lists_flatten_recursively() {
    let innermost = Piece::list(vec![Piece::scalar(3i64)]).unwrap();
    let inner = Piece::list(vec![innermost]).unwrap();
    let args = vec![Piece::scalar(27i64), Piece::scalar(0), inner];
    let v: IVec4 = New.call(&args, 9).unwrap();
    assert_eq!(v.as_array(), &vec![27, 0, 3, 9]);
}

#[test]
fn a_zero_length_vector_holds_nothing() {
    let v = rokoko::math::vec::vec::<i64, 0>::single(1);
    assert_eq!(v.into_array(), Vec::<i64>::new());
    let none: Vec<Piece<i64>> = vec![];
    let built: rokoko::math::vec::vec<i64, 0> = New.call(&none, 0).unwrap();
    assert_eq!(built.as_array(), &Vec::<i64>::new());
    let one = vec![Piece::scalar(1i64)];
    let r: Result<rokoko::math::vec::vec<i64, 0>, NewError> = New.call(&one, 0);
    assert_eq!(r.unwrap_err(), NewError::TooManyArgs);
}

#[test]
fn the_default_vector_is_all_zeros() {
    let v: IVec3 = Default::default();
    assert_eq!(v.as_array(), &vec![0, 0, 0]);
}

#[test]
fn empty_piece_list_fills_everything_with_the_default() {
    let args: Vec<Piece<i64>> = vec![];
    let v: IVec3 = New.call(&args, 5).unwrap();
    assert_eq!(v.as_array(), &vec![5, 5, 5]);
}
