use bounded_index::{CustomIndex, Idx, Step, MAX};

#[test]
fn forward() {
    let initial = CustomIndex::new(0);
    assert_eq!(CustomIndex::forward(initial, 1), CustomIndex::from_u32(1));
}

#[test]
#[should_panic]
fn forward_overflow() {
    let initial = CustomIndex::new(0);
    CustomIndex::forward(initial, usize::MAX);
}

#[test]
fn backward() {
    let initial = CustomIndex::new(100);
    assert_eq!(CustomIndex::backward(initial, 1), CustomIndex::from_u32(99));
}

#[test]
#[should_panic]
fn backward_overflow() {
    let initial = CustomIndex::new(1);
    CustomIndex::backward(initial, 2);
}

#[test]
fn from_u32_round_trip() {
    for v in [0u32, 1, 2, 255, 65_536, 123_456_789, MAX - 1, MAX] {
        assert_eq!(CustomIndex::from_u32(v).as_u32(), v);
    }
}

#[test]
fn from_u32_at_max_succeeds() {
    let top = CustomIndex::from_u32(0xFFFF_FF00);
    assert_eq!(top.as_u32(), 0xFFFF_FF00);
    assert_eq!(top.as_usize(), 0xFFFF_FF00usize);
}

#[test]
fn from_usize_and_from_u16() {
    assert_eq!(CustomIndex::from_usize(0xFFFF_FF00).as_u32(), MAX);
    assert_eq!(CustomIndex::from_usize(42), CustomIndex::from_u32(42));
    assert_eq!(CustomIndex::from_u16(u16::MAX).as_u32(), 65_535);
    assert_eq!(CustomIndex::from_u16(7), CustomIndex::from_u32(7));
    assert_eq!(CustomIndex::from_u32_unchecked(9), CustomIndex::from_u32(9));
}

#[test]
fn accessors_agree() {
    let i = CustomIndex::from_u32(31_337);
    assert_eq!(i.index(), 31_337);
    assert_eq!(i.as_usize(), 31_337);
    assert_eq!(i.as_u32(), 31_337);
    assert_eq!(<CustomIndex as Idx>::index(i), 31_337);
}

#[test]
fn conversions_out() {
    let i = CustomIndex::from_u32(4_000_000_000);
    assert_eq!(u32::from(i), 4_000_000_000u32);
    assert_eq!(usize::from(i), 4_000_000_000usize);
    let n: u32 = CustomIndex::from_u32(17).into();
    assert_eq!(n, 17);
}

#[test]
fn forward_checked_from_zero() {
    let zero = CustomIndex::from_u32(0);
    assert_eq!(CustomIndex::forward_checked(zero, 1), Some(CustomIndex::from_u32(1)));
}

#[test]
fn forward_checked_max_offset_absent() {
    let zero = CustomIndex::from_u32(0);
    assert_eq!(CustomIndex::forward_checked(zero, usize::MAX), None);
    let one = CustomIndex::from_u32(1);
    assert_eq!(CustomIndex::forward_checked(one, usize::MAX), None);
}

#[test]
fn forward_checked_at_the_top() {
    let below = CustomIndex::from_u32(MAX - 1);
    let top = CustomIndex::from_u32(MAX);
    assert_eq!(CustomIndex::forward_checked(below, 1), Some(top));
    assert_eq!(CustomIndex::forward_checked(top, 1), None);
    assert_eq!(CustomIndex::forward_checked(top, 0), Some(top));
}

#[test]
fn backward_checked_by_one() {
    let hundred = CustomIndex::from_u32(100);
    assert_eq!(CustomIndex::backward_checked(hundred, 1), Some(CustomIndex::from_u32(99)));
}

#[test]
fn backward_checked_below_zero_absent() {
    let one = CustomIndex::from_u32(1);
    assert_eq!(CustomIndex::backward_checked(one, 2), None);
}

#[test]
fn backward_checked_from_zero_absent() {
    let zero = CustomIndex::from_u32(0);
    assert_eq!(CustomIndex::backward_checked(zero, 1), None);
    assert_eq!(CustomIndex::backward_checked(zero, 0), Some(zero));
}

#[test]
fn backward_checked_to_zero() {
    let top = CustomIndex::from_u32(MAX);
    assert_eq!(CustomIndex::backward_checked(top, MAX as usize), Some(CustomIndex::from_u32(0)));
    assert_eq!(CustomIndex::backward_checked(top, usize::MAX), None);
}

#[test]
fn plus_agrees_with_increment_by() {
    for (start, n) in [(0u32, 0usize), (0, 1), (10, 5), (1_000, 99_999), (MAX - 3, 3)] {
        let i = CustomIndex::from_u32(start);
        let mut copy = i;
        copy.increment_by(n);
        assert_eq!(i.plus(n), copy);
        assert_eq!(copy.index(), start as usize + n);
    }
}

#[test]
fn add_equals_from_usize() {
    for (start, offset) in [(0u32, 0usize), (0, 1), (7, 8), (MAX - 10, 10)] {
        let i = CustomIndex::from_u32(start);
        assert_eq!(i + offset, CustomIndex::from_usize(i.index() + offset));
    }
}

#[test]
fn add_one_to_zero() {
    assert_eq!(CustomIndex::from_u32(0) + 1, CustomIndex::from_u32(1));
}

#[test]
fn ordering_follows_index() {
    let a = CustomIndex::from_u32(3);
    let b = CustomIndex::from_u32(4_000);
    let c = CustomIndex::from_u32(MAX);
    assert!(a < b && b < c && a < c);
    assert!(c > a);
    assert!(a <= a && a >= a);
    assert_eq!(a.partial_cmp(&b), Some(std::cmp::Ordering::Less));
    assert_eq!(b.partial_cmp(&a), Some(std::cmp::Ordering::Greater));
    assert_eq!(a.cmp(&b), std::cmp::Ordering::Less);
    assert_eq!(c.cmp(&c), std::cmp::Ordering::Equal);
    assert_eq!(std::cmp::max(a, c), c);
}

#[test]
fn steps_between_five_and_ten() {
    let five = CustomIndex::from_u32(5);
    let ten = CustomIndex::from_u32(10);
    assert_eq!(CustomIndex::steps_between(&five, &ten), (5, Some(5)));
}

#[test]
fn steps_between_reversed_and_equal() {
    let five = CustomIndex::from_u32(5);
    let ten = CustomIndex::from_u32(10);
    assert_eq!(CustomIndex::steps_between(&ten, &five), (0, None));
    assert_eq!(CustomIndex::steps_between(&ten, &ten), (0, Some(0)));
    let zero = CustomIndex::from_u32(0);
    let top = CustomIndex::from_u32(MAX);
    assert_eq!(CustomIndex::steps_between(&zero, &top), (MAX as usize, Some(MAX as usize)));
}

#[test]
fn max_as_u32_is_the_bound() {
    assert_eq!(CustomIndex::MAX_AS_U32, 0xFFFF_FF00);
    assert_eq!(CustomIndex::from_u32(CustomIndex::MAX_AS_U32).as_u32(), MAX);
}
