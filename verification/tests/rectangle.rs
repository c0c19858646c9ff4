use courses::rectangle::Rectangle;
use courses::search::find_first_even;

#[test]
fn new_keeps_width_and_height() {
    let r = Rectangle::new(20, 40);
    assert_eq!(r.width, 20);
    assert_eq!(r.height, 40);
    assert_eq!(r, Rectangle { width: 20, height: 40 });
}

#[test]
fn area_is_width_times_height() {
    assert_eq!(Rectangle { width: 30, height: 50 }.area(), 1500);
    assert_eq!(Rectangle::new(20, 40).area(), 800);
    assert_eq!(Rectangle::square(25).area(), 625);
    assert_eq!(Rectangle::new(0, 7).area(), 0);
    assert_eq!(Rectangle::new(65535, 65537).area(), u32::MAX);
}

#[test]
fn can_hold_needs_both_sides_larger() {
    let big = Rectangle { width: 30, height: 50 };
    let small = Rectangle::new(20, 40);
    assert!(big.can_hold(&small));
    assert!(!small.can_hold(&big));
    assert!(!big.can_hold(&big));
    assert!(!big.can_hold(&Rectangle::new(30, 10)));
    assert!(!big.can_hold(&Rectangle::new(10, 50)));
    assert!(!big.can_hold(&Rectangle::new(31, 10)));
}

#[test]
fn square_has_equal_sides() {
    assert_eq!(Rectangle::square(25), Rectangle { width: 25, height: 25 });
    assert_eq!(Rectangle::square(0), Rectangle::new(0, 0));
}

#[test]
fn find_first_even_finds_the_first() {
    assert_eq!(find_first_even(&[1, 3, 5, 8, 9, 11]), Some(8));
    assert_eq!(find_first_even(&[1, 4, 6]), Some(4));
    assert_eq!(find_first_even(&[0]), Some(0));
    assert_eq!(find_first_even(&[-3, -4, 2]), Some(-4));
    assert_eq!(find_first_even(&[i32::MAX, i32::MIN]), Some(i32::MIN));
}

#[test]
fn find_first_even_finds_nothing_among_odd_numbers() {
    assert_eq!(find_first_even(&[]), None);
    assert_eq!(find_first_even(&[1, 3, 5]), None);
    assert_eq!(find_first_even(&[-1, -3, i32::MAX]), None);
}
