use ninterp::order::{
    clamp, find_bracket, find_ceil, find_floor, in_range_exec, is_strictly_increasing, wrap,
};

#[test]
fn test_wrap() {
    assert_eq!(wrap(-3, -2, 5), 4);
    assert_eq!(wrap(3, -2, 5), 3);
    assert_eq!(wrap(6, -2, 5), -1);
    assert_eq!(wrap(5, 0, 10), 5);
    assert_eq!(wrap(11, 0, 10), 1);
    assert_eq!(wrap(-3, 0, 10), 7);
    assert_eq!(wrap(-11, 0, 10), 9);
    assert_eq!(wrap(-0.1, -2., -1.), -1.1);
    assert_eq!(wrap(-0., -2., -1.), -2.0);
    assert_eq!(wrap(0.1, -2., -1.), -1.9);
    assert_eq!(wrap(-0.5, -1., 1.), -0.5);
    assert_eq!(wrap(0., -1., 1.), 0.);
    assert_eq!(wrap(0.5, -1., 1.), 0.5);
    assert_eq!(wrap(0.8, -1., 1.), 0.8);
}

#[test]
fn wrap_is_periodic_and_lands_in_range() {
    for x in -40i64..40 {
        let w = wrap(x, -3, 7);
        assert!((-3..7).contains(&w));
        assert_eq!(wrap(x + 10, -3, 7), w);
        assert_eq!((w - x).rem_euclid(10), 0);
    }
    assert_eq!(wrap(7i64, -3, 7), -3);
}

#[test]
fn clamp_restricts_to_the_range() {
    assert_eq!(clamp(-5, 0, 10), 0);
    assert_eq!(clamp(15, 0, 10), 10);
    assert_eq!(clamp(4, 0, 10), 4);
    assert_eq!(clamp(0.5, 1.0, 2.0), 1.0);
    assert!(in_range_exec(&3, &3, &4));
    assert!(!in_range_exec(&5, &3, &4));
}

#[test]
fn locating_points_on_an_axis() {
    let s = vec![0, 10, 20, 30];
    assert!(is_strictly_increasing(&s));
    assert!(!is_strictly_increasing(&vec![0, 10, 10]));
    assert!(is_strictly_increasing(&vec![5]));
    assert_eq!(find_floor(&s, &-1), 0);
    assert_eq!(find_floor(&s, &0), 0);
    assert_eq!(find_floor(&s, &19), 1);
    assert_eq!(find_floor(&s, &20), 2);
    assert_eq!(find_floor(&s, &99), 3);
    assert_eq!(find_ceil(&s, &-1), 0);
    assert_eq!(find_ceil(&s, &11), 2);
    assert_eq!(find_ceil(&s, &20), 2);
    assert_eq!(find_ceil(&s, &99), 3);
    assert_eq!(find_bracket(&s, &30), 2);
    assert_eq!(find_bracket(&s, &25), 2);
    assert_eq!(find_bracket(&s, &0), 0);
    assert_eq!(find_bracket(&s, &-5), 0);
}
