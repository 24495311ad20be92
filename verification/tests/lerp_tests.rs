use transitions::{lerp, Lerp, PROGRESS_SCALE};

const HALF: u32 = PROGRESS_SCALE / 2;

#[test]
fn lerp_midpoint() {
    assert_eq!(lerp(0, 10, HALF), 5);
    assert_eq!(lerp(10, 30, HALF), 20);
}

#[test]
fn lerp_hits_endpoints() {
    assert_eq!(lerp(3, 9, 0), 3);
    assert_eq!(lerp(3, 9, PROGRESS_SCALE), 9);
    assert_eq!(lerp(9, 3, 0), 9);
    assert_eq!(lerp(9, 3, PROGRESS_SCALE), 3);
}

#[test]
fn lerp_degenerate_stays_put() {
    assert_eq!(lerp(7, 7, 0), 7);
    assert_eq!(lerp(7, 7, 123_456), 7);
    assert_eq!(lerp(7, 7, PROGRESS_SCALE), 7);
    assert_eq!(lerp(-42, -42, 999_999), -42);
}

#[test]
fn lerp_negative_values() {
    assert_eq!(lerp(-10, 10, 250_000), -5);
    assert_eq!(lerp(-10, 10, HALF), 0);
    assert_eq!(lerp(10, -10, HALF), 0);
    assert_eq!(lerp(-100, -50, HALF), -75);
}

#[test]
fn lerp_rounds_towards_start() {
    // 1.5 of the way is truncated to 1 going up, -1 going down.
    assert_eq!(lerp(0, 3, HALF), 1);
    assert_eq!(lerp(0, -3, HALF), -1);
    assert_eq!(lerp(0, 3, 999_999), 2);
}

#[test]
fn lerp_extreme_range() {
    assert_eq!(lerp(i64::MIN, i64::MAX, 0), i64::MIN);
    assert_eq!(lerp(i64::MIN, i64::MAX, PROGRESS_SCALE), i64::MAX);
    // The full range is odd, so the midpoint truncates to just below zero.
    assert_eq!(lerp(i64::MIN, i64::MAX, HALF), -1);
    assert_eq!(lerp(i64::MAX, i64::MIN, HALF), 0);
}

#[test]
fn lerp_unsigned_types() {
    assert_eq!(0u8.lerp(&255u8, HALF), 127);
    assert_eq!(0u8.lerp(&255u8, PROGRESS_SCALE), 255);
    assert_eq!(1000u16.lerp(&2000u16, 250_000), 1250);
    assert_eq!(0u32.lerp(&u32::MAX, PROGRESS_SCALE), u32::MAX);
    assert_eq!(0u64.lerp(&u64::MAX, PROGRESS_SCALE), u64::MAX);
    assert_eq!(u64::MAX.lerp(&0u64, HALF), u64::MAX / 2 + 1);
}

#[test]
fn lerp_signed_types() {
    assert_eq!((-100i8).lerp(&100i8, HALF), 0);
    assert_eq!(i8::MIN.lerp(&i8::MAX, PROGRESS_SCALE), i8::MAX);
    assert_eq!((-1000i16).lerp(&1000i16, 750_000), 500);
    assert_eq!((-1_000_000i32).lerp(&1_000_000i32, HALF), 0);
    assert_eq!(5i64.lerp(&15i64, HALF), 10);
}

#[test]
fn same_detects_equality() {
    assert!(5i64.same(&5));
    assert!(!5i64.same(&6));
    assert!(255u8.same(&255));
    assert!(!0u32.same(&1));
}
