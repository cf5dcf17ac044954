use purranormal_defence::generic_attribute::{GenericAttribute, MICROS_PER_SECOND, MILLIS_PER_POINT};

const P: u64 = MILLIS_PER_POINT;

#[test]
fn new_pool_defaults() {
    let pool = GenericAttribute::new(String::from("Stamina"));
    assert_eq!(pool.attribute_name(), "Stamina");
    assert_eq!(pool.get_value(), 100 * P);
    assert_eq!(pool.get_max_value(), 100 * P);
    assert_eq!(pool.get_regen(), 0);
}

#[test]
fn take_succeeds_then_refuses_whole_request() {
    let mut pool = GenericAttribute::new(String::from("Mana"));
    assert!(pool.take(50 * P));
    assert_eq!(pool.get_value(), 50 * P);
    assert!(!pool.take(60 * P));
    assert_eq!(pool.get_value(), 50 * P);
}

#[test]
fn take_exactly_everything() {
    let mut pool = GenericAttribute::new(String::from("Mana"));
    assert!(pool.take(100 * P));
    assert_eq!(pool.get_value(), 0);
    assert!(pool.take(0));
    assert!(!pool.take(1));
}

#[test]
fn change_clamps_to_bounds() {
    let mut pool = GenericAttribute::new(String::from("Health"));
    pool.take(50 * P);
    pool.change(1000 * P as i64);
    assert_eq!(pool.get_value(), 100 * P);
    pool.change(-1000 * P as i64);
    assert_eq!(pool.get_value(), 0);
    pool.change(25 * P as i64);
    assert_eq!(pool.get_value(), 25 * P);
    pool.change(i64::MAX);
    assert_eq!(pool.get_value(), 100 * P);
    pool.change(i64::MIN);
    assert_eq!(pool.get_value(), 0);
}

#[test]
fn regeneration_adds_rate_times_elapsed() {
    let mut pool =
        GenericAttribute::with_values(String::from("Stamina"), 50 * P, 100 * P, 10 * P as i64);
    pool.process(MICROS_PER_SECOND / 2);
    assert_eq!(pool.get_value(), 55 * P);
}

#[test]
fn regeneration_clamps_at_maximum() {
    let mut pool =
        GenericAttribute::with_values(String::from("Stamina"), 98 * P, 100 * P, 10 * P as i64);
    pool.process(MICROS_PER_SECOND / 2);
    assert_eq!(pool.get_value(), 100 * P);
}

#[test]
fn regeneration_of_one_frame_keeps_fractions() {
    let mut pool = GenericAttribute::with_values(String::from("Mana"), 0, 100 * P, P as i64);
    pool.process(16_667);
    assert_eq!(pool.get_value(), 16);
}

#[test]
fn negative_regeneration_drains_and_clamps_at_zero() {
    let mut pool =
        GenericAttribute::with_values(String::from("Health"), 3 * P, 100 * P, -4 * P as i64);
    pool.process(MICROS_PER_SECOND / 2);
    assert_eq!(pool.get_value(), P);
    pool.process(MICROS_PER_SECOND);
    assert_eq!(pool.get_value(), 0);
}

#[test]
fn zero_regeneration_leaves_value() {
    let mut pool = GenericAttribute::with_values(String::from("Health"), 40 * P, 100 * P, 0);
    pool.process(u64::MAX);
    assert_eq!(pool.get_value(), 40 * P);
}

#[test]
fn huge_regeneration_does_not_overflow() {
    let mut pool = GenericAttribute::with_values(String::from("Health"), 1, u64::MAX, i64::MAX);
    pool.process(u64::MAX);
    assert_eq!(pool.get_value(), u64::MAX);
    let mut drain = GenericAttribute::with_values(String::from("Health"), u64::MAX, u64::MAX, i64::MIN);
    drain.process(u64::MAX);
    assert_eq!(drain.get_value(), 0);
}
