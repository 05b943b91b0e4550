use duck_hunt::timer::{Countdown, Repeat};

const SECOND: u64 = 1_000_000_000;

#[test]
fn one_shot_fires_when_its_time_is_up() {
    let mut c = Countdown::new(2 * SECOND, Repeat::Once);
    assert!(!c.tick(SECOND));
    assert_eq!(c.elapsed_ns, SECOND);
    assert!(!c.tick(SECOND / 2));
    assert_eq!(c.elapsed_ns, 3 * SECOND / 2);
    assert!(c.tick(SECOND));
    assert_eq!(c.elapsed_ns, 2 * SECOND);
}

#[test]
fn one_shot_fires_only_once() {
    let mut c = Countdown::new(2 * SECOND, Repeat::Once);
    assert!(c.tick(5 * SECOND));
    assert_eq!(c.elapsed_ns, 2 * SECOND);
    assert!(!c.tick(SECOND));
    assert!(!c.tick(10 * SECOND));
    assert_eq!(c.elapsed_ns, 2 * SECOND);
}

#[test]
fn one_shot_fires_exactly_at_its_duration() {
    let mut c = Countdown::new(SECOND, Repeat::Once);
    assert!(!c.tick(SECOND - 1));
    assert!(c.tick(1));
}

#[test]
fn repeating_wraps_around() {
    let mut c = Countdown::new(SECOND, Repeat::Repeating);
    assert!(!c.tick(SECOND / 2));
    assert!(c.tick(3 * SECOND / 4));
    assert_eq!(c.elapsed_ns, SECOND / 4);
    assert!(c.tick(3 * SECOND));
    assert_eq!(c.elapsed_ns, SECOND / 4);
    assert!(!c.tick(0));
}
