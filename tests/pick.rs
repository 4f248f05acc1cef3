use wheel_picker::pick::{frame_delay_ms, Spin, FRAME_END_MS, FRAME_MIN_MS};
use wheel_picker::pool::Config;

fn pool_of(items: &[&str]) -> Config {
    let mut c = Config::new();
    for s in items {
        c.add(s.to_string());
    }
    c
}

#[test]
fn pick_draws_exactly_amount_entries_from_pool() {
    let c = pool_of(&["a", "b", "c"]);
    for amount in [1usize, 2, 7, 50] {
        let v = c.pick(amount).unwrap();
        assert_eq!(v.len(), amount);
        assert!(v.iter().all(|s| c.current_pool.contains(s)));
    }
}

#[test]
fn pick_of_zero_is_empty() {
    assert_eq!(pool_of(&["a"]).pick(0), Some(Vec::new()));
}

#[test]
fn pick_on_empty_pool_is_none() {
    assert_eq!(Config::new().pick(3), None);
    assert_eq!(Config::new().draw_index(), None);
}

#[test]
fn pick_repeats_entries_with_replacement() {
    let c = pool_of(&["a", "b"]);
    let v = c.pick(200).unwrap();
    assert!(v.iter().any(|s| s == "a"));
    assert!(v.iter().any(|s| s == "b"));
}

#[test]
fn draw_index_stays_in_range() {
    let c = pool_of(&["a", "b", "c"]);
    for _ in 0..100 {
        assert!(c.draw_index().unwrap() < 3);
    }
}

#[test]
fn pick_with_follows_the_draws() {
    let c = pool_of(&["a", "b", "c"]);
    let v = c.pick_with(&vec![2, 0, 2, 1]);
    assert_eq!(v, vec!["c", "a", "c", "b"]);
    assert!(c.pick_with(&Vec::new()).is_empty());
}

#[test]
fn spin_lasts_one_or_two_seconds() {
    for _ in 0..50 {
        let s = Spin::start();
        assert!(s.duration_ms == 1000 || s.duration_ms == 2000);
        assert_eq!(s.current, None);
    }
}

#[test]
fn spin_runs_until_time_is_up_and_a_frame_was_drawn() {
    let pool = pool_of(&["x", "y"]);
    let mut s = Spin::start();
    assert!(s.spinning(5000));
    let shown = s.frame(&pool).unwrap();
    assert!(pool.current_pool.contains(&shown));
    assert_eq!(s.current, Some(shown.clone()));
    assert!(s.spinning(0));
    assert!(s.spinning(s.duration_ms - 1));
    assert!(!s.spinning(s.duration_ms));
    assert_eq!(s.settled(), Some(shown));
}

#[test]
fn spin_frame_on_empty_pool_changes_nothing() {
    let mut s = Spin::start();
    let d = s.duration_ms;
    assert_eq!(s.frame(&Config::new()), None);
    assert_eq!(s.current, None);
    assert_eq!(s.duration_ms, d);
}

#[test]
fn frame_delay_is_tens_of_milliseconds() {
    for _ in 0..100 {
        let d = frame_delay_ms();
        assert!(FRAME_MIN_MS <= d && d < FRAME_END_MS);
    }
}
