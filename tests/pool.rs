use wheel_picker::pool::{join_entries, Config, RemoveOutcome};

fn pool_of(items: &[&str]) -> Config {
    let mut c = Config::new();
    for s in items {
        c.add(s.to_string());
    }
    c
}

fn names(c: &Config) -> Vec<&str> {
    c.current_pool.iter().map(|s| s.as_str()).collect()
}

#[test]
fn add_appends_at_the_end() {
    let mut c = pool_of(&["a", "b"]);
    c.add("c".to_string());
    assert_eq!(names(&c), vec!["a", "b", "c"]);
    c.add("a".to_string());
    assert_eq!(names(&c), vec!["a", "b", "c", "a"]);
}

#[test]
fn add_accepts_empty_and_unicode_names() {
    let mut c = Config::new();
    c.add(String::new());
    c.add("ramen 🍜".to_string());
    assert_eq!(names(&c), vec!["", "ramen 🍜"]);
}

#[test]
fn remove_takes_the_first_match() {
    let mut c = pool_of(&["a", "b", "a"]);
    assert_eq!(c.remove(&"a".to_string()), RemoveOutcome::Removed);
    assert_eq!(names(&c), vec!["b", "a"]);
    assert!(RemoveOutcome::Removed.must_save());
}

#[test]
fn remove_absent_entry_leaves_pool() {
    let mut c = pool_of(&["a", "b"]);
    let r = c.remove(&"z".to_string());
    assert_eq!(r, RemoveOutcome::NotFound);
    assert!(!r.must_save());
    assert_eq!(names(&c), vec!["a", "b"]);
}

#[test]
fn remove_on_empty_pool_reports_no_entries() {
    let mut c = Config::new();
    let r = c.remove(&"a".to_string());
    assert_eq!(r, RemoveOutcome::NoEntries);
    assert!(!r.must_save());
    assert!(c.current_pool.is_empty());
}

#[test]
fn remove_matches_exactly() {
    let mut c = pool_of(&["Pizza", "pizza "]);
    assert_eq!(c.remove(&"pizza".to_string()), RemoveOutcome::NotFound);
    assert_eq!(c.remove(&"pizza ".to_string()), RemoveOutcome::Removed);
    assert_eq!(names(&c), vec!["Pizza"]);
}

#[test]
fn listing_of_empty_pool_is_none() {
    assert_eq!(Config::new().listing(), None);
}

#[test]
fn listing_puts_one_entry_per_line() {
    assert_eq!(pool_of(&["pizza", "sushi", "tacos"]).listing(), Some("pizza\nsushi\ntacos".to_string()));
    assert_eq!(pool_of(&["solo"]).listing(), Some("solo".to_string()));
}

#[test]
fn join_entries_separates_items() {
    let v = vec!["a".to_string(), "".to_string(), "c".to_string()];
    assert_eq!(join_entries(&v, ", "), "a, , c");
    assert_eq!(join_entries(&Vec::new(), ", "), "");
}

#[test]
fn clear_on_yes_empties_pool() {
    for answer in ["y", "yes", "Y", "YES", "  Yes\n", "y\r\n"] {
        let mut c = pool_of(&["a", "b"]);
        assert!(c.clear(answer), "answer {answer:?}");
        assert!(c.current_pool.is_empty());
    }
}

#[test]
fn clear_without_yes_keeps_pool() {
    for answer in ["", "\n", "n", "no", "yess", "ye", "y e s", "sure"] {
        let mut c = pool_of(&["a", "b"]);
        assert!(!c.clear(answer), "answer {answer:?}");
        assert_eq!(names(&c), vec!["a", "b"]);
    }
}

#[test]
fn add_remove_list_pick_scenario() {
    let mut c = Config::new();
    c.add("pizza".to_string());
    c.add("sushi".to_string());
    assert_eq!(c.listing(), Some("pizza\nsushi".to_string()));
    assert_eq!(c.remove(&"pizza".to_string()), RemoveOutcome::Removed);
    assert_eq!(c.listing(), Some("sushi".to_string()));
    for _ in 0..20 {
        assert_eq!(c.pick(1), Some(vec!["sushi".to_string()]));
    }
}

#[test]
fn default_config_is_empty() {
    assert!(Config::default().current_pool.is_empty());
    assert!(Config::new().current_pool.is_empty());
}
