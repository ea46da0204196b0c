use std::time::Instant;
use vizer_gateway::{check_cache, insert_cache, Request, ResponseCache};

#[test]
fn empty_cache_finds_nothing() {
    let cache = ResponseCache::new();
    assert_eq!(cache.lookup("home"), None);
    assert_eq!(check_cache(&cache, "home".to_string()), None);
}

#[test]
fn lookup_finds_what_was_stored() {
    let mut cache = ResponseCache::new();
    cache.store("home".to_string(), "X".to_string());
    assert_eq!(cache.lookup("home"), Some("X".to_string()));
    assert_eq!(check_cache(&cache, "home".to_string()), Some("X".to_string()));
}

#[test]
fn store_replaces_the_answer_under_the_same_key() {
    let mut cache = ResponseCache::new();
    cache.store("search:alpha".to_string(), "first".to_string());
    cache.store("search:alpha".to_string(), "second".to_string());
    assert_eq!(cache.lookup("search:alpha"), Some("second".to_string()));
}

#[test]
fn store_leaves_other_keys_alone() {
    let mut cache = ResponseCache::new();
    cache.store("search:alpha".to_string(), "A".to_string());
    cache.store("search:beta".to_string(), "B".to_string());
    assert_eq!(cache.lookup("search:alpha"), Some("A".to_string()));
    assert_eq!(cache.lookup("search:beta"), Some("B".to_string()));
    assert_eq!(cache.lookup("search:gamma"), None);
    assert_eq!(cache.lookup("search:"), None);
}

#[test]
fn an_empty_answer_is_found_and_is_no_miss() {
    let mut cache = ResponseCache::new();
    cache.store("home".to_string(), String::new());
    assert_eq!(cache.lookup("home"), Some(String::new()));
    assert_eq!(check_cache(&cache, "home".to_string()), Some(String::new()));
    assert_ne!(check_cache(&cache, "home".to_string()), check_cache(&ResponseCache::new(), "home".to_string()));
    assert_eq!(check_cache(&cache, "search:".to_string()), None);
}

#[test]
fn insert_cache_puts_the_entry_under_the_key() {
    let mut cache = ResponseCache::new();
    insert_cache(&mut cache, "serie:dark".to_string(), Request::new("D".to_string(), Instant::now()));
    assert_eq!(check_cache(&cache, "serie:dark".to_string()), Some("D".to_string()));
    assert_eq!(check_cache(&cache, "serie:dar".to_string()), None);
    insert_cache(&mut cache, "serie:dark".to_string(), Request::new("E".to_string(), Instant::now()));
    assert_eq!(check_cache(&cache, "serie:dark".to_string()), Some("E".to_string()));
}

#[test]
fn request_keeps_its_text_and_its_moment() {
    let moment = Instant::now();
    let entry = Request::new("body".to_string(), moment);
    assert_eq!(entry.response(), "body");
    assert_eq!(entry.timeout(), moment);
}
