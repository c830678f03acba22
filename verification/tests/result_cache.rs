use filter_engine::matching::{Request, ResourceType};
use filter_engine::result_cache::{CheckResult, ResultCache};
use filter_engine::state::AdBlockState;

fn key(url: &str) -> Request {
    Request {
        url: url.to_string(),
        source_url: "https://page.example".to_string(),
        resource_type: ResourceType::Script,
    }
}

#[test]
fn cache_bounds_are_checked() {
    assert!(ResultCache::new(10, 5, 6).is_none());
    assert!(ResultCache::new(10, 5, 5).is_some());
    assert!(ResultCache::new(10, 0, 0).is_some());
    assert!(AdBlockState::with_policy(filter_engine::matching::MatchPolicy::standard(), 1, 2, 3).is_none());
}

#[test]
fn entry_is_a_hit_until_the_ttl_and_a_miss_from_it() {
    let ttl = 60;
    let inserted_at = 1000;
    for (now, hit) in [(1000, true), (1001, true), (1059, true), (1060, false), (1061, false), (5000, false)] {
        let mut cache = ResultCache::new(ttl, 10, 5).unwrap();
        cache.store(key("a"), true, inserted_at);
        let mut calls = 0;
        let verdict = cache.get_or_compute(key("a"), now, || {
            calls += 1;
            false
        });
        if hit {
            assert_eq!(calls, 0, "hit at {}", now);
            assert!(verdict);
            assert_eq!(cache.peek(&key("a")), Some(CheckResult { matched: true, computed_at: inserted_at, access_count: 2 }));
        } else {
            assert_eq!(calls, 1, "miss at {}", now);
            assert!(!verdict);
            assert_eq!(cache.peek(&key("a")), Some(CheckResult { matched: false, computed_at: now, access_count: 1 }));
        }
        assert_eq!(cache.len(), 1);
    }
}

#[test]
fn a_clock_that_went_back_counts_as_no_age() {
    let mut cache = ResultCache::new(60, 10, 5).unwrap();
    cache.store(key("a"), true, 1000);
    assert_eq!(cache.lookup(&key("a"), 10), Some(true));
}

#[test]
fn zero_ttl_never_hits() {
    let mut cache = ResultCache::new(0, 10, 5).unwrap();
    cache.store(key("a"), true, 1000);
    assert_eq!(cache.lookup(&key("a"), 1000), None);
    assert_eq!(cache.len(), 0);
}

#[test]
fn miss_computes_and_stores_with_one_access() {
    let mut cache = ResultCache::new(60, 10, 5).unwrap();
    assert!(cache.get_or_compute(key("a"), 7, || true));
    assert_eq!(cache.peek(&key("a")), Some(CheckResult { matched: true, computed_at: 7, access_count: 1 }));
    assert!(!cache.get_or_compute(key("b"), 8, || false));
    assert_eq!(cache.peek(&key("b")), Some(CheckResult { matched: false, computed_at: 8, access_count: 1 }));
    assert_eq!(cache.peek(&key("c")), None);
    assert_eq!(cache.len(), 2);
}

#[test]
fn hits_count_up() {
    let mut cache = ResultCache::new(60, 10, 5).unwrap();
    cache.store(key("a"), true, 0);
    for n in 0..5u64 {
        assert_eq!(cache.lookup(&key("a"), n), Some(true));
    }
    assert_eq!(cache.peek(&key("a")).unwrap().access_count, 6);
    assert_eq!(cache.peek(&key("a")).unwrap().computed_at, 0);
}

#[test]
fn expired_entry_is_dropped_by_a_lookup() {
    let mut cache = ResultCache::new(60, 10, 5).unwrap();
    cache.store(key("a"), true, 0);
    cache.store(key("b"), true, 0);
    assert_eq!(cache.lookup(&key("a"), 60), None);
    assert_eq!(cache.peek(&key("a")), None);
    assert!(cache.peek(&key("b")).is_some());
    assert_eq!(cache.len(), 1);
}

#[test]
fn keys_differ_by_each_part() {
    let mut cache = ResultCache::new(60, 10, 5).unwrap();
    cache.store(key("a"), true, 0);
    let other_source = Request { source_url: "https://other.example".to_string(), ..key("a") };
    let other_type = Request { resource_type: ResourceType::Image, ..key("a") };
    assert!(!key("a").same(&other_source));
    assert!(!key("a").same(&other_type));
    assert!(!key("a").same(&key("b")));
    assert!(key("a").same(&key("a")));
    assert_eq!(cache.lookup(&other_source, 0), None);
    assert_eq!(cache.lookup(&other_type, 0), None);
    assert_eq!(cache.lookup(&key("a"), 0), Some(true));
}

#[test]
fn store_replaces_the_entry_of_a_key() {
    let mut cache = ResultCache::new(60, 10, 5).unwrap();
    cache.store(key("a"), true, 0);
    cache.lookup(&key("a"), 1);
    cache.store(key("a"), false, 2);
    assert_eq!(cache.len(), 1);
    assert_eq!(cache.peek(&key("a")), Some(CheckResult { matched: false, computed_at: 2, access_count: 1 }));
}

#[test]
fn cache_stays_within_high_water_and_evicts_to_the_floor() {
    let high_water = 50;
    let floor = 30;
    let mut cache = ResultCache::new(1000, high_water, floor).unwrap();
    for n in 0..high_water {
        cache.store(key(&format!("k{}", n)), true, n as u64);
        assert_eq!(cache.len(), n + 1);
    }
    // One more distinct key takes the cache past the mark.
    cache.store(key("last"), true, 100);
    assert_eq!(cache.len(), floor);
    // All were used once, so the oldest left: the 21 first ones.
    for n in 0..21 {
        assert_eq!(cache.peek(&key(&format!("k{}", n))), None, "k{}", n);
    }
    for n in 21..high_water {
        assert!(cache.peek(&key(&format!("k{}", n))).is_some(), "k{}", n);
    }
    assert!(cache.peek(&key("last")).is_some());
    // And it grows again up to the mark.
    for n in 0..(high_water - floor) {
        cache.store(key(&format!("again{}", n)), true, 200);
    }
    assert_eq!(cache.len(), high_water);
    cache.store(key("over"), true, 200);
    assert_eq!(cache.len(), floor);
}

#[test]
fn eviction_removes_expired_entries_first() {
    let mut cache = ResultCache::new(100, 4, 3).unwrap();
    cache.store(key("old1"), true, 0);
    cache.store(key("old2"), true, 0);
    // Used often, but expired at the time of the eviction.
    for _ in 0..10 {
        cache.lookup(&key("old1"), 50);
    }
    cache.store(key("new1"), true, 150);
    cache.store(key("new2"), true, 150);
    assert_eq!(cache.len(), 4);
    cache.store(key("new3"), true, 150);
    // Past the mark: the two expired entries leave, and three live ones fit under the floor.
    assert_eq!(cache.len(), 3);
    assert_eq!(cache.peek(&key("old1")), None);
    assert_eq!(cache.peek(&key("old2")), None);
    assert!(cache.peek(&key("new1")).is_some());
    assert!(cache.peek(&key("new2")).is_some());
    assert!(cache.peek(&key("new3")).is_some());
}

#[test]
fn eviction_keeps_the_most_used_then_the_youngest() {
    let mut cache = ResultCache::new(1000, 5, 2).unwrap();
    cache.store(key("hot"), true, 0);
    cache.store(key("warm"), true, 1);
    cache.store(key("cold_old"), true, 2);
    cache.store(key("cold_new"), true, 3);
    cache.store(key("cold_mid"), true, 2);
    for _ in 0..5 {
        cache.lookup(&key("hot"), 4);
    }
    cache.lookup(&key("warm"), 4);
    cache.lookup(&key("warm"), 4);
    assert_eq!(cache.len(), 5);
    // The new entry is used once and is the youngest of those used once.
    cache.store(key("fresh"), true, 5);
    assert_eq!(cache.len(), 2);
    assert_eq!(cache.peek(&key("hot")).unwrap().access_count, 6);
    assert_eq!(cache.peek(&key("warm")).unwrap().access_count, 3);
    assert_eq!(cache.peek(&key("fresh")), None);
    assert_eq!(cache.peek(&key("cold_new")), None);
}

#[test]
fn floor_of_zero_empties_the_cache() {
    let mut cache = ResultCache::new(1000, 1, 0).unwrap();
    cache.store(key("a"), true, 0);
    assert_eq!(cache.len(), 1);
    cache.store(key("b"), true, 0);
    assert_eq!(cache.len(), 0);
}

#[test]
fn clear_drops_everything() {
    let mut cache = ResultCache::new(1000, 5, 2).unwrap();
    cache.store(key("a"), true, 0);
    cache.store(key("b"), true, 0);
    cache.clear();
    assert_eq!(cache.len(), 0);
    assert_eq!(cache.peek(&key("a")), None);
}

#[test]
fn standard_bounds_hold_under_many_distinct_requests() {
    let mut cache = ResultCache::new(300, 5000, 3000).unwrap();
    for n in 0..5000u64 {
        cache.store(key(&format!("https://cdn.example/asset/{}", n)), n % 2 == 0, n / 100);
    }
    assert_eq!(cache.len(), 5000);
    // A hot entry among many cold ones.
    for _ in 0..3 {
        assert_eq!(cache.lookup(&key("https://cdn.example/asset/7"), 50), Some(false));
    }
    cache.store(key("https://cdn.example/one-more"), true, 50);
    assert_eq!(cache.len(), 3000);
    assert_eq!(cache.peek(&key("https://cdn.example/asset/7")).unwrap().access_count, 4);
    // The oldest of the entries used once have left, the youngest stayed.
    assert_eq!(cache.peek(&key("https://cdn.example/asset/0")), None);
    assert_eq!(cache.peek(&key("https://cdn.example/asset/1999")), None);
    assert!(cache.peek(&key("https://cdn.example/asset/4999")).is_some());
    for n in 0..2000u64 {
        cache.store(key(&format!("https://cdn.example/next/{}", n)), false, 60);
        assert!(cache.len() <= 5000);
    }
    assert_eq!(cache.len(), 5000);
}
