use filter_engine::compiler::compile;
use filter_engine::list_cache::CacheState;
use filter_engine::ruleset::{classify_refusal, CompiledRuleSet, SnapshotError};
use filter_engine::startup::{
    load_engine_from_cache, plan_startup, save_engine_to_cache, EngineCacheError, StartupStep,
};

fn sample() -> CompiledRuleSet {
    let list = "||doubleclick.net^\n||ads.example.com^\n@@||ads.example.com/allowed.js\n||img.example.com^$image\nexample.com##.ad-banner\nexample.com#@#.keep\n##.generic-ad\n";
    compile(&vec![list.to_string()]).0
}

const PROBES: [(&str, &str, &str); 7] = [
    ("https://doubleclick.net/x.js", "https://example.com", "script"),
    ("https://ads.example.com/banner.js", "https://site.example", "script"),
    ("https://ads.example.com/allowed.js", "https://site.example", "script"),
    ("https://img.example.com/a.png", "https://site.example", "image"),
    ("https://img.example.com/a.png", "https://site.example", "script"),
    ("https://example.org/", "https://example.org/", "document"),
    ("not a url", "", "other"),
];

fn sorted(mut list: Vec<String>) -> Vec<String> {
    list.sort();
    list
}

#[test]
fn snapshot_opens_with_magic_and_version() {
    let bytes = sample().save().unwrap();
    assert!(bytes.len() > 13);
    assert_eq!(&bytes[0..4], &[0xd1, 0xd9, 0x3a, 0xaf]);
    assert_eq!(bytes[4], 3);
}

#[test]
fn loaded_snapshot_answers_as_the_saved_rules() {
    let rules = sample();
    let bytes = rules.save().unwrap();
    let loaded = CompiledRuleSet::load(&bytes).unwrap();
    for (url, source, kind) in PROBES {
        assert_eq!(loaded.check(url, source, kind), rules.check(url, source, kind), "{}", url);
    }
    assert!(loaded.check("https://doubleclick.net/x.js", "https://example.com", "script"));
    assert!(!loaded.check("https://ads.example.com/allowed.js", "https://site.example", "script"));
    for url in ["https://example.com/page", "https://other.example/", "nonsense"] {
        let a = rules.page_resources(url);
        let b = loaded.page_resources(url);
        assert_eq!(sorted(a.hide_selectors), sorted(b.hide_selectors), "{}", url);
        assert_eq!(sorted(a.exceptions), sorted(b.exceptions), "{}", url);
        assert_eq!(a.generic_hide, b.generic_hide);
        assert_eq!(a.injected_script, b.injected_script);
    }
    let classes = vec!["generic-ad".to_string(), "x".to_string()];
    assert_eq!(
        loaded.hidden_selectors(&classes, &vec![], &vec![]),
        rules.hidden_selectors(&classes, &vec![], &vec![])
    );
    // Saving what was loaded gives the same bytes again.
    assert_eq!(loaded.save().unwrap(), bytes);
}

#[test]
fn short_or_foreign_bytes_have_a_bad_header() {
    for bytes in [&b""[..], &b"abc"[..], &[0xd1, 0xd9, 0x3a, 0xaf, 3, 0, 0, 0, 0, 0, 0, 0][..], &b"this is no snapshot at all"[..]] {
        assert_eq!(CompiledRuleSet::load(bytes).err(), Some(SnapshotError::BadHeader));
        assert_eq!(classify_refusal(bytes), SnapshotError::BadHeader);
    }
}

#[test]
fn other_version_is_a_mismatch() {
    let mut bytes = sample().save().unwrap();
    bytes[4] = 2;
    assert_eq!(CompiledRuleSet::load(&bytes).err(), Some(SnapshotError::VersionMismatch(2)));
    bytes[4] = 200;
    assert_eq!(CompiledRuleSet::load(&bytes).err(), Some(SnapshotError::VersionMismatch(200)));
}

#[test]
fn damaged_payload_is_corrupt() {
    let mut bytes = sample().save().unwrap();
    let last = bytes.len() - 1;
    bytes[last] ^= 0xff;
    assert_eq!(CompiledRuleSet::load(&bytes).err(), Some(SnapshotError::Corrupt));
    let mut bytes = sample().save().unwrap();
    bytes[5] ^= 0xff;
    assert_eq!(CompiledRuleSet::load(&bytes).err(), Some(SnapshotError::Corrupt));
    let mut bytes = sample().save().unwrap();
    bytes.truncate(20);
    assert_eq!(CompiledRuleSet::load(&bytes).err(), Some(SnapshotError::Corrupt));
    // A header alone, with the version in order: nothing behind it to check against.
    assert_eq!(classify_refusal(&[0xd1, 0xd9, 0x3a, 0xaf, 3, 0, 0, 0, 0, 0, 0, 0, 0]), SnapshotError::Corrupt);
}

#[test]
fn startup_takes_a_fresh_snapshot_only() {
    assert_eq!(plan_startup(CacheState::Missing, 1000, 86_400), StartupStep::Rebuild);
    assert_eq!(plan_startup(CacheState::Present { modified: 1000 }, 1000, 86_400), StartupStep::LoadSnapshot);
    assert_eq!(plan_startup(CacheState::Present { modified: 1000 }, 1000 + 86_399, 86_400), StartupStep::LoadSnapshot);
    assert_eq!(plan_startup(CacheState::Present { modified: 1000 }, 1000 + 86_400, 86_400), StartupStep::Rebuild);
}

#[test]
fn engine_cache_is_loaded_when_fresh_and_accepted() {
    let rules = sample();
    let bytes = save_engine_to_cache(&rules, 500, 86_400).ok().unwrap();
    assert_eq!(bytes, rules.save().unwrap());
    let fresh = CacheState::Present { modified: 500 };
    let loaded = load_engine_from_cache(&bytes, fresh, 600, 86_400).ok().unwrap();
    assert!(loaded.check("https://doubleclick.net/x.js", "https://example.com", "script"));
    assert_eq!(
        load_engine_from_cache(&bytes, CacheState::Missing, 600, 86_400).err(),
        Some(EngineCacheError::Invalid)
    );
    assert_eq!(
        load_engine_from_cache(&bytes, fresh, 500 + 86_400, 86_400).err(),
        Some(EngineCacheError::Invalid)
    );
    assert_eq!(
        load_engine_from_cache(b"junk", fresh, 600, 86_400).err(),
        Some(EngineCacheError::Snapshot(SnapshotError::BadHeader))
    );
    let mut damaged = bytes.clone();
    damaged[13] ^= 1;
    assert_eq!(
        load_engine_from_cache(&damaged, fresh, 600, 86_400).err(),
        Some(EngineCacheError::Snapshot(SnapshotError::Corrupt))
    );
    // Stale comes first: the bytes are not even looked at.
    assert_eq!(
        load_engine_from_cache(b"junk", CacheState::Missing, 600, 86_400).err(),
        Some(EngineCacheError::Invalid)
    );
}

#[test]
fn engine_cache_errors_in_words() {
    assert_eq!(EngineCacheError::Invalid.message(), "Cache invalid");
    assert_eq!(EngineCacheError::Snapshot(SnapshotError::BadHeader).message(), "Deserialize: BadHeader");
    assert_eq!(EngineCacheError::Snapshot(SnapshotError::VersionMismatch(9)).message(), "Deserialize: VersionMismatch");
    assert_eq!(EngineCacheError::Snapshot(SnapshotError::Corrupt).message(), "Deserialize: Corrupt");
}

#[test]
fn snapshot_that_was_handed_out_loads_while_it_is_fresh() {
    let rules = sample();
    let bytes = save_engine_to_cache(&rules, 1000, 300).ok().unwrap();
    let written = CacheState::Present { modified: 1000 };
    for now in [1000, 1001, 1299] {
        let loaded = load_engine_from_cache(&bytes, written, now, 300).ok().unwrap();
        for (url, source, kind) in PROBES {
            assert_eq!(loaded.check(url, source, kind), rules.check(url, source, kind), "{}", url);
        }
        let a = rules.page_resources("https://example.com/page");
        let b = loaded.page_resources("https://example.com/page");
        assert_eq!(sorted(a.hide_selectors), sorted(b.hide_selectors));
        assert_eq!(sorted(a.exceptions), sorted(b.exceptions));
        assert_eq!(a.generic_hide, b.generic_hide);
        assert_eq!(a.injected_script, b.injected_script);
    }
    assert_eq!(load_engine_from_cache(&bytes, written, 1300, 300).err(), Some(EngineCacheError::Invalid));
}

#[test]
fn snapshot_that_would_be_stale_at_once_is_not_handed_out() {
    assert_eq!(save_engine_to_cache(&sample(), 1000, 0).err(), Some(EngineCacheError::Invalid));
    assert!(save_engine_to_cache(&sample(), 1000, 1).is_ok());
    assert!(save_engine_to_cache(&sample(), u64::MAX, u64::MAX).is_ok());
}
