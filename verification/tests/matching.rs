use filter_engine::compiler::compile;
use filter_engine::matching::{MatchPolicy, Request, ResourceType};
use filter_engine::ruleset::{decide, CompiledRuleSet};
use filter_engine::state::AdBlockState;
use filter_engine::text::{
    chars_of, contains, first_char, hash_text, matches_at, mix, same_text, str_starts_with,
    HASH_FACTOR, HASH_MODULUS,
};

fn rules_of(lines: &[&str]) -> CompiledRuleSet {
    let texts = vec![lines.join("\n")];
    compile(&texts).0
}

fn state_with(lines: &[&str]) -> AdBlockState {
    let mut state = AdBlockState::new();
    state.set_engine(rules_of(lines));
    state
}

#[test]
fn doubleclick_script_is_blocked() {
    let mut state = state_with(&["||doubleclick.net^"]);
    assert!(state.check_url("https://doubleclick.net/x.js", "https://example.com", "script", 0));
}

#[test]
fn unrelated_request_is_let_through() {
    let mut state = state_with(&["||doubleclick.net^"]);
    assert!(!state.check_url("https://example.org/app.js", "https://example.com", "script", 0));
}

#[test]
fn nothing_is_blocked_before_rules_are_installed() {
    let mut state = AdBlockState::new();
    assert!(!state.is_ready());
    assert!(!state.check_url("https://doubleclick.net/x.js", "https://example.com", "script", 0));
}

#[test]
fn non_network_schemes_are_never_blocked() {
    let mut state = state_with(&["||doubleclick.net^", "doubleclick"]);
    for url in [
        "data:text/javascript,doubleclick",
        "blob:https://doubleclick.net/1234",
        "tauri://doubleclick.net/x.js",
    ] {
        assert!(!state.check_url(url, "https://example.com", "script", 0), "{}", url);
    }
    // The same rules do block the host over https.
    assert!(state.check_url("https://doubleclick.net/x.js", "https://example.com", "script", 0));
}

#[test]
fn scheme_is_compared_as_written() {
    let policy = MatchPolicy::standard();
    assert!(policy.is_non_network("data:abc"));
    assert!(policy.is_non_network("blob:abc"));
    assert!(policy.is_non_network("tauri:abc"));
    assert!(!policy.is_non_network("DATA:abc"));
    assert!(!policy.is_non_network("https://data:1/"));
    assert!(!policy.is_non_network("data"));
    assert!(!policy.is_non_network(""));
}

#[test]
fn configured_internal_schemes_bypass() {
    let policy = MatchPolicy::new(vec!["app:".to_string(), "ipc:".to_string()], &vec![]);
    assert!(policy.is_non_network("app://index.html"));
    assert!(policy.is_non_network("ipc://call"));
    assert!(!policy.is_non_network("tauri://x"));
    assert!(policy.is_bypassed("data:,"));
}

#[test]
fn allow_listed_domains_are_never_blocked() {
    let policy = MatchPolicy::new(vec![], &vec!["doubleclick.net".to_string()]);
    assert!(policy.is_whitelisted("https://doubleclick.net/x.js"));
    assert!(policy.is_whitelisted("https://a.example/?u=doubleclick.net"));
    assert!(!policy.is_whitelisted("https://doubleclick.ne/x.js"));
    let mut state = AdBlockState::with_policy(policy, 300, 10, 5).unwrap();
    state.set_engine(rules_of(&["||doubleclick.net^", "||tracker.example^"]));
    assert!(!state.check_url("https://doubleclick.net/x.js", "https://example.com", "script", 0));
    assert!(state.check_url("https://tracker.example/x.js", "https://example.com", "script", 0));
    assert!(state.is_whitelisted("https://doubleclick.net/"));
}

#[test]
fn standard_policy_allow_lists_nothing() {
    let state = AdBlockState::new();
    assert!(!state.is_whitelisted("https://doubleclick.net/"));
    assert!(!state.is_whitelisted(""));
}

#[test]
fn labels_are_normalised() {
    let table = [
        ("document", ResourceType::Document),
        ("main_frame", ResourceType::Document),
        ("subdocument", ResourceType::Subdocument),
        ("sub_frame", ResourceType::Subdocument),
        ("stylesheet", ResourceType::Stylesheet),
        ("link", ResourceType::Stylesheet),
        ("script", ResourceType::Script),
        ("image", ResourceType::Image),
        ("img", ResourceType::Image),
        ("media", ResourceType::Media),
        ("video", ResourceType::Media),
        ("audio", ResourceType::Media),
        ("xmlhttprequest", ResourceType::Xmlhttprequest),
        ("xhr", ResourceType::Xmlhttprequest),
        ("fetch", ResourceType::Xmlhttprequest),
        ("other", ResourceType::Other),
        ("font", ResourceType::Other),
        ("websocket", ResourceType::Other),
        ("", ResourceType::Other),
        ("Script", ResourceType::Other),
        ("scripts", ResourceType::Other),
    ];
    for (label, kind) in table {
        assert_eq!(ResourceType::from_label(label), kind, "{}", label);
    }
}

#[test]
fn canonical_names_stand_for_themselves() {
    for kind in [
        ResourceType::Document,
        ResourceType::Subdocument,
        ResourceType::Stylesheet,
        ResourceType::Script,
        ResourceType::Image,
        ResourceType::Media,
        ResourceType::Xmlhttprequest,
        ResourceType::Other,
    ] {
        assert_eq!(ResourceType::from_label(kind.as_str()), kind);
    }
    assert_eq!(ResourceType::Xmlhttprequest.as_str(), "xmlhttprequest");
    assert_eq!(ResourceType::Subdocument.as_str(), "subdocument");
}

#[test]
fn fetch_and_xhr_get_the_same_verdict() {
    let mut state = state_with(&["||api.example.com^$xmlhttprequest", "||img.example.com^$image"]);
    for url in [
        "https://api.example.com/v1/data",
        "https://img.example.com/a.png",
        "https://example.org/",
        "data:,x",
    ] {
        let fetch = state.check_url(url, "https://site.example", "fetch", 0);
        let xhr = state.check_url(url, "https://site.example", "xhr", 0);
        assert_eq!(fetch, xhr, "{}", url);
    }
    assert!(state.check_url("https://api.example.com/v1/data", "https://site.example", "fetch", 0));
    assert!(!state.check_url("https://api.example.com/v1/data", "https://site.example", "script", 0));
}

#[test]
fn resource_type_scopes_a_rule() {
    let mut state = state_with(&["||img.example.com^$image"]);
    assert!(state.check_url("https://img.example.com/a.png", "https://site.example", "img", 0));
    assert!(state.check_url("https://img.example.com/a.png", "https://site.example", "image", 0));
    assert!(!state.check_url("https://img.example.com/a.png", "https://site.example", "script", 0));
    // An unknown label is `other`, which the image rule does not cover.
    assert!(!state.check_url("https://img.example.com/a.png", "https://site.example", "picture", 0));
}

#[test]
fn third_party_context_scopes_a_rule() {
    let mut state = state_with(&["||cdn.example.com^$third-party"]);
    assert!(state.check_url("https://cdn.example.com/a.js", "https://other.org/", "script", 0));
    assert!(!state.check_url("https://cdn.example.com/a.js", "https://www.example.com/", "script", 0));
}

#[test]
fn exception_takes_precedence_over_block() {
    let rules = rules_of(&["||ads.example.com^", "@@||ads.example.com/allowed.js"]);
    let blocked = rules.match_request("https://ads.example.com/banner.js", "https://site.example", "script");
    let blocked = blocked.unwrap();
    assert!(blocked.matched);
    assert!(blocked.filter.is_some());
    assert!(blocked.exception.is_none());
    let excepted = rules.match_request("https://ads.example.com/allowed.js", "https://site.example", "script");
    let excepted = excepted.unwrap();
    assert!(!excepted.matched);
    assert!(excepted.filter.is_some());
    assert!(excepted.exception.is_some());
    assert!(!decide(&Some(excepted)));
    assert!(rules.check("https://ads.example.com/banner.js", "https://site.example", "script"));
    assert!(!rules.check("https://ads.example.com/allowed.js", "https://site.example", "script"));
    let mut state = AdBlockState::new();
    state.set_engine(rules);
    assert!(!state.check_url("https://ads.example.com/allowed.js", "https://site.example", "script", 0));
    assert!(state.check_url("https://ads.example.com/banner.js", "https://site.example", "script", 0));
}

#[test]
fn important_rule_is_not_excepted() {
    let rules = rules_of(&["||ads.example.com^$important", "@@||ads.example.com^"]);
    let found = rules.match_request("https://ads.example.com/a.js", "https://site.example", "script").unwrap();
    assert!(found.matched);
    assert!(found.important);
    assert!(found.exception.is_none());
}

#[test]
fn url_that_is_no_request_is_let_through() {
    let rules = rules_of(&["||doubleclick.net^"]);
    assert!(rules.match_request("", "https://example.com", "script").is_none());
    assert!(!decide(&None));
    let mut state = AdBlockState::new();
    state.set_engine(rules);
    assert!(!state.check_url("", "https://example.com", "script", 0));
}

#[test]
fn policy_check_runs_the_pipeline_without_a_cache() {
    let policy = MatchPolicy::standard();
    let rules = Some(rules_of(&["||doubleclick.net^"]));
    assert!(policy.check(&rules, "https://doubleclick.net/x.js", "https://example.com", "script"));
    assert!(!policy.check(&rules, "tauri://doubleclick.net/x.js", "https://example.com", "script"));
    assert!(!policy.check(&None, "https://doubleclick.net/x.js", "https://example.com", "script"));
}

#[test]
fn text_helpers() {
    assert!(same_text("abc", "abc"));
    assert!(!same_text("abc", "abd"));
    assert!(!same_text("abc", "ab"));
    assert!(!same_text("ab", "abc"));
    assert!(same_text("", ""));
    assert!(str_starts_with("data:x", "data:"));
    assert!(str_starts_with("data:", "data:"));
    assert!(!str_starts_with("data", "data:"));
    assert!(str_starts_with("anything", ""));
    assert!(!str_starts_with("dbta:x", "data:"));
    assert_eq!(first_char("é!"), Some('é'));
    assert_eq!(first_char(""), None);
    assert_eq!(chars_of("aé€"), vec!['a', 'é', '€']);
    let hay = chars_of("https://example.com/path");
    assert!(contains(&hay, &chars_of("example.com")));
    assert!(contains(&hay, &chars_of("")));
    assert!(contains(&hay, &chars_of("/path")));
    assert!(contains(&hay, &chars_of("https://example.com/path")));
    assert!(!contains(&hay, &chars_of("https://example.com/path/")));
    assert!(!contains(&hay, &chars_of("example.org")));
    assert!(!contains(&chars_of(""), &chars_of("a")));
    assert!(contains(&chars_of(""), &chars_of("")));
    assert!(matches_at(&hay, &chars_of("https:"), 0));
    assert!(!matches_at(&hay, &chars_of("ttps:"), 0));
    assert!(matches_at(&hay, &chars_of("ttps:"), 1));
    assert!(matches_at(&hay, &chars_of(""), 24));
    assert!(!matches_at(&hay, &chars_of(""), 25));
    assert!(!matches_at(&hay, &chars_of("path"), 21));
}

#[test]
fn request_carries_the_normalised_type() {
    let request = Request::new("https://a.example/", "https://b.example/", "fetch");
    assert_eq!(request.url, "https://a.example/");
    assert_eq!(request.source_url, "https://b.example/");
    assert_eq!(request.resource_type, ResourceType::Xmlhttprequest);
    let same = Request::new("https://a.example/", "https://b.example/", "xhr");
    assert!(request.same(&same));
    let other = Request::new("https://a.example/", "https://b.example/", "img");
    assert!(!request.same(&other));
}

#[test]
fn text_hash_takes_one_step_per_character() {
    assert_eq!(HASH_MODULUS, (1u64 << 61) - 1);
    assert_eq!(HASH_FACTOR, 1_000_003);
    assert_eq!(mix(0, 97), 97);
    assert_eq!(mix(HASH_MODULUS, 5), 5);
    assert_eq!(mix(u64::MAX, u64::MAX), 7_000_028);
    assert_eq!(hash_text(0, ""), 0);
    assert_eq!(hash_text(42, ""), 42);
    assert_eq!(hash_text(0, "a"), 97);
    assert_eq!(hash_text(0, "ab"), 97_000_389);
    assert_eq!(hash_text(7, "é"), 7_000_254);
    assert_eq!(hash_text(hash_text(0, "a"), "b"), hash_text(0, "ab"));
}

#[test]
fn fingerprint_goes_by_all_three_parts() {
    let make = |url: &str, source: &str, kind: ResourceType| Request {
        url: url.to_string(),
        source_url: source.to_string(),
        resource_type: kind,
    };
    assert_eq!(make("", "", ResourceType::Document).fingerprint(), 1_114_115_342_336);
    assert_eq!(make("a", "b", ResourceType::Script).fingerprint(), 1_269_585_300_423_883_982);
    let base = make("https://a.example/x", "https://b.example/", ResourceType::Script);
    assert_eq!(base.fingerprint(), make("https://a.example/x", "https://b.example/", ResourceType::Script).fingerprint());
    assert_ne!(base.fingerprint(), make("https://a.example/y", "https://b.example/", ResourceType::Script).fingerprint());
    assert_ne!(base.fingerprint(), make("https://a.example/x", "https://c.example/", ResourceType::Script).fingerprint());
    assert_ne!(base.fingerprint(), make("https://a.example/x", "https://b.example/", ResourceType::Image).fingerprint());
    // The break keeps the two URLs apart.
    assert_ne!(make("ab", "", ResourceType::Other).fingerprint(), make("a", "b", ResourceType::Other).fingerprint());
    assert_eq!(ResourceType::Document.number(), 0);
    assert_eq!(ResourceType::Other.number(), 7);
}
