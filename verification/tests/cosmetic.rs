use filter_engine::compiler::compile;
use filter_engine::cosmetic::{hidden_selectors_for, resources_for, CosmeticResources};
use filter_engine::backend::PageCosmetics;
use filter_engine::ruleset::CompiledRuleSet;
use filter_engine::state::AdBlockState;

fn rules() -> Option<CompiledRuleSet> {
    let list = "example.com##.ad-banner\nexample.com###sponsor\nexample.com#@#.keep\nother.example##.elsewhere\n##.generic-ad\n###generic-id\n##.generic-ad > .inner\n##div[data-ad]\n@@||quiet.example^$generichide\n";
    Some(compile(&vec![list.to_string()]).0)
}

fn sorted(mut list: Vec<String>) -> Vec<String> {
    list.sort();
    list
}

fn strings(list: &[&str]) -> Vec<String> {
    list.iter().map(|t| t.to_string()).collect()
}

#[test]
fn nothing_is_suppressed_without_rules() {
    let found = resources_for(&None, "https://example.com/");
    assert!(found.hide_selectors.is_empty());
    assert!(found.exceptions.is_empty());
    assert_eq!(found.injected_script, None);
    assert!(!found.generic_hide);
    assert!(hidden_selectors_for(&None, &strings(&["generic-ad"]), &vec![], &vec![]).is_empty());
    let state = AdBlockState::new();
    assert!(state.get_cosmetic_resources("https://example.com/").hide_selectors.is_empty());
    assert!(state.hidden_class_id_selectors(&strings(&["generic-ad"]), &vec![], &vec![]).is_empty());
}

#[test]
fn page_gets_its_domain_rules_and_the_global_ones() {
    let found = resources_for(&rules(), "https://www.example.com/page");
    assert_eq!(sorted(found.hide_selectors), strings(&["#sponsor", ".ad-banner", "div[data-ad]"]));
    assert_eq!(found.exceptions, strings(&[".keep"]));
    assert_eq!(found.injected_script, None);
    assert!(!found.generic_hide);
    let elsewhere = resources_for(&rules(), "https://other.example/");
    assert_eq!(sorted(elsewhere.hide_selectors), strings(&[".elsewhere", "div[data-ad]"]));
    assert!(elsewhere.exceptions.is_empty());
}

#[test]
fn exception_takes_a_selector_out() {
    let list = "example.com##.ad\nexample.com#@#.ad\n##div[data-ad]\nexample.com#@#div[data-ad]\n";
    let rules = Some(compile(&vec![list.to_string()]).0);
    let found = resources_for(&rules, "https://example.com/");
    assert!(found.hide_selectors.is_empty());
    assert_eq!(sorted(found.exceptions), strings(&[".ad", "div[data-ad]"]));
    let other = resources_for(&rules, "https://other.example/");
    assert_eq!(other.hide_selectors, strings(&["div[data-ad]"]));
}

#[test]
fn generic_hide_exception_sets_the_flag() {
    let found = resources_for(&rules(), "https://quiet.example/");
    assert!(found.generic_hide);
    assert!(found.hide_selectors.is_empty());
}

#[test]
fn url_that_is_no_request_suppresses_nothing() {
    let found = resources_for(&rules(), "");
    assert!(found.hide_selectors.is_empty());
    assert!(found.exceptions.is_empty());
    assert!(!found.generic_hide);
}

#[test]
fn generic_selectors_follow_the_classes_and_ids_seen() {
    let rules = rules();
    let found = hidden_selectors_for(&rules, &strings(&["generic-ad", "unknown"]), &strings(&["generic-id"]), &vec![]);
    assert_eq!(found, strings(&[".generic-ad", ".generic-ad > .inner", "#generic-id"]));
    assert!(hidden_selectors_for(&rules, &strings(&["unknown"]), &strings(&["nope"]), &vec![]).is_empty());
    assert!(hidden_selectors_for(&rules, &vec![], &vec![], &vec![]).is_empty());
}

#[test]
fn excepted_selectors_are_not_handed_out() {
    let rules = rules();
    let classes = strings(&["generic-ad"]);
    let ids = strings(&["generic-id"]);
    let found = hidden_selectors_for(&rules, &classes, &ids, &strings(&[".generic-ad"]));
    assert_eq!(found, strings(&[".generic-ad > .inner", "#generic-id"]));
    let found = hidden_selectors_for(&rules, &classes, &ids, &strings(&["#generic-id", ".generic-ad > .inner", "#generic-id"]));
    assert_eq!(found, strings(&[".generic-ad"]));
    let all = strings(&[".generic-ad", ".generic-ad > .inner", "#generic-id"]);
    assert!(hidden_selectors_for(&rules, &classes, &ids, &all).is_empty());
}

#[test]
fn empty_script_is_no_script() {
    let page = PageCosmetics {
        hide_selectors: strings(&[".a"]),
        exceptions: strings(&[".b"]),
        injected_script: String::new(),
        generic_hide: true,
    };
    let found = CosmeticResources::from_page(page);
    assert_eq!(found.hide_selectors, strings(&[".a"]));
    assert_eq!(found.exceptions, strings(&[".b"]));
    assert_eq!(found.injected_script, None);
    assert!(found.generic_hide);
    let page = PageCosmetics {
        hide_selectors: vec![],
        exceptions: vec![],
        injected_script: "run()".to_string(),
        generic_hide: false,
    };
    assert_eq!(CosmeticResources::from_page(page).injected_script, Some("run()".to_string()));
    let empty = CosmeticResources::empty();
    assert!(empty.hide_selectors.is_empty() && empty.exceptions.is_empty());
    assert_eq!(empty.injected_script, None);
    assert!(!empty.generic_hide);
}
