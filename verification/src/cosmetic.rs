//! Cosmetic resolution: which selectors to hide on a page, which to leave
//! alone, and which generic selectors to apply for the classes and ids that
//! were seen on it. Nothing here is cached; each query reads the rules.

use crate::backend::PageCosmetics;
use crate::ruleset::{excepted_on, generic_hide_on, hidden_on, selectors_for, CompiledRuleSet};
use vstd::prelude::*;

verus! {

/// What to suppress on one page.
pub struct CosmeticResources {
    /// Selectors of the elements to hide, each once, in no stated order.
    pub hide_selectors: Vec<String>,
    /// Selectors that generic rules must leave alone, each once, in no
    /// stated order.
    pub exceptions: Vec<String>,
    /// Script to inject into the page, if there is any.
    pub injected_script: Option<String>,
    /// Generic hiding is switched off for the page.
    pub generic_hide: bool,
}

/// The script to inject: none where the text is empty.
pub open spec fn script_of(text: Seq<char>) -> Option<Seq<char>> {
    if text.len() == 0 {
        None
    } else {
        Some(text)
    }
}

impl CosmeticResources {
    /// The selectors to hide, as a set.
    pub open spec fn hidden(&self) -> Set<Seq<char>> {
        self.hide_selectors.deep_view().to_set()
    }

    /// The excepted selectors, as a set.
    pub open spec fn excepted(&self) -> Set<Seq<char>> {
        self.exceptions.deep_view().to_set()
    }

    /// The script to inject, as a plain value.
    pub open spec fn script(&self) -> Option<Seq<char>> {
        match self.injected_script {
            Some(text) => Some(text@),
            None => None,
        }
    }

    /// Nothing is hidden, nothing excepted, nothing injected.
    pub open spec fn is_empty(&self) -> bool {
        &&& self.hide_selectors@.len() == 0
        &&& self.exceptions@.len() == 0
        &&& self.injected_script is None
        &&& !self.generic_hide
    }

    /// The resources of a page on which nothing is suppressed.
    pub fn empty() -> (resources: CosmeticResources)
        ensures
            resources.is_empty(),
    {
        CosmeticResources {
            hide_selectors: Vec::new(),
            exceptions: Vec::new(),
            injected_script: None,
            generic_hide: false,
        }
    }

    /// The resources of a page, from what the engine reported for it. The
    /// lists and the flag are taken as they are; an empty script is no
    /// script.
    pub fn from_page(page: PageCosmetics) -> (resources: CosmeticResources)
        ensures
            resources.hide_selectors == page.hide_selectors,
            resources.exceptions == page.exceptions,
            resources.generic_hide == page.generic_hide,
            resources.script() == script_of(page.injected_script@),
    {
        let script = if page.injected_script.as_str().is_empty() {
            None
        } else {
            Some(page.injected_script)
        };
        CosmeticResources {
            hide_selectors: page.hide_selectors,
            exceptions: page.exceptions,
            injected_script: script,
            generic_hide: page.generic_hide,
        }
    }
}

/// The cosmetic resources of the page at `url`. While no rule set is
/// installed, nothing is suppressed. With rules, the selectors to hide are
/// those of the rules that apply to the page, without any that an applicable
/// exception takes out; a rule set injects no script.
pub fn resources_for(rules: &Option<CompiledRuleSet>, url: &str) -> (resources: CosmeticResources)
    ensures
        rules is None ==> resources.is_empty(),
        rules matches Some(compiled) ==> {
            &&& resources.hidden() == hidden_on(compiled@, url@)
            &&& resources.excepted() == excepted_on(compiled@, url@)
            &&& resources.generic_hide == generic_hide_on(compiled@, url@)
            &&& resources.injected_script is None
        },
        resources.hide_selectors.deep_view().no_duplicates(),
        resources.exceptions.deep_view().no_duplicates(),
        resources.hidden().disjoint(resources.excepted()),
{
    match rules {
        Some(compiled) => CosmeticResources::from_page(compiled.page_resources(url)),
        None => {
            let resources = CosmeticResources::empty();
            assert(resources.hide_selectors.deep_view() =~= Seq::<Seq<char>>::empty());
            assert(resources.exceptions.deep_view() =~= Seq::<Seq<char>>::empty());
            resources
        },
    }
}

/// The generic selectors to apply for the classes and ids seen on a page,
/// given the page's exceptions. While no rule set is installed there are
/// none.
pub fn hidden_selectors_for(
    rules: &Option<CompiledRuleSet>,
    classes: &Vec<String>,
    ids: &Vec<String>,
    exceptions: &Vec<String>,
) -> (selectors: Vec<String>)
    ensures
        rules is None ==> selectors@.len() == 0,
        rules matches Some(compiled) ==> selectors.deep_view() == selectors_for(
            compiled@,
            classes.deep_view(),
            ids.deep_view(),
            exceptions.deep_view(),
        ),
{
    match rules {
        Some(compiled) => compiled.hidden_selectors(classes, ids, exceptions),
        None => Vec::new(),
    }
}

/// No selector handed out for classes and ids is among the exceptions.
pub proof fn selectors_avoid_exceptions(
    rules: Seq<u8>,
    classes: Seq<Seq<char>>,
    ids: Seq<Seq<char>>,
    exceptions: Seq<Seq<char>>,
    selector: Seq<char>,
)
    requires
        selectors_for(rules, classes, ids, exceptions).contains(selector),
    ensures
        !exceptions.contains(selector),
{
    let candidates = crate::backend::class_id_candidates(rules, classes, ids);
    let keep = |s: Seq<char>| !exceptions.contains(s);
    let kept = candidates.filter(keep);
    let i = choose|i: int| 0 <= i < kept.len() && kept[i] == selector;
    candidates.lemma_filter_pred(keep, i);
}

} // verus!
