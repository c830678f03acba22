//! The queries that the host exposes to its pages. Each takes the shared
//! state; those that may touch the cache of verdicts also take the host's
//! clock reading.

use crate::cosmetic::CosmeticResources;
use crate::matching::RequestView;
use crate::result_cache::CheckResult;
use crate::ruleset::{excepted_on, generic_hide_on, hidden_on, selectors_for};
use crate::state::{AdBlockState, CACHE_FLOOR, CACHE_HIGH_WATER, RESULT_TTL_SECS};
use vstd::prelude::*;

verus! {

/// The state to share at start-up: no rules yet, the standard policy, an
/// empty cache.
pub fn init() -> (state: AdBlockState)
    ensures
        state.sound(),
        state.rules() is None,
        !state.updating(),
        state.schemes() == seq!["tauri:"@],
        state.allowed() == Seq::<Seq<char>>::empty(),
        state.cache() == Map::<RequestView, CheckResult>::empty(),
        state.cache_ttl() == RESULT_TTL_SECS,
        state.cache_high_water() == CACHE_HIGH_WATER,
        state.cache_floor() == CACHE_FLOOR,
{
    AdBlockState::new()
}

/// Whether one request is to be blocked.
pub fn is_url_blocked(
    url: String,
    source_url: String,
    request_type: String,
    state: &mut AdBlockState,
    now: u64,
) -> (blocked: bool)
    ensures
        blocked == old(state).verdict(url@, source_url@, request_type@),
        final(state).sound(),
        final(state).rules() == old(state).rules(),
        final(state).updating() == old(state).updating(),
        final(state).same_settings(old(state)),
        old(state).query_step(
            old(state).cache(),
            final(state).cache(),
            url@,
            source_url@,
            request_type@,
            now,
        ),
        old(state).cache().contains_key(
            (url@, source_url@, crate::matching::ResourceType::of_label(request_type@)),
        ) ==> old(state).cache_step(
            final(state).cache(),
            blocked,
            url@,
            source_url@,
            request_type@,
            now,
        ),
{
    state.check_url(url.as_str(), source_url.as_str(), request_type.as_str(), now)
}

/// Whether each request of a batch is to be blocked: one answer per
/// request, in order, each the answer that the request would get alone.
/// The cache is left as the queries leave it, one after the other.
pub fn check_batch_urls(urls: Vec<(String, String, String)>, state: &mut AdBlockState, now: u64) -> (answers:
    Vec<bool>)
    ensures
        answers.len() == urls.len(),
        forall|i: int|
            0 <= i < urls.len() ==> #[trigger] answers[i] == old(state).verdict(
                urls[i].0@,
                urls[i].1@,
                urls[i].2@,
            ),
        final(state).sound(),
        final(state).rules() == old(state).rules(),
        final(state).updating() == old(state).updating(),
        final(state).same_settings(old(state)),
        exists|trace: Seq<Map<RequestView, CheckResult>>|
            #[trigger] old(state).is_batch_trace(trace, urls@, now) && trace.last()
                == final(state).cache(),
{
    state.recall();
    let mut answers: Vec<bool> = Vec::new();
    let ghost mut trace: Seq<Map<RequestView, CheckResult>> = seq![state.cache()];
    let mut i: usize = 0;
    while i < urls.len()
        invariant
            i <= urls.len(),
            state.sound(),
            answers.len() == i,
            forall|k: int|
                0 <= k < i ==> #[trigger] answers[k] == old(state).verdict(
                    urls[k].0@,
                    urls[k].1@,
                    urls[k].2@,
                ),
            state.rules() == old(state).rules(),
            state.updating() == old(state).updating(),
            state.same_settings(old(state)),
            trace.len() == i + 1,
            trace[0] == old(state).cache(),
            trace.last() == state.cache(),
            forall|k: int|
                0 <= k < i ==> old(state).query_step(
                    #[trigger] trace[k],
                    trace[k + 1],
                    urls[k].0@,
                    urls[k].1@,
                    urls[k].2@,
                    now,
                ),
        decreases urls.len() - i,
    {
        let request = &urls[i];
        let blocked = state.check_url(
            request.0.as_str(),
            request.1.as_str(),
            request.2.as_str(),
            now,
        );
        answers.push(blocked);
        proof {
            trace = trace.push(state.cache());
        }
        i += 1;
    }
    assert(old(state).is_batch_trace(trace, urls@, now));
    answers
}

/// Whether rules were installed at least once.
pub fn is_adblock_ready(state: &AdBlockState) -> (ready: bool)
    ensures
        ready == state.rules() is Some,
{
    state.is_ready()
}

/// The cosmetic resources of the page at `url`.
pub fn get_cosmetic_resources(url: String, state: &AdBlockState) -> (resources: CosmeticResources)
    ensures
        state.rules() is None ==> resources.is_empty(),
        state.rules() matches Some(compiled) ==> {
            &&& resources.hidden() == hidden_on(compiled, url@)
            &&& resources.excepted() == excepted_on(compiled, url@)
            &&& resources.generic_hide == generic_hide_on(compiled, url@)
            &&& resources.injected_script is None
        },
        resources.hide_selectors.deep_view().no_duplicates(),
        resources.exceptions.deep_view().no_duplicates(),
        resources.hidden().disjoint(resources.excepted()),
{
    state.get_cosmetic_resources(url.as_str())
}

/// The generic selectors to apply for the classes and ids seen on a page,
/// given the page's exceptions.
pub fn get_hidden_class_id_selectors(
    classes: Vec<String>,
    ids: Vec<String>,
    exceptions: Vec<String>,
    state: &AdBlockState,
) -> (selectors: Vec<String>)
    ensures
        state.rules() is None ==> selectors@.len() == 0,
        state.rules() matches Some(compiled) ==> selectors.deep_view() == selectors_for(
            compiled,
            classes.deep_view(),
            ids.deep_view(),
            exceptions.deep_view(),
        ),
{
    state.hidden_class_id_selectors(&classes, &ids, &exceptions)
}

} // verus!
