//! Laws of the filter, stated over the plain values that the contracts of
//! the library speak of, and proved.

use crate::backend::{
    rule_parses, snapshot_accepts, snapshot_of, snapshot_payload, OutcomeView,
    SNAPSHOT_HEADER_LEN,
};
use crate::compiler::{accepted_lines, rule_lines, rule_lines_of};
use crate::list_cache::{present_texts, CacheState, FilterListCacheEntry};
use crate::freshness::fresh;
use crate::startup::engine_cache_fault;
use crate::state::AdBlockState;
use crate::matching::{has_non_network_scheme, verdict, RequestView, ResourceType};
use crate::result_cache::{
    computed, is_eviction_of, is_live, is_store_of, leaves_no_later, CheckResult,
};
use crate::ruleset::{
    blocks, excepted_on, generic_hide_on, hidden_on, outcome_of, selectors_for, verdict_of,
};
use vstd::prelude::*;

verus! {

/// A request whose URL has a scheme that never reaches the network is let
/// through, whatever the rules are and whatever the request says else.
pub proof fn non_network_scheme_is_never_blocked(
    schemes: Seq<Seq<char>>,
    allowed: Seq<Seq<char>>,
    rules: Option<Seq<u8>>,
    url: Seq<char>,
    source_url: Seq<char>,
    label: Seq<char>,
)
    requires
        has_non_network_scheme(schemes, url),
    ensures
        !verdict(schemes, allowed, rules, url, source_url, label),
{
}

/// `data:` and `blob:` URLs are let through under every policy, and so are
/// the URLs of a scheme that the policy names as internal.
pub proof fn data_blob_and_internal_urls_pass(
    schemes: Seq<Seq<char>>,
    allowed: Seq<Seq<char>>,
    rules: Option<Seq<u8>>,
    url: Seq<char>,
    source_url: Seq<char>,
    label: Seq<char>,
    scheme: int,
)
    requires
        "data:"@.is_prefix_of(url) || "blob:"@.is_prefix_of(url) || (0 <= scheme < schemes.len()
            && schemes[scheme].is_prefix_of(url)),
    ensures
        !verdict(schemes, allowed, rules, url, source_url, label),
{
}

/// An entry computed at `at` is live at `now` exactly while less than the
/// time-to-live has passed: still one tick before it, no more at it.
pub proof fn entry_is_live_for_ttl(matched: bool, at: u64, now: u64, ttl: u64)
    requires
        at <= now,
    ensures
        is_live(computed(matched, at), now, ttl) <==> now - at < ttl,
{
}

/// A verdict that was stored at `at` and is still held is the stored one,
/// and a lookup at `now` hits it exactly while `now - at` is below the
/// time-to-live.
pub proof fn stored_entry_hits_until_ttl(
    before: Map<RequestView, CheckResult>,
    after: Map<RequestView, CheckResult>,
    key: RequestView,
    matched: bool,
    at: u64,
    now: u64,
    ttl: u64,
    high_water: nat,
    floor: nat,
)
    requires
        is_store_of(before.insert(key, computed(matched, at)), after, at, ttl, high_water, floor),
        after.contains_key(key),
        at <= now,
    ensures
        after[key] == computed(matched, at),
        is_live(after[key], now, ttl) <==> now - at < ttl,
{
    let with_entry = before.insert(key, computed(matched, at));
    assert(with_entry.contains_key(key));
}

/// A store that takes the cache past its high-water mark leaves it at or
/// below the floor. What is left are entries that were there, unchanged and
/// live; and no live entry that left was used more, or was as much used and
/// younger, than one that stayed.
pub proof fn store_past_high_water_evicts(
    with_entry: Map<RequestView, CheckResult>,
    after: Map<RequestView, CheckResult>,
    now: u64,
    ttl: u64,
    high_water: nat,
    floor: nat,
    gone: RequestView,
    kept: RequestView,
)
    requires
        with_entry.len() > high_water,
        is_store_of(with_entry, after, now, ttl, high_water, floor),
        with_entry.contains_key(gone),
        !after.contains_key(gone),
        is_live(with_entry[gone], now, ttl),
        after.contains_key(kept),
    ensures
        after.len() == floor,
        with_entry.contains_key(kept),
        after[kept] == with_entry[kept],
        is_live(after[kept], now, ttl),
        with_entry[gone].access_count <= after[kept].access_count,
        with_entry[gone].access_count == after[kept].access_count ==> with_entry[gone].computed_at
            <= after[kept].computed_at,
{
    assert(is_eviction_of(with_entry, after, now, ttl, floor));
    assert(leaves_no_later(with_entry[gone], after[kept]));
}

/// A store never leaves more than the floor where it had to evict, and
/// never more than the high-water mark otherwise.
pub proof fn store_keeps_cache_bounded(
    with_entry: Map<RequestView, CheckResult>,
    after: Map<RequestView, CheckResult>,
    now: u64,
    ttl: u64,
    high_water: nat,
    floor: nat,
)
    requires
        floor <= high_water,
        is_store_of(with_entry, after, now, ttl, high_water, floor),
    ensures
        after.len() <= high_water,
        with_entry.len() > high_water ==> after.len() <= floor,
{
}

/// The payload of a rule set's snapshot is the rule set: what is loaded
/// from the bytes that were saved answers every query as the rule set that
/// was saved. `bytes` is what saving `rules` returns.
pub proof fn snapshot_round_trip(rules: Seq<u8>, bytes: Seq<u8>)
    requires
        bytes == snapshot_of(rules),
        bytes.len() == SNAPSHOT_HEADER_LEN + rules.len(),
    ensures
        snapshot_payload(bytes) == rules,
        forall|url: Seq<char>, source_url: Seq<char>, request_type: Seq<char>|
            #[trigger] blocks(snapshot_payload(bytes), url, source_url, request_type) == blocks(
                rules,
                url,
                source_url,
                request_type,
            ),
        forall|url: Seq<char>| #[trigger]
            hidden_on(snapshot_payload(bytes), url) == hidden_on(rules, url),
        forall|url: Seq<char>| #[trigger]
            excepted_on(snapshot_payload(bytes), url) == excepted_on(rules, url),
        forall|url: Seq<char>| #[trigger]
            generic_hide_on(snapshot_payload(bytes), url) == generic_hide_on(rules, url),
        forall|classes: Seq<Seq<char>>, ids: Seq<Seq<char>>, exceptions: Seq<Seq<char>>|
            #[trigger] selectors_for(snapshot_payload(bytes), classes, ids, exceptions)
                == selectors_for(rules, classes, ids, exceptions),
{
    assert(snapshot_payload(bytes) =~= rules);
}

/// The length and the first character of each label that the
/// normalisation knows: enough to tell any two of them apart.
proof fn label_shapes()
    ensures
        "document"@.len() == 8,
        "main_frame"@.len() == 10 && "main_frame"@[0] == 'm',
        "subdocument"@.len() == 11,
        "sub_frame"@.len() == 9,
        "stylesheet"@.len() == 10 && "stylesheet"@[0] == 's',
        "link"@.len() == 4,
        "script"@.len() == 6,
        "image"@.len() == 5 && "image"@[0] == 'i',
        "img"@.len() == 3 && "img"@[0] == 'i',
        "media"@.len() == 5 && "media"@[0] == 'm',
        "video"@.len() == 5 && "video"@[0] == 'v',
        "audio"@.len() == 5 && "audio"@[0] == 'a',
        "xmlhttprequest"@.len() == 14,
        "xhr"@.len() == 3 && "xhr"@[0] == 'x',
        "fetch"@.len() == 5 && "fetch"@[0] == 'f',
        "other"@.len() == 5 && "other"@[0] == 'o',
{
    reveal_strlit("document");
    reveal_strlit("main_frame");
    reveal_strlit("subdocument");
    reveal_strlit("sub_frame");
    reveal_strlit("stylesheet");
    reveal_strlit("link");
    reveal_strlit("script");
    reveal_strlit("image");
    reveal_strlit("img");
    reveal_strlit("media");
    reveal_strlit("video");
    reveal_strlit("audio");
    reveal_strlit("xmlhttprequest");
    reveal_strlit("xhr");
    reveal_strlit("fetch");
    reveal_strlit("other");
}

/// The labels `fetch` and `xhr` get the same verdict on every request.
pub proof fn fetch_and_xhr_agree(
    schemes: Seq<Seq<char>>,
    allowed: Seq<Seq<char>>,
    rules: Option<Seq<u8>>,
    url: Seq<char>,
    source_url: Seq<char>,
)
    ensures
        ResourceType::of_label("fetch"@) == ResourceType::Xmlhttprequest,
        ResourceType::of_label("xhr"@) == ResourceType::Xmlhttprequest,
        verdict(schemes, allowed, rules, url, source_url, "fetch"@) == verdict(
            schemes,
            allowed,
            rules,
            url,
            source_url,
            "xhr"@,
        ),
{
    label_shapes();
}

/// Two labels that stand for the same resource type get the same verdict.
pub proof fn verdict_goes_by_resource_type(
    schemes: Seq<Seq<char>>,
    allowed: Seq<Seq<char>>,
    rules: Option<Seq<u8>>,
    url: Seq<char>,
    source_url: Seq<char>,
    label: Seq<char>,
    other: Seq<char>,
)
    requires
        ResourceType::of_label(label) == ResourceType::of_label(other),
    ensures
        verdict(schemes, allowed, rules, url, source_url, label) == verdict(
            schemes,
            allowed,
            rules,
            url,
            source_url,
            other,
        ),
{
}

/// The canonical name of a resource type stands for that type: normalising
/// a label that was normalised changes nothing.
pub proof fn canonical_names_are_fixed(kind: ResourceType)
    ensures
        ResourceType::of_label(kind.name()) == kind,
{
    label_shapes();
}

/// Where the matcher found both a blocking rule and an exception for a
/// request, the request is let through.
pub proof fn exception_overrides_block(outcome: OutcomeView)
    requires
        outcome.wf(),
        outcome.filter is Some,
        outcome.exception is Some,
    ensures
        !verdict_of(Some(outcome)),
        !outcome.important,
{
}

/// The same, of the whole pipeline: a request for which the rules hold a
/// matching exception is never blocked.
pub proof fn excepted_request_is_never_blocked(
    schemes: Seq<Seq<char>>,
    allowed: Seq<Seq<char>>,
    rules: Seq<u8>,
    url: Seq<char>,
    source_url: Seq<char>,
    label: Seq<char>,
    outcome: OutcomeView,
)
    requires
        outcome_of(rules, url, source_url, ResourceType::of_label(label).name()) == Some(outcome),
        outcome.wf(),
        outcome.exception is Some,
    ensures
        !verdict(schemes, allowed, Some(rules), url, source_url, label),
{
}

/// A request is blocked only where a blocking rule matched it.
pub proof fn blocked_request_matched_a_rule(outcome: OutcomeView)
    requires
        outcome.wf(),
        verdict_of(Some(outcome)),
    ensures
        outcome.filter is Some,
        outcome.exception is None,
{
}

/// The texts that were acquired all go on, in order, whatever became of
/// the other lists: the text of the list at index `i` stands among the
/// texts to compile.
pub proof fn acquired_list_goes_on(results: Seq<Option<FilterListCacheEntry>>, i: int)
    requires
        0 <= i < results.len(),
        results[i] is Some,
    ensures
        present_texts(results).contains(results[i]->0.text@),
    decreases results.len(),
{
    let rest = results.drop_last();
    if i == results.len() - 1 {
        let texts = present_texts(rest).push(results[i]->0.text@);
        assert(texts[texts.len() - 1] == results[i]->0.text@);
    } else {
        acquired_list_goes_on(rest, i);
        let found = choose|j: int|
            0 <= j < present_texts(rest).len() && present_texts(rest)[j] == results[i]->0.text@;
        match results.last() {
            Some(entry) => {
                assert(present_texts(rest).push(entry.text@)[found] == results[i]->0.text@);
            },
            None => {},
        }
    }
}

/// Every rule line of a text that goes into a compilation is offered to
/// the rule parser: the other texts take none away.
pub proof fn rule_lines_of_each_text_are_offered(texts: Seq<Seq<char>>, i: int, line: Seq<char>)
    requires
        0 <= i < texts.len(),
        rule_lines_of(texts[i]).contains(line),
    ensures
        rule_lines(texts).contains(line),
    decreases texts.len(),
{
    let rest = texts.drop_last();
    let tail = rule_lines_of(texts.last());
    if i == texts.len() - 1 {
        let j = choose|j: int| 0 <= j < tail.len() && tail[j] == line;
        assert((rule_lines(rest) + tail)[rule_lines(rest).len() + j] == line);
    } else {
        rule_lines_of_each_text_are_offered(rest, i, line);
        let j = choose|j: int| 0 <= j < rule_lines(rest).len() && rule_lines(rest)[j] == line;
        assert((rule_lines(rest) + tail)[j] == line);
    }
}

/// Whatever became of the other lists: every rule line of a list that was
/// acquired, if the parser accepts it, is among the rules that are
/// compiled.
pub proof fn rules_of_acquired_lists_are_compiled(
    results: Seq<Option<FilterListCacheEntry>>,
    i: int,
    line: Seq<char>,
)
    requires
        0 <= i < results.len(),
        results[i] is Some,
        rule_lines_of(results[i]->0.text@).contains(line),
        rule_parses(line),
    ensures
        accepted_lines(rule_lines(present_texts(results))).contains(line),
{
    let texts = present_texts(results);
    acquired_list_goes_on(results, i);
    let j = choose|j: int| 0 <= j < texts.len() && texts[j] == results[i]->0.text@;
    rule_lines_of_each_text_are_offered(texts, j, line);
    let offered = rule_lines(texts);
    let k = choose|k: int| 0 <= k < offered.len() && offered[k] == line;
    offered.lemma_filter_contains(|l: Seq<char>| rule_parses(l), k);
}

/// Where the cache holds an entry for a request, a query goes by the
/// entry. While the entry is live, the answer is the cached verdict, the
/// entry is counted once more and keeps its time. Once it has expired, it is
/// replaced by the fresh verdict, computed at `now` and asked for once; the
/// cache does not grow by that, so nothing is evicted.
pub proof fn cached_entry_decides_the_query(
    state: &AdBlockState,
    after: Map<RequestView, CheckResult>,
    url: Seq<char>,
    source_url: Seq<char>,
    label: Seq<char>,
    now: u64,
)
    requires
        state.sound(),
        state.cache().contains_key((url, source_url, ResourceType::of_label(label))),
        state.query_step(state.cache(), after, url, source_url, label, now),
    ensures
        state.cache_step(after, state.verdict(url, source_url, label), url, source_url, label, now),
{
    let key = (url, source_url, ResourceType::of_label(label));
    let before = state.cache();
    let answer = state.verdict(url, source_url, label);
    assert(before.insert(key, computed(answer, now)).dom() =~= before.dom());
}

/// A snapshot that was handed out for writing is loaded again while it is
/// fresh, and what is loaded is the rule set that was saved: it answers
/// every query as that one. `bytes` is what saving `rules` at `written_at`
/// gave.
pub proof fn saved_snapshot_is_loaded(
    rules: Seq<u8>,
    bytes: Seq<u8>,
    written_at: u64,
    now: u64,
    max_age_secs: u64,
)
    requires
        bytes == snapshot_of(rules),
        bytes.len() == SNAPSHOT_HEADER_LEN + rules.len(),
        snapshot_accepts(bytes),
        fresh(now, written_at, max_age_secs),
    ensures
        engine_cache_fault(bytes, CacheState::Present { modified: written_at }, now, max_age_secs)
            is None,
        snapshot_payload(bytes) == rules,
        forall|url: Seq<char>, source_url: Seq<char>, request_type: Seq<char>|
            #[trigger] blocks(snapshot_payload(bytes), url, source_url, request_type) == blocks(
                rules,
                url,
                source_url,
                request_type,
            ),
        forall|url: Seq<char>| #[trigger]
            hidden_on(snapshot_payload(bytes), url) == hidden_on(rules, url),
        forall|url: Seq<char>| #[trigger]
            excepted_on(snapshot_payload(bytes), url) == excepted_on(rules, url),
        forall|url: Seq<char>| #[trigger]
            generic_hide_on(snapshot_payload(bytes), url) == generic_hide_on(rules, url),
{
    snapshot_round_trip(rules, bytes);
}

} // verus!
