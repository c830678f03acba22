//! The rule backend: the `adblock` crate's engine, reached through trusted
//! contracts. Everything in this file is believed, not proved; the rest of
//! the crate is verified against it.
//!
//! An engine is modelled by three things: the bytes of its compiled rules,
//! the set of tags enabled on it, and whether any resource was loaded into
//! it. What an engine answers is a function of these and of the query. The
//! queries ask that the rule data be a compilation of the engine's own:
//! the engine reads its data without checking what the tables hold.

use vstd::prelude::*;

verus! {

/// `adblock::Engine`, carried as an opaque value.
#[verifier::external_type_specification]
#[verifier::external_body]
pub struct ExEngine(adblock::Engine);

/// `adblock::lists::FilterSet`, carried as an opaque value.
#[verifier::external_type_specification]
#[verifier::external_body]
pub struct ExFilterSet(adblock::lists::FilterSet);

/// The compiled rule data that an engine holds: the bytes that its matching
/// and its cosmetic queries read.
pub uninterp spec fn engine_rules(engine: adblock::Engine) -> Seq<u8>;

/// The tags enabled on an engine. Rules with a `$tag` option apply only
/// while their tag is enabled.
pub uninterp spec fn engine_tags(engine: adblock::Engine) -> Set<Seq<char>>;

/// Whether a resource (a redirect body or a scriptlet) was loaded into an
/// engine.
pub uninterp spec fn engine_has_resources(engine: adblock::Engine) -> bool;

/// The rules that a rule collection holds: the lines that it accepted, in
/// the order in which they were added. This is the history of what was
/// added, not a reading of the collection: the collection keeps the parsed
/// rules, network rules and cosmetic rules apart, each kind in the order of
/// this sequence.
pub uninterp spec fn filter_set_rules(set: adblock::lists::FilterSet) -> Seq<Seq<char>>;

/// Whether the rule parser accepts a line, in the standard list format with
/// all rule types kept.
pub uninterp spec fn rule_parses(line: Seq<char>) -> bool;

/// Whether `data` is rule data that compiling `rules` may give. The
/// compiler is free in how it lays the data out, so that one collection of
/// rules may have more than one compilation.
pub uninterp spec fn compiles_to(rules: Seq<Seq<char>>, data: Seq<u8>) -> bool;

/// Rule data that the engine compiled itself, from some collection of
/// rules. The queries of an engine are made for such data: on other data,
/// though it pass the checks of a snapshot, they may fail.
pub open spec fn is_compiled(data: Seq<u8>) -> bool {
    exists|rules: Seq<Seq<char>>| compiles_to(rules, data)
}

/// Bytes that are either refused as a snapshot or carry rule data that the
/// engine compiled itself. A snapshot that the engine wrote is such; the
/// checksum of a snapshot tells chance damage, not a file that something
/// else wrote.
pub open spec fn is_own_snapshot(bytes: Seq<u8>) -> bool {
    snapshot_accepts(bytes) ==> is_compiled(snapshot_payload(bytes))
}

/// What the matcher finds for a request: `None` where no request can be
/// made of `url`; else the matched blocking rule, the matched exception and
/// the two flags of the result.
pub uninterp spec fn network_outcome(
    rules: Seq<u8>,
    tags: Set<Seq<char>>,
    url: Seq<char>,
    source_url: Seq<char>,
    request_type: Seq<char>,
) -> Option<OutcomeView>;

/// What the cosmetic rules hold for a page: the selectors to hide, the
/// selectors excepted from generic hiding, and the generic-hide flag.
pub uninterp spec fn page_cosmetics(rules: Seq<u8>, url: Seq<char>) -> (
    Set<Seq<char>>,
    Set<Seq<char>>,
    bool,
);

/// The selectors of the generic rules keyed by the given classes and ids, in
/// the order of the classes, then of the ids, before any exception is taken
/// out.
pub uninterp spec fn class_id_candidates(
    rules: Seq<u8>,
    classes: Seq<Seq<char>>,
    ids: Seq<Seq<char>>,
) -> Seq<Seq<char>>;

/// The eight checksum bytes that a snapshot carries for its rule data.
pub uninterp spec fn snapshot_checksum(rules: Seq<u8>) -> Seq<u8>;

/// Whether the engine accepts a snapshot: header, checksum and structure of
/// the rule data are all in order.
pub uninterp spec fn snapshot_accepts(bytes: Seq<u8>) -> bool;

/// Length of a snapshot's header: magic, version, checksum.
pub const SNAPSHOT_HEADER_LEN: usize = 13;

/// The version of the snapshot format that the engine writes and reads.
pub const SNAPSHOT_VERSION: u8 = 3;

/// The four bytes that open every snapshot.
pub open spec fn snapshot_magic() -> Seq<u8> {
    seq![0xd1u8, 0xd9u8, 0x3au8, 0xafu8]
}

/// The rule data that a snapshot carries behind its header.
pub open spec fn snapshot_payload(bytes: Seq<u8>) -> Seq<u8> {
    bytes.subrange(SNAPSHOT_HEADER_LEN as int, bytes.len() as int)
}

/// The snapshot of given rule data: magic, version, checksum, then the data.
pub open spec fn snapshot_of(rules: Seq<u8>) -> Seq<u8> {
    snapshot_magic() + seq![SNAPSHOT_VERSION] + snapshot_checksum(rules) + rules
}

/// What the matcher reports for one request.
pub struct MatchOutcome {
    /// The request is to be blocked.
    pub matched: bool,
    /// The matched blocking rule carries the `important` option.
    pub important: bool,
    /// The blocking rule that matched, if one did.
    pub filter: Option<String>,
    /// The exception rule that matched, if one did.
    pub exception: Option<String>,
}

/// What the matcher reports for one request, as a plain value.
pub struct OutcomeView {
    pub matched: bool,
    pub important: bool,
    pub filter: Option<Seq<char>>,
    pub exception: Option<Seq<char>>,
}

impl View for MatchOutcome {
    type V = OutcomeView;

    open spec fn view(&self) -> OutcomeView {
        OutcomeView {
            matched: self.matched,
            important: self.important,
            filter: match self.filter {
                Some(rule) => Some(rule@),
                None => None,
            },
            exception: match self.exception {
                Some(rule) => Some(rule@),
                None => None,
            },
        }
    }
}

impl OutcomeView {
    /// How the fields of an outcome hang together: a request is blocked
    /// exactly when a blocking rule matched and no exception did; exceptions
    /// are looked for only behind a blocking rule that is not `important`.
    pub open spec fn wf(self) -> bool {
        &&& self.matched == (self.filter is Some && self.exception is None)
        &&& self.exception is Some ==> self.filter is Some && !self.important
        &&& self.important ==> self.filter is Some
    }
}

/// An outcome that may be missing, as a plain value.
pub open spec fn outcome_view(outcome: Option<MatchOutcome>) -> Option<OutcomeView> {
    match outcome {
        Some(found) => Some(found@),
        None => None,
    }
}

/// What the engine reports for one page, its sets handed out as lists.
pub struct PageCosmetics {
    pub hide_selectors: Vec<String>,
    pub exceptions: Vec<String>,
    pub injected_script: String,
    pub generic_hide: bool,
}

/// An empty rule collection. Trusted: `FilterSet::new(false)`.
#[verifier::external_body]
pub(crate) fn filter_set_new() -> (set: adblock::lists::FilterSet)
    ensures
        filter_set_rules(set) == Seq::<Seq<char>>::empty(),
{
    adblock::lists::FilterSet::new(false)
}

/// Offers one line to the collection. Trusted: `FilterSet::add_filter` with
/// the default parse options, which parses the line and, when the parser
/// accepts it, adds the rule behind those that the collection holds. The
/// result says whether it did.
#[verifier::external_body]
pub(crate) fn filter_set_add(set: &mut adblock::lists::FilterSet, line: &str) -> (accepted: bool)
    ensures
        accepted == rule_parses(line@),
        filter_set_rules(*final(set)) == (if accepted {
            filter_set_rules(*old(set)).push(line@)
        } else {
            filter_set_rules(*old(set))
        }),
{
    set.add_filter(line, adblock::lists::ParseOptions::default()).is_ok()
}

/// Compiles a rule collection. Trusted: `Engine::from_filter_set(set, true)`.
/// The new engine holds a compilation of the rules of the collection; it
/// has no tag enabled and holds no resource.
#[verifier::external_body]
pub(crate) fn engine_from_filter_set(set: adblock::lists::FilterSet) -> (engine: adblock::Engine)
    ensures
        compiles_to(filter_set_rules(set), engine_rules(engine)),
        engine_tags(engine) == Set::<Seq<char>>::empty(),
        !engine_has_resources(engine),
{
    adblock::Engine::from_filter_set(set, true)
}

/// An engine without rules. Trusted: `Engine::default()`; the new engine
/// has no tag enabled and holds no resource.
#[verifier::external_body]
pub(crate) fn engine_empty() -> (engine: adblock::Engine)
    ensures
        engine_tags(engine) == Set::<Seq<char>>::empty(),
        !engine_has_resources(engine),
{
    adblock::Engine::default()
}

/// Matches one request. Trusted: `Request::new` on the three strings, then
/// `Engine::check_network_request`. The engine reads its rule data without
/// checking it, so the data must be a compilation of its own. The outcome
/// depends on the engine's rules and tags and on the request alone; its
/// fields hang together as [`OutcomeView::wf`] says.
#[verifier::external_body]
pub(crate) fn engine_check(
    engine: &adblock::Engine,
    url: &str,
    source_url: &str,
    request_type: &str,
) -> (outcome: Option<MatchOutcome>)
    requires
        is_compiled(engine_rules(*engine)),
    ensures
        outcome_view(outcome) == network_outcome(
            engine_rules(*engine),
            engine_tags(*engine),
            url@,
            source_url@,
            request_type@,
        ),
        outcome matches Some(found) ==> found@.wf(),
{
    match adblock::request::Request::new(url, source_url, request_type) {
        Ok(request) => {
            let result = engine.check_network_request(&request);
            Some(
                MatchOutcome {
                    matched: result.matched,
                    important: result.important,
                    filter: result.filter,
                    exception: result.exception,
                },
            )
        },
        Err(_) => None,
    }
}

/// The cosmetic resources of one page. Trusted:
/// `Engine::url_cosmetic_resources`. The engine reads its rule data without
/// checking it, so the data must be a compilation of its own. The two sets
/// and the flag depend on the engine's rules and on the URL alone; no
/// selector to hide is among the exceptions; an engine without resources
/// injects no script.
#[verifier::external_body]
pub(crate) fn engine_cosmetics(engine: &adblock::Engine, url: &str) -> (page: PageCosmetics)
    requires
        is_compiled(engine_rules(*engine)),
    ensures
        page.hide_selectors.deep_view().no_duplicates(),
        page.exceptions.deep_view().no_duplicates(),
        page.hide_selectors.deep_view().to_set() == page_cosmetics(engine_rules(*engine), url@).0,
        page.exceptions.deep_view().to_set() == page_cosmetics(engine_rules(*engine), url@).1,
        page.generic_hide == page_cosmetics(engine_rules(*engine), url@).2,
        page.hide_selectors.deep_view().to_set().disjoint(page.exceptions.deep_view().to_set()),
        !engine_has_resources(*engine) ==> page.injected_script@.len() == 0,
{
    let found = engine.url_cosmetic_resources(url);
    PageCosmetics {
        hide_selectors: found.hide_selectors.into_iter().collect(),
        exceptions: found.exceptions.into_iter().collect(),
        injected_script: found.injected_script,
        generic_hide: found.generichide,
    }
}

/// The generic selectors to hide for classes and ids seen on a page.
/// Trusted: `Engine::hidden_class_id_selectors`, which walks the classes,
/// then the ids, and hands out each selector keyed by one of them unless it
/// is among the exceptions. The engine reads its rule data without checking
/// it, so the data must be a compilation of its own.
#[verifier::external_body]
pub(crate) fn engine_hidden_selectors(
    engine: &adblock::Engine,
    classes: &Vec<String>,
    ids: &Vec<String>,
    exceptions: &Vec<String>,
) -> (selectors: Vec<String>)
    requires
        is_compiled(engine_rules(*engine)),
    ensures
        selectors.deep_view() == class_id_candidates(
            engine_rules(*engine),
            classes.deep_view(),
            ids.deep_view(),
        ).filter(|s: Seq<char>| !exceptions.deep_view().contains(s)),
{
    let excepted: std::collections::HashSet<String> = exceptions.iter().cloned().collect();
    engine.hidden_class_id_selectors(classes, ids, &excepted)
}

/// The snapshot of an engine. Trusted: `Engine::serialize`, which writes the
/// magic bytes, the format version, a checksum of the rule data, and the
/// rule data.
#[verifier::external_body]
pub(crate) fn engine_serialize(engine: &adblock::Engine) -> (bytes: Vec<u8>)
    ensures
        bytes@ == snapshot_magic() + seq![SNAPSHOT_VERSION] + snapshot_checksum(
            engine_rules(*engine),
        ) + engine_rules(*engine),
        bytes@.len() == SNAPSHOT_HEADER_LEN + engine_rules(*engine).len(),
{
    engine.serialize()
}

/// Loads a snapshot into an engine. Trusted: `Engine::deserialize`. It
/// accepts only bytes that open with the magic and the version, carry the
/// checksum of their payload, and hold rule data whose tables are laid out
/// in order: accepted bytes are the snapshot of their payload, and the
/// engine then holds that payload. What the tables hold is not checked. A
/// refused snapshot leaves the rules as they were. Tags and resources are
/// untouched either way. On a checksum that does not fit, the engine prints
/// one line to standard output.
#[verifier::external_body]
pub(crate) fn engine_deserialize(engine: &mut adblock::Engine, bytes: &[u8]) -> (accepted: bool)
    ensures
        accepted == snapshot_accepts(bytes@),
        accepted ==> bytes@.len() >= SNAPSHOT_HEADER_LEN && bytes@ == snapshot_of(
            snapshot_payload(bytes@),
        ),
        engine_rules(*final(engine)) == (if accepted {
            snapshot_payload(bytes@)
        } else {
            engine_rules(*old(engine))
        }),
        engine_tags(*final(engine)) == engine_tags(*old(engine)),
        engine_has_resources(*final(engine)) == engine_has_resources(*old(engine)),
{
    engine.deserialize(bytes).is_ok()
}

} // verus!
