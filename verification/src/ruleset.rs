//! The compiled rule set: an engine that is never changed after it was
//! built, viewed as the bytes of its compiled rules. A rebuild makes a new
//! rule set; nothing edits one in place.

use crate::backend::{
    engine_check, engine_cosmetics, engine_deserialize, engine_empty, engine_has_resources,
    engine_hidden_selectors, engine_rules, engine_serialize, engine_tags, class_id_candidates,
    network_outcome, page_cosmetics, snapshot_accepts, snapshot_magic, snapshot_of,
    is_compiled, is_own_snapshot, snapshot_payload, outcome_view, MatchOutcome, OutcomeView,
    PageCosmetics, SNAPSHOT_HEADER_LEN, SNAPSHOT_VERSION,
};
use vstd::prelude::*;

verus! {

/// A compiled, immutable set of network and cosmetic rules.
pub struct CompiledRuleSet {
    engine: adblock::Engine,
}

impl View for CompiledRuleSet {
    type V = Seq<u8>;

    /// The bytes of the compiled rules.
    closed spec fn view(&self) -> Seq<u8> {
        engine_rules(self.engine)
    }
}

/// What the rules find for a request. No tag is enabled on a rule set.
pub open spec fn outcome_of(
    rules: Seq<u8>,
    url: Seq<char>,
    source_url: Seq<char>,
    request_type: Seq<char>,
) -> Option<OutcomeView> {
    network_outcome(rules, Set::empty(), url, source_url, request_type)
}

/// The verdict on an outcome: blocked where the matcher says so; let
/// through where no request could be made of the URL.
pub open spec fn verdict_of(outcome: Option<OutcomeView>) -> bool {
    match outcome {
        Some(found) => found.matched,
        None => false,
    }
}

/// Whether the rules block a request.
pub open spec fn blocks(
    rules: Seq<u8>,
    url: Seq<char>,
    source_url: Seq<char>,
    request_type: Seq<char>,
) -> bool {
    verdict_of(outcome_of(rules, url, source_url, request_type))
}

/// The selectors that the rules hide on a page.
pub open spec fn hidden_on(rules: Seq<u8>, url: Seq<char>) -> Set<Seq<char>> {
    page_cosmetics(rules, url).0
}

/// The selectors that the rules except from generic hiding on a page.
pub open spec fn excepted_on(rules: Seq<u8>, url: Seq<char>) -> Set<Seq<char>> {
    page_cosmetics(rules, url).1
}

/// Whether generic hiding is switched off on a page.
pub open spec fn generic_hide_on(rules: Seq<u8>, url: Seq<char>) -> bool {
    page_cosmetics(rules, url).2
}

/// The generic selectors to apply for the classes and ids seen on a page:
/// those keyed by one of them, without the excepted ones, in the order of
/// the classes, then of the ids.
pub open spec fn selectors_for(
    rules: Seq<u8>,
    classes: Seq<Seq<char>>,
    ids: Seq<Seq<char>>,
    exceptions: Seq<Seq<char>>,
) -> Seq<Seq<char>> {
    class_id_candidates(rules, classes, ids).filter(|s: Seq<char>| !exceptions.contains(s))
}

/// Why a snapshot was refused.
#[derive(Debug, Clone, Copy, PartialEq, Eq, Structural)]
pub enum SnapshotError {
    /// Shorter than a header, or not opening with the magic bytes.
    BadHeader,
    /// Written in another version of the format; the version found.
    VersionMismatch(u8),
    /// Header in order, but the checksum or the rule data is not.
    Corrupt,
}

/// The reason to give for a snapshot that was refused.
pub open spec fn refusal_reason(bytes: Seq<u8>) -> SnapshotError {
    if bytes.len() < SNAPSHOT_HEADER_LEN || bytes.subrange(0, 4) != snapshot_magic() {
        SnapshotError::BadHeader
    } else if bytes[4] != SNAPSHOT_VERSION {
        SnapshotError::VersionMismatch(bytes[4])
    } else {
        SnapshotError::Corrupt
    }
}

/// Names the reason for which a refused snapshot was refused, by its header.
/// The engine says only that it refused: the type of its error is private
/// to its crate, so the reason cannot be taken from it.
pub fn classify_refusal(bytes: &[u8]) -> (reason: SnapshotError)
    ensures
        reason == refusal_reason(bytes@),
{
    if bytes.len() < SNAPSHOT_HEADER_LEN {
        return SnapshotError::BadHeader;
    }
    if bytes[0] != 0xd1 || bytes[1] != 0xd9 || bytes[2] != 0x3a || bytes[3] != 0xaf {
        assert(bytes@.subrange(0, 4)[0] == bytes@[0]);
        assert(bytes@.subrange(0, 4)[1] == bytes@[1]);
        assert(bytes@.subrange(0, 4)[2] == bytes@[2]);
        assert(bytes@.subrange(0, 4)[3] == bytes@[3]);
        return SnapshotError::BadHeader;
    }
    assert(bytes@.subrange(0, 4) =~= snapshot_magic());
    if bytes[4] != SNAPSHOT_VERSION {
        SnapshotError::VersionMismatch(bytes[4])
    } else {
        SnapshotError::Corrupt
    }
}

/// The verdict on what the matcher found.
pub fn decide(outcome: &Option<MatchOutcome>) -> (blocked: bool)
    ensures
        blocked == verdict_of(outcome_view(*outcome)),
{
    match outcome {
        Some(found) => found.matched,
        None => false,
    }
}

impl CompiledRuleSet {
    /// A rule set holds rule data that the engine compiled itself, so that
    /// every query returns; it has no tag enabled and holds no resource, so
    /// that its answers depend on its rules alone.
    #[verifier::type_invariant]
    spec fn plain(&self) -> bool {
        &&& is_compiled(engine_rules(self.engine))
        &&& engine_tags(self.engine) == Set::<Seq<char>>::empty()
        &&& !engine_has_resources(self.engine)
    }

    /// Wraps an engine that holds a compilation of its own, on which no tag
    /// is enabled and that holds no resource.
    pub(crate) fn from_engine(engine: adblock::Engine) -> (rules: CompiledRuleSet)
        requires
            is_compiled(engine_rules(engine)),
            engine_tags(engine) == Set::<Seq<char>>::empty(),
            !engine_has_resources(engine),
        ensures
            rules@ == engine_rules(engine),
    {
        CompiledRuleSet { engine }
    }

    /// What the rules find for a request of type `request_type`, made by the
    /// page at `source_url` for `url`.
    pub fn match_request(&self, url: &str, source_url: &str, request_type: &str) -> (outcome:
        Option<MatchOutcome>)
        ensures
            outcome_view(outcome) == outcome_of(self@, url@, source_url@, request_type@),
            outcome matches Some(found) ==> found@.wf(),
    {
        proof {
            use_type_invariant(self);
        }
        engine_check(&self.engine, url, source_url, request_type)
    }

    /// Whether the rules block a request.
    pub fn check(&self, url: &str, source_url: &str, request_type: &str) -> (blocked: bool)
        ensures
            blocked == blocks(self@, url@, source_url@, request_type@),
    {
        let outcome = self.match_request(url, source_url, request_type);
        decide(&outcome)
    }

    /// The cosmetic resources of the page at `url`, as the engine hands
    /// them out: each set as a list without repetition, in no stated order.
    pub fn page_resources(&self, url: &str) -> (page: PageCosmetics)
        ensures
            page.hide_selectors.deep_view().no_duplicates(),
            page.exceptions.deep_view().no_duplicates(),
            page.hide_selectors.deep_view().to_set() == hidden_on(self@, url@),
            page.exceptions.deep_view().to_set() == excepted_on(self@, url@),
            page.generic_hide == generic_hide_on(self@, url@),
            hidden_on(self@, url@).disjoint(excepted_on(self@, url@)),
            page.injected_script@.len() == 0,
    {
        proof {
            use_type_invariant(self);
        }
        engine_cosmetics(&self.engine, url)
    }

    /// The generic selectors to apply for classes and ids seen on a page.
    pub fn hidden_selectors(
        &self,
        classes: &Vec<String>,
        ids: &Vec<String>,
        exceptions: &Vec<String>,
    ) -> (selectors: Vec<String>)
        ensures
            selectors.deep_view() == selectors_for(
                self@,
                classes.deep_view(),
                ids.deep_view(),
                exceptions.deep_view(),
            ),
    {
        proof {
            use_type_invariant(self);
        }
        engine_hidden_selectors(&self.engine, classes, ids, exceptions)
    }

    /// The bytes of the snapshot of this rule set, as the engine writes
    /// them. The payload is rule data that the engine compiled itself.
    pub(crate) fn snapshot(&self) -> (bytes: Vec<u8>)
        ensures
            bytes@ == snapshot_of(self@),
            bytes@.len() == SNAPSHOT_HEADER_LEN + self@.len(),
            snapshot_payload(bytes@) == self@,
            is_own_snapshot(bytes@),
    {
        proof {
            use_type_invariant(self);
        }
        let bytes = engine_serialize(&self.engine);
        assert(snapshot_payload(bytes@) =~= self@);
        bytes
    }

    /// The snapshot of this rule set: bytes from which [`Self::load`]
    /// restores it. The bytes are loaded once before they are handed out,
    /// so that what is handed out is a snapshot that loads. Where the engine
    /// does not take its own snapshot back, the error says why.
    pub fn save(&self) -> (saved: Result<Vec<u8>, SnapshotError>)
        ensures
            saved is Ok <==> snapshot_accepts(snapshot_of(self@)),
            saved matches Ok(bytes) ==> {
                &&& bytes@ == snapshot_of(self@)
                &&& bytes@.len() == SNAPSHOT_HEADER_LEN + self@.len()
                &&& snapshot_payload(bytes@) == self@
                &&& is_own_snapshot(bytes@)
            },
            saved matches Err(reason) ==> reason == refusal_reason(snapshot_of(self@)),
    {
        let bytes = self.snapshot();
        match CompiledRuleSet::load(bytes.as_slice()) {
            Ok(_) => Ok(bytes),
            Err(reason) => Err(reason),
        }
    }

    /// Restores a rule set from a snapshot that is the engine's own: from
    /// bytes that a rule set saved. Succeeds exactly on the bytes that the
    /// engine accepts; the rule set then holds the snapshot's payload, and
    /// saving it gives the same bytes again. A refused snapshot is an error,
    /// never a crash.
    ///
    /// The engine checks the frame of a snapshot and the layout of its
    /// tables, not what the tables hold. Whoever hands bytes in answers for
    /// where they come from: on a snapshot that something else wrote, a
    /// later query may fail.
    pub fn load(bytes: &[u8]) -> (loaded: Result<CompiledRuleSet, SnapshotError>)
        requires
            is_own_snapshot(bytes@),
        ensures
            loaded is Ok <==> snapshot_accepts(bytes@),
            loaded matches Ok(rules) ==> {
                &&& rules@ == snapshot_payload(bytes@)
                &&& bytes@ == snapshot_of(rules@)
            },
            loaded matches Err(reason) ==> reason == refusal_reason(bytes@),
    {
        let mut engine = engine_empty();
        if engine_deserialize(&mut engine, bytes) {
            Ok(CompiledRuleSet::from_engine(engine))
        } else {
            Err(classify_refusal(bytes))
        }
    }
}

} // verus!
