//! The state that the host shares between its queries: the current rule
//! set, the policy in front of it, the cache of verdicts, and whether an
//! update is under way.
//!
//! The rule set is replaced whole and never edited. Every cached verdict is
//! the verdict of the current rules, so that a query answers the same with
//! and without the cache; installing new rules empties the cache. No state
//! can be had that is not in this order, and no query asks anything of its
//! caller.

use crate::compiler::CompileStats;
use crate::cosmetic::{hidden_selectors_for, resources_for, CosmeticResources};
use crate::matching::{bypasses, verdict, MatchPolicy, Request, RequestView, ResourceType};
use crate::result_cache::{bumped, computed, is_live, is_store_of, CheckResult, ResultCache};
use crate::ruleset::{
    blocks, excepted_on, generic_hide_on, hidden_on, selectors_for, CompiledRuleSet,
};
use vstd::prelude::*;

verus! {

/// How long a cached verdict is served, in the unit of the host's clock
/// readings: five minutes in seconds.
pub const RESULT_TTL_SECS: u64 = 300;

/// The number of cached verdicts past which the cache evicts.
pub const CACHE_HIGH_WATER: usize = 5000;

/// The number of cached verdicts that an eviction leaves at most.
pub const CACHE_FLOOR: usize = 3000;

/// Why an update step was refused.
#[derive(Debug, Clone, Copy, PartialEq, Eq, Structural)]
pub enum UpdateError {
    /// An update is under way already; this one is not queued.
    AlreadyRunning,
    /// No update is under way that could be completed.
    NotRunning,
}

impl UpdateError {
    /// The error in words.
    pub fn message(self) -> (text: &'static str)
        ensures
            text@ == (match self {
                UpdateError::AlreadyRunning => "Update already running"@,
                UpdateError::NotRunning => "No update running"@,
            }),
    {
        match self {
            UpdateError::AlreadyRunning => "Update already running",
            UpdateError::NotRunning => "No update running",
        }
    }
}

/// Every cached verdict belongs to a request that reaches the rules, and
/// is what the rules say of it: no request that bypasses the rules is ever
/// cached.
pub open spec fn coherent(
    schemes: Seq<Seq<char>>,
    allowed: Seq<Seq<char>>,
    rules: Option<Seq<u8>>,
    cache: Map<RequestView, CheckResult>,
) -> bool {
    forall|k: RequestView| #[trigger]
        cache.contains_key(k) ==> {
            &&& !bypasses(schemes, allowed, k.0)
            &&& rules matches Some(compiled)
            &&& cache[k].matched == blocks(compiled, k.0, k.1, k.2.name())
        }
}

/// The shared state of the filter.
pub struct AdBlockState {
    rules: Option<CompiledRuleSet>,
    policy: MatchPolicy,
    cache: ResultCache,
    updating: bool,
}

impl AdBlockState {
    /// Every cached verdict is a verdict of the current rules, on a request
    /// that reaches them.
    #[verifier::type_invariant]
    spec fn in_order(&self) -> bool {
        coherent(self.schemes(), self.allowed(), self.rules(), self.cache@)
    }

    /// The current rules, as their bytes; `None` until rules are installed.
    pub closed spec fn rules(&self) -> Option<Seq<u8>> {
        match self.rules {
            Some(compiled) => Some(compiled@),
            None => None,
        }
    }

    /// The host's internal schemes.
    pub closed spec fn schemes(&self) -> Seq<Seq<char>> {
        self.policy.schemes()
    }

    /// The allow-listed domains.
    pub closed spec fn allowed(&self) -> Seq<Seq<char>> {
        self.policy.allowed()
    }

    /// The cached verdicts, by request.
    pub closed spec fn cache(&self) -> Map<RequestView, CheckResult> {
        self.cache@
    }

    /// How long a cached verdict is served.
    pub closed spec fn cache_ttl(&self) -> u64 {
        self.cache.ttl()
    }

    /// The number of cached verdicts past which the cache evicts.
    pub closed spec fn cache_high_water(&self) -> nat {
        self.cache.high_water()
    }

    /// The number of cached verdicts that an eviction leaves at most.
    pub closed spec fn cache_floor(&self) -> nat {
        self.cache.floor()
    }

    /// Whether an update is under way.
    pub closed spec fn updating(&self) -> bool {
        self.updating
    }

    /// What every state is like: each cached verdict is a verdict of the
    /// current rules, and the cache is finite and within its bounds.
    pub open spec fn sound(&self) -> bool {
        &&& coherent(self.schemes(), self.allowed(), self.rules(), self.cache())
        &&& self.cache().dom().finite()
        &&& self.cache().len() <= self.cache_high_water()
        &&& self.cache_floor() <= self.cache_high_water()
    }

    /// The same policy and the same cache bounds as before.
    pub open spec fn same_settings(&self, before: &AdBlockState) -> bool {
        &&& self.schemes() == before.schemes()
        &&& self.allowed() == before.allowed()
        &&& self.cache_ttl() == before.cache_ttl()
        &&& self.cache_high_water() == before.cache_high_water()
        &&& self.cache_floor() == before.cache_floor()
    }

    /// What the state answers to a request.
    pub open spec fn verdict(&self, url: Seq<char>, source_url: Seq<char>, label: Seq<char>) -> bool {
        verdict(self.schemes(), self.allowed(), self.rules(), url, source_url, label)
    }

    /// What one query at `now` may make of a cache, under the rules and the
    /// settings of this state. A request that bypasses the rules, or that
    /// arrives before any rules, leaves the cache alone. A live entry is
    /// counted once more. Anything else is computed and stored.
    pub open spec fn query_step(
        &self,
        before: Map<RequestView, CheckResult>,
        after: Map<RequestView, CheckResult>,
        url: Seq<char>,
        source_url: Seq<char>,
        label: Seq<char>,
        now: u64,
    ) -> bool {
        let key = (url, source_url, ResourceType::of_label(label));
        if bypasses(self.schemes(), self.allowed(), url) || self.rules() is None {
            after == before
        } else if before.contains_key(key) && is_live(before[key], now, self.cache_ttl()) {
            after == before.insert(key, bumped(before[key]))
        } else {
            is_store_of(
                before.insert(key, computed(self.verdict(url, source_url, label), now)),
                after,
                now,
                self.cache_ttl(),
                self.cache_high_water(),
                self.cache_floor(),
            )
        }
    }

    /// What a query at `now` makes of the cache where the cache holds an
    /// entry for the request. A live entry gives the answer and is counted
    /// once more, its time kept; the rules are not asked. An expired entry
    /// gives way to the fresh verdict, computed at `now` and asked for once.
    pub open spec fn cache_step(
        &self,
        after: Map<RequestView, CheckResult>,
        answer: bool,
        url: Seq<char>,
        source_url: Seq<char>,
        label: Seq<char>,
        now: u64,
    ) -> bool {
        let key = (url, source_url, ResourceType::of_label(label));
        let held = self.cache()[key];
        if is_live(held, now, self.cache_ttl()) {
            &&& answer == held.matched
            &&& after == self.cache().insert(key, bumped(held))
        } else {
            after == self.cache().insert(key, computed(answer, now))
        }
    }

    /// `trace` holds the cache before a batch of queries, after each of
    /// them, and so at last after the batch.
    pub open spec fn is_batch_trace(
        &self,
        trace: Seq<Map<RequestView, CheckResult>>,
        requests: Seq<(String, String, String)>,
        now: u64,
    ) -> bool {
        &&& trace.len() == requests.len() + 1
        &&& trace[0] == self.cache()
        &&& forall|i: int|
            0 <= i < requests.len() ==> self.query_step(
                #[trigger] trace[i],
                trace[i + 1],
                requests[i].0@,
                requests[i].1@,
                requests[i].2@,
                now,
            )
    }

    /// Recalls what every state is like. Does nothing when run.
    pub fn recall(&self)
        ensures
            self.sound(),
    {
        proof {
            use_type_invariant(self);
        }
        self.cache.recall();
    }

    /// A state without rules, with the given policy and cache bounds.
    /// `None` where the floor is above the high-water mark.
    pub fn with_policy(policy: MatchPolicy, ttl: u64, high_water: usize, floor: usize) -> (state:
        Option<AdBlockState>)
        ensures
            state is Some <==> floor <= high_water,
            state matches Some(s) ==> {
                &&& s.sound()
                &&& s.rules() is None
                &&& !s.updating()
                &&& s.schemes() == policy.schemes()
                &&& s.allowed() == policy.allowed()
                &&& s.cache() == Map::<RequestView, CheckResult>::empty()
                &&& s.cache_ttl() == ttl
                &&& s.cache_high_water() == high_water
                &&& s.cache_floor() == floor
            },
    {
        match ResultCache::new(ttl, high_water, floor) {
            Some(cache) => Some(AdBlockState { rules: None, policy, cache, updating: false }),
            None => None,
        }
    }

    /// A state without rules, with the standard policy and cache bounds.
    pub fn new() -> (state: AdBlockState)
        ensures
            state.sound(),
            state.rules() is None,
            !state.updating(),
            state.schemes() == seq!["tauri:"@],
            state.allowed() == Seq::<Seq<char>>::empty(),
            state.cache() == Map::<RequestView, CheckResult>::empty(),
            state.cache_ttl() == RESULT_TTL_SECS,
            state.cache_high_water() == CACHE_HIGH_WATER,
            state.cache_floor() == CACHE_FLOOR,
    {
        let made = AdBlockState::with_policy(
            MatchPolicy::standard(),
            RESULT_TTL_SECS,
            CACHE_HIGH_WATER,
            CACHE_FLOOR,
        );
        made.unwrap()
    }

    /// Installs a rule set in place of the current one and empties the
    /// cache of verdicts.
    pub fn set_engine(&mut self, rules: CompiledRuleSet)
        ensures
            final(self).sound(),
            final(self).rules() == Some(rules@),
            final(self).cache() == Map::<RequestView, CheckResult>::empty(),
            final(self).updating() == old(self).updating(),
            final(self).same_settings(old(self)),
    {
        self.cache = self.cache.emptied();
        self.rules = Some(rules);
    }

    /// Whether a rule set was installed.
    pub fn is_ready(&self) -> (ready: bool)
        ensures
            ready == self.rules() is Some,
    {
        self.rules.is_some()
    }

    /// Whether an update is under way.
    pub fn is_updating(&self) -> (running: bool)
        ensures
            running == self.updating(),
    {
        self.updating
    }

    /// Whether an allow-listed domain stands in `url`.
    pub fn is_whitelisted(&self, url: &str) -> (found: bool)
        ensures
            found == crate::matching::is_allow_listed(self.allowed(), url@),
    {
        self.policy.is_whitelisted(url)
    }

    /// Whether the request for `url`, made by the page at `source_url` for a
    /// resource that the caller labels `request_type`, is to be blocked.
    /// `now` is the host's clock reading. The answer is the verdict of the
    /// pipeline on the current rules, whether it came from the cache or not.
    /// A request that bypasses the rules, or that arrives before any rules,
    /// leaves the cache alone; any other is served from the cache or
    /// computed and stored.
    pub fn check_url(&mut self, url: &str, source_url: &str, request_type: &str, now: u64) -> (blocked:
        bool)
        ensures
            blocked == old(self).verdict(url@, source_url@, request_type@),
            final(self).sound(),
            final(self).rules() == old(self).rules(),
            final(self).updating() == old(self).updating(),
            final(self).same_settings(old(self)),
            old(self).query_step(
                old(self).cache(),
                final(self).cache(),
                url@,
                source_url@,
                request_type@,
                now,
            ),
            old(self).cache().contains_key(
                (url@, source_url@, ResourceType::of_label(request_type@)),
            ) ==> old(self).cache_step(
                final(self).cache(),
                blocked,
                url@,
                source_url@,
                request_type@,
                now,
            ),
    {
        self.recall();
        if self.policy.is_bypassed(url) {
            return false;
        }
        match &self.rules {
            None => false,
            Some(rules) => {
                let key = Request::new(url, source_url, request_type);
                let kind = key.resource_type;
                let compute = || -> (fresh: bool)
                    ensures
                        fresh == blocks(rules@, url@, source_url@, kind.name()),
                    { rules.check(url, source_url, kind.as_str()) };
                // The cache is worked on outside the state, which holds an
                // empty one meanwhile.
                let mut cache = self.cache.emptied();
                std::mem::swap(&mut cache, &mut self.cache);
                let ghost before = cache@;
                let ghost kv = key@;
                let blocked = cache.get_or_compute(key, now, compute);
                proof {
                    let compiled = rules@;
                    let with_entry = before.insert(kv, computed(blocked, now));
                    if before.contains_key(kv) {
                        // A key that is held is replaced: the cache does
                        // not grow, and nothing is evicted.
                        assert(with_entry.dom() =~= before.dom());
                    }
                    assert forall|k: RequestView| #[trigger] cache@.contains_key(k) implies {
                        &&& !bypasses(self.schemes(), self.allowed(), k.0)
                        &&& cache@[k].matched == blocks(compiled, k.0, k.1, k.2.name())
                    } by {
                        if before.contains_key(kv) && is_live(before[kv], now, cache.ttl()) {
                            assert(before.contains_key(k) || k == kv);
                        } else {
                            assert(with_entry.contains_key(k));
                            assert(cache@[k] == with_entry[k]);
                            assert(before.contains_key(k) || k == kv);
                        }
                    }
                }
                self.cache = cache;
                blocked
            },
        }
    }

    /// The cosmetic resources of the page at `url`.
    pub fn get_cosmetic_resources(&self, url: &str) -> (resources: CosmeticResources)
        ensures
            self.rules() is None ==> resources.is_empty(),
            self.rules() matches Some(compiled) ==> {
                &&& resources.hidden() == hidden_on(compiled, url@)
                &&& resources.excepted() == excepted_on(compiled, url@)
                &&& resources.generic_hide == generic_hide_on(compiled, url@)
                &&& resources.injected_script is None
            },
            resources.hide_selectors.deep_view().no_duplicates(),
            resources.exceptions.deep_view().no_duplicates(),
            resources.hidden().disjoint(resources.excepted()),
    {
        resources_for(&self.rules, url)
    }

    /// The generic selectors to apply for the classes and ids seen on a
    /// page, given the page's exceptions.
    pub fn hidden_class_id_selectors(
        &self,
        classes: &Vec<String>,
        ids: &Vec<String>,
        exceptions: &Vec<String>,
    ) -> (selectors: Vec<String>)
        ensures
            self.rules() is None ==> selectors@.len() == 0,
            self.rules() matches Some(compiled) ==> selectors.deep_view() == selectors_for(
                compiled,
                classes.deep_view(),
                ids.deep_view(),
                exceptions.deep_view(),
            ),
    {
        hidden_selectors_for(&self.rules, classes, ids, exceptions)
    }

    /// Claims the one update that may run at a time. Refused while another
    /// update is under way.
    pub fn begin_update(&mut self) -> (claimed: Result<(), UpdateError>)
        ensures
            claimed == (if old(self).updating() {
                Err::<(), UpdateError>(UpdateError::AlreadyRunning)
            } else {
                Ok::<(), UpdateError>(())
            }),
            final(self).updating(),
            final(self).sound(),
            final(self).rules() == old(self).rules(),
            final(self).cache() == old(self).cache(),
            final(self).same_settings(old(self)),
    {
        self.recall();
        if self.updating {
            Err(UpdateError::AlreadyRunning)
        } else {
            self.updating = true;
            Ok(())
        }
    }

    /// Ends the update under way by installing what it compiled, and
    /// reports the number of rules compiled. Refused, with nothing changed,
    /// where no update is under way.
    pub fn complete_update(&mut self, rules: CompiledRuleSet, stats: CompileStats) -> (done: Result<
        usize,
        UpdateError,
    >)
        ensures
            final(self).sound(),
            final(self).same_settings(old(self)),
            !final(self).updating(),
            old(self).updating() ==> {
                &&& done == Ok::<usize, UpdateError>(stats.accepted)
                &&& final(self).rules() == Some(rules@)
                &&& final(self).cache() == Map::<RequestView, CheckResult>::empty()
            },
            !old(self).updating() ==> {
                &&& done == Err::<usize, UpdateError>(UpdateError::NotRunning)
                &&& final(self).rules() == old(self).rules()
                &&& final(self).cache() == old(self).cache()
            },
    {
        self.recall();
        if !self.updating {
            return Err(UpdateError::NotRunning);
        }
        self.set_engine(rules);
        self.updating = false;
        Ok(stats.accepted)
    }

    /// Ends the update under way without installing anything: the current
    /// rules stay.
    pub fn abandon_update(&mut self)
        ensures
            !final(self).updating(),
            final(self).sound(),
            final(self).rules() == old(self).rules(),
            final(self).cache() == old(self).cache(),
            final(self).same_settings(old(self)),
    {
        self.recall();
        self.updating = false;
    }
}

} // verus!
