//! A bounded cache of recent verdicts, keyed by the identity of a request.
//! An entry is served while it is younger than the time-to-live. Once the
//! cache grows past its high-water mark, expired entries leave first, then
//! the least used and oldest, until the floor is reached.

use crate::assoc::{
    assoc, assoc_at, assoc_index, assoc_len, assoc_push, assoc_swap_remove, assoc_update, paired,
};
use crate::freshness::{fresh, is_cache_valid};
use crate::matching::{fingerprint_of, Request, RequestView};
use vstd::prelude::*;

verus! {

/// A cached verdict with the time it was computed at and the number of
/// times it was asked for.
#[derive(Debug, Clone, Copy, PartialEq, Eq, Structural)]
pub struct CheckResult {
    pub matched: bool,
    pub computed_at: u64,
    pub access_count: u64,
}

/// An entry is live while it is younger than the time-to-live.
pub open spec fn is_live(entry: CheckResult, now: u64, ttl: u64) -> bool {
    fresh(now, entry.computed_at, ttl)
}

/// The entry that a computation at `now` yields: asked for once.
pub open spec fn computed(matched: bool, now: u64) -> CheckResult {
    CheckResult { matched, computed_at: now, access_count: 1 }
}

/// An entry after one more hit. The count stops at the largest number.
pub open spec fn bumped(entry: CheckResult) -> CheckResult {
    CheckResult {
        access_count: if entry.access_count < u64::MAX {
            (entry.access_count + 1) as u64
        } else {
            entry.access_count
        },
        ..entry
    }
}

/// The order in which entries leave: less used first, and among equally
/// used ones the older first.
pub open spec fn leaves_no_later(a: CheckResult, b: CheckResult) -> bool {
    a.access_count < b.access_count || (a.access_count == b.access_count && a.computed_at
        <= b.computed_at)
}

/// `after` is what an eviction at `now` may leave of `before`: only live
/// entries of `before`, unchanged; no more than `floor` of them; a live
/// entry is gone only where that was needed to reach the floor, and then
/// none that is kept would have left before it.
pub open spec fn is_eviction_of(
    before: Map<RequestView, CheckResult>,
    after: Map<RequestView, CheckResult>,
    now: u64,
    ttl: u64,
    floor: nat,
) -> bool {
    &&& after.submap_of(before)
    &&& forall|k: RequestView| #[trigger] after.contains_key(k) ==> is_live(after[k], now, ttl)
    &&& forall|k: RequestView, kept: RequestView|
        #![trigger before.contains_key(k), after.contains_key(kept)]
        before.contains_key(k) && !after.contains_key(k) && is_live(before[k], now, ttl)
            && after.contains_key(kept) ==> leaves_no_later(before[k], after[kept])
    &&& after.len() <= floor
    &&& (exists|k: RequestView| #[trigger]
        before.contains_key(k) && !after.contains_key(k) && is_live(before[k], now, ttl))
        ==> after.len() == floor
}

/// What a store at `now` may leave: the cache with the new entry while that
/// fits under the high-water mark, an eviction of it otherwise.
pub open spec fn is_store_of(
    with_entry: Map<RequestView, CheckResult>,
    after: Map<RequestView, CheckResult>,
    now: u64,
    ttl: u64,
    high_water: nat,
    floor: nat,
) -> bool {
    if with_entry.len() <= high_water {
        after == with_entry
    } else {
        is_eviction_of(with_entry, after, now, ttl, floor)
    }
}

/// The entries of a cache with its bounds: keys, fingerprints and entries
/// side by side.
struct Table {
    keys: Vec<Request>,
    // The fingerprint of each key, at the key's index: a lookup compares
    // fingerprints first and keys only where they agree.
    prints: Vec<u64>,
    results: Vec<CheckResult>,
    ttl: u64,
    high_water: usize,
    floor: usize,
}

impl View for Table {
    type V = Map<RequestView, CheckResult>;

    /// The entries, by request.
    closed spec fn view(&self) -> Map<RequestView, CheckResult> {
        assoc(self.key_views(), self.results@)
    }
}

impl Table {
    /// The keys in the order in which they are held.
    spec fn key_views(&self) -> Seq<RequestView> {
        self.keys@.map_values(|k: Request| k@)
    }

    /// Keys, fingerprints and entries stand side by side, and no key stands
    /// twice.
    spec fn paired(&self) -> bool {
        &&& paired(self.key_views(), self.results@)
        &&& self.prints.len() == self.keys.len()
        &&& forall|i: int|
            0 <= i < self.prints.len() ==> #[trigger] self.prints[i] == fingerprint_of(
                self.key_views()[i],
            )
    }

    /// The time-to-live of an entry.
    spec fn ttl(&self) -> u64 {
        self.ttl
    }

    /// The number of entries past which the table is evicted from.
    spec fn high_water(&self) -> nat {
        self.high_water as nat
    }

    /// The number of entries that an eviction leaves at most.
    spec fn floor(&self) -> nat {
        self.floor as nat
    }

    /// No key stands twice, the floor is not above the high-water mark, and
    /// the table holds no more than the high-water mark.
    spec fn wf(&self) -> bool {
        &&& self.paired()
        &&& self.floor <= self.high_water
        &&& self.keys.len() <= self.high_water
    }

    /// A well-formed table is finite and within its high-water mark.
    proof fn lemma_bounded(&self)
        requires
            self.wf(),
        ensures
            self@.dom().finite(),
            self@.len() <= self.high_water(),
            self.floor() <= self.high_water(),
    {
        assoc_len(self.key_views(), self.results@);
    }

    /// An empty table. `None` where the floor is above the high-water mark.
    fn new(ttl: u64, high_water: usize, floor: usize) -> (table: Option<Table>)
        ensures
            table is Some <==> floor <= high_water,
            table matches Some(c) ==> {
                &&& c.wf()
                &&& c@ == Map::<RequestView, CheckResult>::empty()
                &&& c.ttl() == ttl
                &&& c.high_water() == high_water
                &&& c.floor() == floor
            },
    {
        if floor > high_water {
            return None;
        }
        let table = Table {
            keys: Vec::new(),
            prints: Vec::new(),
            results: Vec::new(),
            ttl,
            high_water,
            floor,
        };
        assert(table.key_views() =~= Seq::<RequestView>::empty());
        assert(table@ =~= Map::<RequestView, CheckResult>::empty());
        Some(table)
    }

    /// The number of entries.
    fn len(&self) -> (n: usize)
        requires
            self.wf(),
        ensures
            n == self@.len(),
    {
        proof {
            assoc_len(self.key_views(), self.results@);
        }
        self.keys.len()
    }

    /// Drops every entry.
    fn clear(&mut self)
        requires
            old(self).wf(),
        ensures
            final(self).wf(),
            final(self)@ == Map::<RequestView, CheckResult>::empty(),
            final(self).ttl() == old(self).ttl(),
            final(self).high_water() == old(self).high_water(),
            final(self).floor() == old(self).floor(),
    {
        self.keys.clear();
        self.prints.clear();
        self.results.clear();
        assert(self.key_views() =~= Seq::<RequestView>::empty());
        assert(self@ =~= Map::<RequestView, CheckResult>::empty());
    }

    /// The entry held for `key`, whatever its age.
    fn peek(&self, key: &Request) -> (entry: Option<CheckResult>)
        requires
            self.wf(),
        ensures
            entry == (if self@.contains_key(key@) {
                Some(self@[key@])
            } else {
                None
            }),
    {
        match self.position(key) {
            Some(i) => Some(self.results[i]),
            None => None,
        }
    }

    /// Where `key` is held.
    fn position(&self, key: &Request) -> (at: Option<usize>)
        requires
            self.paired(),
        ensures
            match at {
                Some(i) => i < self.keys.len() && self.key_views()[i as int] == key@
                    && self@.contains_key(key@) && self@[key@] == self.results[i as int],
                None => !self@.contains_key(key@),
            },
    {
        let print = key.fingerprint();
        let mut i: usize = 0;
        while i < self.keys.len()
            invariant
                i <= self.keys.len(),
                self.paired(),
                print == fingerprint_of(key@),
                forall|j: int| 0 <= j < i ==> self.key_views()[j] != key@,
            decreases self.keys.len() - i,
        {
            if self.prints[i] == print && self.keys[i].same(key) {
                proof {
                    assoc_at(self.key_views(), self.results@, i as int);
                }
                return Some(i);
            }
            i += 1;
        }
        proof {
            if self@.contains_key(key@) {
                let j = assoc_index(self.key_views(), self.results@, key@);
                assert(self.key_views()[j] != key@);
            }
        }
        None
    }

    /// Takes out the pair held at index `at`.
    fn take_out(&mut self, at: usize)
        requires
            old(self).paired(),
            at < old(self).keys.len(),
        ensures
            final(self).paired(),
            final(self)@ == old(self)@.remove(old(self).key_views()[at as int]),
            final(self).keys.len() == old(self).keys.len() - 1,
            final(self).results@ == old(self).results@.update(
                at as int,
                old(self).results@.last(),
            ).drop_last(),
            final(self).ttl == old(self).ttl,
            final(self).high_water == old(self).high_water,
            final(self).floor == old(self).floor,
    {
        let ghost ks = self.key_views();
        let ghost vs = self.results@;
        self.keys.swap_remove(at);
        self.prints.swap_remove(at);
        self.results.swap_remove(at);
        proof {
            assert(self.key_views() =~= ks.update(at as int, ks.last()).drop_last());
            assoc_swap_remove(ks, vs, at as int);
        }
    }

    /// Serves `key` at time `now`: a live entry is a hit and is counted, an
    /// expired one is dropped.
    fn lookup(&mut self, key: &Request, now: u64) -> (hit: Option<bool>)
        requires
            old(self).wf(),
        ensures
            final(self).wf(),
            final(self).ttl() == old(self).ttl(),
            final(self).high_water() == old(self).high_water(),
            final(self).floor() == old(self).floor(),
            old(self)@.contains_key(key@) && is_live(old(self)@[key@], now, old(self).ttl()) ==> {
                &&& hit == Some(old(self)@[key@].matched)
                &&& final(self)@ == old(self)@.insert(key@, bumped(old(self)@[key@]))
            },
            !(old(self)@.contains_key(key@) && is_live(old(self)@[key@], now, old(self).ttl()))
                ==> {
                &&& hit is None
                &&& final(self)@ == old(self)@.remove(key@)
            },
    {
        match self.position(key) {
            Some(i) => {
                let entry = self.results[i];
                if is_cache_valid(now, entry.computed_at, self.ttl) {
                    let count: u64 = if entry.access_count < u64::MAX {
                        entry.access_count + 1
                    } else {
                        entry.access_count
                    };
                    let ghost ks = self.key_views();
                    let ghost vs = self.results@;
                    self.results.set(
                        i,
                        CheckResult {
                            matched: entry.matched,
                            computed_at: entry.computed_at,
                            access_count: count,
                        },
                    );
                    proof {
                        assoc_update(ks, vs, i as int, bumped(entry));
                        assert(self.key_views() == ks);
                    }
                    Some(entry.matched)
                } else {
                    self.take_out(i);
                    None
                }
            },
            None => {
                assert(self@ =~= self@.remove(key@));
                None
            },
        }
    }

    /// Index of an entry that leaves no later than any other.
    fn first_to_leave(&self) -> (at: usize)
        requires
            self.paired(),
            self.keys.len() > 0,
        ensures
            at < self.results.len(),
            forall|j: int|
                0 <= j < self.results.len() ==> leaves_no_later(
                    self.results[at as int],
                    #[trigger] self.results[j],
                ),
    {
        let mut best: usize = 0;
        let mut i: usize = 1;
        while i < self.results.len()
            invariant
                1 <= i <= self.results.len(),
                best < i,
                forall|j: int|
                    0 <= j < i ==> leaves_no_later(
                        self.results[best as int],
                        #[trigger] self.results[j],
                    ),
            decreases self.results.len() - i,
        {
            let candidate = self.results[i];
            let held = self.results[best];
            if candidate.access_count < held.access_count || (candidate.access_count
                == held.access_count && candidate.computed_at < held.computed_at) {
                best = i;
            }
            i += 1;
        }
        best
    }

    /// Evicts at time `now`: expired entries first, then the entries that
    /// leave first, until no more than the floor are held.
    fn evict(&mut self, now: u64)
        requires
            old(self).paired(),
            old(self).floor <= old(self).high_water,
        ensures
            final(self).wf(),
            final(self).ttl == old(self).ttl,
            final(self).high_water == old(self).high_water,
            final(self).floor == old(self).floor,
            is_eviction_of(old(self)@, final(self)@, now, old(self).ttl, old(self).floor as nat),
    {
        let ghost start = self@;
        let mut i: usize = 0;
        while i < self.keys.len()
            invariant
                self.paired(),
                i <= self.keys.len(),
                self.ttl == old(self).ttl,
                self.high_water == old(self).high_water,
                self.floor == old(self).floor,
                start == old(self)@,
                self@.submap_of(start),
                forall|k: RequestView|
                    #[trigger] start.contains_key(k) && !self@.contains_key(k) ==> !is_live(
                        start[k],
                        now,
                        self.ttl,
                    ),
                forall|j: int| 0 <= j < i ==> is_live(#[trigger] self.results[j], now, self.ttl),
            decreases self.keys.len() - i,
        {
            if !is_cache_valid(now, self.results[i].computed_at, self.ttl) {
                proof {
                    assoc_at(self.key_views(), self.results@, i as int);
                }
                self.take_out(i);
            } else {
                i += 1;
            }
        }
        let ghost mut cut = false;
        while self.keys.len() > self.floor
            invariant
                self.paired(),
                self.ttl == old(self).ttl,
                self.high_water == old(self).high_water,
                self.floor == old(self).floor,
                start == old(self)@,
                self@.submap_of(start),
                forall|j: int|
                    0 <= j < self.results.len() ==> is_live(
                        #[trigger] self.results[j],
                        now,
                        self.ttl,
                    ),
                forall|k: RequestView, kept: RequestView|
                    #![trigger start.contains_key(k), self@.contains_key(kept)]
                    start.contains_key(k) && !self@.contains_key(k) && is_live(
                        start[k],
                        now,
                        self.ttl,
                    ) && self@.contains_key(kept) ==> leaves_no_later(start[k], self@[kept]),
                forall|k: RequestView|
                    #[trigger] start.contains_key(k) && !self@.contains_key(k) && is_live(
                        start[k],
                        now,
                        self.ttl,
                    ) ==> cut,
                cut ==> self.keys.len() >= self.floor,
            decreases self.keys.len(),
        {
            let at = self.first_to_leave();
            let ghost before = self@;
            let ghost ks = self.key_views();
            let ghost vs = self.results@;
            proof {
                assoc_at(ks, vs, at as int);
            }
            self.take_out(at);
            proof {
                cut = true;
                assert forall|k: RequestView, kept: RequestView|
                    start.contains_key(k) && !self@.contains_key(k) && is_live(
                        start[k],
                        now,
                        self.ttl,
                    ) && self@.contains_key(kept) implies leaves_no_later(
                    start[k],
                    self@[kept],
                ) by {
                    assert(before.contains_key(kept));
                    if before.contains_key(k) {
                        assert(k == ks[at as int]);
                        let j = assoc_index(ks, vs, kept);
                        assert(leaves_no_later(vs[at as int], vs[j]));
                    }
                }
            }
        }
        proof {
            assoc_len(self.key_views(), self.results@);
            assert forall|k: RequestView| #[trigger] self@.contains_key(k) implies is_live(
                self@[k],
                now,
                self.ttl,
            ) by {
                let j = assoc_index(self.key_views(), self.results@, k);
            }
        }
    }

    /// Stores a new entry for `key` in place of any that is held, and evicts
    /// past the high-water mark.
    fn store(&mut self, key: Request, matched: bool, now: u64)
        requires
            old(self).wf(),
        ensures
            final(self).wf(),
            final(self).ttl() == old(self).ttl(),
            final(self).high_water() == old(self).high_water(),
            final(self).floor() == old(self).floor(),
            is_store_of(
                old(self)@.insert(key@, computed(matched, now)),
                final(self)@,
                now,
                old(self).ttl(),
                old(self).high_water(),
                old(self).floor(),
            ),
    {
        let ghost target = self@.insert(key@, computed(matched, now));
        match self.position(&key) {
            Some(i) => {
                self.take_out(i);
            },
            None => {
                assert(self@ =~= self@.remove(key@));
            },
        }
        let ghost ks = self.key_views();
        let ghost vs = self.results@;
        proof {
            if ks.contains(key@) {
                let j = choose|j: int| 0 <= j < ks.len() && ks[j] == key@;
                assoc_at(ks, vs, j);
            }
            assoc_push(ks, vs, key@, computed(matched, now));
        }
        let print = key.fingerprint();
        self.keys.push(key);
        self.prints.push(print);
        self.results.push(CheckResult { matched, computed_at: now, access_count: 1 });
        proof {
            assert(self.key_views() =~= ks.push(key@));
            assert(self@ =~= target);
            assoc_len(self.key_views(), self.results@);
        }
        if self.keys.len() > self.high_water {
            self.evict(now);
        }
    }
}

/// The cache of verdicts.
pub struct ResultCache {
    table: Table,
}

impl View for ResultCache {
    type V = Map<RequestView, CheckResult>;

    /// The entries, by request. The bounds of the cache stand beside the
    /// view, as [`ResultCache::ttl`], [`ResultCache::high_water`] and
    /// [`ResultCache::floor`].
    closed spec fn view(&self) -> Map<RequestView, CheckResult> {
        self.table@
    }
}

impl ResultCache {
    /// No key stands twice, the floor is not above the high-water mark, and
    /// the cache holds no more than the high-water mark.
    #[verifier::type_invariant]
    spec fn in_order(&self) -> bool {
        self.table.wf()
    }

    /// The time-to-live of an entry.
    pub closed spec fn ttl(&self) -> u64 {
        self.table.ttl
    }

    /// The number of entries past which the cache evicts.
    pub closed spec fn high_water(&self) -> nat {
        self.table.high_water as nat
    }

    /// The number of entries that an eviction leaves at most.
    pub closed spec fn floor(&self) -> nat {
        self.table.floor as nat
    }

    /// The cache is finite and within its bounds.
    pub open spec fn bounded(&self) -> bool {
        &&& self@.dom().finite()
        &&& self@.len() <= self.high_water()
        &&& self.floor() <= self.high_water()
    }

    /// The same bounds as before.
    pub open spec fn same_bounds(&self, before: &ResultCache) -> bool {
        &&& self.ttl() == before.ttl()
        &&& self.high_water() == before.high_water()
        &&& self.floor() == before.floor()
    }

    /// An empty cache. `None` where the floor is above the high-water mark.
    pub fn new(ttl: u64, high_water: usize, floor: usize) -> (cache: Option<ResultCache>)
        ensures
            cache is Some <==> floor <= high_water,
            cache matches Some(c) ==> {
                &&& c@ == Map::<RequestView, CheckResult>::empty()
                &&& c.ttl() == ttl
                &&& c.high_water() == high_water
                &&& c.floor() == floor
                &&& c.bounded()
            },
    {
        match Table::new(ttl, high_water, floor) {
            Some(table) => {
                proof {
                    table.lemma_bounded();
                }
                Some(ResultCache { table })
            },
            None => None,
        }
    }

    /// An empty cache with the bounds of this one.
    pub fn emptied(&self) -> (cache: ResultCache)
        ensures
            cache@ == Map::<RequestView, CheckResult>::empty(),
            cache.same_bounds(self),
            cache.bounded(),
    {
        proof {
            use_type_invariant(self);
        }
        let made = Table::new(self.table.ttl, self.table.high_water, self.table.floor);
        let table = made.unwrap();
        proof {
            table.lemma_bounded();
        }
        ResultCache { table }
    }

    /// Takes the table out, leaving an empty one behind.
    fn take_table(&mut self) -> (table: Table)
        ensures
            table == old(self).table,
            table.wf(),
    {
        proof {
            use_type_invariant(&*self);
        }
        let made = Table::new(0, 0, 0);
        let mut table = made.unwrap();
        std::mem::swap(&mut table, &mut self.table);
        table
    }

    /// Recalls that every cache is finite and within its bounds. Does
    /// nothing when run.
    pub fn recall(&self)
        ensures
            self.bounded(),
    {
        proof {
            use_type_invariant(self);
            self.table.lemma_bounded();
        }
    }

    /// The number of entries.
    pub fn len(&self) -> (n: usize)
        ensures
            n == self@.len(),
            self.bounded(),
    {
        proof {
            use_type_invariant(self);
            self.table.lemma_bounded();
        }
        self.table.len()
    }

    /// Drops every entry.
    pub fn clear(&mut self)
        ensures
            final(self)@ == Map::<RequestView, CheckResult>::empty(),
            final(self).same_bounds(old(self)),
            final(self).bounded(),
    {
        let mut table = self.take_table();
        table.clear();
        proof {
            table.lemma_bounded();
        }
        self.table = table;
    }

    /// The entry held for `key`, whatever its age.
    pub fn peek(&self, key: &Request) -> (entry: Option<CheckResult>)
        ensures
            entry == (if self@.contains_key(key@) {
                Some(self@[key@])
            } else {
                None
            }),
    {
        proof {
            use_type_invariant(self);
        }
        self.table.peek(key)
    }

    /// Serves `key` from the cache at time `now`. A live entry is a hit: its
    /// verdict is returned and its use is counted. Anything else is a miss,
    /// and an expired entry for `key` is dropped.
    pub fn lookup(&mut self, key: &Request, now: u64) -> (hit: Option<bool>)
        ensures
            final(self).same_bounds(old(self)),
            final(self).bounded(),
            old(self)@.contains_key(key@) && is_live(old(self)@[key@], now, old(self).ttl()) ==> {
                &&& hit == Some(old(self)@[key@].matched)
                &&& final(self)@ == old(self)@.insert(key@, bumped(old(self)@[key@]))
            },
            !(old(self)@.contains_key(key@) && is_live(old(self)@[key@], now, old(self).ttl()))
                ==> {
                &&& hit is None
                &&& final(self)@ == old(self)@.remove(key@)
            },
    {
        let mut table = self.take_table();
        let hit = table.lookup(key, now);
        proof {
            table.lemma_bounded();
        }
        self.table = table;
        hit
    }

    /// Stores the verdict computed for `key` at `now` as a new entry, in
    /// place of any entry held for the key, and evicts where the cache has
    /// grown past its high-water mark.
    pub fn store(&mut self, key: Request, matched: bool, now: u64)
        ensures
            final(self).same_bounds(old(self)),
            final(self).bounded(),
            is_store_of(
                old(self)@.insert(key@, computed(matched, now)),
                final(self)@,
                now,
                old(self).ttl(),
                old(self).high_water(),
                old(self).floor(),
            ),
    {
        let mut table = self.take_table();
        table.store(key, matched, now);
        proof {
            table.lemma_bounded();
        }
        self.table = table;
    }

    /// The verdict for `key` at time `now`: the cached one on a hit, else
    /// the one that `compute` gives, which is then stored.
    pub fn get_or_compute<F: FnOnce() -> bool>(&mut self, key: Request, now: u64, compute: F) -> (verdict:
        bool)
        requires
            compute.requires(()),
        ensures
            final(self).same_bounds(old(self)),
            final(self).bounded(),
            old(self)@.contains_key(key@) && is_live(old(self)@[key@], now, old(self).ttl()) ==> {
                &&& verdict == old(self)@[key@].matched
                &&& final(self)@ == old(self)@.insert(key@, bumped(old(self)@[key@]))
            },
            !(old(self)@.contains_key(key@) && is_live(old(self)@[key@], now, old(self).ttl()))
                ==> {
                &&& compute.ensures((), verdict)
                &&& is_store_of(
                    old(self)@.insert(key@, computed(verdict, now)),
                    final(self)@,
                    now,
                    old(self).ttl(),
                    old(self).high_water(),
                    old(self).floor(),
                )
            },
    {
        match self.lookup(&key, now) {
            Some(cached) => cached,
            None => {
                let ghost without = self@;
                let verdict = compute();
                self.store(key, verdict, now);
                assert(without.insert(key@, computed(verdict, now)) =~= old(self)@.insert(
                    key@,
                    computed(verdict, now),
                ));
                verdict
            },
        }
    }
}

} // verus!
