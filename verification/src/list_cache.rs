//! Acquisition of filter lists: the decisions around a disk cache and a
//! download. The host reads the clock and the disk and performs the
//! download; this module decides what to do with what the host found.
//!
//! A list whose cached entry is fresh is taken from the cache. Otherwise it
//! is downloaded; a download that fails falls back to the cached entry
//! whatever its age, and only a list without any entry is given up. One
//! list that is given up never stops the others.

use crate::freshness::{fresh, is_cache_valid};
use crate::text::push_char;
use vstd::prelude::*;
use vstd::string::StringExecFns;

verus! {

/// Time-to-live of a cached list where the host configures none: a day.
pub const DEFAULT_TTL_SECS: u64 = 86_400;

/// The longest time-to-live that a policy accepts: seven days.
pub const MAX_TTL_SECS: u64 = 604_800;

/// The largest payload that a download may deliver, in bytes: 50 MiB.
pub const MAX_DOWNLOAD_SIZE: usize = 52_428_800;

/// Seconds after which the host gives up on a download.
pub const FETCH_TIMEOUT_SECS: u64 = 30;

/// A filter list: its display name and where it is downloaded from.
pub struct FilterListDescriptor {
    pub name: String,
    pub url: String,
}

impl FilterListDescriptor {
    /// The name of the file that caches this list.
    pub fn cache_file_name(&self) -> (file_name: String)
        ensures
            file_name@ == cache_file_name(self.name@),
    {
        sanitize_filename(self.name.as_str())
    }
}

/// Whether `char::is_alphanumeric` holds of a character.
pub uninterp spec fn alphanumeric(c: char) -> bool;

/// A letter or a digit of ASCII.
pub open spec fn ascii_alphanumeric(c: char) -> bool {
    let code = c as u32;
    (0x30 <= code <= 0x39) || (0x41 <= code <= 0x5a) || (0x61 <= code <= 0x7a)
}

/// Whether a character counts as alphanumeric: within ASCII the letters
/// and the digits, beyond it what `char::is_alphanumeric` says.
pub open spec fn counts_as_alphanumeric(c: char) -> bool {
    if (c as u32) < 0x80 {
        ascii_alphanumeric(c)
    } else {
        alphanumeric(c)
    }
}

/// Whether a character is alphanumeric. Trusted: `char::is_alphanumeric`,
/// which goes by the Unicode properties of letters and numbers; within
/// ASCII these are the letters and the digits.
#[verifier::external_body]
pub(crate) fn is_alphanumeric(c: char) -> (found: bool)
    ensures
        found == alphanumeric(c),
        (c as u32) < 0x80 ==> found == ascii_alphanumeric(c),
{
    c.is_alphanumeric()
}

/// What becomes of one character of a display name: spaces, hyphens and
/// apostrophes become underscores; alphanumeric characters and underscores
/// stay; everything else is left out.
pub open spec fn name_char(c: char, is_alphanumeric: bool) -> Option<char> {
    if c == ' ' || c == '-' || c == '\'' {
        Some('_')
    } else if is_alphanumeric || c == '_' {
        Some(c)
    } else {
        None
    }
}

/// The characters of a display name that go into its file name.
pub open spec fn name_stem(name: Seq<char>) -> Seq<char>
    decreases name.len(),
{
    if name.len() == 0 {
        Seq::empty()
    } else {
        match name_char(name.last(), counts_as_alphanumeric(name.last())) {
            Some(c) => name_stem(name.drop_last()).push(c),
            None => name_stem(name.drop_last()),
        }
    }
}

/// The name of the cache file of a list.
pub open spec fn cache_file_name(name: Seq<char>) -> Seq<char> {
    name_stem(name) + ".txt"@
}

/// A file name holds nothing but alphanumeric characters and underscores
/// before its extension, whatever the display name was.
pub proof fn file_name_is_plain(name: Seq<char>, i: int)
    requires
        0 <= i < name_stem(name).len(),
    ensures
        counts_as_alphanumeric(name_stem(name)[i]) || name_stem(name)[i] == '_',
        name_stem(name).len() <= name.len(),
        cache_file_name(name).subrange(0, name_stem(name).len() as int) == name_stem(name),
    decreases name.len(),
{
    let rest = name.drop_last();
    match name_char(name.last(), counts_as_alphanumeric(name.last())) {
        Some(c) => {
            if i < name_stem(rest).len() {
                file_name_is_plain(rest, i);
            } else if name_stem(rest).len() > 0 {
                file_name_is_plain(rest, 0);
            }
        },
        None => {
            file_name_is_plain(rest, i);
        },
    }
    assert(cache_file_name(name).subrange(0, name_stem(name).len() as int) =~= name_stem(name));
}

/// What becomes of one character of a display name, given whether it is
/// alphanumeric.
pub fn sanitize_char(c: char, is_alphanumeric: bool) -> (kept: Option<char>)
    ensures
        kept == name_char(c, is_alphanumeric),
{
    if c == ' ' || c == '-' || c == '\'' {
        Some('_')
    } else if is_alphanumeric || c == '_' {
        Some(c)
    } else {
        None
    }
}

/// The name of the cache file of the list with display name `name`.
pub fn sanitize_filename(name: &str) -> (file_name: String)
    ensures
        file_name@ == cache_file_name(name@),
{
    let mut file_name = String::new();
    let walk = name.chars();
    for c in it: walk
        invariant
            it.seq() == name@,
            file_name@ == name_stem(name@.take(it.index() as int)),
    {
        proof {
            let upto = name@.take(it.index() + 1);
            assert(upto.drop_last() =~= name@.take(it.index() as int));
            assert(upto.last() == c);
        }
        match sanitize_char(c, is_alphanumeric(c)) {
            Some(kept) => push_char(&mut file_name, kept),
            None => {},
        }
    }
    assert(name@.take(name@.len() as int) =~= name@);
    file_name.append(".txt");
    file_name
}

/// How long cached lists stay fresh, and how large a download may be.
#[derive(Debug, Clone, Copy, PartialEq, Eq, Structural)]
pub struct CachePolicy {
    pub ttl_secs: u64,
    pub max_payload: usize,
}

impl CachePolicy {
    /// A policy with the given time-to-live. `None` where it is longer than
    /// seven days.
    pub fn new(ttl_secs: u64, max_payload: usize) -> (policy: Option<CachePolicy>)
        ensures
            policy == (if ttl_secs <= MAX_TTL_SECS {
                Some(CachePolicy { ttl_secs, max_payload })
            } else {
                None
            }),
    {
        if ttl_secs <= MAX_TTL_SECS {
            Some(CachePolicy { ttl_secs, max_payload })
        } else {
            None
        }
    }

    /// A day of freshness, 50 MiB of payload.
    pub fn standard() -> (policy: CachePolicy)
        ensures
            policy == (CachePolicy { ttl_secs: DEFAULT_TTL_SECS, max_payload: MAX_DOWNLOAD_SIZE }),
    {
        CachePolicy { ttl_secs: DEFAULT_TTL_SECS, max_payload: MAX_DOWNLOAD_SIZE }
    }
}

/// What the disk holds for a file: whether it is there, and since when.
#[derive(Debug, Clone, Copy, PartialEq, Eq, Structural)]
pub enum CacheState {
    /// No copy.
    Missing,
    /// A copy, last modified at the given second since the epoch.
    Present { modified: u64 },
}

/// Whether the disk holds a copy that is fresh at `now`.
pub open spec fn has_fresh_copy(cache: CacheState, now: u64, ttl_secs: u64) -> bool {
    match cache {
        CacheState::Present { modified } => fresh(now, modified, ttl_secs),
        CacheState::Missing => false,
    }
}

/// Whether the disk holds a copy that is fresh at `now`.
pub fn cache_is_fresh(cache: CacheState, now: u64, ttl_secs: u64) -> (found: bool)
    ensures
        found == has_fresh_copy(cache, now, ttl_secs),
{
    match cache {
        CacheState::Present { modified } => is_cache_valid(now, modified, ttl_secs),
        CacheState::Missing => false,
    }
}

/// A cached filter list: the text of a list and the second since the epoch
/// at which it was fetched. An entry is made whole, by a download or from
/// what the disk holds, and replaced whole by the next one.
pub struct FilterListCacheEntry {
    pub name: String,
    pub text: String,
    pub fetched_at: u64,
}

impl FilterListCacheEntry {
    /// Whether the entry is fresh at `now`.
    pub open spec fn fresh_at(&self, now: u64, ttl_secs: u64) -> bool {
        fresh(now, self.fetched_at, ttl_secs)
    }

    /// Whether the entry is fresh at `now`.
    pub fn is_fresh(&self, now: u64, ttl_secs: u64) -> (found: bool)
        ensures
            found == self.fresh_at(now, ttl_secs),
    {
        is_cache_valid(now, self.fetched_at, ttl_secs)
    }
}

/// Whether there is an entry, and it is fresh at `now`.
pub open spec fn has_fresh_entry(
    cached: Option<FilterListCacheEntry>,
    now: u64,
    ttl_secs: u64,
) -> bool {
    match cached {
        Some(entry) => entry.fresh_at(now, ttl_secs),
        None => false,
    }
}

/// What to do first for a list.
#[derive(Debug, Clone, Copy, PartialEq, Eq, Structural)]
pub enum AcquireStep {
    /// Use the cached entry.
    UseCached,
    /// Download the list.
    Download,
}

/// The first step for a list: the cached entry where it is fresh, a
/// download otherwise.
pub fn plan_acquisition(cached: &Option<FilterListCacheEntry>, now: u64, policy: CachePolicy) -> (step:
    AcquireStep)
    ensures
        step == (if has_fresh_entry(*cached, now, policy.ttl_secs) {
            AcquireStep::UseCached
        } else {
            AcquireStep::Download
        }),
{
    match cached {
        Some(entry) => if entry.is_fresh(now, policy.ttl_secs) {
            AcquireStep::UseCached
        } else {
            AcquireStep::Download
        },
        None => AcquireStep::Download,
    }
}

/// Why a download delivered no list.
#[derive(Debug, Clone, Copy, PartialEq, Eq, Structural)]
pub enum FetchFailure {
    /// No answer within the time allowed.
    Timeout,
    /// The payload is larger than the policy allows.
    Oversized,
    /// The transport failed: no route, no name, a refused connection.
    Transport,
}

impl FetchFailure {
    /// The failure in words.
    pub fn message(self) -> (text: &'static str)
        ensures
            text@ == (match self {
                FetchFailure::Timeout => "Timed out"@,
                FetchFailure::Oversized => "Content too large"@,
                FetchFailure::Transport => "Transport failed"@,
            }),
    {
        match self {
            FetchFailure::Timeout => "Timed out",
            FetchFailure::Oversized => "Content too large",
            FetchFailure::Transport => "Transport failed",
        }
    }
}

/// What a download delivered.
pub enum FetchOutcome {
    /// The text of the list.
    Body(String),
    /// Nothing, and why.
    Failed(FetchFailure),
}

/// What becomes of a list after its download.
pub enum Acquired {
    /// The download as a new entry: to be written to the cache and used.
    Downloaded(FilterListCacheEntry),
    /// The download failed: the cached entry is used, whatever its age.
    Stale(FilterListCacheEntry, FetchFailure),
    /// The download failed and there is no entry: the list is given up.
    Unavailable(FetchFailure),
}

impl Acquired {
    /// The entry to use, if the list was not given up.
    pub open spec fn usable(self) -> Option<FilterListCacheEntry> {
        match self {
            Acquired::Downloaded(entry) => Some(entry),
            Acquired::Stale(entry, _) => Some(entry),
            Acquired::Unavailable(_) => None,
        }
    }

    /// The entry to use, if the list was not given up.
    pub fn entry(self) -> (entry: Option<FilterListCacheEntry>)
        ensures
            entry == self.usable(),
    {
        match self {
            Acquired::Downloaded(entry) => Some(entry),
            Acquired::Stale(entry, _) => Some(entry),
            Acquired::Unavailable(_) => None,
        }
    }
}

/// The size of a text in bytes.
pub open spec fn byte_len(text: Seq<char>) -> nat {
    vstd::utf8::encode_utf8(text).len()
}

/// The failure of a download as it counts: a body above the ceiling is a
/// failure of its own.
pub open spec fn failure_of(outcome: FetchOutcome, max_payload: usize) -> Option<FetchFailure> {
    match outcome {
        FetchOutcome::Body(text) => if byte_len(text@) > max_payload {
            Some(FetchFailure::Oversized)
        } else {
            None
        },
        FetchOutcome::Failed(failure) => Some(failure),
    }
}

/// Settles a list after its download at `now`. A body within the ceiling
/// becomes the list's new entry. Every failure falls back to the cached
/// entry if there is one, whatever its age, and gives the list up
/// otherwise.
pub fn settle_download(
    list: &FilterListDescriptor,
    cached: Option<FilterListCacheEntry>,
    outcome: FetchOutcome,
    now: u64,
    policy: CachePolicy,
) -> (acquired: Acquired)
    ensures
        match failure_of(outcome, policy.max_payload) {
            None => {
                &&& acquired matches Acquired::Downloaded(entry)
                &&& outcome == FetchOutcome::Body(entry.text)
                &&& entry.name@ == list.name@
                &&& entry.fetched_at == now
            },
            Some(failure) => match cached {
                Some(entry) => acquired == Acquired::Stale(entry, failure),
                None => acquired == Acquired::Unavailable(failure),
            },
        },
{
    let failure = match outcome {
        FetchOutcome::Body(text) => {
            if text.as_str().as_bytes().len() <= policy.max_payload {
                return Acquired::Downloaded(
                    FilterListCacheEntry { name: list.name.clone(), text, fetched_at: now },
                );
            }
            FetchFailure::Oversized
        },
        FetchOutcome::Failed(failure) => failure,
    };
    match cached {
        Some(entry) => Acquired::Stale(entry, failure),
        None => Acquired::Unavailable(failure),
    }
}

/// The texts of the entries among `results` that are there, in order.
pub open spec fn present_texts(results: Seq<Option<FilterListCacheEntry>>) -> Seq<Seq<char>>
    decreases results.len(),
{
    if results.len() == 0 {
        Seq::empty()
    } else {
        match results.last() {
            Some(entry) => present_texts(results.drop_last()).push(entry.text@),
            None => present_texts(results.drop_last()),
        }
    }
}

/// Gathers the texts of the lists that were acquired, one result per
/// configured list: `None` for a list that was given up. The lists that
/// were acquired all go on, in their order.
pub fn acquired_texts(results: Vec<Option<FilterListCacheEntry>>) -> (texts: Vec<String>)
    ensures
        texts.deep_view() == present_texts(results@),
{
    let mut texts: Vec<String> = Vec::new();
    let ghost all = results@;
    assert(texts.deep_view() =~= present_texts(all.take(0)));
    for result in it: results.into_iter()
        invariant
            it.seq() == all,
            texts.deep_view() == present_texts(all.take(it.index() as int)),
    {
        let ghost held = texts.deep_view();
        proof {
            let upto = all.take(it.index() + 1);
            assert(upto.drop_last() =~= all.take(it.index() as int));
            assert(upto.last() == result);
        }
        match result {
            Some(entry) => {
                let ghost line = entry.text@;
                texts.push(entry.text);
                assert(texts.deep_view() =~= held.push(line));
            },
            None => {},
        }
    }
    assert(all.take(all.len() as int) =~= all);
    texts
}

} // verus!
