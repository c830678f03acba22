//! Start-up and rebuild: whether the snapshot on disk can stand in for a
//! full acquisition, and what to compile when it cannot. The host reads and
//! writes the files; these functions decide and compute.

use crate::backend::{
    compiles_to, is_compiled, is_own_snapshot, snapshot_accepts, snapshot_of, snapshot_payload,
    SNAPSHOT_HEADER_LEN,
};
use crate::compiler::{accepted_lines, compile, rule_lines, CompileStats};
use crate::list_cache::{
    acquired_texts, cache_is_fresh, has_fresh_copy, present_texts, CacheState,
    FilterListCacheEntry,
};
use crate::ruleset::{refusal_reason, CompiledRuleSet, SnapshotError};
use vstd::prelude::*;

verus! {

/// Why the snapshot on disk was not used.
#[derive(Debug, Clone, Copy, PartialEq, Eq, Structural)]
pub enum EngineCacheError {
    /// There is no snapshot, or it is older than the time-to-live.
    Invalid,
    /// The snapshot was refused.
    Snapshot(SnapshotError),
}

impl EngineCacheError {
    /// The error in words.
    pub fn message(self) -> (text: &'static str)
        ensures
            text@ == (match self {
                EngineCacheError::Invalid => "Cache invalid"@,
                EngineCacheError::Snapshot(SnapshotError::BadHeader) => "Deserialize: BadHeader"@,
                EngineCacheError::Snapshot(SnapshotError::VersionMismatch(_)) =>
                    "Deserialize: VersionMismatch"@,
                EngineCacheError::Snapshot(SnapshotError::Corrupt) => "Deserialize: Corrupt"@,
            }),
    {
        match self {
            EngineCacheError::Invalid => "Cache invalid",
            EngineCacheError::Snapshot(SnapshotError::BadHeader) => "Deserialize: BadHeader",
            EngineCacheError::Snapshot(SnapshotError::VersionMismatch(_)) =>
                "Deserialize: VersionMismatch",
            EngineCacheError::Snapshot(SnapshotError::Corrupt) => "Deserialize: Corrupt",
        }
    }
}

/// How to get rules at start-up.
#[derive(Debug, Clone, Copy, PartialEq, Eq, Structural)]
pub enum StartupStep {
    /// Read the snapshot and load it.
    LoadSnapshot,
    /// Acquire the lists and compile them.
    Rebuild,
}

/// The first step at start-up: the snapshot where it is fresh, a rebuild
/// otherwise. The snapshot has a clock of its own: it may be fresh while
/// the lists it was compiled from are not.
pub fn plan_startup(snapshot: CacheState, now: u64, max_age_secs: u64) -> (step: StartupStep)
    ensures
        step == (if has_fresh_copy(snapshot, now, max_age_secs) {
            StartupStep::LoadSnapshot
        } else {
            StartupStep::Rebuild
        }),
{
    if cache_is_fresh(snapshot, now, max_age_secs) {
        StartupStep::LoadSnapshot
    } else {
        StartupStep::Rebuild
    }
}

/// What loading the snapshot on disk comes to.
pub open spec fn engine_cache_fault(
    bytes: Seq<u8>,
    snapshot: CacheState,
    now: u64,
    max_age_secs: u64,
) -> Option<EngineCacheError> {
    if !has_fresh_copy(snapshot, now, max_age_secs) {
        Some(EngineCacheError::Invalid)
    } else if !snapshot_accepts(bytes) {
        Some(EngineCacheError::Snapshot(refusal_reason(bytes)))
    } else {
        None
    }
}

/// Restores the rules from the snapshot on disk: `bytes` is what the file
/// holds, `snapshot` what the disk says of it. A snapshot that is missing,
/// stale or refused is an error that the host answers with a rebuild.
///
/// The file must be the engine's own: what [`save_engine_to_cache`] gave to
/// write, and nothing that something else put in its place. The host
/// answers for that; see [`CompiledRuleSet::load`].
pub fn load_engine_from_cache(bytes: &[u8], snapshot: CacheState, now: u64, max_age_secs: u64) -> (loaded:
    Result<CompiledRuleSet, EngineCacheError>)
    requires
        is_own_snapshot(bytes@),
    ensures
        match engine_cache_fault(bytes@, snapshot, now, max_age_secs) {
            Some(fault) => loaded == Err::<CompiledRuleSet, EngineCacheError>(fault),
            None => loaded matches Ok(rules) && rules@ == snapshot_payload(bytes@) && bytes@
                == snapshot_of(rules@),
        },
{
    if !cache_is_fresh(snapshot, now, max_age_secs) {
        return Err(EngineCacheError::Invalid);
    }
    match CompiledRuleSet::load(bytes) {
        Ok(rules) => Ok(rules),
        Err(reason) => Err(EngineCacheError::Snapshot(reason)),
    }
}

/// The bytes to write as the snapshot of `engine` at `now`, tried first as
/// the next start-up will try them: they are handed out only where loading
/// them at once gives a rule set. Where a snapshot would be stale as soon as
/// it is written, or the engine does not take its own snapshot back, there
/// is nothing to write, and the error says why.
pub fn save_engine_to_cache(engine: &CompiledRuleSet, now: u64, max_age_secs: u64) -> (saved: Result<
    Vec<u8>,
    EngineCacheError,
>)
    ensures
        match engine_cache_fault(
            snapshot_of(engine@),
            CacheState::Present { modified: now },
            now,
            max_age_secs,
        ) {
            Some(fault) => saved == Err::<Vec<u8>, EngineCacheError>(fault),
            None => {
                &&& saved matches Ok(bytes)
                &&& bytes@ == snapshot_of(engine@)
                &&& bytes@.len() == SNAPSHOT_HEADER_LEN + engine@.len()
                &&& snapshot_payload(bytes@) == engine@
                &&& snapshot_accepts(bytes@)
                &&& is_own_snapshot(bytes@)
            },
        },
{
    let bytes = engine.snapshot();
    match load_engine_from_cache(
        bytes.as_slice(),
        CacheState::Present { modified: now },
        now,
        max_age_secs,
    ) {
        Ok(_) => Ok(bytes),
        Err(fault) => Err(fault),
    }
}

/// Compiles what an acquisition brought: one result per configured list,
/// `None` for a list that was given up. Every list that was acquired goes
/// into the rules, whatever became of the others; with no list at all the
/// rules are empty.
pub fn build_engine(results: Vec<Option<FilterListCacheEntry>>) -> (built: (
    CompiledRuleSet,
    CompileStats,
))
    ensures
        compiles_to(accepted_lines(rule_lines(present_texts(results@))), built.0@),
        built.1.accepted == accepted_lines(rule_lines(present_texts(results@))).len(),
        built.1.accepted + built.1.dropped == rule_lines(present_texts(results@)).len(),
{
    let texts = acquired_texts(results);
    compile(&texts)
}

} // verus!
