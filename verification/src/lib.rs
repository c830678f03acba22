//! A request-filtering engine for a renderer embedded in a desktop shell.
//!
//! Given the URL of a request, the page that makes it and the kind of
//! resource asked for, the engine decides whether the request is to be
//! blocked; given the URL of a page, it says which elements to hide on it.
//! The rules come from public filter lists, compiled by the `adblock` crate.
//!
//! The parts, leaves first:
//!
//! - [`text`], [`freshness`], [`assoc`]: helpers for strings, ages and
//!   association lists.
//! - [`backend`]: the `adblock` engine behind trusted contracts.
//! - [`ruleset`]: the compiled, immutable rule set and its snapshot.
//! - [`compiler`]: from the texts of filter lists to a rule set.
//! - [`list_cache`]: the decisions around acquiring a filter list.
//! - [`matching`]: the pipeline in front of the rules.
//! - [`result_cache`]: the bounded cache of recent verdicts.
//! - [`cosmetic`]: what to hide on a page.
//! - [`state`], [`startup`], [`commands`]: the state that the host shares,
//!   how it is brought up and updated, and the queries on it.
//! - [`scripts`]: the page scripts that the host injects.
//! - [`laws`]: what holds of all of this, proved.
//!
//! The library reads no clock, no disk and no network: the host does, and
//! hands what it found to the library as plain values. One thing is written
//! on the library's account: the engine prints a line to standard output
//! when it refuses a snapshot for its checksum.
//!
//! A snapshot is trusted as far as its checks go. The engine checks the
//! frame of a snapshot and the layout of its tables, no more, so loading
//! asks that the bytes be the engine's own; see [`ruleset`].

pub mod assoc;
pub mod backend;
pub mod commands;
pub mod compiler;
pub mod cosmetic;
pub mod freshness;
pub mod laws;
pub mod list_cache;
pub mod matching;
pub mod result_cache;
pub mod ruleset;
pub mod scripts;
pub mod startup;
pub mod state;
pub mod text;
