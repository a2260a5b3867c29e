//! Replication-and-reconciliation engine for cloned sticker collections.
//!
//! The library tracks, in local storage, copies of externally owned sticker
//! collections: a transactional repository layer with at most one committed
//! record per unique short name, a step-indexed clone workflow that copies a
//! source collection under an external rate limit, and a reconciliation pass
//! that soft-deletes records whose collection the external service no longer
//! knows.

pub mod add_stickers;
pub mod cli;
pub mod config;
pub mod dto;
pub mod entities;
pub mod exceptions;
pub mod interactors;
pub mod laws;
pub mod model;
pub mod naming;
pub mod numbers;
pub mod pagination;
pub mod reconcile;
pub mod repository;
pub mod states;
pub mod stats;
pub mod tables;
pub mod texts;
pub mod uow;
pub mod workflow;

use vstd::prelude::*;

verus! {

/// Shortest title the external service accepts for a new collection.
pub const MIN_TITLE_LENGTH: usize = 1;

/// Longest title the external service accepts for a new collection.
pub const MAX_TITLE_LENGTH: usize = 64;

/// Largest number of items one creation call may seed a collection with;
/// items beyond this count are added one at a time afterwards.
pub const CREATE_CHUNK_LIMIT: usize = 100;

/// Largest number of items a collection may hold.
pub const MAX_STICKER_SET_LENGTH: usize = 120;

/// Pause between two single-item additions, in milliseconds.
pub const POPULATION_PAUSE_MS: u64 = 1500;

/// Pause inserted into a reconciliation pass after a group of probes,
/// in milliseconds.
pub const RECONCILE_PAUSE_MS: u64 = 1010;

/// Number of probes between two pauses of a reconciliation pass.
pub const PROBES_PER_PAUSE: usize = 5;

/// Seconds between two reconciliation passes.
pub const RECONCILE_INTERVAL_SECS: i64 = 43200;

/// Seconds between two checks of whether a pass is due.
pub const RECONCILE_POLL_SECS: i64 = 3600;

/// How often a transiently failed external call is attempted before the
/// failure is surfaced.
pub const RETRY_MAX_ATTEMPTS: u32 = 5;

/// The window, in seconds, within which those attempts may run.
pub const RETRY_WINDOW_SECS: i64 = 10;

} // verus!
