//! The reconciliation pass: every record not yet known deleted is probed
//! against the external service, and records the service no longer knows are
//! soft-deleted.
//!
//! The loop around the pass is outside this library (it sleeps and calls the
//! external service); the decisions are here: when a pass is due, which
//! probe outcome marks a record, how probes are paced, and what one pass
//! does to the committed state.

use vstd::prelude::*;

use crate::dto::SetDeletedColByShortName;
use crate::entities::SetModel;
use crate::entities::StickerSet;
use crate::exceptions::TransactionKind;
use crate::model::has_short_name;
use crate::model::mark_deleted_rows;
use crate::model::rows_view;
use crate::uow::MemoryUoW;
use crate::uow::UoW;
use crate::PROBES_PER_PAUSE;
use crate::RECONCILE_INTERVAL_SECS;

verus! {

/// What probing one collection against the external service yielded.
pub enum ProbeOutcome {
    /// The service still knows the collection.
    Reachable,
    /// The service reports the collection invalid: the record is stale.
    Unreachable,
    /// Any other failure; the record is left alone until the next pass.
    TransientError,
}

/// Only a definite "invalid" marks a record; errors leave it untouched.
pub open spec fn marks_deleted(p: ProbeOutcome) -> bool {
    p is Unreachable
}

/// Exec twin of [`marks_deleted`].
pub fn probe_marks_deleted(p: &ProbeOutcome) -> (r: bool)
    ensures
        r == marks_deleted(*p),
{
    match p {
        ProbeOutcome::Unreachable => true,
        _ => false,
    }
}

/// Whether another attempt at a transiently failed external call is
/// allowed: a bounded number of attempts within a bounded window, then the
/// failure is surfaced to the user.
pub fn transient_retry_allowed(attempts_made: u32, elapsed_secs: i64) -> (r: bool)
    requires
        elapsed_secs >= 0,
    ensures
        r == (attempts_made < crate::RETRY_MAX_ATTEMPTS && elapsed_secs
            <= crate::RETRY_WINDOW_SECS),
{
    attempts_made < crate::RETRY_MAX_ATTEMPTS && elapsed_secs <= crate::RETRY_WINDOW_SECS
}

/// A pass is due once the configured interval has elapsed.
pub fn reconcile_due(now_secs: i64, last_run_secs: i64) -> (r: bool)
    requires
        0 <= last_run_secs <= now_secs,
    ensures
        r == (now_secs - last_run_secs >= RECONCILE_INTERVAL_SECS),
{
    now_secs - last_run_secs >= RECONCILE_INTERVAL_SECS
}

/// Whether a pause is owed after the probe with this index, to stay under
/// the external throughput ceiling.
pub fn pause_after_probe(i: usize) -> (r: bool)
    ensures
        r == (i as int % PROBES_PER_PAUSE as int == 0),
{
    i % PROBES_PER_PAUSE == 0
}

/// The short names of the probed records whose outcome marks them, in probe
/// order.
pub open spec fn marked_names(probed: Seq<SetModel>, verdicts: Seq<ProbeOutcome>) -> Seq<Seq<char>>
    decreases probed.len(),
{
    if probed.len() == 0 || verdicts.len() == 0 {
        Seq::empty()
    } else {
        let rest = marked_names(probed.drop_last(), verdicts.drop_last());
        if marks_deleted(verdicts.last()) {
            rest.push(probed.last().short_name)
        } else {
            rest
        }
    }
}

/// The committed table after the named records are soft-deleted one at a
/// time, in order.
pub open spec fn mark_many(rows: Seq<SetModel>, names: Seq<Seq<char>>) -> Seq<SetModel>
    decreases names.len(),
{
    if names.len() == 0 {
        rows
    } else {
        mark_deleted_rows(mark_many(rows, names.drop_last()), names.last(), true)
    }
}

/// Marking an absent name changes nothing.
pub proof fn lemma_mark_absent(rows: Seq<SetModel>, name: Seq<char>, value: bool)
    requires
        !has_short_name(rows, name),
    ensures
        mark_deleted_rows(rows, name, value) == rows,
{
    let out = mark_deleted_rows(rows, name, value);
    assert forall|i: int| 0 <= i < rows.len() implies out[i] == rows[i] by {
        assert(rows[i].short_name != name);
    }
    assert(out =~= rows);
}

/// When reconciliation runs: the driver polls this on its coarse cadence.
///
/// `last_run` moves only when a pass has fully completed, so a process that
/// dies mid-pass finds the interval already elapsed on restart and runs the
/// whole pass again — which is safe, because marking is idempotent.
pub struct ReconcileSchedule {
    /// When the last completed pass finished, in seconds.
    pub last_run_secs: i64,
}

impl ReconcileSchedule {
    /// A schedule that treats the interval as already elapsed.
    pub fn new() -> (r: ReconcileSchedule)
        ensures
            r.last_run_secs == 0,
    {
        ReconcileSchedule { last_run_secs: 0 }
    }

    /// Whether a pass should start now.
    pub fn due(&self, now_secs: i64) -> (r: bool)
        requires
            0 <= self.last_run_secs <= now_secs,
        ensures
            r == (now_secs - self.last_run_secs >= RECONCILE_INTERVAL_SECS),
    {
        reconcile_due(now_secs, self.last_run_secs)
    }

    /// Records a fully completed pass; an abandoned pass leaves the
    /// schedule untouched.
    pub fn pass_completed(&mut self, now_secs: i64)
        ensures
            final(self).last_run_secs == now_secs,
    {
        self.last_run_secs = now_secs;
    }
}

/// One reconciliation pass over an already-probed list.
///
/// `sets` is the list the pass fetched (every record not yet known deleted)
/// and `verdicts` the per-record probe outcomes, index for index. Each
/// record whose outcome is [`ProbeOutcome::Unreachable`] is soft-deleted in
/// a transaction of its own; the others are left untouched. Returns how
/// many records were marked.
pub fn reconcile_pass(uow: &mut MemoryUoW, sets: &Vec<StickerSet>, verdicts: &Vec<ProbeOutcome>) -> (r:
    Result<usize, TransactionKind>)
    requires
        old(uow).inv(),
        !old(uow).tx_open(),
        old(uow).connected(),
        old(uow).healthy(),
        sets@.len() == verdicts@.len(),
    ensures
        final(uow).inv(),
        !final(uow).tx_open(),
        final(uow).connected(),
        final(uow).healthy(),
        final(uow).committed_users() == old(uow).committed_users(),
        r is Ok,
        final(uow).committed_sets() == mark_many(
            old(uow).committed_sets(),
            marked_names(rows_view(sets@), verdicts@),
        ),
{
    let n = sets.len();
    let mut marked: usize = 0;
    let mut i: usize = 0;
    while i < n
        invariant
            i <= n,
            n == sets@.len(),
            n == verdicts@.len(),
            marked <= i,
            uow.inv(),
            !uow.tx_open(),
            uow.connected(),
            uow.healthy(),
            uow.committed_users() == old(uow).committed_users(),
            uow.committed_sets() == mark_many(
                old(uow).committed_sets(),
                marked_names(rows_view(sets@).take(i as int), verdicts@.take(i as int)),
            ),
        decreases n - i,
    {
        proof {
            assert(rows_view(sets@).take(i + 1 as int).drop_last() =~= rows_view(sets@).take(
                i as int,
            ));
            assert(verdicts@.take(i + 1 as int).drop_last() =~= verdicts@.take(i as int));
            assert(rows_view(sets@).take(i + 1 as int).last() == rows_view(sets@)[i as int]);
            assert(verdicts@.take(i + 1 as int).last() == verdicts@[i as int]);
        }
        if probe_marks_deleted(&verdicts[i]) {
            let name = sets[i].short_name.clone();
            if let Err(e) = uow.begin() {
                return Err(TransactionKind::begin_err(e));
            }
            let ghost names_before = marked_names(
                rows_view(sets@).take(i as int),
                verdicts@.take(i as int),
            );
            let result = crate::interactors::set_deleted_col(
                uow,
                SetDeletedColByShortName::new(name, true),
            );
            if let Err(e) = result {
                return Err(e);
            }
            proof {
                let tx = mark_many(old(uow).committed_sets(), names_before);
                if !has_short_name(tx, rows_view(sets@)[i as int].short_name) {
                    lemma_mark_absent(tx, rows_view(sets@)[i as int].short_name, true);
                }
                assert(names_before.push(rows_view(sets@)[i as int].short_name).drop_last()
                    =~= names_before);
            }
            marked += 1;
        }
        i += 1;
    }
    proof {
        assert(rows_view(sets@).take(n as int) =~= rows_view(sets@));
        assert(verdicts@.take(n as int) =~= verdicts@);
    }
    Ok(marked)
}

} // verus!
