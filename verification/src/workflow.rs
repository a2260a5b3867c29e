//! The clone workflow: a step-indexed state machine that copies an
//! externally owned collection.
//!
//! The machine decides; the driver around it performs the external calls and
//! hands the outcomes back as plain values. One run walks
//! `Idle -> AwaitSourceItem -> AwaitNewTitle -> Populating -> Done` and
//! resets to `Idle`; invalid input keeps the state, a permanent rejection or
//! an unrecoverable creation failure resets it.
//!
//! Population is chunked: creation seeds the new collection with the first
//! [`CREATE_CHUNK_LIMIT`](crate::CREATE_CHUNK_LIMIT) items, the remainder is
//! added one item at a time, paced at one call per
//! [`POPULATION_PAUSE_MS`](crate::POPULATION_PAUSE_MS). A colliding
//! candidate identifier is regenerated and creation retried with the same
//! seed; items are only ever added after creation succeeded, so a retry
//! duplicates nothing.

use vstd::prelude::*;

use crate::naming::by_suffix;
use crate::naming::make_candidate_name;
use crate::CREATE_CHUNK_LIMIT;
use crate::MAX_TITLE_LENGTH;
use crate::MIN_TITLE_LENGTH;
use crate::POPULATION_PAUSE_MS;

use vstd::string::StrSliceExecFns;

verus! {

/// What the driver fetched about the source collection.
pub struct SourceCollection {
    /// The external identifier of the collection's owner.
    pub owner_id: i64,
    /// The item identifiers, in source order.
    pub items: Vec<String>,
}

/// The outcome of fetching the source collection.
pub enum FetchOutcome {
    Found(SourceCollection),
    /// The service does not know the collection.
    NotFound,
    /// A failure worth retrying; the state is kept.
    Transient,
}

/// The outcome of asking the service to create the new collection.
pub enum CreateOutcome {
    Created,
    /// The candidate identifier is already taken: regenerate and retry.
    IdCollision,
    /// Any other failure: terminal for this run.
    Failed,
}

/// The step the machine is at.
pub enum WorkflowState {
    Idle,
    AwaitSourceItem,
    AwaitNewTitle { source_name: String, owner_id: i64, items: Vec<String> },
    Populating {
        title: String,
        candidate: String,
        items: Vec<String>,
        created: bool,
        next_item: usize,
        failures: usize,
    },
    Done { all_added: bool },
}

/// What the driver must do next.
pub enum WorkflowAction {
    /// Ask for a reference to the source collection.
    PromptSource,
    /// The reference did not resolve; ask again.
    PromptSourceAgain,
    /// The fetch failed transiently; surface retry guidance.
    PromptRetryLater,
    /// Ask for the new collection's title.
    PromptTitle,
    /// The title length is out of range; ask again.
    PromptTitleAgain { too_long: bool },
    /// The caller does not own the source collection; the run is over.
    RejectNotOwner,
    /// Ask the service to create the collection with the seed items.
    CreateCollection { candidate: String, title: String, seed: Vec<String> },
    /// Record the created collection through the unit of work.
    PersistRecord { owner_id: i64, short_name: String, title: String },
    /// Add one deferred item to the new collection, then pause.
    AddItem { item: String, pause_ms: u64 },
    /// Creation failed for good; surface it, the run is over.
    ReportFailure,
    /// The run is over; surface whether every item made it.
    ReportResult { all_added: bool },
}

/// How many items the creation call seeds the collection with.
pub open spec fn seed_len(total: int) -> int {
    if total <= CREATE_CHUNK_LIMIT as int {
        total
    } else {
        CREATE_CHUNK_LIMIT as int
    }
}

/// A title the external service accepts.
pub open spec fn title_ok(title: Seq<char>) -> bool {
    MIN_TITLE_LENGTH as int <= title.len() <= MAX_TITLE_LENGTH as int
}

/// One conversation's clone workflow.
pub struct CloneWorkflow {
    /// The user driving this run; the new collection is owned by them.
    pub caller_id: i64,
    pub state: WorkflowState,
}

/// The machine's invariant: a populating run carries an accepted title, its
/// progress counter starts at the seeded chunk and never passes the item
/// count, and failures never outnumber attempts.
pub open spec fn wf_workflow(w: CloneWorkflow) -> bool {
    match w.state {
        WorkflowState::Populating { title, candidate, items, created, next_item, failures } => {
            &&& title_ok(title@)
            &&& next_item as int <= items@.len()
            &&& failures <= next_item
            &&& (!created ==> next_item as int == seed_len(items@.len() as int))
            &&& (created ==> next_item as int >= seed_len(items@.len() as int))
        },
        _ => true,
    }
}

/// The first `n` items, copied out.
fn clone_prefix(v: &Vec<String>, n: usize) -> (r: Vec<String>)
    requires
        n <= v@.len(),
    ensures
        r@ == v@.take(n as int),
{
    let mut out: Vec<String> = Vec::new();
    let mut i: usize = 0;
    while i < n
        invariant
            i <= n,
            n <= v@.len(),
            out@ == v@.take(i as int),
        decreases n - i,
    {
        out.push(v[i].clone());
        proof {
            assert(out@ =~= v@.take(i + 1 as int));
        }
        i += 1;
    }
    out
}

impl CloneWorkflow {
    /// A fresh machine for one conversation.
    pub fn new(caller_id: i64) -> (r: CloneWorkflow)
        ensures
            wf_workflow(r),
            r.caller_id == caller_id,
            r.state is Idle,
    {
        CloneWorkflow { caller_id, state: WorkflowState::Idle }
    }

    /// Starts a run: whatever was in progress is abandoned.
    pub fn begin_clone(&mut self) -> (a: WorkflowAction)
        ensures
            wf_workflow(*final(self)),
            final(self).caller_id == old(self).caller_id,
            final(self).state is AwaitSourceItem,
            a is PromptSource,
    {
        self.state = WorkflowState::AwaitSourceItem;
        WorkflowAction::PromptSource
    }

    /// Abandons the run; anything already created externally remains.
    pub fn cancel(&mut self)
        ensures
            wf_workflow(*final(self)),
            final(self).caller_id == old(self).caller_id,
            final(self).state is Idle,
    {
        self.state = WorkflowState::Idle;
    }

    /// Receives the reference to the source collection together with the
    /// driver's fetch of it.
    ///
    /// An unresolvable reference or an unknown collection keeps the state
    /// and asks again; a transient fetch failure keeps the state with retry
    /// guidance; a fetched collection moves the run on to the title.
    pub fn submit_source_item(&mut self, source_name: Option<String>, fetch: FetchOutcome) -> (a:
        WorkflowAction)
        requires
            old(self).state is AwaitSourceItem,
        ensures
            wf_workflow(*final(self)),
            final(self).caller_id == old(self).caller_id,
            match (source_name, fetch) {
                (Option::Some(name), FetchOutcome::Found(src)) => {
                    &&& a is PromptTitle
                    &&& final(self).state matches WorkflowState::AwaitNewTitle {
                        source_name: n,
                        owner_id,
                        items,
                    } && n@ == name@ && owner_id == src.owner_id && items@ == src.items@
                },
                (Option::Some(name), FetchOutcome::Transient) => a is PromptRetryLater && final(self).state is AwaitSourceItem,
                _ => a is PromptSourceAgain && final(self).state is AwaitSourceItem,
            },
    {
        let name = match source_name {
            Option::Some(name) => name,
            Option::None => {
                return WorkflowAction::PromptSourceAgain;
            },
        };
        match fetch {
            FetchOutcome::Found(src) => {
                self.state = WorkflowState::AwaitNewTitle {
                    source_name: name,
                    owner_id: src.owner_id,
                    items: src.items,
                };
                WorkflowAction::PromptTitle
            },
            FetchOutcome::NotFound => WorkflowAction::PromptSourceAgain,
            FetchOutcome::Transient => WorkflowAction::PromptRetryLater,
        }
    }

    /// Receives the title for the new collection.
    ///
    /// A title out of `[MIN_TITLE_LENGTH, MAX_TITLE_LENGTH]` keeps the state
    /// and asks again: the run never reaches `Populating` with such a title.
    /// A caller who does not own the source collection is rejected for good.
    /// Otherwise the run enters `Populating` and asks the service to create
    /// the collection under a candidate name built from the generated
    /// `candidate_suffix`, seeded with the first
    /// [`CREATE_CHUNK_LIMIT`](crate::CREATE_CHUNK_LIMIT) items.
    pub fn submit_title(&mut self, title: String, candidate_suffix: String, bot_username: String) -> (a:
        WorkflowAction)
        requires
            old(self).state is AwaitNewTitle,
            wf_workflow(*old(self)),
        ensures
            wf_workflow(*final(self)),
            final(self).caller_id == old(self).caller_id,
            !title_ok(title@) ==> final(self).state == old(self).state && (a matches
                WorkflowAction::PromptTitleAgain { too_long } && too_long == (title@.len()
                > MAX_TITLE_LENGTH as int)),
            title_ok(title@) && (old(self).state matches WorkflowState::AwaitNewTitle { owner_id, .. }
                && owner_id != old(self).caller_id) ==> final(self).state is Idle && a
                is RejectNotOwner,
            title_ok(title@) && (old(self).state matches WorkflowState::AwaitNewTitle { owner_id, .. }
                && owner_id == old(self).caller_id) ==> {
                &&& (old(self).state matches WorkflowState::AwaitNewTitle { items: src_items, .. }
                    ==> {
                    &&& (final(self).state matches WorkflowState::Populating {
                        title: t,
                        candidate,
                        items,
                        created,
                        next_item,
                        failures,
                    } && t@ == title@ && candidate@ == candidate_suffix@ + by_suffix(bot_username@)
                        && items@ == src_items@ && !created && next_item as int == seed_len(
                        src_items@.len() as int,
                    ) && failures == 0)
                    &&& (a matches WorkflowAction::CreateCollection { candidate, title: t, seed }
                        && candidate@ == candidate_suffix@ + by_suffix(bot_username@) && t@
                        == title@ && seed@ == src_items@.take(seed_len(src_items@.len() as int)))
                })
            },
    {
        let len = title.as_str().unicode_len();
        if len < MIN_TITLE_LENGTH || len > MAX_TITLE_LENGTH {
            return WorkflowAction::PromptTitleAgain { too_long: len > MAX_TITLE_LENGTH };
        }
        let mut state = WorkflowState::Idle;
        core::mem::swap(&mut state, &mut self.state);
        match state {
            WorkflowState::AwaitNewTitle { source_name: _, owner_id, items } => {
                if owner_id != self.caller_id {
                    return WorkflowAction::RejectNotOwner;
                }
                let chunk = if items.len() <= CREATE_CHUNK_LIMIT {
                    items.len()
                } else {
                    CREATE_CHUNK_LIMIT
                };
                let candidate = make_candidate_name(candidate_suffix.as_str(), bot_username.as_str());
                let seed = clone_prefix(&items, chunk);
                let action = WorkflowAction::CreateCollection {
                    candidate: candidate.clone(),
                    title: title.clone(),
                    seed,
                };
                self.state = WorkflowState::Populating {
                    title,
                    candidate,
                    items,
                    created: false,
                    next_item: chunk,
                    failures: 0,
                };
                action
            },
            _ => {
                // unreachable under the precondition
                WorkflowAction::ReportFailure
            },
        }
    }

    /// Receives the outcome of the creation call.
    ///
    /// A collision regenerates the candidate from the fresh suffix and
    /// retries creation with the same seed — nothing has been added yet, so
    /// no item is duplicated. Any other failure ends the run. Success asks
    /// the driver to record the new collection, owned by the caller.
    pub fn on_create_result(
        &mut self,
        outcome: CreateOutcome,
        fresh_suffix: String,
        bot_username: String,
    ) -> (a: WorkflowAction)
        requires
            old(self).state matches WorkflowState::Populating { created, .. } && !created,
            wf_workflow(*old(self)),
        ensures
            wf_workflow(*final(self)),
            final(self).caller_id == old(self).caller_id,
            outcome is Failed ==> final(self).state is Idle && a is ReportFailure,
            outcome is IdCollision ==> (old(self).state matches WorkflowState::Populating {
                title,
                items,
                next_item,
                failures,
                ..
            } ==> {
                &&& (final(self).state matches WorkflowState::Populating {
                    title: t2,
                    candidate: c2,
                    items: i2,
                    created: cr2,
                    next_item: n2,
                    failures: f2,
                } && t2@ == title@ && c2@ == fresh_suffix@ + by_suffix(bot_username@) && i2@
                    == items@ && !cr2 && n2 == next_item && f2 == failures)
                &&& (a matches WorkflowAction::CreateCollection { candidate, title: t, seed }
                    && candidate@ == fresh_suffix@ + by_suffix(bot_username@) && t@ == title@
                    && seed@ == items@.take(seed_len(items@.len() as int)))
            }),
            outcome is Created ==> (old(self).state matches WorkflowState::Populating {
                title,
                candidate,
                items,
                next_item,
                failures,
                ..
            } ==> {
                &&& (final(self).state matches WorkflowState::Populating {
                    title: t2,
                    candidate: c2,
                    items: i2,
                    created: cr2,
                    next_item: n2,
                    failures: f2,
                } && t2@ == title@ && c2@ == candidate@ && i2@ == items@ && cr2 && n2 == next_item
                    && f2 == failures)
                &&& (a matches WorkflowAction::PersistRecord { owner_id, short_name, title: t }
                    && owner_id == old(self).caller_id && short_name@ == candidate@ && t@
                    == title@)
            }),
    {
        let mut state = WorkflowState::Idle;
        core::mem::swap(&mut state, &mut self.state);
        match state {
            WorkflowState::Populating { title, candidate, items, created: _, next_item, failures } => {
                match outcome {
                    CreateOutcome::Failed => WorkflowAction::ReportFailure,
                    CreateOutcome::IdCollision => {
                        let fresh = make_candidate_name(
                            fresh_suffix.as_str(),
                            bot_username.as_str(),
                        );
                        let chunk = if items.len() <= CREATE_CHUNK_LIMIT {
                            items.len()
                        } else {
                            CREATE_CHUNK_LIMIT
                        };
                        let seed = clone_prefix(&items, chunk);
                        let action = WorkflowAction::CreateCollection {
                            candidate: fresh.clone(),
                            title: title.clone(),
                            seed,
                        };
                        self.state = WorkflowState::Populating {
                            title,
                            candidate: fresh,
                            items,
                            created: false,
                            next_item,
                            failures,
                        };
                        action
                    },
                    CreateOutcome::Created => {
                        let action = WorkflowAction::PersistRecord {
                            owner_id: self.caller_id,
                            short_name: candidate.clone(),
                            title: title.clone(),
                        };
                        self.state = WorkflowState::Populating {
                            title,
                            candidate,
                            items,
                            created: true,
                            next_item,
                            failures,
                        };
                        action
                    },
                }
            },
            _ => {
                // unreachable under the precondition
                WorkflowAction::ReportFailure
            },
        }
    }

    /// The next deferred item to add, paced at the rate limit; `None` once
    /// every item has been attempted.
    pub fn next_item_action(&self) -> (a: Option<WorkflowAction>)
        requires
            self.state matches WorkflowState::Populating { created, .. } && created,
            wf_workflow(*self),
        ensures
            self.state matches WorkflowState::Populating { items, next_item, .. } ==> {
                &&& (next_item as int) < items@.len() ==> (a matches Some(
                    WorkflowAction::AddItem { item, pause_ms },
                ) && item@ == items@[next_item as int]@ && pause_ms == POPULATION_PAUSE_MS)
                &&& next_item as int == items@.len() ==> a is None
            },
    {
        match &self.state {
            WorkflowState::Populating { items, next_item, .. } => {
                if *next_item < items.len() {
                    Some(
                        WorkflowAction::AddItem {
                            item: items[*next_item].clone(),
                            pause_ms: POPULATION_PAUSE_MS,
                        },
                    )
                } else {
                    None
                }
            },
            _ => None,
        }
    }

    /// Receives the outcome of one single-item addition. A failed item is
    /// recorded and the run continues with the next one.
    pub fn on_add_result(&mut self, ok: bool)
        requires
            old(self).state matches WorkflowState::Populating { created, items, next_item, .. }
                && created && (next_item as int) < items@.len(),
            wf_workflow(*old(self)),
        ensures
            wf_workflow(*final(self)),
            final(self).caller_id == old(self).caller_id,
            old(self).state matches WorkflowState::Populating {
                title,
                candidate,
                items,
                next_item,
                failures,
                ..
            } ==> (final(self).state matches WorkflowState::Populating {
                title: t2,
                candidate: c2,
                items: i2,
                created: cr2,
                next_item: n2,
                failures: f2,
            } && t2@ == title@ && c2@ == candidate@ && i2@ == items@ && cr2 && n2 == next_item + 1
                && f2 == failures + if ok {
                0int
            } else {
                1int
            }),
    {
        let mut state = WorkflowState::Idle;
        core::mem::swap(&mut state, &mut self.state);
        match state {
            WorkflowState::Populating { title, candidate, items, created, next_item, failures } => {
                let total = items.len();
                proof {
                    assert(next_item < total);
                }
                self.state = WorkflowState::Populating {
                    title,
                    candidate,
                    items,
                    created,
                    next_item: next_item + 1,
                    failures: if ok {
                        failures
                    } else {
                        failures + 1
                    },
                };
            },
            _ => {},
        }
    }

    /// Ends a fully attempted run: reports whether every item made it and
    /// moves to `Done`.
    pub fn finalize(&mut self) -> (a: WorkflowAction)
        requires
            old(self).state matches WorkflowState::Populating { created, items, next_item, .. }
                && created && next_item as int == items@.len(),
            wf_workflow(*old(self)),
        ensures
            wf_workflow(*final(self)),
            final(self).caller_id == old(self).caller_id,
            old(self).state matches WorkflowState::Populating { failures, .. } ==> {
                &&& (final(self).state matches WorkflowState::Done { all_added } && all_added == (
                failures == 0))
                &&& (a matches WorkflowAction::ReportResult { all_added } && all_added == (failures
                    == 0))
            },
    {
        let mut state = WorkflowState::Idle;
        core::mem::swap(&mut state, &mut self.state);
        match state {
            WorkflowState::Populating { failures, .. } => {
                let all_added = failures == 0;
                self.state = WorkflowState::Done { all_added };
                WorkflowAction::ReportResult { all_added }
            },
            _ => WorkflowAction::ReportFailure,
        }
    }

    /// Returns the machine to `Idle` after the result is emitted.
    pub fn reset(&mut self)
        ensures
            wf_workflow(*final(self)),
            final(self).caller_id == old(self).caller_id,
            final(self).state is Idle,
    {
        self.state = WorkflowState::Idle;
    }
}

} // verus!
