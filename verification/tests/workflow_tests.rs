use steal_stickers_bot::workflow::CloneWorkflow;
use steal_stickers_bot::workflow::CreateOutcome;
use steal_stickers_bot::workflow::FetchOutcome;
use steal_stickers_bot::workflow::SourceCollection;
use steal_stickers_bot::workflow::WorkflowAction;
use steal_stickers_bot::workflow::WorkflowState;
use steal_stickers_bot::POPULATION_PAUSE_MS;

fn items(n: usize) -> Vec<String> {
    (0..n).map(|i| format!("item{i}")).collect()
}

fn workflow_at_title(caller: i64, owner: i64, n_items: usize) -> CloneWorkflow {
    let mut w = CloneWorkflow::new(caller);
    let a = w.begin_clone();
    assert!(matches!(a, WorkflowAction::PromptSource));
    let a = w.submit_source_item(
        Some("source_pack".to_string()),
        FetchOutcome::Found(SourceCollection { owner_id: owner, items: items(n_items) }),
    );
    assert!(matches!(a, WorkflowAction::PromptTitle));
    w
}

#[test]
fn source_without_pack_keeps_asking() {
    let mut w = CloneWorkflow::new(1);
    w.begin_clone();
    let a = w.submit_source_item(None, FetchOutcome::NotFound);
    assert!(matches!(a, WorkflowAction::PromptSourceAgain));
    assert!(matches!(w.state, WorkflowState::AwaitSourceItem));
}

#[test]
fn unknown_source_keeps_asking() {
    let mut w = CloneWorkflow::new(1);
    w.begin_clone();
    let a = w.submit_source_item(Some("gone".to_string()), FetchOutcome::NotFound);
    assert!(matches!(a, WorkflowAction::PromptSourceAgain));
    assert!(matches!(w.state, WorkflowState::AwaitSourceItem));
}

#[test]
fn transient_fetch_surfaces_retry_guidance() {
    let mut w = CloneWorkflow::new(1);
    w.begin_clone();
    let a = w.submit_source_item(Some("pack".to_string()), FetchOutcome::Transient);
    assert!(matches!(a, WorkflowAction::PromptRetryLater));
    assert!(matches!(w.state, WorkflowState::AwaitSourceItem));
}

#[test]
fn title_length_bounds_guard_populating() {
    // too short: zero characters
    let mut w = workflow_at_title(1, 1, 3);
    let a = w.submit_title("".to_string(), "sfx".to_string(), "bot".to_string());
    assert!(matches!(a, WorkflowAction::PromptTitleAgain { too_long: false }));
    assert!(matches!(w.state, WorkflowState::AwaitNewTitle { .. }));

    // too long: 65 characters
    let a = w.submit_title("t".repeat(65), "sfx".to_string(), "bot".to_string());
    assert!(matches!(a, WorkflowAction::PromptTitleAgain { too_long: true }));
    assert!(matches!(w.state, WorkflowState::AwaitNewTitle { .. }));

    // boundaries are accepted: 1 character ...
    let a = w.submit_title("t".to_string(), "sfx".to_string(), "bot".to_string());
    assert!(matches!(a, WorkflowAction::CreateCollection { .. }));
    assert!(matches!(w.state, WorkflowState::Populating { .. }));

    // ... and 64 characters
    let mut w = workflow_at_title(1, 1, 3);
    let a = w.submit_title("t".repeat(64), "sfx".to_string(), "bot".to_string());
    assert!(matches!(a, WorkflowAction::CreateCollection { .. }));
    assert!(matches!(w.state, WorkflowState::Populating { .. }));
}

#[test]
fn foreign_source_is_rejected_before_creation() {
    let mut w = workflow_at_title(1, 2, 3);
    let a = w.submit_title("Title".to_string(), "sfx".to_string(), "bot".to_string());
    assert!(matches!(a, WorkflowAction::RejectNotOwner));
    assert!(matches!(w.state, WorkflowState::Idle));
}

#[test]
fn cancel_resets_to_idle() {
    let mut w = workflow_at_title(1, 1, 3);
    w.cancel();
    assert!(matches!(w.state, WorkflowState::Idle));
}

#[test]
fn chunked_population_of_150_items() {
    let mut w = workflow_at_title(1, 1, 150);
    let a = w.submit_title("Title".to_string(), "abc123".to_string(), "bot".to_string());
    match a {
        WorkflowAction::CreateCollection { candidate, title, seed } => {
            assert_eq!(candidate.as_str(), "abc123_by_bot");
            assert_eq!(title.as_str(), "Title");
            assert_eq!(seed.len(), 100);
            assert_eq!(seed[0].as_str(), "item0");
            assert_eq!(seed[99].as_str(), "item99");
        }
        _ => panic!("creation must be requested"),
    }

    let a = w.on_create_result(CreateOutcome::Created, "unused".to_string(), "bot".to_string());
    match a {
        WorkflowAction::PersistRecord { owner_id, short_name, title } => {
            assert_eq!(owner_id, 1);
            assert_eq!(short_name.as_str(), "abc123_by_bot");
            assert_eq!(title.as_str(), "Title");
        }
        _ => panic!("the record must be persisted"),
    }

    // exactly 50 single-item additions, in source order, each paced
    let mut added = Vec::new();
    while let Some(a) = w.next_item_action() {
        match a {
            WorkflowAction::AddItem { item, pause_ms } => {
                assert_eq!(pause_ms, POPULATION_PAUSE_MS);
                added.push(item);
                w.on_add_result(true);
            }
            _ => panic!("only additions are left"),
        }
    }
    assert_eq!(added.len(), 50);
    assert_eq!(added[0].as_str(), "item100");
    assert_eq!(added[49].as_str(), "item149");

    let a = w.finalize();
    assert!(matches!(a, WorkflowAction::ReportResult { all_added: true }));
    w.reset();
    assert!(matches!(w.state, WorkflowState::Idle));
}

#[test]
fn collision_retries_with_a_fresh_candidate_and_adds_nothing_twice() {
    let mut w = workflow_at_title(1, 1, 150);
    let a = w.submit_title("Title".to_string(), "abc123".to_string(), "bot".to_string());
    let first_candidate = match a {
        WorkflowAction::CreateCollection { candidate, .. } => candidate,
        _ => panic!("creation must be requested"),
    };
    assert_eq!(first_candidate.as_str(), "abc123_by_bot");

    // the candidate collides: retry under a fresh one, same seed, nothing added
    let a = w.on_create_result(CreateOutcome::IdCollision, "xyz789".to_string(), "bot".to_string());
    match a {
        WorkflowAction::CreateCollection { candidate, title, seed } => {
            assert_eq!(candidate.as_str(), "xyz789_by_bot");
            assert_eq!(title.as_str(), "Title");
            assert_eq!(seed.len(), 100);
        }
        _ => panic!("creation must be retried"),
    }
    match &w.state {
        WorkflowState::Populating { created, next_item, .. } => {
            assert!(!created, "nothing has been created yet");
            assert_eq!(*next_item, 100, "no deferred item was attempted");
        }
        _ => panic!("the run must still be populating"),
    }

    // the second attempt succeeds; the remainder is added exactly once
    let a = w.on_create_result(CreateOutcome::Created, "unused".to_string(), "bot".to_string());
    match a {
        WorkflowAction::PersistRecord { short_name, .. } => {
            assert_eq!(short_name.as_str(), "xyz789_by_bot");
        }
        _ => panic!("the record must be persisted"),
    }
    let mut added = 0;
    while let Some(a) = w.next_item_action() {
        assert!(matches!(a, WorkflowAction::AddItem { .. }));
        w.on_add_result(true);
        added += 1;
    }
    assert_eq!(added, 50);
}

#[test]
fn creation_failure_ends_the_run() {
    let mut w = workflow_at_title(1, 1, 10);
    w.submit_title("Title".to_string(), "sfx".to_string(), "bot".to_string());
    let a = w.on_create_result(CreateOutcome::Failed, "unused".to_string(), "bot".to_string());
    assert!(matches!(a, WorkflowAction::ReportFailure));
    assert!(matches!(w.state, WorkflowState::Idle));
}

#[test]
fn small_source_needs_no_deferred_additions() {
    let mut w = workflow_at_title(1, 1, 10);
    let a = w.submit_title("Title".to_string(), "sfx".to_string(), "bot".to_string());
    match a {
        WorkflowAction::CreateCollection { seed, .. } => assert_eq!(seed.len(), 10),
        _ => panic!("creation must be requested"),
    }
    w.on_create_result(CreateOutcome::Created, "unused".to_string(), "bot".to_string());
    assert!(w.next_item_action().is_none());
    let a = w.finalize();
    assert!(matches!(a, WorkflowAction::ReportResult { all_added: true }));
}

#[test]
fn failed_additions_are_recorded_but_do_not_abort() {
    let mut w = workflow_at_title(1, 1, 103);
    w.submit_title("Title".to_string(), "sfx".to_string(), "bot".to_string());
    w.on_create_result(CreateOutcome::Created, "unused".to_string(), "bot".to_string());

    let outcomes = [true, false, true];
    let mut step = 0;
    while let Some(a) = w.next_item_action() {
        assert!(matches!(a, WorkflowAction::AddItem { .. }));
        w.on_add_result(outcomes[step]);
        step += 1;
    }
    assert_eq!(step, 3, "every deferred item is attempted despite the failure");
    let a = w.finalize();
    assert!(matches!(a, WorkflowAction::ReportResult { all_added: false }));
}
