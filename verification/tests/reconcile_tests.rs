use steal_stickers_bot::dto::Create;
use steal_stickers_bot::dto::GetAll;
use steal_stickers_bot::interactors::create_set;
use steal_stickers_bot::reconcile::pause_after_probe;
use steal_stickers_bot::reconcile::probe_marks_deleted;
use steal_stickers_bot::reconcile::reconcile_due;
use steal_stickers_bot::reconcile::transient_retry_allowed;
use steal_stickers_bot::reconcile::ReconcileSchedule;
use steal_stickers_bot::reconcile::reconcile_pass;
use steal_stickers_bot::reconcile::ProbeOutcome;
use steal_stickers_bot::uow::MemoryUoW;
use steal_stickers_bot::uow::UoW;
use steal_stickers_bot::RECONCILE_INTERVAL_SECS;

fn store_with(names: &[(&str, bool)]) -> MemoryUoW {
    let mut uow = MemoryUoW::new();
    uow.connect().expect("connect");
    for (name, deleted) in names {
        uow.begin().expect("begin");
        create_set(&mut uow, Create::new(1, name.to_string(), "T".to_string())).expect("create");
        if *deleted {
            uow.begin().expect("begin");
            steal_stickers_bot::interactors::set_deleted_col(
                &mut uow,
                steal_stickers_bot::dto::SetDeletedColByShortName::new(name.to_string(), true),
            )
            .expect("mark");
        }
    }
    uow
}

#[test]
fn pass_marks_unreachable_and_leaves_reachable() {
    let mut uow = store_with(&[("x", false), ("y", false)]);

    uow.begin().expect("begin");
    let live = uow.get_all(GetAll::new(Some(false))).expect("live");
    uow.rollback().expect("rollback");
    assert_eq!(live.len(), 2);

    let verdicts = vec![ProbeOutcome::Unreachable, ProbeOutcome::Reachable];
    let marked = reconcile_pass(&mut uow, &live, &verdicts).expect("pass");
    assert_eq!(marked, 1);

    let rows = uow.committed_snapshot();
    let x = rows.iter().find(|s| s.short_name == "x").expect("x");
    let y = rows.iter().find(|s| s.short_name == "y").expect("y");
    assert!(x.deleted);
    assert!(!y.deleted);
}

#[test]
fn pass_never_resurrects_and_skips_errors() {
    let mut uow = store_with(&[("gone", true), ("alive", false), ("flaky", false)]);

    uow.begin().expect("begin");
    let live = uow.get_all(GetAll::new(Some(false))).expect("live");
    uow.rollback().expect("rollback");
    // the already-deleted record is not even probed
    assert_eq!(live.len(), 2);

    // a transient probe failure leaves the record untouched this pass
    let verdicts = vec![ProbeOutcome::Reachable, ProbeOutcome::TransientError];
    let marked = reconcile_pass(&mut uow, &live, &verdicts).expect("pass");
    assert_eq!(marked, 0);

    let rows = uow.committed_snapshot();
    let gone = rows.iter().find(|s| s.short_name == "gone").expect("gone");
    let alive = rows.iter().find(|s| s.short_name == "alive").expect("alive");
    let flaky = rows.iter().find(|s| s.short_name == "flaky").expect("flaky");
    assert!(gone.deleted, "a record once deleted stays deleted");
    assert!(!alive.deleted);
    assert!(!flaky.deleted);
}

#[test]
fn probe_verdicts_map_to_marking() {
    assert!(probe_marks_deleted(&ProbeOutcome::Unreachable));
    assert!(!probe_marks_deleted(&ProbeOutcome::Reachable));
    assert!(!probe_marks_deleted(&ProbeOutcome::TransientError));
}

#[test]
fn pass_is_due_after_the_interval() {
    assert!(!reconcile_due(100, 100));
    assert!(!reconcile_due(RECONCILE_INTERVAL_SECS - 1, 0));
    assert!(reconcile_due(RECONCILE_INTERVAL_SECS, 0));
    assert!(reconcile_due(RECONCILE_INTERVAL_SECS + 5, 0));
}

#[test]
fn every_fifth_probe_pauses() {
    assert!(pause_after_probe(0));
    assert!(!pause_after_probe(1));
    assert!(!pause_after_probe(4));
    assert!(pause_after_probe(5));
    assert!(pause_after_probe(10));
}

#[test]
fn transient_retries_are_bounded() {
    assert!(transient_retry_allowed(0, 0));
    assert!(transient_retry_allowed(4, 10));
    assert!(!transient_retry_allowed(5, 0));
    assert!(!transient_retry_allowed(0, 11));
}

#[test]
fn schedule_moves_only_after_a_completed_pass() {
    let mut schedule = ReconcileSchedule::new();
    assert!(schedule.due(RECONCILE_INTERVAL_SECS), "a fresh schedule is already due");
    schedule.pass_completed(RECONCILE_INTERVAL_SECS);
    assert!(!schedule.due(RECONCILE_INTERVAL_SECS + 10));
    assert!(schedule.due(2 * RECONCILE_INTERVAL_SECS));
}
