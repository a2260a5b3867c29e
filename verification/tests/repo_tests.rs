use steal_stickers_bot::dto::CountByTgID;
use steal_stickers_bot::dto::Create;
use steal_stickers_bot::dto::CreateUser;
use steal_stickers_bot::dto::GetAll;
use steal_stickers_bot::dto::GetByShortName;
use steal_stickers_bot::dto::GetByTgID;
use steal_stickers_bot::dto::SetDeletedColByShortName;
use steal_stickers_bot::exceptions::RepoKind;
use steal_stickers_bot::exceptions::TransactionKind;
use steal_stickers_bot::interactors::create_set;
use steal_stickers_bot::interactors::create_user;
use steal_stickers_bot::interactors::personal_stats;
use steal_stickers_bot::interactors::set_deleted_col;
use steal_stickers_bot::repository::Connection;
use steal_stickers_bot::repository::SetRepo;
use steal_stickers_bot::repository::SetRepoImpl;
use steal_stickers_bot::repository::UserRepo;
use steal_stickers_bot::repository::UserRepoImpl;
use steal_stickers_bot::uow::MemoryUoW;
use steal_stickers_bot::uow::MemoryUoWFactory;
use steal_stickers_bot::uow::UoW;
use steal_stickers_bot::uow::UoWFactory;

fn ready_uow() -> MemoryUoW {
    let mut uow = MemoryUoW::new();
    uow.connect().expect("connect");
    uow
}

#[test]
fn create_set_then_get_by_short_name_returns_the_record() {
    let mut uow = ready_uow();
    uow.begin().expect("begin");
    create_set(&mut uow, Create::new(7, "pack_by_bot".to_string(), "My Pack".to_string()))
        .expect("create_set");

    uow.begin().expect("begin again");
    let set = uow
        .get_one_by_short_name(GetByShortName::new("pack_by_bot".to_string()))
        .expect("the record must be there");
    assert_eq!(set.tg_id, 7);
    assert_eq!(set.short_name.as_str(), "pack_by_bot");
    assert_eq!(set.title.as_str(), "My Pack");
    assert!(!set.deleted);
}

#[test]
fn create_set_twice_is_idempotent_and_keeps_one_row() {
    let mut uow = ready_uow();
    uow.begin().expect("begin");
    create_set(&mut uow, Create::new(7, "pack".to_string(), "First".to_string()))
        .expect("first create_set");

    uow.begin().expect("begin");
    let second = create_set(&mut uow, Create::new(8, "pack".to_string(), "Second".to_string()));
    assert!(second.is_ok(), "the second call must look like success");

    let rows = uow.committed_snapshot();
    let matching: Vec<_> = rows.iter().filter(|s| s.short_name == "pack").collect();
    assert_eq!(matching.len(), 1);
    assert_eq!(matching[0].title.as_str(), "First");
}

#[test]
fn set_deleted_flag_twice_is_idempotent() {
    let mut uow = ready_uow();
    uow.begin().expect("begin");
    create_set(&mut uow, Create::new(1, "x".to_string(), "T".to_string())).expect("create");

    uow.begin().expect("begin");
    set_deleted_col(&mut uow, SetDeletedColByShortName::new("x".to_string(), true))
        .expect("first application");
    uow.begin().expect("begin");
    let second = set_deleted_col(&mut uow, SetDeletedColByShortName::new("x".to_string(), true));
    assert!(second.is_ok(), "the second application must not error");

    let rows = uow.committed_snapshot();
    assert_eq!(rows.len(), 1);
    assert!(rows[0].deleted);
}

#[test]
fn create_set_without_transaction_is_a_begin_error() {
    let mut uow = ready_uow();
    let r = create_set(&mut uow, Create::new(1, "a".to_string(), "T".to_string()));
    assert!(matches!(r, Err(TransactionKind::Begin(_))));
    assert!(uow.committed_snapshot().is_empty());
}

#[test]
fn unreachable_storage_rolls_back_and_still_reports_success() {
    let mut uow = ready_uow();
    uow.begin().expect("begin");
    create_set(&mut uow, Create::new(1, "kept".to_string(), "T".to_string())).expect("create");

    uow.begin().expect("begin");
    uow.set_storage_healthy(false);
    let r = create_set(&mut uow, Create::new(1, "lost".to_string(), "T".to_string()));
    assert!(r.is_ok(), "an unexpected failure is surfaced as success");

    uow.set_storage_healthy(true);
    let rows = uow.committed_snapshot();
    assert_eq!(rows.len(), 1);
    assert_eq!(rows[0].short_name.as_str(), "kept");
}

#[test]
fn begin_twice_fails_and_commit_needs_a_transaction() {
    let mut uow = ready_uow();
    uow.begin().expect("begin");
    assert!(uow.begin().is_err(), "a second begin must fail while one is open");
    uow.commit().expect("commit");
    assert!(uow.commit().is_err(), "commit without a transaction must fail");
    assert!(uow.rollback().is_err(), "rollback without a transaction must fail");
}

#[test]
fn repo_handles_need_a_transaction() {
    let mut uow = ready_uow();
    assert!(uow.set_repo().is_err());
    assert!(uow.user_repo().is_err());
    uow.begin().expect("begin");
    assert!(uow.set_repo().is_ok());
    assert!(uow.user_repo().is_ok());
}

#[test]
fn rollback_discards_the_working_copy() {
    let mut uow = ready_uow();
    uow.begin().expect("begin");
    create_set(&mut uow, Create::new(1, "committed".to_string(), "T".to_string()))
        .expect("create");

    uow.begin().expect("begin");
    uow.create(Create::new(1, "pending".to_string(), "T".to_string())).expect("insert");
    uow.rollback().expect("rollback");

    let rows = uow.committed_snapshot();
    assert_eq!(rows.len(), 1);
    assert_eq!(rows[0].short_name.as_str(), "committed");
}

#[test]
fn get_one_by_missing_short_name_is_the_named_exception() {
    let mut uow = ready_uow();
    uow.begin().expect("begin");
    let r = uow.get_one_by_short_name(GetByShortName::new("missing".to_string()));
    match r {
        Err(RepoKind::Exception(e)) => assert_eq!(e.short_name.as_str(), "missing"),
        _ => panic!("a missing short name must be the named exception"),
    }
}

#[test]
fn tri_state_filters_select_the_right_rows() {
    let mut uow = ready_uow();
    for (owner, name, deleted) in
        [(1, "a", false), (1, "b", true), (2, "c", false), (1, "d", false)]
    {
        uow.begin().expect("begin");
        create_set(&mut uow, Create::new(owner, name.to_string(), "T".to_string()))
            .expect("create");
        if deleted {
            uow.begin().expect("begin");
            set_deleted_col(&mut uow, SetDeletedColByShortName::new(name.to_string(), true))
                .expect("mark");
        }
    }

    uow.begin().expect("begin");
    let all = uow.get_all(GetAll::new(None)).expect("all");
    assert_eq!(all.len(), 4);
    let deleted_only = uow.get_all(GetAll::new(Some(true))).expect("deleted");
    assert_eq!(deleted_only.len(), 1);
    assert_eq!(deleted_only[0].short_name.as_str(), "b");
    let live_only = uow.get_all(GetAll::new(Some(false))).expect("live");
    assert_eq!(live_only.len(), 3);

    let owner1_live = uow.get_by_tg_id(GetByTgID::new(1, Some(false))).expect("owner 1");
    let names: Vec<&str> = owner1_live.iter().map(|s| s.short_name.as_str()).collect();
    assert_eq!(names, vec!["a", "d"]);

    assert_eq!(uow.count_by_tg_id(CountByTgID::new(1, None)).expect("count"), 3);
    assert_eq!(uow.count_by_tg_id(CountByTgID::new(1, Some(false))).expect("count"), 2);
    assert_eq!(uow.count_by_tg_id(CountByTgID::new(1, Some(true))).expect("count"), 1);
    assert_eq!(uow.count_by_tg_id(CountByTgID::new(9, None)).expect("count"), 0);
}

#[test]
fn owner_counts_come_out_descending() {
    let mut uow = ready_uow();
    // owners 10, 20, 30 with 1, 3, 2 collections; owner 40 with none
    let plan = [(10, 1), (20, 3), (30, 2)];
    for (owner, n) in plan {
        for k in 0..n {
            uow.begin().expect("begin");
            create_set(
                &mut uow,
                Create::new(owner, format!("set_{owner}_{k}"), "T".to_string()),
            )
            .expect("create");
        }
    }
    for owner in [10, 20, 30, 40] {
        uow.begin().expect("begin");
        create_user(&mut uow, CreateUser::new(owner)).expect("user");
    }

    uow.begin().expect("begin");
    let counts = uow.get_set_counts_for_all_users(GetAll::new(None)).expect("counts");
    assert_eq!(counts, vec![3, 2, 1]);
}

#[test]
fn create_user_is_idempotent() {
    let mut uow = ready_uow();
    uow.begin().expect("begin");
    create_user(&mut uow, CreateUser::new(5)).expect("first");
    uow.begin().expect("begin");
    let second = create_user(&mut uow, CreateUser::new(5));
    assert!(second.is_ok());
}

#[test]
fn factory_hands_out_fresh_units_of_work() {
    let factory = MemoryUoWFactory::new();
    let mut uow = factory.create_uow();
    uow.connect().expect("connect");
    uow.begin().expect("begin");
    create_set(&mut uow, Create::new(1, "a".to_string(), "T".to_string())).expect("create");
    assert_eq!(uow.committed_snapshot().len(), 1);

    let other = factory.create_uow();
    assert!(other.committed_snapshot().is_empty());
}

#[test]
fn standalone_repositories_share_the_operation_semantics() {
    let conn = Connection { sets: Vec::new(), users: Vec::new(), healthy: true };
    let mut repo = SetRepoImpl::new(conn);
    repo.create(Create::new(3, "s".to_string(), "T".to_string())).expect("create");
    let dup = repo.create(Create::new(3, "s".to_string(), "T".to_string()));
    assert!(matches!(dup, Err(RepoKind::Exception(_))));
    let row = repo
        .get_one_by_short_name(GetByShortName::new("s".to_string()))
        .expect("present");
    assert_eq!(row.tg_id, 3);

    let conn = repo.release();
    let mut users = UserRepoImpl::new(conn);
    users.create(CreateUser::new(3)).expect("user");
    let dup = users.create(CreateUser::new(3));
    assert!(matches!(dup, Err(RepoKind::Exception(_))));
}

#[test]
fn unreachable_standalone_repository_reports_unexpected() {
    let conn = Connection { sets: Vec::new(), users: Vec::new(), healthy: false };
    let mut repo = SetRepoImpl::new(conn);
    let r = repo.create(Create::new(1, "s".to_string(), "T".to_string()));
    assert!(matches!(r, Err(RepoKind::Unexpected(_))));
    let r = repo.get_all(GetAll::new(None));
    assert!(r.is_err());
}

#[test]
fn personal_stats_count_all_and_live_records() {
    let mut uow = ready_uow();
    for (name, deleted) in [("a", false), ("b", true), ("c", false)] {
        uow.begin().expect("begin");
        create_set(&mut uow, Create::new(5, name.to_string(), "T".to_string())).expect("create");
        if deleted {
            uow.begin().expect("begin");
            set_deleted_col(&mut uow, SetDeletedColByShortName::new(name.to_string(), true))
                .expect("mark");
        }
    }
    uow.begin().expect("begin");
    let stats = personal_stats(&mut uow, 5).expect("stats");
    assert_eq!(stats.total_user_sets_count, 3);
    assert_eq!(stats.not_deleted_user_sets_count, 2);
    let none = personal_stats(&mut uow, 6).expect("stats");
    assert_eq!(none.total_user_sets_count, 0);
}
