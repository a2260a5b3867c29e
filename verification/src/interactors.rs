//! Interactors: one storage write each, driven through an open unit of work.
//!
//! All three share the same correctness-critical asymmetry: the named
//! exception of a repository operation means the intended state is already
//! recorded, so the transaction — which may hold other writes of the same
//! unit of work — is committed, never rolled back; an unexpected failure
//! rolls the transaction back and is still surfaced as success, because the
//! external side effect the write records has already happened.

use vstd::prelude::*;

use crate::dto::CountByTgID;
use crate::dto::Create;
use crate::dto::CreateUser;
use crate::dto::SetDeletedColByShortName;
use crate::exceptions::RepoError;
use crate::exceptions::RepoKind;
use crate::exceptions::TransactionKind;
use crate::model::count_of_owner;
use crate::model::has_short_name;
use crate::model::mark_deleted_rows;
use crate::model::row_of;
use crate::stats::PersonalStats;
use crate::uow::MemoryUoW;
use crate::uow::UoW;

verus! {

/// Records one cloned collection.
///
/// With a fresh short name the row is inserted and committed; with a taken
/// one the record is treated as already present and the transaction is
/// committed unchanged; an unreachable storage rolls the transaction back
/// and the committed state stays what it was. Only a missing transaction is
/// an error.
pub fn create_set(uow: &mut MemoryUoW, set: Create) -> (r: Result<(), TransactionKind>)
    requires
        old(uow).inv(),
    ensures
        final(uow).inv(),
        !final(uow).tx_open(),
        final(uow).connected() == old(uow).connected(),
        final(uow).healthy() == old(uow).healthy(),
        final(uow).committed_users() == if old(uow).tx_open() && old(uow).healthy() {
            old(uow).tx_users()
        } else {
            old(uow).committed_users()
        },
        !old(uow).tx_open() ==> (r matches Err(TransactionKind::Begin(_))) && final(uow).committed_sets() == old(uow).committed_sets(),
        old(uow).tx_open() && old(uow).healthy() && !has_short_name(
            old(uow).tx_sets(),
            set.short_name@,
        ) ==> r is Ok && final(uow).committed_sets() == old(uow).tx_sets().push(row_of(set)),
        old(uow).tx_open() && old(uow).healthy() && has_short_name(
            old(uow).tx_sets(),
            set.short_name@,
        ) ==> r is Ok && final(uow).committed_sets() == old(uow).tx_sets(),
        old(uow).tx_open() && !old(uow).healthy() ==> r is Ok && final(uow).committed_sets()
            == old(uow).committed_sets(),
{
    if let Err(e) = uow.set_repo() {
        return Err(TransactionKind::begin_err(e));
    }
    let result = uow.create(set);
    match result {
        Ok(()) => {},
        Err(RepoKind::Unexpected(_)) => {
            match uow.rollback() {
                Ok(()) => {
                    return Ok(());
                },
                Err(e) => {
                    return Err(TransactionKind::rollback_err(e));
                },
            }
        },
        // the record is already there: keep the transaction's other writes
        Err(RepoKind::Exception(_)) => {},
    }
    match uow.commit() {
        Ok(()) => Ok(()),
        Err(e) => Err(TransactionKind::commit_err(e)),
    }
}

/// Sets the `deleted` flag of one record.
///
/// With the short name present the flag is written and committed — writing a
/// value already in place changes nothing and still commits, so the write is
/// idempotent; with it absent the condition is treated as already recorded
/// and the transaction commits unchanged; an unreachable storage rolls the
/// transaction back. Only a missing transaction is an error.
pub fn set_deleted_col(uow: &mut MemoryUoW, set: SetDeletedColByShortName) -> (r: Result<
    (),
    TransactionKind,
>)
    requires
        old(uow).inv(),
    ensures
        final(uow).inv(),
        !final(uow).tx_open(),
        final(uow).connected() == old(uow).connected(),
        final(uow).healthy() == old(uow).healthy(),
        final(uow).committed_users() == if old(uow).tx_open() && old(uow).healthy() {
            old(uow).tx_users()
        } else {
            old(uow).committed_users()
        },
        !old(uow).tx_open() ==> (r matches Err(TransactionKind::Begin(_))) && final(uow).committed_sets() == old(uow).committed_sets(),
        old(uow).tx_open() && old(uow).healthy() && has_short_name(
            old(uow).tx_sets(),
            set.short_name@,
        ) ==> r is Ok && final(uow).committed_sets() == mark_deleted_rows(
            old(uow).tx_sets(),
            set.short_name@,
            set.deleted,
        ),
        old(uow).tx_open() && old(uow).healthy() && !has_short_name(
            old(uow).tx_sets(),
            set.short_name@,
        ) ==> r is Ok && final(uow).committed_sets() == old(uow).tx_sets(),
        old(uow).tx_open() && !old(uow).healthy() ==> r is Ok && final(uow).committed_sets()
            == old(uow).committed_sets(),
{
    if let Err(e) = uow.set_repo() {
        return Err(TransactionKind::begin_err(e));
    }
    let result = uow.set_deleted_col_by_short_name(set);
    match result {
        Ok(()) => {},
        Err(RepoKind::Unexpected(_)) => {
            match uow.rollback() {
                Ok(()) => {
                    return Ok(());
                },
                Err(e) => {
                    return Err(TransactionKind::rollback_err(e));
                },
            }
        },
        // nothing carries that short name: nothing to change
        Err(RepoKind::Exception(_)) => {},
    }
    match uow.commit() {
        Ok(()) => Ok(()),
        Err(e) => Err(TransactionKind::commit_err(e)),
    }
}

/// Records one user, idempotently.
///
/// A fresh identifier is inserted and committed; one already recorded
/// commits the transaction unchanged; an unreachable storage rolls the
/// transaction back. Only a missing transaction is an error.
pub fn create_user(uow: &mut MemoryUoW, user: CreateUser) -> (r: Result<(), TransactionKind>)
    requires
        old(uow).inv(),
    ensures
        final(uow).inv(),
        !final(uow).tx_open(),
        final(uow).connected() == old(uow).connected(),
        final(uow).healthy() == old(uow).healthy(),
        final(uow).committed_sets() == if old(uow).tx_open() && old(uow).healthy() {
            old(uow).tx_sets()
        } else {
            old(uow).committed_sets()
        },
        !old(uow).tx_open() ==> (r matches Err(TransactionKind::Begin(_))) && final(uow).committed_users() == old(uow).committed_users(),
        old(uow).tx_open() && old(uow).healthy() && !old(uow).tx_users().contains(
            user.tg_id as int,
        ) ==> r is Ok && final(uow).committed_users() == old(uow).tx_users().push(
            user.tg_id as int,
        ),
        old(uow).tx_open() && old(uow).healthy() && old(uow).tx_users().contains(user.tg_id as int)
            ==> r is Ok && final(uow).committed_users() == old(uow).tx_users(),
        old(uow).tx_open() && !old(uow).healthy() ==> r is Ok && final(uow).committed_users()
            == old(uow).committed_users(),
{
    if let Err(e) = uow.user_repo() {
        return Err(TransactionKind::begin_err(e));
    }
    let result = uow.create_user(user);
    match result {
        Ok(()) => {},
        Err(RepoKind::Unexpected(_)) => {
            match uow.rollback() {
                Ok(()) => {
                    return Ok(());
                },
                Err(e) => {
                    return Err(TransactionKind::rollback_err(e));
                },
            }
        },
        // the user is already recorded
        Err(RepoKind::Exception(_)) => {},
    }
    match uow.commit() {
        Ok(()) => Ok(()),
        Err(e) => Err(TransactionKind::commit_err(e)),
    }
}

/// One user's statistics, read within the open transaction: all their
/// records, and those not yet soft-deleted.
pub fn personal_stats(uow: &mut MemoryUoW, user_id: i64) -> (r: Result<PersonalStats, RepoError>)
    requires
        old(uow).inv(),
        old(uow).tx_open(),
        old(uow).tx_sets().len() <= 0x7fff_ffff_ffff_ffff,
    ensures
        *final(uow) == *old(uow),
        match r {
            Ok(p) => {
                &&& old(uow).healthy()
                &&& p.total_user_sets_count as int == count_of_owner(
                    old(uow).tx_sets(),
                    user_id as int,
                    Option::None,
                )
                &&& p.not_deleted_user_sets_count as int == count_of_owner(
                    old(uow).tx_sets(),
                    user_id as int,
                    Option::Some(false),
                )
            },
            Err(_) => !old(uow).healthy(),
        },
{
    let total = match uow.count_by_tg_id(CountByTgID::new(user_id, None)) {
        Ok(c) => c,
        Err(e) => {
            return Err(e);
        },
    };
    let not_deleted = match uow.count_by_tg_id(CountByTgID::new(user_id, Some(false))) {
        Ok(c) => c,
        Err(e) => {
            return Err(e);
        },
    };
    Ok(PersonalStats::new(total, not_deleted))
}

} // verus!
