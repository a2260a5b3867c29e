//! Failure classification of the storage layer.
//!
//! Repository operations fail in exactly two ways: an [`Exception`] is an
//! expected, named business condition (duplicate unique key, row not found),
//! while [`Unexpected`] covers everything else (connection loss and the
//! like). Callers branch on the kind, never on message text.
//!
//! [`Exception`]: RepoKind::Exception
//! [`Unexpected`]: RepoKind::Unexpected

use vstd::prelude::*;

verus! {

/// A storage failure with no business meaning; the message is kept only for
/// logging.
#[derive(Debug)]
pub struct RepoError {
    pub message: String,
}

impl RepoError {
    pub fn new(message: String) -> (r: RepoError)
        ensures
            r.message@ == message@,
    {
        RepoError { message }
    }
}

/// Two-way classification of a repository failure.
#[derive(Debug)]
pub enum RepoKind<E> {
    /// An expected, named business condition.
    Exception(E),
    /// Any other storage failure.
    Unexpected(RepoError),
}

impl<E> RepoKind<E> {
    pub fn exception(e: E) -> (r: RepoKind<E>)
        ensures
            r == RepoKind::<E>::Exception(e),
    {
        RepoKind::Exception(e)
    }

    pub fn unexpected(err: RepoError) -> (r: RepoKind<E>)
        ensures
            r == RepoKind::<E>::Unexpected(err),
    {
        RepoKind::Unexpected(err)
    }
}

/// A transaction could not be started, or a repository handle was requested
/// while no transaction was open.
#[derive(Debug)]
pub struct BeginError {
    pub message: String,
}

impl BeginError {
    pub fn new(message: String) -> (r: BeginError)
        ensures
            r.message@ == message@,
    {
        BeginError { message }
    }
}

/// An open transaction could not be committed, or no transaction was open to
/// commit.
#[derive(Debug)]
pub struct CommitError {
    pub message: String,
}

impl CommitError {
    pub fn new(message: String) -> (r: CommitError)
        ensures
            r.message@ == message@,
    {
        CommitError { message }
    }
}

/// An open transaction could not be rolled back, or no transaction was open
/// to roll back.
#[derive(Debug)]
pub struct RollbackError {
    pub message: String,
}

impl RollbackError {
    pub fn new(message: String) -> (r: RollbackError)
        ensures
            r.message@ == message@,
    {
        RollbackError { message }
    }
}

/// Which transaction step failed while an interactor drove a unit of work.
#[derive(Debug)]
pub enum TransactionKind {
    Begin(BeginError),
    Commit(CommitError),
    Rollback(RollbackError),
}

impl TransactionKind {
    pub fn begin_err(e: BeginError) -> (r: TransactionKind)
        ensures
            r == TransactionKind::Begin(e),
    {
        TransactionKind::Begin(e)
    }

    pub fn commit_err(e: CommitError) -> (r: TransactionKind)
        ensures
            r == TransactionKind::Commit(e),
    {
        TransactionKind::Commit(e)
    }

    pub fn rollback_err(e: RollbackError) -> (r: TransactionKind)
        ensures
            r == TransactionKind::Rollback(e),
    {
        TransactionKind::Rollback(e)
    }
}

/// A record with the same unique short name is already committed.
#[derive(Debug)]
pub struct SetShortNameAlreadyExist {
    pub short_name: String,
    pub message: String,
}

impl SetShortNameAlreadyExist {
    pub fn new(short_name: String, message: String) -> (r: SetShortNameAlreadyExist)
        ensures
            r.short_name@ == short_name@,
            r.message@ == message@,
    {
        SetShortNameAlreadyExist { short_name, message }
    }
}

/// No record with the given short name exists.
#[derive(Debug)]
pub struct SetShortNameNotExist {
    pub short_name: String,
    pub message: String,
}

impl SetShortNameNotExist {
    pub fn new(short_name: String, message: String) -> (r: SetShortNameNotExist)
        ensures
            r.short_name@ == short_name@,
            r.message@ == message@,
    {
        SetShortNameNotExist { short_name, message }
    }
}

/// No record of the given owner exists.
#[derive(Debug)]
pub struct SetTgIdNotExist {
    pub tg_id: i64,
    pub message: String,
}

impl SetTgIdNotExist {
    pub fn new(tg_id: i64, message: String) -> (r: SetTgIdNotExist)
        ensures
            r.tg_id == tg_id,
            r.message@ == message@,
    {
        SetTgIdNotExist { tg_id, message }
    }
}

/// A user with the same external identifier is already recorded.
#[derive(Debug)]
pub struct UserTgIdAlreadyExist {
    pub tg_id: i64,
    pub message: String,
}

impl UserTgIdAlreadyExist {
    pub fn new(tg_id: i64, message: String) -> (r: UserTgIdAlreadyExist)
        ensures
            r.tg_id == tg_id,
            r.message@ == message@,
    {
        UserTgIdAlreadyExist { tg_id, message }
    }
}

} // verus!
