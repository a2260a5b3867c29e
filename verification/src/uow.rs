//! The unit of work: one logical transaction over the two tables.
//!
//! A unit of work owns the committed state it is bound to and, while a
//! transaction is open, a working copy of it. Repository operations act on
//! the working copy; `commit` makes it the committed state, `rollback`
//! discards it. `connect` and `begin` fail while a transaction is already
//! open; `commit` and `rollback` fail when none is.

use vstd::prelude::*;

use crate::dto::CountByTgID;
use crate::dto::Create;
use crate::dto::CreateUser;
use crate::dto::GetAll;
use crate::dto::GetByShortName;
use crate::dto::GetByTgID;
use crate::dto::SetDeletedColByShortName;
use crate::entities::SetModel;
use crate::entities::StickerSet;
use crate::exceptions::BeginError;
use crate::exceptions::CommitError;
use crate::exceptions::RepoError;
use crate::exceptions::RepoKind;
use crate::exceptions::RollbackError;
use crate::exceptions::SetShortNameAlreadyExist;
use crate::exceptions::SetShortNameNotExist;
use crate::exceptions::SetTgIdNotExist;
use crate::exceptions::UserTgIdAlreadyExist;
use crate::model::count_of_owner;
use crate::model::counts_view;
use crate::model::filter_rows;
use crate::model::find_short_name;
use crate::model::has_short_name;
use crate::model::mark_deleted_rows;
use crate::model::owner_counts;
use crate::model::row_of;
use crate::model::rows_of_owner;
use crate::model::rows_view;
use crate::model::users_view;
use crate::model::wf_rows;
use crate::model::wf_users;
use crate::tables::clone_set_vec;
use crate::tables::clone_user_vec;
use crate::tables::sort_counts_desc;
use crate::tables::sorted_desc_i64;
use crate::tables::table_by_owner;
use crate::tables::table_count_by_owner;
use crate::tables::table_create;
use crate::tables::table_filter;
use crate::tables::table_find;
use crate::tables::table_mark_deleted;
use crate::tables::table_owner_counts;
use crate::tables::table_user_create;

verus! {

/// One logical transaction plus the repositories bound to it.
///
/// `committed_sets()`/`committed_users()` are the durable state;
/// `tx_sets()`/`tx_users()` the working copy of the open transaction.
pub trait UoW: Sized {
    spec fn connected(&self) -> bool;

    spec fn tx_open(&self) -> bool;

    spec fn healthy(&self) -> bool;

    spec fn committed_sets(&self) -> Seq<SetModel>;

    spec fn committed_users(&self) -> Seq<int>;

    spec fn tx_sets(&self) -> Seq<SetModel>;

    spec fn tx_users(&self) -> Seq<int>;

    /// Both tables well-formed, durably and in the working copy.
    spec fn inv(&self) -> bool;

    /// Acquires a storage connection; fails while the storage is unreachable
    /// or a transaction is already open.
    fn connect(&mut self) -> (r: Result<(), BeginError>)
        requires
            old(self).inv(),
        ensures
            final(self).inv(),
            final(self).tx_open() == old(self).tx_open(),
            final(self).healthy() == old(self).healthy(),
            final(self).committed_sets() == old(self).committed_sets(),
            final(self).committed_users() == old(self).committed_users(),
            final(self).tx_sets() == old(self).tx_sets(),
            final(self).tx_users() == old(self).tx_users(),
            r is Ok <==> old(self).healthy() && !old(self).tx_open(),
            r is Ok ==> final(self).connected(),
            r is Err ==> final(self).connected() == old(self).connected(),
    ;

    /// Starts a transaction on the connection: the working copy becomes the
    /// committed state. Fails while unconnected, unreachable, or already in
    /// a transaction.
    fn begin(&mut self) -> (r: Result<(), BeginError>)
        requires
            old(self).inv(),
        ensures
            final(self).inv(),
            final(self).connected() == old(self).connected(),
            final(self).healthy() == old(self).healthy(),
            final(self).committed_sets() == old(self).committed_sets(),
            final(self).committed_users() == old(self).committed_users(),
            r is Ok <==> old(self).connected() && old(self).healthy() && !old(self).tx_open(),
            r is Ok ==> final(self).tx_open() && final(self).tx_sets() == old(self).committed_sets() && final(self).tx_users() == old(self).committed_users(),
            r is Err ==> final(self).tx_open() == old(self).tx_open() && final(self).tx_sets()
                == old(self).tx_sets() && final(self).tx_users() == old(self).tx_users(),
    ;

    /// Makes the working copy the committed state and closes the
    /// transaction; callable at most once per transaction.
    fn commit(&mut self) -> (r: Result<(), CommitError>)
        requires
            old(self).inv(),
        ensures
            final(self).inv(),
            final(self).connected() == old(self).connected(),
            final(self).healthy() == old(self).healthy(),
            !final(self).tx_open(),
            r is Ok <==> old(self).tx_open(),
            r is Ok ==> final(self).committed_sets() == old(self).tx_sets() && final(self).committed_users() == old(self).tx_users(),
            r is Err ==> final(self).committed_sets() == old(self).committed_sets() && final(self).committed_users() == old(self).committed_users(),
    ;

    /// Discards the working copy and closes the transaction; callable at
    /// most once per transaction.
    fn rollback(&mut self) -> (r: Result<(), RollbackError>)
        requires
            old(self).inv(),
        ensures
            final(self).inv(),
            final(self).connected() == old(self).connected(),
            final(self).healthy() == old(self).healthy(),
            !final(self).tx_open(),
            final(self).committed_sets() == old(self).committed_sets(),
            final(self).committed_users() == old(self).committed_users(),
            r is Ok <==> old(self).tx_open(),
    ;

    /// Binds the collection repository to the current transaction: the
    /// repository operations of the unit of work are usable after this
    /// returns `Ok`. Fails while no transaction is open.
    fn set_repo(&mut self) -> (r: Result<(), BeginError>)
        requires
            old(self).inv(),
        ensures
            final(self).inv(),
            final(self).connected() == old(self).connected(),
            final(self).tx_open() == old(self).tx_open(),
            final(self).healthy() == old(self).healthy(),
            final(self).committed_sets() == old(self).committed_sets(),
            final(self).committed_users() == old(self).committed_users(),
            final(self).tx_sets() == old(self).tx_sets(),
            final(self).tx_users() == old(self).tx_users(),
            r is Ok <==> old(self).tx_open(),
    ;

    /// Binds the user repository to the current transaction; fails while no
    /// transaction is open.
    fn user_repo(&mut self) -> (r: Result<(), BeginError>)
        requires
            old(self).inv(),
        ensures
            final(self).inv(),
            final(self).connected() == old(self).connected(),
            final(self).tx_open() == old(self).tx_open(),
            final(self).healthy() == old(self).healthy(),
            final(self).committed_sets() == old(self).committed_sets(),
            final(self).committed_users() == old(self).committed_users(),
            final(self).tx_sets() == old(self).tx_sets(),
            final(self).tx_users() == old(self).tx_users(),
            r is Ok <==> old(self).tx_open(),
    ;
}

/// Creates fresh units of work bound to one storage.
pub trait UoWFactory: Sized {
    type UoW: UoW;

    spec fn snapshot_sets(&self) -> Seq<SetModel>;

    spec fn snapshot_users(&self) -> Seq<int>;

    spec fn snapshot_healthy(&self) -> bool;

    /// Both seed tables well-formed.
    spec fn factory_inv(&self) -> bool;

    /// A fresh unit of work: no connection, no open transaction, bound to
    /// the factory's committed state.
    fn create_uow(&self) -> (r: Self::UoW)
        requires
            self.factory_inv(),
        ensures
            r.inv(),
            !r.connected(),
            !r.tx_open(),
            r.healthy() == self.snapshot_healthy(),
            r.committed_sets() == self.snapshot_sets(),
            r.committed_users() == self.snapshot_users(),
    ;
}

/// The in-memory unit of work.
pub struct MemoryUoW {
    pub committed_sets: Vec<StickerSet>,
    pub committed_users: Vec<i64>,
    pub tx_sets: Vec<StickerSet>,
    pub tx_users: Vec<i64>,
    pub connected: bool,
    pub tx_open: bool,
    pub healthy: bool,
}

impl UoW for MemoryUoW {
    open spec fn connected(&self) -> bool {
        self.connected
    }

    open spec fn tx_open(&self) -> bool {
        self.tx_open
    }

    open spec fn healthy(&self) -> bool {
        self.healthy
    }

    open spec fn committed_sets(&self) -> Seq<SetModel> {
        rows_view(self.committed_sets@)
    }

    open spec fn committed_users(&self) -> Seq<int> {
        users_view(self.committed_users@)
    }

    open spec fn tx_sets(&self) -> Seq<SetModel> {
        rows_view(self.tx_sets@)
    }

    open spec fn tx_users(&self) -> Seq<int> {
        users_view(self.tx_users@)
    }

    open spec fn inv(&self) -> bool {
        &&& wf_rows(rows_view(self.committed_sets@))
        &&& wf_users(users_view(self.committed_users@))
        &&& (self.tx_open ==> wf_rows(rows_view(self.tx_sets@)) && wf_users(
            users_view(self.tx_users@),
        ))
    }

    fn connect(&mut self) -> (r: Result<(), BeginError>) {
        if self.healthy && !self.tx_open {
            self.connected = true;
            Ok(())
        } else {
            Err(BeginError::new("storage unreachable or transaction open".to_owned()))
        }
    }

    fn begin(&mut self) -> (r: Result<(), BeginError>) {
        if self.connected && self.healthy && !self.tx_open {
            self.tx_sets = clone_set_vec(&self.committed_sets);
            self.tx_users = clone_user_vec(&self.committed_users);
            self.tx_open = true;
            Ok(())
        } else {
            Err(BeginError::new("no connection or transaction already open".to_owned()))
        }
    }

    fn commit(&mut self) -> (r: Result<(), CommitError>) {
        if self.tx_open {
            let sets = clone_set_vec(&self.tx_sets);
            let users = clone_user_vec(&self.tx_users);
            self.committed_sets = sets;
            self.committed_users = users;
            self.tx_open = false;
            Ok(())
        } else {
            Err(CommitError::new("no open transaction".to_owned()))
        }
    }

    fn rollback(&mut self) -> (r: Result<(), RollbackError>) {
        if self.tx_open {
            self.tx_open = false;
            Ok(())
        } else {
            Err(RollbackError::new("no open transaction".to_owned()))
        }
    }

    fn set_repo(&mut self) -> (r: Result<(), BeginError>) {
        if self.tx_open {
            Ok(())
        } else {
            Err(BeginError::new("no open transaction".to_owned()))
        }
    }

    fn user_repo(&mut self) -> (r: Result<(), BeginError>) {
        if self.tx_open {
            Ok(())
        } else {
            Err(BeginError::new("no open transaction".to_owned()))
        }
    }
}

impl MemoryUoW {
    /// A unit of work over empty, reachable storage.
    pub fn new() -> (r: MemoryUoW)
        ensures
            r.inv(),
            !r.connected(),
            !r.tx_open(),
            r.healthy(),
            r.committed_sets() == Seq::<SetModel>::empty(),
            r.committed_users() == Seq::<int>::empty(),
    {
        let r = MemoryUoW {
            committed_sets: Vec::new(),
            committed_users: Vec::new(),
            tx_sets: Vec::new(),
            tx_users: Vec::new(),
            connected: false,
            tx_open: false,
            healthy: true,
        };
        proof {
            assert(rows_view(r.committed_sets@) =~= Seq::<SetModel>::empty());
            assert(users_view(r.committed_users@) =~= Seq::<int>::empty());
        }
        r
    }

    /// Makes the storage behind this unit of work reachable or unreachable;
    /// repository operations fail as [`RepoKind::Unexpected`] while it is
    /// unreachable.
    pub fn set_storage_healthy(&mut self, healthy: bool)
        requires
            old(self).inv(),
        ensures
            final(self).inv(),
            final(self).healthy() == healthy,
            final(self).connected() == old(self).connected(),
            final(self).tx_open() == old(self).tx_open(),
            final(self).committed_sets() == old(self).committed_sets(),
            final(self).committed_users() == old(self).committed_users(),
            final(self).tx_sets() == old(self).tx_sets(),
            final(self).tx_users() == old(self).tx_users(),
    {
        self.healthy = healthy;
    }

    /// A copy of the committed collection table, in table order.
    pub fn committed_snapshot(&self) -> (r: Vec<StickerSet>)
        ensures
            rows_view(r@) == self.committed_sets(),
    {
        clone_set_vec(&self.committed_sets)
    }

    /// Inserts a record into the open transaction; a taken short name is the
    /// named exception.
    pub fn create(&mut self, set: Create) -> (r: Result<(), RepoKind<SetShortNameAlreadyExist>>)
        requires
            old(self).inv(),
            old(self).tx_open(),
        ensures
            final(self).inv(),
            final(self).connected() == old(self).connected(),
            final(self).tx_open() == old(self).tx_open(),
            final(self).healthy() == old(self).healthy(),
            final(self).committed_sets() == old(self).committed_sets(),
            final(self).committed_users() == old(self).committed_users(),
            final(self).tx_users() == old(self).tx_users(),
            match r {
                Ok(()) => {
                    &&& old(self).healthy()
                    &&& !has_short_name(old(self).tx_sets(), set.short_name@)
                    &&& final(self).tx_sets() == old(self).tx_sets().push(row_of(set))
                },
                Err(RepoKind::Exception(e)) => {
                    &&& old(self).healthy()
                    &&& has_short_name(old(self).tx_sets(), set.short_name@)
                    &&& final(self).tx_sets() == old(self).tx_sets()
                    &&& e.short_name@ == set.short_name@
                },
                Err(RepoKind::Unexpected(_)) => {
                    &&& !old(self).healthy()
                    &&& final(self).tx_sets() == old(self).tx_sets()
                },
            },
    {
        if !self.healthy {
            return Err(RepoKind::unexpected(RepoError::new("storage unreachable".to_owned())));
        }
        match table_create(&mut self.tx_sets, set) {
            Ok(()) => Ok(()),
            Err(e) => Err(RepoKind::exception(e)),
        }
    }

    /// The records of one owner in the open transaction, filtered.
    pub fn get_by_tg_id(&mut self, q: GetByTgID) -> (r: Result<
        Vec<StickerSet>,
        RepoKind<SetTgIdNotExist>,
    >)
        requires
            old(self).inv(),
            old(self).tx_open(),
        ensures
            *final(self) == *old(self),
            match r {
                Ok(v) => {
                    &&& old(self).healthy()
                    &&& rows_view(v@) == rows_of_owner(
                        old(self).tx_sets(),
                        q.tg_id as int,
                        q.get_deleted,
                    )
                },
                Err(RepoKind::Exception(_)) => false,
                Err(RepoKind::Unexpected(_)) => !old(self).healthy(),
            },
    {
        if !self.healthy {
            return Err(RepoKind::unexpected(RepoError::new("storage unreachable".to_owned())));
        }
        Ok(table_by_owner(&self.tx_sets, q.tg_id(), q.get_deleted()))
    }

    /// The record with the given short name in the open transaction.
    pub fn get_one_by_short_name(&mut self, q: GetByShortName) -> (r: Result<
        StickerSet,
        RepoKind<SetShortNameNotExist>,
    >)
        requires
            old(self).inv(),
            old(self).tx_open(),
        ensures
            *final(self) == *old(self),
            match r {
                Ok(row) => {
                    &&& old(self).healthy()
                    &&& find_short_name(old(self).tx_sets(), q.short_name@) == Some(row@)
                },
                Err(RepoKind::Exception(e)) => {
                    &&& old(self).healthy()
                    &&& !has_short_name(old(self).tx_sets(), q.short_name@)
                    &&& e.short_name@ == q.short_name@
                },
                Err(RepoKind::Unexpected(_)) => !old(self).healthy(),
            },
    {
        if !self.healthy {
            return Err(RepoKind::unexpected(RepoError::new("storage unreachable".to_owned())));
        }
        match table_find(&self.tx_sets, q.short_name()) {
            Some(row) => Ok(row),
            None => Err(
                RepoKind::exception(
                    SetShortNameNotExist::new(q.short_name, "short name not found".to_owned()),
                ),
            ),
        }
    }

    /// Sets the `deleted` flag of the named record in the open transaction.
    pub fn set_deleted_col_by_short_name(&mut self, q: SetDeletedColByShortName) -> (r: Result<
        (),
        RepoKind<SetShortNameNotExist>,
    >)
        requires
            old(self).inv(),
            old(self).tx_open(),
        ensures
            final(self).inv(),
            final(self).connected() == old(self).connected(),
            final(self).tx_open() == old(self).tx_open(),
            final(self).healthy() == old(self).healthy(),
            final(self).committed_sets() == old(self).committed_sets(),
            final(self).committed_users() == old(self).committed_users(),
            final(self).tx_users() == old(self).tx_users(),
            match r {
                Ok(()) => {
                    &&& old(self).healthy()
                    &&& has_short_name(old(self).tx_sets(), q.short_name@)
                    &&& final(self).tx_sets() == mark_deleted_rows(
                        old(self).tx_sets(),
                        q.short_name@,
                        q.deleted,
                    )
                },
                Err(RepoKind::Exception(e)) => {
                    &&& old(self).healthy()
                    &&& !has_short_name(old(self).tx_sets(), q.short_name@)
                    &&& final(self).tx_sets() == old(self).tx_sets()
                    &&& e.short_name@ == q.short_name@
                },
                Err(RepoKind::Unexpected(_)) => {
                    &&& !old(self).healthy()
                    &&& final(self).tx_sets() == old(self).tx_sets()
                },
            },
    {
        if !self.healthy {
            return Err(RepoKind::unexpected(RepoError::new("storage unreachable".to_owned())));
        }
        let deleted = q.deleted();
        if table_mark_deleted(&mut self.tx_sets, &q.short_name, deleted) {
            proof {
                crate::model::lemma_wf_mark(rows_view(old(self).tx_sets@), q.short_name@, deleted);
            }
            Ok(())
        } else {
            Err(
                RepoKind::exception(
                    SetShortNameNotExist::new(q.short_name, "short name not found".to_owned()),
                ),
            )
        }
    }

    /// Every record of the open transaction passing the filter.
    pub fn get_all(&mut self, q: GetAll) -> (r: Result<Vec<StickerSet>, RepoError>)
        requires
            old(self).inv(),
            old(self).tx_open(),
        ensures
            *final(self) == *old(self),
            match r {
                Ok(v) => {
                    &&& old(self).healthy()
                    &&& rows_view(v@) == filter_rows(old(self).tx_sets(), q.get_deleted)
                },
                Err(_) => !old(self).healthy(),
            },
    {
        if !self.healthy {
            return Err(RepoError::new("storage unreachable".to_owned()));
        }
        Ok(table_filter(&self.tx_sets, q.get_deleted()))
    }

    /// How many records of one owner pass the filter, in the open
    /// transaction.
    pub fn count_by_tg_id(&mut self, q: CountByTgID) -> (r: Result<i64, RepoError>)
        requires
            old(self).inv(),
            old(self).tx_open(),
            old(self).tx_sets().len() <= 0x7fff_ffff_ffff_ffff,
        ensures
            *final(self) == *old(self),
            match r {
                Ok(c) => {
                    &&& old(self).healthy()
                    &&& c as int == count_of_owner(
                        old(self).tx_sets(),
                        q.tg_id as int,
                        q.count_deleted,
                    )
                },
                Err(_) => !old(self).healthy(),
            },
    {
        if !self.healthy {
            return Err(RepoError::new("storage unreachable".to_owned()));
        }
        let c = table_count_by_owner(&self.tx_sets, q.tg_id(), q.count_deleted());
        Ok(c as i64)
    }

    /// One count per known owner with a matching record, descending, in the
    /// open transaction.
    pub fn get_set_counts_for_all_users(&mut self, q: GetAll) -> (r: Result<Vec<i64>, RepoError>)
        requires
            old(self).inv(),
            old(self).tx_open(),
            old(self).tx_sets().len() <= 0x7fff_ffff_ffff_ffff,
        ensures
            *final(self) == *old(self),
            match r {
                Ok(v) => {
                    &&& old(self).healthy()
                    &&& sorted_desc_i64(v@)
                    &&& counts_view(v@).to_multiset() == owner_counts(
                        old(self).tx_users(),
                        old(self).tx_sets(),
                        q.get_deleted,
                    ).to_multiset()
                },
                Err(_) => !old(self).healthy(),
            },
    {
        if !self.healthy {
            return Err(RepoError::new("storage unreachable".to_owned()));
        }
        let counts = table_owner_counts(&self.tx_users, &self.tx_sets, q.get_deleted());
        Ok(sort_counts_desc(counts))
    }

    /// Records a user in the open transaction; an identifier already present
    /// is the named exception.
    pub fn create_user(&mut self, user: CreateUser) -> (r: Result<
        (),
        RepoKind<UserTgIdAlreadyExist>,
    >)
        requires
            old(self).inv(),
            old(self).tx_open(),
        ensures
            final(self).inv(),
            final(self).connected() == old(self).connected(),
            final(self).tx_open() == old(self).tx_open(),
            final(self).healthy() == old(self).healthy(),
            final(self).committed_sets() == old(self).committed_sets(),
            final(self).committed_users() == old(self).committed_users(),
            final(self).tx_sets() == old(self).tx_sets(),
            match r {
                Ok(()) => {
                    &&& old(self).healthy()
                    &&& !old(self).tx_users().contains(user.tg_id as int)
                    &&& final(self).tx_users() == old(self).tx_users().push(user.tg_id as int)
                },
                Err(RepoKind::Exception(e)) => {
                    &&& old(self).healthy()
                    &&& old(self).tx_users().contains(user.tg_id as int)
                    &&& final(self).tx_users() == old(self).tx_users()
                    &&& e.tg_id == user.tg_id
                },
                Err(RepoKind::Unexpected(_)) => {
                    &&& !old(self).healthy()
                    &&& final(self).tx_users() == old(self).tx_users()
                },
            },
    {
        if !self.healthy {
            return Err(RepoKind::unexpected(RepoError::new("storage unreachable".to_owned())));
        }
        let tg_id = user.tg_id();
        proof {
            crate::model::lemma_users_view_contains(self.tx_users@, tg_id);
        }
        if table_user_create(&mut self.tx_users, tg_id) {
            proof {
                assert(users_view(self.tx_users@) =~= users_view(old(self).tx_users@).push(
                    tg_id as int,
                ));
                crate::model::lemma_wf_users_push(users_view(old(self).tx_users@), tg_id as int);
            }
            Ok(())
        } else {
            Err(
                RepoKind::exception(
                    UserTgIdAlreadyExist::new(tg_id, "user already recorded".to_owned()),
                ),
            )
        }
    }
}

/// Creates in-memory units of work seeded from one initial state.
pub struct MemoryUoWFactory {
    pub sets: Vec<StickerSet>,
    pub users: Vec<i64>,
    pub healthy: bool,
}

impl MemoryUoWFactory {
    /// A factory over empty, reachable storage.
    pub fn new() -> (r: MemoryUoWFactory)
        ensures
            r.snapshot_sets() == Seq::<SetModel>::empty(),
            r.snapshot_users() == Seq::<int>::empty(),
            r.snapshot_healthy(),
            r.factory_inv(),
    {
        let r = MemoryUoWFactory { sets: Vec::new(), users: Vec::new(), healthy: true };
        proof {
            assert(rows_view(r.sets@) =~= Seq::<SetModel>::empty());
            assert(users_view(r.users@) =~= Seq::<int>::empty());
        }
        r
    }
}

impl UoWFactory for MemoryUoWFactory {
    type UoW = MemoryUoW;

    open spec fn snapshot_sets(&self) -> Seq<SetModel> {
        rows_view(self.sets@)
    }

    open spec fn snapshot_users(&self) -> Seq<int> {
        users_view(self.users@)
    }

    open spec fn snapshot_healthy(&self) -> bool {
        self.healthy
    }

    open spec fn factory_inv(&self) -> bool {
        wf_rows(rows_view(self.sets@)) && wf_users(users_view(self.users@))
    }

    fn create_uow(&self) -> (r: MemoryUoW) {
        MemoryUoW {
            committed_sets: clone_set_vec(&self.sets),
            committed_users: clone_user_vec(&self.users),
            tx_sets: Vec::new(),
            tx_users: Vec::new(),
            connected: false,
            tx_open: false,
            healthy: self.healthy,
        }
    }
}

} // verus!
