//! Repository interfaces over one storage connection, and their in-memory
//! implementations.
//!
//! A [`Connection`] value is the state a connection makes visible: the two
//! tables and whether the storage behind it is still reachable. A repository
//! handle owns its connection; every operation classifies failure as
//! [`RepoKind::Exception`] (named business condition) or
//! [`RepoKind::Unexpected`] (storage unreachable).

use vstd::prelude::*;

use crate::dto::CountByTgID;
use crate::dto::Create;
use crate::dto::CreateUser;
use crate::dto::GetAll;
use crate::dto::GetByShortName;
use crate::dto::GetByTgID;
use crate::dto::SetDeletedColByShortName;
use crate::entities::SetModel;
use crate::entities::StickerSet;
use crate::exceptions::RepoError;
use crate::exceptions::RepoKind;
use crate::exceptions::SetShortNameAlreadyExist;
use crate::exceptions::SetShortNameNotExist;
use crate::exceptions::SetTgIdNotExist;
use crate::exceptions::UserTgIdAlreadyExist;
use crate::model::count_of_owner;
use crate::model::counts_view;
use crate::model::filter_rows;
use crate::model::find_short_name;
use crate::model::has_short_name;
use crate::model::mark_deleted_rows;
use crate::model::owner_counts;
use crate::model::row_of;
use crate::model::rows_of_owner;
use crate::model::rows_view;
use crate::model::users_view;
use crate::model::wf_rows;
use crate::model::wf_users;
use crate::tables::sorted_desc_i64;
use crate::tables::table_by_owner;
use crate::tables::table_count_by_owner;
use crate::tables::table_create;
use crate::tables::table_filter;
use crate::tables::table_find;
use crate::tables::table_mark_deleted;
use crate::tables::table_owner_counts;
use crate::tables::table_user_create;
use crate::tables::sort_counts_desc;

verus! {

/// The state one storage connection makes visible: both tables, and whether
/// the storage is reachable. Operations on an unreachable connection fail
/// with [`RepoKind::Unexpected`].
pub struct Connection {
    pub sets: Vec<StickerSet>,
    pub users: Vec<i64>,
    pub healthy: bool,
}

/// Transactional operations over the collection table.
///
/// Contracts are stated over the model views: `rows()` is the collection
/// table the handle sees, `conn_users()` the user table (the aggregate query
/// joins the two), `healthy()` whether the storage answers at all.
pub trait SetRepo: Sized {
    spec fn rows(&self) -> Seq<SetModel>;

    spec fn conn_users(&self) -> Seq<int>;

    spec fn healthy(&self) -> bool;

    /// Inserts a record; a taken short name is the named exception, never a
    /// silent overwrite.
    fn create(&mut self, set: Create) -> (r: Result<(), RepoKind<SetShortNameAlreadyExist>>)
        requires
            wf_rows(old(self).rows()),
        ensures
            final(self).healthy() == old(self).healthy(),
            final(self).conn_users() == old(self).conn_users(),
            wf_rows(final(self).rows()),
            match r {
                Ok(()) => {
                    &&& old(self).healthy()
                    &&& !has_short_name(old(self).rows(), set.short_name@)
                    &&& final(self).rows() == old(self).rows().push(row_of(set))
                },
                Err(RepoKind::Exception(e)) => {
                    &&& old(self).healthy()
                    &&& has_short_name(old(self).rows(), set.short_name@)
                    &&& final(self).rows() == old(self).rows()
                    &&& e.short_name@ == set.short_name@
                },
                Err(RepoKind::Unexpected(_)) => {
                    &&& !old(self).healthy()
                    &&& final(self).rows() == old(self).rows()
                },
            },
    ;

    /// The records of one owner, filtered; an owner with no records yields an
    /// empty list, not an error.
    fn get_by_tg_id(&mut self, q: GetByTgID) -> (r: Result<
        Vec<StickerSet>,
        RepoKind<SetTgIdNotExist>,
    >)
        ensures
            final(self).healthy() == old(self).healthy(),
            final(self).conn_users() == old(self).conn_users(),
            final(self).rows() == old(self).rows(),
            match r {
                Ok(v) => {
                    &&& old(self).healthy()
                    &&& rows_view(v@) == rows_of_owner(
                        old(self).rows(),
                        q.tg_id as int,
                        q.get_deleted,
                    )
                },
                Err(RepoKind::Exception(_)) => false,
                Err(RepoKind::Unexpected(_)) => !old(self).healthy(),
            },
    ;

    /// The record with the given short name; its absence is the named
    /// exception.
    fn get_one_by_short_name(&mut self, q: GetByShortName) -> (r: Result<
        StickerSet,
        RepoKind<SetShortNameNotExist>,
    >)
        ensures
            final(self).healthy() == old(self).healthy(),
            final(self).conn_users() == old(self).conn_users(),
            final(self).rows() == old(self).rows(),
            match r {
                Ok(row) => {
                    &&& old(self).healthy()
                    &&& find_short_name(old(self).rows(), q.short_name@) == Some(row@)
                },
                Err(RepoKind::Exception(e)) => {
                    &&& old(self).healthy()
                    &&& !has_short_name(old(self).rows(), q.short_name@)
                    &&& e.short_name@ == q.short_name@
                },
                Err(RepoKind::Unexpected(_)) => !old(self).healthy(),
            },
    ;

    /// Sets the `deleted` flag of the named record; rows with other names are
    /// untouched, and a missing name is the named exception.
    fn set_deleted_col_by_short_name(&mut self, q: SetDeletedColByShortName) -> (r: Result<
        (),
        RepoKind<SetShortNameNotExist>,
    >)
        requires
            wf_rows(old(self).rows()),
        ensures
            final(self).healthy() == old(self).healthy(),
            final(self).conn_users() == old(self).conn_users(),
            wf_rows(final(self).rows()),
            match r {
                Ok(()) => {
                    &&& old(self).healthy()
                    &&& has_short_name(old(self).rows(), q.short_name@)
                    &&& final(self).rows() == mark_deleted_rows(
                        old(self).rows(),
                        q.short_name@,
                        q.deleted,
                    )
                },
                Err(RepoKind::Exception(e)) => {
                    &&& old(self).healthy()
                    &&& !has_short_name(old(self).rows(), q.short_name@)
                    &&& final(self).rows() == old(self).rows()
                    &&& e.short_name@ == q.short_name@
                },
                Err(RepoKind::Unexpected(_)) => {
                    &&& !old(self).healthy()
                    &&& final(self).rows() == old(self).rows()
                },
            },
    ;

    /// Every record passing the tri-state deleted-filter, in table order.
    fn get_all(&mut self, q: GetAll) -> (r: Result<Vec<StickerSet>, RepoError>)
        ensures
            final(self).healthy() == old(self).healthy(),
            final(self).conn_users() == old(self).conn_users(),
            final(self).rows() == old(self).rows(),
            match r {
                Ok(v) => {
                    &&& old(self).healthy()
                    &&& rows_view(v@) == filter_rows(old(self).rows(), q.get_deleted)
                },
                Err(_) => !old(self).healthy(),
            },
    ;

    /// How many records of one owner pass the tri-state deleted-filter.
    fn count_by_tg_id(&mut self, q: CountByTgID) -> (r: Result<i64, RepoError>)
        requires
            old(self).rows().len() <= 0x7fff_ffff_ffff_ffff,
        ensures
            final(self).healthy() == old(self).healthy(),
            final(self).conn_users() == old(self).conn_users(),
            final(self).rows() == old(self).rows(),
            match r {
                Ok(c) => {
                    &&& old(self).healthy()
                    &&& c as int == count_of_owner(old(self).rows(), q.tg_id as int, q.count_deleted)
                },
                Err(_) => !old(self).healthy(),
            },
    ;

    /// One count per known owner with at least one matching record,
    /// descending: the per-owner counts of the user table joined against the
    /// collection table.
    fn get_set_counts_for_all_users(&mut self, q: GetAll) -> (r: Result<Vec<i64>, RepoError>)
        requires
            old(self).rows().len() <= 0x7fff_ffff_ffff_ffff,
        ensures
            final(self).healthy() == old(self).healthy(),
            final(self).conn_users() == old(self).conn_users(),
            final(self).rows() == old(self).rows(),
            match r {
                Ok(v) => {
                    &&& old(self).healthy()
                    &&& sorted_desc_i64(v@)
                    &&& counts_view(v@).to_multiset() == owner_counts(
                        old(self).conn_users(),
                        old(self).rows(),
                        q.get_deleted,
                    ).to_multiset()
                },
                Err(_) => !old(self).healthy(),
            },
    ;
}

/// Transactional operations over the user table.
pub trait UserRepo: Sized {
    spec fn users(&self) -> Seq<int>;

    spec fn users_healthy(&self) -> bool;

    /// Records a user; an identifier already present is the named exception,
    /// which makes recording idempotent for its callers.
    fn create(&mut self, user: CreateUser) -> (r: Result<(), RepoKind<UserTgIdAlreadyExist>>)
        requires
            wf_users(old(self).users()),
        ensures
            final(self).users_healthy() == old(self).users_healthy(),
            wf_users(final(self).users()),
            match r {
                Ok(()) => {
                    &&& old(self).users_healthy()
                    &&& !old(self).users().contains(user.tg_id as int)
                    &&& final(self).users() == old(self).users().push(user.tg_id as int)
                },
                Err(RepoKind::Exception(e)) => {
                    &&& old(self).users_healthy()
                    &&& old(self).users().contains(user.tg_id as int)
                    &&& final(self).users() == old(self).users()
                    &&& e.tg_id == user.tg_id
                },
                Err(RepoKind::Unexpected(_)) => {
                    &&& !old(self).users_healthy()
                    &&& final(self).users() == old(self).users()
                },
            },
    ;
}

/// The collection repository over one in-memory connection.
pub struct SetRepoImpl {
    pub conn: Connection,
}

impl SetRepoImpl {
    pub fn new(conn: Connection) -> (r: SetRepoImpl)
        ensures
            r.rows() == rows_view(conn.sets@),
            r.conn_users() == users_view(conn.users@),
            r.healthy() == conn.healthy,
    {
        SetRepoImpl { conn }
    }

    /// Hands the connection back, for the next handle bound to it.
    pub fn release(self) -> (c: Connection)
        ensures
            rows_view(c.sets@) == self.rows(),
            users_view(c.users@) == self.conn_users(),
            c.healthy == self.healthy(),
    {
        self.conn
    }
}

impl SetRepo for SetRepoImpl {
    open spec fn rows(&self) -> Seq<SetModel> {
        rows_view(self.conn.sets@)
    }

    open spec fn conn_users(&self) -> Seq<int> {
        users_view(self.conn.users@)
    }

    open spec fn healthy(&self) -> bool {
        self.conn.healthy
    }

    fn create(&mut self, set: Create) -> (r: Result<(), RepoKind<SetShortNameAlreadyExist>>) {
        if !self.conn.healthy {
            return Err(RepoKind::unexpected(RepoError::new("storage unreachable".to_owned())));
        }
        match table_create(&mut self.conn.sets, set) {
            Ok(()) => Ok(()),
            Err(e) => Err(RepoKind::exception(e)),
        }
    }

    fn get_by_tg_id(&mut self, q: GetByTgID) -> (r: Result<
        Vec<StickerSet>,
        RepoKind<SetTgIdNotExist>,
    >) {
        if !self.conn.healthy {
            return Err(RepoKind::unexpected(RepoError::new("storage unreachable".to_owned())));
        }
        Ok(table_by_owner(&self.conn.sets, q.tg_id(), q.get_deleted()))
    }

    fn get_one_by_short_name(&mut self, q: GetByShortName) -> (r: Result<
        StickerSet,
        RepoKind<SetShortNameNotExist>,
    >) {
        if !self.conn.healthy {
            return Err(RepoKind::unexpected(RepoError::new("storage unreachable".to_owned())));
        }
        match table_find(&self.conn.sets, q.short_name()) {
            Some(row) => Ok(row),
            None => Err(
                RepoKind::exception(
                    SetShortNameNotExist::new(q.short_name, "short name not found".to_owned()),
                ),
            ),
        }
    }

    fn set_deleted_col_by_short_name(&mut self, q: SetDeletedColByShortName) -> (r: Result<
        (),
        RepoKind<SetShortNameNotExist>,
    >) {
        if !self.conn.healthy {
            return Err(RepoKind::unexpected(RepoError::new("storage unreachable".to_owned())));
        }
        let deleted = q.deleted();
        if table_mark_deleted(&mut self.conn.sets, &q.short_name, deleted) {
            proof {
                crate::model::lemma_wf_mark(rows_view(old(self).conn.sets@), q.short_name@, deleted);
            }
            Ok(())
        } else {
            Err(
                RepoKind::exception(
                    SetShortNameNotExist::new(q.short_name, "short name not found".to_owned()),
                ),
            )
        }
    }

    fn get_all(&mut self, q: GetAll) -> (r: Result<Vec<StickerSet>, RepoError>) {
        if !self.conn.healthy {
            return Err(RepoError::new("storage unreachable".to_owned()));
        }
        Ok(table_filter(&self.conn.sets, q.get_deleted()))
    }

    fn count_by_tg_id(&mut self, q: CountByTgID) -> (r: Result<i64, RepoError>) {
        if !self.conn.healthy {
            return Err(RepoError::new("storage unreachable".to_owned()));
        }
        let c = table_count_by_owner(&self.conn.sets, q.tg_id(), q.count_deleted());
        Ok(c as i64)
    }

    fn get_set_counts_for_all_users(&mut self, q: GetAll) -> (r: Result<Vec<i64>, RepoError>) {
        if !self.conn.healthy {
            return Err(RepoError::new("storage unreachable".to_owned()));
        }
        let counts = table_owner_counts(&self.conn.users, &self.conn.sets, q.get_deleted());
        Ok(sort_counts_desc(counts))
    }
}

/// The user repository over one in-memory connection.
pub struct UserRepoImpl {
    pub conn: Connection,
}

impl UserRepoImpl {
    pub fn new(conn: Connection) -> (r: UserRepoImpl)
        ensures
            r.users() == users_view(conn.users@),
            r.users_healthy() == conn.healthy,
    {
        UserRepoImpl { conn }
    }

    /// Hands the connection back, for the next handle bound to it.
    pub fn release(self) -> (c: Connection)
        ensures
            users_view(c.users@) == self.users(),
            c.healthy == self.users_healthy(),
    {
        self.conn
    }
}

impl UserRepo for UserRepoImpl {
    open spec fn users(&self) -> Seq<int> {
        users_view(self.conn.users@)
    }

    open spec fn users_healthy(&self) -> bool {
        self.conn.healthy
    }

    fn create(&mut self, user: CreateUser) -> (r: Result<(), RepoKind<UserTgIdAlreadyExist>>) {
        if !self.conn.healthy {
            return Err(RepoKind::unexpected(RepoError::new("storage unreachable".to_owned())));
        }
        let tg_id = user.tg_id();
        proof {
            crate::model::lemma_users_view_contains(self.conn.users@, tg_id);
        }
        if table_user_create(&mut self.conn.users, tg_id) {
            proof {
                assert(users_view(self.conn.users@) =~= users_view(old(self).conn.users@).push(
                    tg_id as int,
                ));
                crate::model::lemma_wf_users_push(users_view(old(self).conn.users@), tg_id as int);
            }
            Ok(())
        } else {
            Err(
                RepoKind::exception(
                    UserTgIdAlreadyExist::new(tg_id, "user already recorded".to_owned()),
                ),
            )
        }
    }
}

} // verus!
