//! Parameter objects of the repository operations.
//!
//! The deleted-filters are tri-state: `None` selects every row, `Some(true)`
//! only soft-deleted rows, `Some(false)` only rows not yet soft-deleted.

use vstd::prelude::*;

verus! {

/// Fields of a collection record to insert; the stored row starts with
/// `deleted = false`.
pub struct Create {
    pub tg_id: i64,
    pub short_name: String,
    pub title: String,
}

impl Create {
    pub fn new(tg_id: i64, short_name: String, title: String) -> (r: Create)
        ensures
            r.tg_id == tg_id,
            r.short_name@ == short_name@,
            r.title@ == title@,
    {
        Create { tg_id, short_name, title }
    }

    pub fn tg_id(&self) -> (r: i64)
        ensures
            r == self.tg_id,
    {
        self.tg_id
    }

    pub fn short_name(&self) -> (r: &String)
        ensures
            r == &self.short_name,
    {
        &self.short_name
    }

    pub fn title(&self) -> (r: &String)
        ensures
            r == &self.title,
    {
        &self.title
    }
}

/// Selects every record, with a tri-state deleted-filter.
pub struct GetAll {
    pub get_deleted: Option<bool>,
}

impl GetAll {
    pub fn new(get_deleted: Option<bool>) -> (r: GetAll)
        ensures
            r.get_deleted == get_deleted,
    {
        GetAll { get_deleted }
    }

    pub fn get_deleted(&self) -> (r: Option<bool>)
        ensures
            r == self.get_deleted,
    {
        self.get_deleted
    }
}

/// Selects the records of one owner, with a tri-state deleted-filter.
pub struct GetByTgID {
    pub tg_id: i64,
    pub get_deleted: Option<bool>,
}

impl GetByTgID {
    pub fn new(tg_id: i64, get_deleted: Option<bool>) -> (r: GetByTgID)
        ensures
            r.tg_id == tg_id,
            r.get_deleted == get_deleted,
    {
        GetByTgID { tg_id, get_deleted }
    }

    pub fn tg_id(&self) -> (r: i64)
        ensures
            r == self.tg_id,
    {
        self.tg_id
    }

    pub fn get_deleted(&self) -> (r: Option<bool>)
        ensures
            r == self.get_deleted,
    {
        self.get_deleted
    }
}

/// Selects one record by its unique short name.
pub struct GetByShortName {
    pub short_name: String,
}

impl GetByShortName {
    pub fn new(short_name: String) -> (r: GetByShortName)
        ensures
            r.short_name@ == short_name@,
    {
        GetByShortName { short_name }
    }

    pub fn short_name(&self) -> (r: &String)
        ensures
            r == &self.short_name,
    {
        &self.short_name
    }
}

/// Sets the `deleted` flag of the record with the given short name.
pub struct SetDeletedColByShortName {
    pub short_name: String,
    pub deleted: bool,
}

impl SetDeletedColByShortName {
    pub fn new(short_name: String, deleted: bool) -> (r: SetDeletedColByShortName)
        ensures
            r.short_name@ == short_name@,
            r.deleted == deleted,
    {
        SetDeletedColByShortName { short_name, deleted }
    }

    pub fn short_name(&self) -> (r: &String)
        ensures
            r == &self.short_name,
    {
        &self.short_name
    }

    pub fn deleted(&self) -> (r: bool)
        ensures
            r == self.deleted,
    {
        self.deleted
    }
}

/// Counts the records of one owner, with a tri-state deleted-filter.
pub struct CountByTgID {
    pub tg_id: i64,
    pub count_deleted: Option<bool>,
}

impl CountByTgID {
    pub fn new(tg_id: i64, count_deleted: Option<bool>) -> (r: CountByTgID)
        ensures
            r.tg_id == tg_id,
            r.count_deleted == count_deleted,
    {
        CountByTgID { tg_id, count_deleted }
    }

    pub fn tg_id(&self) -> (r: i64)
        ensures
            r == self.tg_id,
    {
        self.tg_id
    }

    pub fn count_deleted(&self) -> (r: Option<bool>)
        ensures
            r == self.count_deleted,
    {
        self.count_deleted
    }
}

/// The external identifier of a user to record.
pub struct CreateUser {
    pub tg_id: i64,
}

impl CreateUser {
    pub fn new(tg_id: i64) -> (r: CreateUser)
        ensures
            r.tg_id == tg_id,
    {
        CreateUser { tg_id }
    }

    pub fn tg_id(&self) -> (r: i64)
        ensures
            r == self.tg_id,
    {
        self.tg_id
    }
}

} // verus!
