//! Entities of the engine: the local record of a cloned collection and the
//! user that requested it.

use vstd::prelude::*;

verus! {

/// Mathematical model of one stored collection record.
pub struct SetModel {
    pub tg_id: int,
    pub short_name: Seq<char>,
    pub title: Seq<char>,
    pub deleted: bool,
}

/// Local record of one externally owned collection cloned by this engine.
///
/// `short_name` is the external service's globally unique identifier for the
/// collection; `deleted` starts `false` and only ever flips to `true`.
pub struct StickerSet {
    pub tg_id: i64,
    pub short_name: String,
    pub title: String,
    pub deleted: bool,
}

impl View for StickerSet {
    type V = SetModel;

    open spec fn view(&self) -> SetModel {
        SetModel {
            tg_id: self.tg_id as int,
            short_name: self.short_name@,
            title: self.title@,
            deleted: self.deleted,
        }
    }
}

impl StickerSet {
    /// A field-by-field copy of the record.
    pub fn duplicate(&self) -> (r: StickerSet)
        ensures
            r@ == self@,
    {
        StickerSet {
            tg_id: self.tg_id,
            short_name: self.short_name.clone(),
            title: self.title.clone(),
            deleted: self.deleted,
        }
    }
}

/// One row of an aggregate count query.
pub struct SetCount(pub i64);

impl SetCount {
    /// The count the row carries.
    pub fn value(self) -> (r: i64)
        ensures
            r == self.0,
    {
        self.0
    }
}

/// A user known to the engine; created idempotently on first interaction and
/// never deleted.
pub struct User {
    pub tg_id: i64,
}

impl View for User {
    type V = int;

    open spec fn view(&self) -> int {
        self.tg_id as int
    }
}

} // verus!
