//! Mathematical model of the two stored tables.
//!
//! The repository contracts are stated over a `Seq<SetModel>` (the collection
//! table, in insertion order) and a `Seq<int>` (the user table, external
//! identifiers in insertion order). The spec functions here say what each
//! operation returns or changes; the lemmas are the facts the verified
//! implementations and the stated laws rest on.

use vstd::prelude::*;

use crate::dto::Create;
use crate::entities::SetModel;
use crate::entities::StickerSet;

verus! {

/// The model of a vector of stored records.
pub open spec fn rows_view(s: Seq<StickerSet>) -> Seq<SetModel> {
    s.map_values(|x: StickerSet| x@)
}

/// The model of a vector of user identifiers.
pub open spec fn users_view(s: Seq<i64>) -> Seq<int> {
    s.map_values(|x: i64| x as int)
}

/// The model of a vector of aggregate counts.
pub open spec fn counts_view(s: Seq<i64>) -> Seq<int> {
    s.map_values(|x: i64| x as int)
}

/// The row that inserting the given fields commits: `deleted` starts `false`.
pub open spec fn row_of(c: Create) -> SetModel {
    SetModel { tg_id: c.tg_id as int, short_name: c.short_name@, title: c.title@, deleted: false }
}

/// The table invariant: short names are unique across all rows, soft-deleted
/// rows included.
pub open spec fn wf_rows(rows: Seq<SetModel>) -> bool {
    forall|i: int, j: int|
        0 <= i < j < rows.len() ==> (#[trigger] rows[i]).short_name != (#[trigger] rows[j]).short_name
}

/// The user-table invariant: external identifiers are unique.
pub open spec fn wf_users(users: Seq<int>) -> bool {
    forall|i: int, j: int| 0 <= i < j < users.len() ==> users[i] != users[j]
}

/// Whether a row passes a tri-state deleted-filter.
pub open spec fn matches_filter(r: SetModel, f: Option<bool>) -> bool {
    match f {
        Option::None => true,
        Option::Some(d) => r.deleted == d,
    }
}

/// Whether a row belongs to the given owner and passes the filter.
pub open spec fn owner_matches(r: SetModel, tg_id: int, f: Option<bool>) -> bool {
    r.tg_id == tg_id && matches_filter(r, f)
}

/// The rows that pass a deleted-filter, in table order.
pub open spec fn filter_rows(rows: Seq<SetModel>, f: Option<bool>) -> Seq<SetModel>
    decreases rows.len(),
{
    if rows.len() == 0 {
        Seq::empty()
    } else {
        let rest = filter_rows(rows.drop_last(), f);
        if matches_filter(rows.last(), f) {
            rest.push(rows.last())
        } else {
            rest
        }
    }
}

/// The rows of one owner that pass a deleted-filter, in table order.
pub open spec fn rows_of_owner(rows: Seq<SetModel>, tg_id: int, f: Option<bool>) -> Seq<SetModel>
    decreases rows.len(),
{
    if rows.len() == 0 {
        Seq::empty()
    } else {
        let rest = rows_of_owner(rows.drop_last(), tg_id, f);
        if owner_matches(rows.last(), tg_id, f) {
            rest.push(rows.last())
        } else {
            rest
        }
    }
}

/// How many rows of one owner pass a deleted-filter.
pub open spec fn count_of_owner(rows: Seq<SetModel>, tg_id: int, f: Option<bool>) -> int {
    rows_of_owner(rows, tg_id, f).len() as int
}

/// Whether some row carries the given short name.
pub open spec fn has_short_name(rows: Seq<SetModel>, name: Seq<char>) -> bool {
    exists|i: int| 0 <= i < rows.len() && (#[trigger] rows[i]).short_name == name
}

/// The first row carrying the given short name, if any. Under [`wf_rows`]
/// it is the only one.
pub open spec fn find_short_name(rows: Seq<SetModel>, name: Seq<char>) -> Option<SetModel>
    decreases rows.len(),
{
    if rows.len() == 0 {
        Option::None
    } else if rows[0].short_name == name {
        Option::Some(rows[0])
    } else {
        find_short_name(rows.drop_first(), name)
    }
}

/// One row after `deleted` is set on the named row.
pub open spec fn mark_deleted_row(r: SetModel, name: Seq<char>, value: bool) -> SetModel {
    if r.short_name == name {
        SetModel { deleted: value, ..r }
    } else {
        r
    }
}

/// The table after `deleted` is set on the named row; rows with other names
/// are untouched.
pub open spec fn mark_deleted_rows(rows: Seq<SetModel>, name: Seq<char>, value: bool) -> Seq<
    SetModel,
> {
    rows.map_values(|r: SetModel| mark_deleted_row(r, name, value))
}

/// The per-owner counts of the users listed in `users`, in user-table order,
/// owners with no matching row left out.
pub open spec fn owner_counts(users: Seq<int>, rows: Seq<SetModel>, f: Option<bool>) -> Seq<int>
    decreases users.len(),
{
    if users.len() == 0 {
        Seq::empty()
    } else {
        let rest = owner_counts(users.drop_last(), rows, f);
        let c = count_of_owner(rows, users.last(), f);
        if c > 0 {
            rest.push(c)
        } else {
            rest
        }
    }
}

/// Membership is the same in a user vector and its model.
pub proof fn lemma_users_view_contains(s: Seq<i64>, x: i64)
    ensures
        users_view(s).contains(x as int) <==> s.contains(x),
{
    if s.contains(x) {
        let k = choose|k: int| 0 <= k < s.len() && s[k] == x;
        assert(users_view(s)[k] == x as int);
    }
    if users_view(s).contains(x as int) {
        let k = choose|k: int| 0 <= k < users_view(s).len() && users_view(s)[k] == x as int;
        assert(s[k] as int == x as int);
        assert(s[k] == x);
    }
}

/// Appending a fresh identifier keeps the user table well-formed.
pub proof fn lemma_wf_users_push(users: Seq<int>, id: int)
    requires
        wf_users(users),
        !users.contains(id),
    ensures
        wf_users(users.push(id)),
{
    let out = users.push(id);
    assert forall|i: int, j: int| 0 <= i < j < out.len() implies out[i] != out[j] by {
        if j < users.len() {
            assert(out[i] == users[i] && out[j] == users[j]);
        } else {
            assert(out[j] == id);
            assert(out[i] == users[i]);
        }
    }
}

/// Finding a name is the same from any prefix known not to hold it.
pub proof fn lemma_find_skip(rows: Seq<SetModel>, name: Seq<char>, i: int)
    requires
        0 <= i <= rows.len(),
        forall|k: int| 0 <= k < i ==> (#[trigger] rows[k]).short_name != name,
    ensures
        find_short_name(rows, name) == find_short_name(rows.skip(i), name),
    decreases i,
{
    if i > 0 {
        assert(rows.skip(i - 1).drop_first() =~= rows.skip(i));
        assert(rows.skip(i - 1)[0] == rows[i - 1]);
        lemma_find_skip(rows, name, i - 1);
    } else {
        assert(rows.skip(0) =~= rows);
    }
}

/// In a well-formed table, a row carrying a name is the row `find` returns.
pub proof fn lemma_find_unique(rows: Seq<SetModel>, name: Seq<char>, i: int)
    requires
        wf_rows(rows),
        0 <= i < rows.len(),
        rows[i].short_name == name,
    ensures
        find_short_name(rows, name) == Option::Some(rows[i]),
    decreases rows.len(),
{
    if i == 0 {
    } else {
        assert(rows[0].short_name != name);
        assert(rows.drop_first()[i - 1] == rows[i]);
        assert(wf_rows(rows.drop_first())) by {
            assert forall|p: int, q: int| 0 <= p < q < rows.drop_first().len()
                implies (#[trigger] rows.drop_first()[p]).short_name != (#[trigger] rows.drop_first()[q]).short_name by {
                assert(rows.drop_first()[p] == rows[p + 1]);
                assert(rows.drop_first()[q] == rows[q + 1]);
            }
        }
        lemma_find_unique(rows.drop_first(), name, i - 1);
    }
}

/// Appending a row with a fresh short name keeps the table well-formed.
pub proof fn lemma_wf_push(rows: Seq<SetModel>, r: SetModel)
    requires
        wf_rows(rows),
        !has_short_name(rows, r.short_name),
    ensures
        wf_rows(rows.push(r)),
{
    let rows2 = rows.push(r);
    assert forall|i: int, j: int| 0 <= i < j < rows2.len()
        implies (#[trigger] rows2[i]).short_name != (#[trigger] rows2[j]).short_name by {
        if j < rows.len() {
            assert(rows2[i] == rows[i] && rows2[j] == rows[j]);
        } else {
            assert(rows2[j] == r);
            assert(rows2[i] == rows[i]);
        }
    }
}

/// Setting the deleted flag keeps the table well-formed and the short names
/// in place.
pub proof fn lemma_wf_mark(rows: Seq<SetModel>, name: Seq<char>, value: bool)
    requires
        wf_rows(rows),
    ensures
        wf_rows(mark_deleted_rows(rows, name, value)),
        mark_deleted_rows(rows, name, value).len() == rows.len(),
        forall|i: int|
            0 <= i < rows.len() ==> (#[trigger] mark_deleted_rows(rows, name, value)[i]).short_name
                == rows[i].short_name,
{
    let out = mark_deleted_rows(rows, name, value);
    assert(out.len() == rows.len());
    assert forall|i: int| 0 <= i < rows.len()
        implies (#[trigger] out[i]).short_name == rows[i].short_name by {
        assert(out[i] == mark_deleted_row(rows[i], name, value));
    }
}

/// Setting the same flag twice is the same as setting it once.
pub proof fn lemma_mark_idempotent(rows: Seq<SetModel>, name: Seq<char>, value: bool)
    ensures
        mark_deleted_rows(mark_deleted_rows(rows, name, value), name, value)
            == mark_deleted_rows(rows, name, value),
{
    let once = mark_deleted_rows(rows, name, value);
    let twice = mark_deleted_rows(once, name, value);
    assert forall|i: int| 0 <= i < rows.len() implies twice[i] == once[i] by {
        assert(once[i] == mark_deleted_row(rows[i], name, value));
        assert(twice[i] == mark_deleted_row(once[i], name, value));
    }
    assert(twice =~= once);
}

} // verus!
