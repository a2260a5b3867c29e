//! The stated laws of the engine, each proved against the model the
//! repository and reconciliation contracts are written in.

use vstd::prelude::*;

use crate::dto::Create;
use crate::entities::SetModel;
use crate::model::find_short_name;
use crate::model::has_short_name;
use crate::model::lemma_find_unique;
use crate::model::lemma_wf_mark;
use crate::model::lemma_wf_push;
use crate::model::mark_deleted_row;
use crate::model::mark_deleted_rows;
use crate::model::row_of;
use crate::model::wf_rows;
use crate::reconcile::mark_many;

verus! {

/// How many rows carry a short name.
pub open spec fn count_short_name(rows: Seq<SetModel>, name: Seq<char>) -> int
    decreases rows.len(),
{
    if rows.len() == 0 {
        0
    } else {
        count_short_name(rows.drop_last(), name) + if rows.last().short_name == name {
            1int
        } else {
            0int
        }
    }
}

/// A well-formed prefix of a well-formed table.
proof fn lemma_wf_drop_last(rows: Seq<SetModel>)
    requires
        wf_rows(rows),
        rows.len() > 0,
    ensures
        wf_rows(rows.drop_last()),
{
    assert forall|i: int, j: int| 0 <= i < j < rows.drop_last().len()
        implies (#[trigger] rows.drop_last()[i]).short_name != (#[trigger] rows.drop_last()[j]).short_name by {
        assert(rows.drop_last()[i] == rows[i]);
        assert(rows.drop_last()[j] == rows[j]);
    }
}

/// Law: recording a collection under a fresh short name and then fetching
/// that short name returns a record with exactly the recorded owner, name
/// and title, not yet deleted.
pub proof fn lemma_create_then_get(rows: Seq<SetModel>, c: Create)
    requires
        wf_rows(rows),
        !has_short_name(rows, c.short_name@),
    ensures
        find_short_name(rows.push(row_of(c)), c.short_name@) == Some(row_of(c)),
        row_of(c).tg_id == c.tg_id as int,
        row_of(c).short_name == c.short_name@,
        row_of(c).title == c.title@,
        !row_of(c).deleted,
{
    lemma_wf_push(rows, row_of(c));
    assert(rows.push(row_of(c))[rows.len() as int] == row_of(c));
    lemma_find_unique(rows.push(row_of(c)), c.short_name@, rows.len() as int);
}

/// Law: a well-formed table holds exactly one row per present short name —
/// so recording the same short name a second time, which the repository
/// answers with the named exception and no insertion, leaves exactly one
/// row for it.
pub proof fn lemma_one_row_per_short_name(rows: Seq<SetModel>, name: Seq<char>)
    requires
        wf_rows(rows),
    ensures
        count_short_name(rows, name) == if has_short_name(rows, name) {
            1int
        } else {
            0int
        },
    decreases rows.len(),
{
    if rows.len() > 0 {
        let prefix = rows.drop_last();
        lemma_wf_drop_last(rows);
        lemma_one_row_per_short_name(prefix, name);
        let last = rows.len() - 1;
        if rows[last].short_name == name {
            assert(has_short_name(rows, name));
            if has_short_name(prefix, name) {
                let k = choose|k: int|
                    0 <= k < prefix.len() && (#[trigger] prefix[k]).short_name == name;
                assert(rows[k].short_name == name);
                assert(false);
            }
        } else {
            if has_short_name(prefix, name) {
                let k = choose|k: int|
                    0 <= k < prefix.len() && (#[trigger] prefix[k]).short_name == name;
                assert(rows[k].short_name == name);
                assert(has_short_name(rows, name));
            }
            if has_short_name(rows, name) {
                let k = choose|k: int|
                    0 <= k < rows.len() && (#[trigger] rows[k]).short_name == name;
                assert(k < last);
                assert(prefix[k].short_name == name);
                assert(has_short_name(prefix, name));
            }
        }
    }
}

/// Law: setting the deleted flag is idempotent — the second application
/// changes nothing — and afterwards the named record carries the flag.
pub proof fn lemma_set_deleted_idempotent(rows: Seq<SetModel>, name: Seq<char>, value: bool)
    requires
        wf_rows(rows),
        has_short_name(rows, name),
    ensures
        mark_deleted_rows(mark_deleted_rows(rows, name, value), name, value) == mark_deleted_rows(
            rows,
            name,
            value,
        ),
        find_short_name(mark_deleted_rows(rows, name, value), name) matches Some(r) && r.deleted
            == value,
{
    crate::model::lemma_mark_idempotent(rows, name, value);
    lemma_wf_mark(rows, name, value);
    let marked = mark_deleted_rows(rows, name, value);
    let i = choose|i: int| 0 <= i < rows.len() && (#[trigger] rows[i]).short_name == name;
    assert(marked[i] == mark_deleted_row(rows[i], name, value));
    lemma_find_unique(marked, name, i);
}

/// Law: a reconciliation pass never resurrects a record and never touches
/// one whose short name it did not mark. Every row keeps its owner, name
/// and title; its deleted flag afterwards holds exactly when it held before
/// or the pass marked the name.
pub proof fn lemma_reconcile_monotone(rows: Seq<SetModel>, names: Seq<Seq<char>>)
    ensures
        mark_many(rows, names).len() == rows.len(),
        forall|i: int|
            0 <= i < rows.len() ==> {
                let r2 = #[trigger] mark_many(rows, names)[i];
                &&& r2.short_name == rows[i].short_name
                &&& r2.title == rows[i].title
                &&& r2.tg_id == rows[i].tg_id
                &&& r2.deleted == (rows[i].deleted || names.contains(rows[i].short_name))
            },
    decreases names.len(),
{
    let out = mark_many(rows, names);
    if names.len() == 0 {
        assert forall|i: int| 0 <= i < rows.len() implies !names.contains(
            (#[trigger] rows[i]).short_name,
        ) by {}
    } else {
        let prev = mark_many(rows, names.drop_last());
        lemma_reconcile_monotone(rows, names.drop_last());
        let lastname = names.last();
        assert forall|i: int| 0 <= i < rows.len() implies {
            let r2 = #[trigger] out[i];
            &&& r2.short_name == rows[i].short_name
            &&& r2.title == rows[i].title
            &&& r2.tg_id == rows[i].tg_id
            &&& r2.deleted == (rows[i].deleted || names.contains(rows[i].short_name))
        } by {
            assert(out[i] == mark_deleted_row(prev[i], lastname, true));
            let nm = rows[i].short_name;
            if names.contains(nm) {
                let k = choose|k: int| 0 <= k < names.len() && names[k] == nm;
                if k < names.len() - 1 {
                    assert(names.drop_last()[k] == nm);
                    assert(names.drop_last().contains(nm));
                } else {
                    assert(lastname == nm);
                }
            }
            if names.drop_last().contains(nm) {
                let k = choose|k: int| 0 <= k < names.drop_last().len() && names.drop_last()[k] == nm;
                assert(names[k] == nm);
                assert(names.contains(nm));
            }
            if lastname == nm {
                assert(names[names.len() - 1] == nm);
                assert(names.contains(nm));
            }
        }
    }
}

} // verus!
