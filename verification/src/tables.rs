//! Verified operations on the in-memory tables.
//!
//! Each function here is one parameterized query of the storage layer,
//! specified against the model functions of [`crate::model`]. The repository
//! handles and the unit of work are thin shells over these.

use vstd::prelude::*;

use crate::dto::Create;
use crate::entities::StickerSet;
use crate::model::count_of_owner;
use crate::model::filter_rows;
use crate::model::find_short_name;
use crate::model::has_short_name;
use crate::model::lemma_find_unique;
use crate::model::lemma_wf_push;
use crate::model::mark_deleted_row;
use crate::model::mark_deleted_rows;
use crate::model::matches_filter;
use crate::model::owner_matches;
use crate::model::row_of;
use crate::model::rows_of_owner;
use crate::model::rows_view;
use crate::model::users_view;
use crate::model::wf_rows;

verus! {

/// A field-by-field copy of a record vector.
pub(crate) fn clone_set_vec(v: &Vec<StickerSet>) -> (r: Vec<StickerSet>)
    ensures
        rows_view(r@) == rows_view(v@),
{
    let mut out: Vec<StickerSet> = Vec::new();
    let mut i: usize = 0;
    while i < v.len()
        invariant
            i <= v.len(),
            out@.len() == i as int,
            forall|k: int| 0 <= k < i ==> (#[trigger] out@[k])@ == v@[k]@,
        decreases v.len() - i,
    {
        out.push(v[i].duplicate());
        i += 1;
    }
    proof {
        assert(rows_view(out@) =~= rows_view(v@));
    }
    out
}

/// A copy of a user-identifier vector.
pub(crate) fn clone_user_vec(v: &Vec<i64>) -> (r: Vec<i64>)
    ensures
        r@ == v@,
{
    let mut out: Vec<i64> = Vec::new();
    let mut i: usize = 0;
    while i < v.len()
        invariant
            i <= v.len(),
            out@ == v@.take(i as int),
        decreases v.len() - i,
    {
        out.push(v[i]);
        proof {
            assert(out@ =~= v@.take(i + 1 as int));
        }
        i += 1;
    }
    proof {
        assert(v@.take(v@.len() as int) =~= v@);
    }
    out
}

/// Inserts a record unless its short name is already taken; the stored row
/// starts not deleted.
pub(crate) fn table_create(sets: &mut Vec<StickerSet>, set: Create) -> (r: Result<
    (),
    crate::exceptions::SetShortNameAlreadyExist,
>)
    requires
        wf_rows(rows_view(old(sets)@)),
    ensures
        wf_rows(rows_view(final(sets)@)),
        match r {
            Ok(()) => {
                &&& !has_short_name(rows_view(old(sets)@), set.short_name@)
                &&& rows_view(final(sets)@) == rows_view(old(sets)@).push(row_of(set))
            },
            Err(e) => {
                &&& has_short_name(rows_view(old(sets)@), set.short_name@)
                &&& final(sets)@ == old(sets)@
                &&& e.short_name@ == set.short_name@
            },
        },
{
    let n = sets.len();
    let mut i: usize = 0;
    while i < n
        invariant
            i <= n,
            n == sets@.len(),
            sets@ == old(sets)@,
            wf_rows(rows_view(sets@)),
            forall|k: int|
                0 <= k < i ==> (#[trigger] rows_view(sets@)[k]).short_name != set.short_name@,
        decreases n - i,
    {
        if sets[i].short_name == set.short_name {
            proof {
                assert(rows_view(sets@)[i as int].short_name == set.short_name@);
            }
            return Err(
                crate::exceptions::SetShortNameAlreadyExist::new(
                    set.short_name,
                    "short name already exists".to_owned(),
                ),
            );
        }
        i += 1;
    }
    proof {
        assert(!has_short_name(rows_view(sets@), set.short_name@));
    }
    let row = StickerSet {
        tg_id: set.tg_id,
        short_name: set.short_name,
        title: set.title,
        deleted: false,
    };
    proof {
        lemma_wf_push(rows_view(sets@), row@);
        assert(rows_view(sets@.push(row)) =~= rows_view(sets@).push(row@));
    }
    sets.push(row);
    Ok(())
}

/// The first record with the given short name, copied out.
pub(crate) fn table_find(sets: &Vec<StickerSet>, name: &String) -> (r: Option<StickerSet>)
    ensures
        match r {
            Some(row) => {
                &&& has_short_name(rows_view(sets@), name@)
                &&& find_short_name(rows_view(sets@), name@) == Some(row@)
            },
            None => !has_short_name(rows_view(sets@), name@),
        },
{
    let n = sets.len();
    let mut i: usize = 0;
    while i < n
        invariant
            i <= n,
            n == sets@.len(),
            forall|k: int| 0 <= k < i ==> (#[trigger] rows_view(sets@)[k]).short_name != name@,
        decreases n - i,
    {
        if sets[i].short_name == *name {
            proof {
                crate::model::lemma_find_skip(rows_view(sets@), name@, i as int);
                assert(rows_view(sets@).skip(i as int)[0] == rows_view(sets@)[i as int]);
                assert(find_short_name(rows_view(sets@), name@) == Some(
                    rows_view(sets@)[i as int],
                ));
            }
            return Some(sets[i].duplicate());
        }
        i += 1;
    }
    None
}

/// Sets the `deleted` flag on every record with the given short name (at most
/// one under the table invariant); reports whether one was there.
pub(crate) fn table_mark_deleted(sets: &mut Vec<StickerSet>, name: &String, value: bool) -> (r:
    bool)
    ensures
        rows_view(final(sets)@) == if r {
            mark_deleted_rows(rows_view(old(sets)@), name@, value)
        } else {
            rows_view(old(sets)@)
        },
        r == has_short_name(rows_view(old(sets)@), name@),
{
    let n = sets.len();
    let mut out: Vec<StickerSet> = Vec::new();
    let mut found = false;
    let mut i: usize = 0;
    while i < n
        invariant
            i <= n,
            n == sets@.len(),
            sets@ == old(sets)@,
            out@.len() == i as int,
            forall|k: int|
                0 <= k < i ==> (#[trigger] out@[k])@ == mark_deleted_row(
                    rows_view(sets@)[k],
                    name@,
                    value,
                ),
            found ==> exists|k: int|
                0 <= k < i && (#[trigger] rows_view(sets@)[k]).short_name == name@,
            !found ==> forall|k: int|
                0 <= k < i ==> (#[trigger] rows_view(sets@)[k]).short_name != name@,
        decreases n - i,
    {
        let mut row = sets[i].duplicate();
        if row.short_name == *name {
            row.deleted = value;
            found = true;
            proof {
                assert((#[trigger] rows_view(sets@)[i as int]).short_name == name@);
            }
        } else {
            proof {
                assert(rows_view(sets@)[i as int].short_name != name@);
            }
        }
        proof {
            assert(out@.push(row)[i as int]@ == mark_deleted_row(
                rows_view(sets@)[i as int],
                name@,
                value,
            ));
        }
        out.push(row);
        i += 1;
    }
    if found {
        proof {
            assert(rows_view(out@) =~= mark_deleted_rows(rows_view(sets@), name@, value));
        }
        *sets = out;
    } else {
        proof {
            assert(!has_short_name(rows_view(sets@), name@));
        }
    }
    found
}

/// The records passing a tri-state deleted-filter, copied out in table order.
pub(crate) fn table_filter(sets: &Vec<StickerSet>, f: Option<bool>) -> (r: Vec<StickerSet>)
    ensures
        rows_view(r@) == filter_rows(rows_view(sets@), f),
{
    let n = sets.len();
    let mut out: Vec<StickerSet> = Vec::new();
    let mut i: usize = 0;
    while i < n
        invariant
            i <= n,
            n == sets@.len(),
            rows_view(out@) == filter_rows(rows_view(sets@).take(i as int), f),
        decreases n - i,
    {
        let keep = match f {
            Option::None => true,
            Option::Some(d) => sets[i].deleted == d,
        };
        proof {
            assert(rows_view(sets@).take(i + 1 as int).drop_last() =~= rows_view(sets@).take(
                i as int,
            ));
            assert(rows_view(sets@).take(i + 1 as int).last() == rows_view(sets@)[i as int]);
            assert(keep == matches_filter(rows_view(sets@)[i as int], f));
        }
        if keep {
            out.push(sets[i].duplicate());
            proof {
                assert(rows_view(out@) =~= filter_rows(rows_view(sets@).take(i as int), f).push(
                    rows_view(sets@)[i as int],
                ));
            }
        }
        i += 1;
    }
    proof {
        assert(rows_view(sets@).take(n as int) =~= rows_view(sets@));
    }
    out
}

/// The records of one owner passing a tri-state deleted-filter, copied out in
/// table order.
pub(crate) fn table_by_owner(sets: &Vec<StickerSet>, tg_id: i64, f: Option<bool>) -> (r: Vec<
    StickerSet,
>)
    ensures
        rows_view(r@) == rows_of_owner(rows_view(sets@), tg_id as int, f),
{
    let n = sets.len();
    let mut out: Vec<StickerSet> = Vec::new();
    let mut i: usize = 0;
    while i < n
        invariant
            i <= n,
            n == sets@.len(),
            rows_view(out@) == rows_of_owner(rows_view(sets@).take(i as int), tg_id as int, f),
        decreases n - i,
    {
        let same_owner = sets[i].tg_id == tg_id;
        let keep = same_owner && match f {
            Option::None => true,
            Option::Some(d) => sets[i].deleted == d,
        };
        proof {
            assert(rows_view(sets@).take(i + 1 as int).drop_last() =~= rows_view(sets@).take(
                i as int,
            ));
            assert(rows_view(sets@).take(i + 1 as int).last() == rows_view(sets@)[i as int]);
            assert(keep == owner_matches(rows_view(sets@)[i as int], tg_id as int, f));
        }
        if keep {
            out.push(sets[i].duplicate());
            proof {
                assert(rows_view(out@) =~= rows_of_owner(
                    rows_view(sets@).take(i as int),
                    tg_id as int,
                    f,
                ).push(rows_view(sets@)[i as int]));
            }
        }
        i += 1;
    }
    proof {
        assert(rows_view(sets@).take(n as int) =~= rows_view(sets@));
    }
    out
}

/// How many records of one owner pass a tri-state deleted-filter.
pub(crate) fn table_count_by_owner(sets: &Vec<StickerSet>, tg_id: i64, f: Option<bool>) -> (r:
    usize)
    ensures
        r as int == count_of_owner(rows_view(sets@), tg_id as int, f),
        r <= sets@.len(),
{
    let n = sets.len();
    let mut count: usize = 0;
    let mut i: usize = 0;
    while i < n
        invariant
            i <= n,
            n == sets@.len(),
            count as int == count_of_owner(rows_view(sets@).take(i as int), tg_id as int, f),
            count <= i,
        decreases n - i,
    {
        let keep = sets[i].tg_id == tg_id && match f {
            Option::None => true,
            Option::Some(d) => sets[i].deleted == d,
        };
        proof {
            assert(rows_view(sets@).take(i + 1 as int).drop_last() =~= rows_view(sets@).take(
                i as int,
            ));
            assert(rows_view(sets@).take(i + 1 as int).last() == rows_view(sets@)[i as int]);
            assert(keep == owner_matches(rows_view(sets@)[i as int], tg_id as int, f));
        }
        if keep {
            count += 1;
        }
        i += 1;
    }
    proof {
        assert(rows_view(sets@).take(n as int) =~= rows_view(sets@));
    }
    count
}

/// Descending order on stored counts.
pub open spec fn sorted_desc_i64(s: Seq<i64>) -> bool {
    forall|i: int, j: int| 0 <= i <= j < s.len() ==> s[i] >= s[j]
}

/// The per-owner counts in user-table order, owners with no matching record
/// left out; the aggregate query sorts these descending afterwards.
pub(crate) fn table_owner_counts(users: &Vec<i64>, sets: &Vec<StickerSet>, f: Option<bool>) -> (r:
    Vec<i64>)
    requires
        sets@.len() <= 0x7fff_ffff_ffff_ffff,
    ensures
        crate::model::counts_view(r@) == crate::model::owner_counts(
            users_view(users@),
            rows_view(sets@),
            f,
        ),
{
    let n = users.len();
    let mut out: Vec<i64> = Vec::new();
    let mut i: usize = 0;
    while i < n
        invariant
            i <= n,
            n == users@.len(),
            sets@.len() <= 0x7fff_ffff_ffff_ffff,
            crate::model::counts_view(out@) == crate::model::owner_counts(
                users_view(users@).take(i as int),
                rows_view(sets@),
                f,
            ),
        decreases n - i,
    {
        let c = table_count_by_owner(sets, users[i], f);
        proof {
            assert(users_view(users@).take(i + 1 as int).drop_last() =~= users_view(users@).take(
                i as int,
            ));
            assert(users_view(users@).take(i + 1 as int).last() == users@[i as int] as int);
        }
        if c > 0 {
            out.push(c as i64);
            proof {
                assert(crate::model::counts_view(out@) =~= crate::model::owner_counts(
                    users_view(users@).take(i as int),
                    rows_view(sets@),
                    f,
                ).push(c as int));
            }
        }
        i += 1;
    }
    proof {
        assert(users_view(users@).take(n as int) =~= users_view(users@));
    }
    out
}

/// Sorts counts descending; the result is a permutation of the input.
pub(crate) fn sort_counts_desc(v: Vec<i64>) -> (r: Vec<i64>)
    ensures
        sorted_desc_i64(r@),
        r@.to_multiset() == v@.to_multiset(),
        crate::model::counts_view(r@).to_multiset() == crate::model::counts_view(v@).to_multiset(),
{
    let n = v.len();
    let mut out: Vec<i64> = Vec::new();
    proof {
        assert(v@.take(0) =~= out@);
        assert(crate::model::counts_view(v@.take(0)) =~= crate::model::counts_view(out@));
    }
    let mut i: usize = 0;
    while i < n
        invariant
            i <= n,
            n == v@.len(),
            sorted_desc_i64(out@),
            out@.to_multiset() == v@.take(i as int).to_multiset(),
            crate::model::counts_view(out@).to_multiset() == crate::model::counts_view(
                v@.take(i as int),
            ).to_multiset(),
        decreases n - i,
    {
        let x = v[i];
        let mut pos: usize = 0;
        while pos < out.len() && out[pos] >= x
            invariant
                pos <= out@.len(),
                forall|k: int| 0 <= k < pos ==> out@[k] >= x,
            decreases out@.len() - pos,
        {
            pos += 1;
        }
        proof {
            assert(v@.take(i + 1 as int).drop_last() =~= v@.take(i as int));
            assert(v@.take(i + 1 as int).last() == v@[i as int]);
        }
        let ghost pre = out@;
        out.insert(pos, x);
        proof {
            assert(v@.take(i + 1 as int) =~= v@.take(i as int).push(v@[i as int]));
            vstd::seq_lib::to_multiset_insert::<i64>(pre, pos as int, x);
            vstd::seq_lib::to_multiset_build::<i64>(v@.take(i as int), x);
            assert(crate::model::counts_view(out@) =~= crate::model::counts_view(pre).insert(
                pos as int,
                x as int,
            ));
            assert(crate::model::counts_view(v@.take(i + 1 as int)) =~= crate::model::counts_view(
                v@.take(i as int),
            ).push(x as int));
            vstd::seq_lib::to_multiset_insert::<int>(
                crate::model::counts_view(pre),
                pos as int,
                x as int,
            );
            vstd::seq_lib::to_multiset_build::<int>(
                crate::model::counts_view(v@.take(i as int)),
                x as int,
            );
            assert forall|p: int, q: int| 0 <= p <= q < out@.len() implies out@[p] >= out@[q] by {
                if p < pos && q < pos {
                    assert(out@[p] == pre[p] && out@[q] == pre[q]);
                } else if p < pos && q == pos {
                    assert(out@[p] == pre[p]);
                } else if p < pos && q > pos {
                    assert(out@[p] == pre[p] && out@[q] == pre[q - 1]);
                } else if p == pos && q > pos {
                    assert(out@[q] == pre[q - 1]);
                    assert(q - 1 < pre.len());
                    assert(pos < pre.len());
                    assert(pre[pos as int] < x);
                    assert(pre[q - 1] <= pre[pos as int]);
                } else if p > pos && q > pos {
                    assert(out@[p] == pre[p - 1] && out@[q] == pre[q - 1]);
                }
            }
        }
        i += 1;
    }
    proof {
        assert(v@.take(n as int) =~= v@);
    }
    out
}

/// Records a user identifier unless it is already present.
pub(crate) fn table_user_create(users: &mut Vec<i64>, tg_id: i64) -> (r: bool)
    ensures
        final(users)@ == if r {
            old(users)@.push(tg_id)
        } else {
            old(users)@
        },
        r == !old(users)@.contains(tg_id),
{
    let n = users.len();
    let mut i: usize = 0;
    while i < n
        invariant
            i <= n,
            n == users@.len(),
            users@ == old(users)@,
            forall|k: int| 0 <= k < i ==> users@[k] != tg_id,
        decreases n - i,
    {
        if users[i] == tg_id {
            return false;
        }
        i += 1;
    }
    users.push(tg_id);
    true
}

} // verus!
