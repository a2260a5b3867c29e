//! Aggregate statistics over the per-owner counts.
//!
//! The repository hands the per-owner counts descending; the global
//! statistics bucket them against four thresholds and total them.

use vstd::prelude::*;

use crate::tables::sorted_desc_i64;

verus! {

/// The four thresholds of the global statistics.
pub enum GreaterThan {
    FirstLevel,
    SecondLevel,
    ThirdLevel,
    FourthLevel,
}

impl GreaterThan {
    /// The threshold an owner's count is measured against.
    pub open spec fn threshold(self) -> int {
        match self {
            GreaterThan::FirstLevel => 25,
            GreaterThan::SecondLevel => 50,
            GreaterThan::ThirdLevel => 75,
            GreaterThan::FourthLevel => 100,
        }
    }

    /// The threshold as display text.
    pub fn as_str(&self) -> (r: &'static str)
        ensures
            r@ == match *self {
                GreaterThan::FirstLevel => "25"@,
                GreaterThan::SecondLevel => "50"@,
                GreaterThan::ThirdLevel => "75"@,
                GreaterThan::FourthLevel => "100"@,
            },
    {
        match self {
            GreaterThan::FirstLevel => "25",
            GreaterThan::SecondLevel => "50",
            GreaterThan::ThirdLevel => "75",
            GreaterThan::FourthLevel => "100",
        }
    }

    /// The threshold as a count.
    pub fn value(&self) -> (r: i64)
        ensures
            r as int == self.threshold(),
    {
        match self {
            GreaterThan::FirstLevel => 25,
            GreaterThan::SecondLevel => 50,
            GreaterThan::ThirdLevel => 75,
            GreaterThan::FourthLevel => 100,
        }
    }
}

/// The global statistics: total cloned collections and how many owners pass
/// each threshold.
pub struct GlobalStats {
    pub total_stolen: i64,
    pub first_count: u32,
    pub second_count: u32,
    pub third_count: u32,
    pub fourth_count: u32,
}

impl GlobalStats {
    pub fn new(
        total_stolen: i64,
        first_count: u32,
        second_count: u32,
        third_count: u32,
        fourth_count: u32,
    ) -> (r: GlobalStats)
        ensures
            r.total_stolen == total_stolen,
            r.first_count == first_count,
            r.second_count == second_count,
            r.third_count == third_count,
            r.fourth_count == fourth_count,
    {
        GlobalStats { total_stolen, first_count, second_count, third_count, fourth_count }
    }
}

/// One user's statistics: all their records, and those not soft-deleted.
pub struct PersonalStats {
    pub total_user_sets_count: i64,
    pub not_deleted_user_sets_count: i64,
}

impl PersonalStats {
    pub fn new(total_user_sets_count: i64, not_deleted_user_sets_count: i64) -> (r: PersonalStats)
        ensures
            r.total_user_sets_count == total_user_sets_count,
            r.not_deleted_user_sets_count == not_deleted_user_sets_count,
    {
        PersonalStats { total_user_sets_count, not_deleted_user_sets_count }
    }
}

/// How many counts reach a threshold.
pub open spec fn count_ge(s: Seq<i64>, t: int) -> int
    decreases s.len(),
{
    if s.len() == 0 {
        0
    } else {
        count_ge(s.drop_last(), t) + if s.last() >= t {
            1int
        } else {
            0int
        }
    }
}

/// The sum of the counts.
pub open spec fn sum_counts(s: Seq<i64>) -> int
    decreases s.len(),
{
    if s.len() == 0 {
        0
    } else {
        sum_counts(s.drop_last()) + s.last()
    }
}

/// Once a descending list falls below a threshold, no later entry reaches
/// it.
proof fn lemma_count_ge_cutoff(s: Seq<i64>, i: int, t: int)
    requires
        sorted_desc_i64(s),
        0 <= i <= s.len(),
        i < s.len() ==> s[i] < t,
    ensures
        count_ge(s, t) == count_ge(s.take(i), t),
    decreases s.len() - i,
{
    if i < s.len() {
        assert(s.take(i + 1).drop_last() =~= s.take(i));
        assert(s.take(i + 1).last() == s[i]);
        lemma_count_ge_cutoff_step(s, i + 1, t);
        assert(count_ge(s.take(i + 1), t) == count_ge(s.take(i), t));
    } else {
        assert(s.take(i) =~= s);
    }
}

/// Helper for the cutoff: from position `j` on, every entry is below `t`.
proof fn lemma_count_ge_cutoff_step(s: Seq<i64>, j: int, t: int)
    requires
        sorted_desc_i64(s),
        0 < j <= s.len(),
        s[j - 1] < t,
    ensures
        count_ge(s, t) == count_ge(s.take(j), t),
    decreases s.len() - j,
{
    if j == s.len() {
        assert(s.take(j) =~= s);
    } else {
        assert(s[j] <= s[j - 1]);
        assert(s.take(j + 1).drop_last() =~= s.take(j));
        assert(s.take(j + 1).last() == s[j]);
        lemma_count_ge_cutoff_step(s, j + 1, t);
    }
}

/// A prefix of nonnegative counts sums to no more than the whole.
proof fn lemma_sum_prefix(s: Seq<i64>, i: int)
    requires
        forall|k: int| 0 <= k < s.len() ==> s[k] >= 0,
        0 <= i <= s.len(),
    ensures
        sum_counts(s.take(i)) <= sum_counts(s),
    decreases s.len() - i,
{
    if i == s.len() {
        assert(s.take(i) =~= s);
    } else {
        assert(s.take(i + 1).drop_last() =~= s.take(i));
        assert(s.take(i + 1).last() == s[i]);
        lemma_sum_prefix(s, i + 1);
    }
}

/// The global statistics of a descending list of per-owner counts: the
/// total of all counts, and for each threshold how many counts reach it.
///
/// Walks the list once and stops bucketing at the first count below the
/// lowest threshold, which the descending order makes sound.
pub fn compute_global_stats(counts: &Vec<i64>) -> (r: GlobalStats)
    requires
        sorted_desc_i64(counts@),
        counts@.len() <= 0xffff_ffff,
        forall|k: int| 0 <= k < counts@.len() ==> counts@[k] >= 0,
        sum_counts(counts@) <= 0x7fff_ffff_ffff_ffff,
    ensures
        r.total_stolen as int == sum_counts(counts@),
        r.first_count as int == count_ge(counts@, GreaterThan::FirstLevel.threshold()),
        r.second_count as int == count_ge(counts@, GreaterThan::SecondLevel.threshold()),
        r.third_count as int == count_ge(counts@, GreaterThan::ThirdLevel.threshold()),
        r.fourth_count as int == count_ge(counts@, GreaterThan::FourthLevel.threshold()),
{
    let n = counts.len();
    let mut gt_first: u32 = 0;
    let mut gt_second: u32 = 0;
    let mut gt_third: u32 = 0;
    let mut gt_fourth: u32 = 0;
    let mut i: usize = 0;
    proof {
        assert(counts@.take(n as int) =~= counts@);
    }
    while i < n
        invariant_except_break
            i <= n,
            n == counts@.len(),
            counts@.take(n as int) == counts@,
            n <= 0xffff_ffff,
            sorted_desc_i64(counts@),
            gt_first <= i && gt_second <= i && gt_third <= i && gt_fourth <= i,
            gt_first as int == count_ge(counts@.take(i as int), 25),
            gt_second as int == count_ge(counts@.take(i as int), 50),
            gt_third as int == count_ge(counts@.take(i as int), 75),
            gt_fourth as int == count_ge(counts@.take(i as int), 100),
        ensures
            gt_first as int == count_ge(counts@, 25),
            gt_second as int == count_ge(counts@, 50),
            gt_third as int == count_ge(counts@, 75),
            gt_fourth as int == count_ge(counts@, 100),
        decreases n - i,
    {
        let c = counts[i];
        proof {
            assert(counts@.take(i + 1 as int).drop_last() =~= counts@.take(i as int));
            assert(counts@.take(i + 1 as int).last() == counts@[i as int]);
        }
        if c < 25 {
            // everything after a sub-threshold count is below every threshold
            proof {
                lemma_count_ge_cutoff(counts@, i as int, 25);
                lemma_count_ge_cutoff(counts@, i as int, 50);
                lemma_count_ge_cutoff(counts@, i as int, 75);
                lemma_count_ge_cutoff(counts@, i as int, 100);
            }
            break ;
        }
        if c >= 100 {
            gt_fourth += 1;
        }
        if c >= 75 {
            gt_third += 1;
        }
        if c >= 50 {
            gt_second += 1;
        }
        gt_first += 1;
        i += 1;
    }
    let mut total: i64 = 0;
    let mut j: usize = 0;
    while j < n
        invariant
            j <= n,
            n == counts@.len(),
            forall|k: int| 0 <= k < counts@.len() ==> counts@[k] >= 0,
            sum_counts(counts@) <= 0x7fff_ffff_ffff_ffff,
            total as int == sum_counts(counts@.take(j as int)),
            total >= 0,
        decreases n - j,
    {
        proof {
            assert(counts@.take(j + 1 as int).drop_last() =~= counts@.take(j as int));
            assert(counts@.take(j + 1 as int).last() == counts@[j as int]);
            lemma_sum_prefix(counts@, j + 1 as int);
        }
        total = total + counts[j];
        j += 1;
    }
    proof {
        assert(counts@.take(n as int) =~= counts@);
    }
    GlobalStats::new(total, gt_first, gt_second, gt_third, gt_fourth)
}

} // verus!
