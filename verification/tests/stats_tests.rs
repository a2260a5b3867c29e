use steal_stickers_bot::stats::compute_global_stats;
use steal_stickers_bot::stats::GreaterThan;
use steal_stickers_bot::stats::PersonalStats;

#[test]
fn grouped_counts_bucket_against_the_thresholds() {
    let counts = vec![120, 80, 30, 10];
    let stats = compute_global_stats(&counts);
    assert_eq!(stats.first_count, 3);
    assert_eq!(stats.second_count, 2);
    // both 120 and 80 reach the third threshold of 75
    assert_eq!(stats.third_count, 2);
    assert_eq!(stats.fourth_count, 1);
    assert_eq!(stats.total_stolen, 240);
}

#[test]
fn empty_counts_give_zero_stats() {
    let stats = compute_global_stats(&Vec::new());
    assert_eq!(stats.total_stolen, 0);
    assert_eq!(stats.first_count, 0);
    assert_eq!(stats.second_count, 0);
    assert_eq!(stats.third_count, 0);
    assert_eq!(stats.fourth_count, 0);
}

#[test]
fn threshold_boundaries_are_inclusive() {
    let counts = vec![100, 75, 50, 25, 24];
    let stats = compute_global_stats(&counts);
    assert_eq!(stats.first_count, 4);
    assert_eq!(stats.second_count, 3);
    assert_eq!(stats.third_count, 2);
    assert_eq!(stats.fourth_count, 1);
    assert_eq!(stats.total_stolen, 274);
}

#[test]
fn counts_below_every_threshold_still_total() {
    let counts = vec![10, 5, 1];
    let stats = compute_global_stats(&counts);
    assert_eq!(stats.first_count, 0);
    assert_eq!(stats.total_stolen, 16);
}

#[test]
fn greater_than_levels() {
    assert_eq!(GreaterThan::FirstLevel.as_str(), "25");
    assert_eq!(GreaterThan::SecondLevel.as_str(), "50");
    assert_eq!(GreaterThan::ThirdLevel.as_str(), "75");
    assert_eq!(GreaterThan::FourthLevel.as_str(), "100");
    assert_eq!(GreaterThan::FirstLevel.value(), 25);
    assert_eq!(GreaterThan::FourthLevel.value(), 100);
}

#[test]
fn personal_stats_carry_their_counts() {
    let p = PersonalStats::new(12, 9);
    assert_eq!(p.total_user_sets_count, 12);
    assert_eq!(p.not_deleted_user_sets_count, 9);
}
