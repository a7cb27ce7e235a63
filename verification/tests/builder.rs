use openlaunch::builder::{
    builder_stats, current_milestone, milestone_counts, FundingPoint, InvestorCountPoint,
    MilestoneProgress,
};

fn ms(list: &[(i32, bool)]) -> Vec<MilestoneProgress> {
    list.iter().map(|&(order, completed)| MilestoneProgress { order, completed }).collect()
}

#[test]
fn milestone_counts_count_completed_ones() {
    assert_eq!(milestone_counts(&ms(&[])), (0, 0));
    assert_eq!(milestone_counts(&ms(&[(1, true), (2, false), (3, true)])), (2, 3));
}

#[test]
fn current_milestone_is_lowest_order_not_completed() {
    assert_eq!(current_milestone(&ms(&[(1, true), (2, false), (3, false)])), Some(1));
    // Stored out of order: the lowest order wins, not the first stored.
    assert_eq!(current_milestone(&ms(&[(3, false), (2, false), (1, true)])), Some(1));
    // Ties go to the first one.
    assert_eq!(current_milestone(&ms(&[(2, false), (2, false)])), Some(0));
    assert_eq!(current_milestone(&ms(&[(1, true), (2, true)])), None);
    assert_eq!(current_milestone(&ms(&[])), None);
}

#[test]
fn builder_stats_assembles_figures() {
    let s = builder_stats(
        "1500".to_string(),
        "500".to_string(),
        7,
        &ms(&[(1, true), (2, false)]),
        vec![FundingPoint { date: 86400, cumulative: "1500".to_string() }],
        vec![InvestorCountPoint { date: 86400, count: 7 }],
    );
    assert_eq!(s.total_raised, "1500");
    assert_eq!(s.funds_released, "500");
    assert_eq!(s.total_investors, 7);
    assert_eq!(s.milestones_completed, 1);
    assert_eq!(s.milestones_total, 2);
    assert_eq!(s.funding_over_time.len(), 1);
    assert_eq!(s.funding_over_time[0].cumulative, "1500");
    assert_eq!(s.investors_over_time[0].count, 7);
}
