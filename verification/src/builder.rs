use vstd::prelude::*;

verus! {

/// Cumulative funding of a project at the start of a day (unix seconds).
#[derive(Debug, Clone)]
pub struct FundingPoint {
    pub date: i64,
    pub cumulative: String,
}

/// Cumulative number of distinct investors of a project at the start of a day.
#[derive(Debug, Clone)]
pub struct InvestorCountPoint {
    pub date: i64,
    pub count: i64,
}

/// The figures of a project's builder dashboard.
#[derive(Debug, Clone)]
pub struct BuilderStats {
    pub total_raised: String,
    pub total_investors: i64,
    pub milestones_completed: i32,
    pub milestones_total: i32,
    pub funds_released: String,
    pub funding_over_time: Vec<FundingPoint>,
    pub investors_over_time: Vec<InvestorCountPoint>,
}

/// What the dashboard needs to know of one milestone: its position in the plan and
/// whether it has been completed.
#[derive(Debug, Clone)]
pub struct MilestoneProgress {
    pub order: i32,
    pub completed: bool,
}

/// Number of completed milestones in `ms`.
pub open spec fn count_completed(ms: Seq<MilestoneProgress>) -> nat
    decreases ms.len(),
{
    if ms.len() == 0 {
        0
    } else {
        count_completed(ms.drop_last()) + if ms.last().completed {
            1nat
        } else {
            0nat
        }
    }
}

/// `ms[i]` is the current milestone: not completed, of the lowest order among those not
/// completed, and the first of that order.
pub open spec fn is_current(ms: Seq<MilestoneProgress>, i: int) -> bool {
    &&& 0 <= i < ms.len()
    &&& !ms[i].completed
    &&& forall|j: int| 0 <= j < ms.len() && !(#[trigger] ms[j]).completed ==> ms[i].order <= ms[j].order
    &&& forall|j: int| 0 <= j < i && !(#[trigger] ms[j]).completed ==> ms[i].order < ms[j].order
}

/// (completed, total) milestones, each count as an `i32`.
pub fn milestone_counts(ms: &[MilestoneProgress]) -> (r: (i32, i32))
    ensures
        r.0 == count_completed(ms@) as i32,
        r.1 == ms@.len() as i32,
{
    let mut done: usize = 0;
    let mut i: usize = 0;
    while i < ms.len()
        invariant
            0 <= i <= ms@.len(),
            done == count_completed(ms@.take(i as int)),
            done <= i,
        decreases ms@.len() - i,
    {
        proof {
            assert(ms@.take(i + 1).drop_last() =~= ms@.take(i as int));
        }
        if ms[i].completed {
            done = done + 1;
        }
        i = i + 1;
    }
    proof {
        assert(ms@.take(ms@.len() as int) =~= ms@);
    }
    (done as i32, ms.len() as i32)
}

/// The milestone the project is working on: the first not completed milestone of the
/// lowest order; none when all are completed.
pub fn current_milestone(ms: &[MilestoneProgress]) -> (r: Option<usize>)
    ensures
        match r {
            Some(i) => is_current(ms@, i as int),
            None => forall|j: int| 0 <= j < ms@.len() ==> (#[trigger] ms@[j]).completed,
        },
{
    let mut best: Option<usize> = None;
    let mut i: usize = 0;
    while i < ms.len()
        invariant
            0 <= i <= ms@.len(),
            match best {
                Some(b) => b < i && !ms@[b as int].completed && (forall|j: int|
                    0 <= j < i && !(#[trigger] ms@[j]).completed ==> ms@[b as int].order <= ms@[j].order) && (forall|j: int|
                    0 <= j < b && !(#[trigger] ms@[j]).completed ==> ms@[b as int].order < ms@[j].order),
                None => forall|j: int| 0 <= j < i ==> (#[trigger] ms@[j]).completed,
            },
        decreases ms@.len() - i,
    {
        if !ms[i].completed {
            match best {
                Some(b) => {
                    if ms[i].order < ms[b].order {
                        best = Some(i);
                    }
                },
                None => {
                    best = Some(i);
                },
            }
        }
        i = i + 1;
    }
    best
}

/// Assemble a project's dashboard figures from its stored totals, its milestones and its
/// funding and investor histories.
pub fn builder_stats(
    total_raised: String,
    funds_released: String,
    total_investors: i64,
    milestones: &[MilestoneProgress],
    funding_over_time: Vec<FundingPoint>,
    investors_over_time: Vec<InvestorCountPoint>,
) -> (s: BuilderStats)
    ensures
        s.total_raised == total_raised,
        s.funds_released == funds_released,
        s.total_investors == total_investors,
        s.milestones_completed == count_completed(milestones@) as i32,
        s.milestones_total == milestones@.len() as i32,
        s.funding_over_time@ == funding_over_time@,
        s.investors_over_time@ == investors_over_time@,
{
    let (milestones_completed, milestones_total) = milestone_counts(milestones);
    BuilderStats {
        total_raised,
        total_investors,
        milestones_completed,
        milestones_total,
        funds_released,
        funding_over_time,
        investors_over_time,
    }
}

} // verus!
