use vstd::prelude::*;

use crate::app_error::{is_bad_request, AppError};
use crate::metadata::MilestoneInput;
use crate::numeric::{decimal_normal_text, decimal_parses, decimal_to_text, parse_decimal};

verus! {

broadcast use vstd::string::group_string_axioms;

/// A milestone as it is stored: its allocation in basis points.
#[derive(Debug, Clone)]
pub struct PlannedMilestone {
    pub order: i32,
    pub title: String,
    pub description: String,
    pub allocation_bp: i32,
}

/// What is stored for a new project besides its request's plain fields: the target raise
/// and token supply in normal decimal form, and the milestones in basis points.
#[derive(Debug, Clone)]
pub struct ProjectPlan {
    pub target_raise: String,
    pub token_supply: String,
    pub milestones: Vec<PlannedMilestone>,
}

/// Every allocation, in percent, can be written in basis points as an `i32`.
pub open spec fn basis_points_fit(ms: Seq<MilestoneInput>) -> bool {
    forall|i: int| 0 <= i < ms.len() ==> i32::MIN <= #[trigger] ms[i].fund_allocation_percent * 100 <= i32::MAX
}

/// `p` is milestone `m` with its allocation converted from percent to basis points.
pub open spec fn planned_from(m: MilestoneInput, p: PlannedMilestone) -> bool {
    &&& p.order == m.order
    &&& p.title@ == m.title@
    &&& p.description@ == m.description@
    &&& p.allocation_bp == m.fund_allocation_percent * 100
}

/// The plan for a project whose symbol is free and whose amounts parse.
pub open spec fn plan_matches(plan: ProjectPlan, target_raise: Seq<char>, token_supply: Seq<char>, ms: Seq<MilestoneInput>) -> bool {
    &&& plan.target_raise@ == decimal_normal_text(target_raise)
    &&& plan.token_supply@ == decimal_normal_text(token_supply)
    &&& plan.milestones@.len() == ms.len()
    &&& forall|i: int| 0 <= i < ms.len() ==> planned_from(ms[i], #[trigger] plan.milestones@[i])
}

/// What preparing a project gives, checked in this order: a taken symbol, a target raise
/// that does not parse as a decimal, a token supply that does not, else the plan.
pub open spec fn project_outcome(
    symbol: Seq<char>,
    symbol_available: bool,
    target_raise: Seq<char>,
    token_supply: Seq<char>,
    ms: Seq<MilestoneInput>,
    r: Result<ProjectPlan, AppError>,
) -> bool {
    if !symbol_available {
        is_bad_request(r, "Symbol "@ + symbol + " is already taken"@)
    } else if !decimal_parses(target_raise) {
        is_bad_request(r, "Invalid target_raise"@)
    } else if !decimal_parses(token_supply) {
        is_bad_request(r, "Invalid token_supply"@)
    } else {
        r matches Ok(plan) && plan_matches(plan, target_raise, token_supply, ms)
    }
}

/// Converting the allocations would leave the `i32` range, on a request that gets that far.
pub open spec fn plan_overflows(
    symbol_available: bool,
    target_raise: Seq<char>,
    token_supply: Seq<char>,
    ms: Seq<MilestoneInput>,
) -> bool {
    symbol_available && decimal_parses(target_raise) && decimal_parses(token_supply) && !basis_points_fit(ms)
}

fn plan_milestones(ms: &[MilestoneInput]) -> (r: Vec<PlannedMilestone>)
    requires
        basis_points_fit(ms@),
    ensures
        r@.len() == ms@.len(),
        forall|i: int| 0 <= i < ms@.len() ==> planned_from(ms@[i], #[trigger] r@[i]),
{
    let mut out: Vec<PlannedMilestone> = Vec::new();
    let mut i: usize = 0;
    while i < ms.len()
        invariant
            basis_points_fit(ms@),
            0 <= i <= ms@.len(),
            out@.len() == i,
            forall|j: int| 0 <= j < i ==> planned_from(ms@[j], #[trigger] out@[j]),
        decreases ms@.len() - i,
    {
        let m = &ms[i];
        assert(i32::MIN <= ms@[i as int].fund_allocation_percent * 100 <= i32::MAX);
        let p = PlannedMilestone {
            order: m.order,
            title: String::from_str(m.title.as_str()),
            description: String::from_str(m.description.as_str()),
            allocation_bp: m.fund_allocation_percent * 100,
        };
        out.push(p);
        i = i + 1;
    }
    out
}

/// Prepare a new project for storage: refuse a taken symbol (`symbol_available` is the
/// database's answer), read the target raise and token supply as decimals, and convert
/// each milestone's allocation from percent to basis points.
pub fn prepare_project(
    symbol: &str,
    symbol_available: bool,
    target_raise: &str,
    token_supply: &str,
    milestones: &[MilestoneInput],
) -> (r: Result<ProjectPlan, AppError>)
    requires
        !plan_overflows(symbol_available, target_raise@, token_supply@, milestones@),
    ensures
        project_outcome(symbol@, symbol_available, target_raise@, token_supply@, milestones@, r),
{
    if !symbol_available {
        let mut msg = String::from_str("Symbol ");
        msg.append(symbol);
        msg.append(" is already taken");
        return Err(AppError::BadRequest(msg));
    }
    let target = match parse_decimal(target_raise) {
        Some(d) => d,
        None => return Err(AppError::BadRequest(String::from_str("Invalid target_raise"))),
    };
    let supply = match parse_decimal(token_supply) {
        Some(d) => d,
        None => return Err(AppError::BadRequest(String::from_str("Invalid token_supply"))),
    };
    let planned = plan_milestones(milestones);
    Ok(ProjectPlan { target_raise: decimal_to_text(&target), token_supply: decimal_to_text(&supply), milestones: planned })
}

/// Whether every allocation can be written in basis points as an `i32`.
fn basis_points_ok(ms: &[MilestoneInput]) -> (r: bool)
    ensures
        r == basis_points_fit(ms@),
{
    let mut i: usize = 0;
    while i < ms.len()
        invariant
            0 <= i <= ms@.len(),
            forall|j: int| 0 <= j < i ==> i32::MIN <= #[trigger] ms@[j].fund_allocation_percent * 100 <= i32::MAX,
        decreases ms@.len() - i,
    {
        let pct = ms[i].fund_allocation_percent;
        if pct < -21474836 || pct > 21474836 {
            assert(!(i32::MIN <= ms@[i as int].fund_allocation_percent * 100 <= i32::MAX));
            return false;
        }
        i = i + 1;
    }
    true
}

/// `prepare_project` for any input: `None` exactly where the request would get as far as
/// converting allocations that do not fit in basis points.
pub fn try_prepare_project(
    symbol: &str,
    symbol_available: bool,
    target_raise: &str,
    token_supply: &str,
    milestones: &[MilestoneInput],
) -> (r: Option<Result<ProjectPlan, AppError>>)
    ensures
        r is None <==> plan_overflows(symbol_available, target_raise@, token_supply@, milestones@),
        r matches Some(x) ==> project_outcome(symbol@, symbol_available, target_raise@, token_supply@, milestones@, x),
{
    if symbol_available && parse_decimal(target_raise).is_some() && parse_decimal(token_supply).is_some()
        && !basis_points_ok(milestones) {
        return None;
    }
    Some(prepare_project(symbol, symbol_available, target_raise, token_supply, milestones))
}

} // verus!
