use vstd::prelude::*;

use crate::app_error::{is_bad_request, AppError};
use crate::auth::utf8_len;
use crate::decimal::{i128_to_string, int_text};
use crate::text::{chars_of, has_prefix, text_starts_with, utf8_len_upto};
use crate::upload::validate_image_uri;

verus! {

/// Token metadata submitted before a project goes on chain.
#[derive(Debug, Clone)]
pub struct CreateMetadataRequest {
    pub name: String,
    pub symbol: String,
    pub image_uri: String,
    pub category: String,
    pub homepage: Option<String>,
    pub twitter: Option<String>,
    pub telegram: Option<String>,
    pub discord: Option<String>,
    pub milestones: Vec<MilestoneInput>,
}

/// One milestone of a project's funding plan.
#[derive(Debug, Clone)]
pub struct MilestoneInput {
    pub order: i32,
    pub title: String,
    pub description: String,
    pub fund_allocation_percent: i32,
}

pub open spec fn is_symbol_char(c: char) -> bool {
    ('A' <= c && c <= 'Z') || ('0' <= c && c <= '9')
}

/// A link that is given must start with `https://`.
pub open spec fn link_ok(url: Option<String>) -> bool {
    url matches Some(u) ==> has_prefix(u@, "https://"@)
}

/// Sum of the fund allocations of `ms`.
pub open spec fn allocation_sum(ms: Seq<MilestoneInput>) -> int
    decreases ms.len(),
{
    if ms.len() == 0 {
        0
    } else {
        allocation_sum(ms.drop_last()) + ms.last().fund_allocation_percent
    }
}

/// Every running total of the allocations fits in an `i32`.
pub open spec fn allocation_sums_fit(ms: Seq<MilestoneInput>) -> bool {
    forall|k: int| 0 <= k <= ms.len() ==> i32::MIN <= #[trigger] allocation_sum(ms.take(k)) <= i32::MAX
}

/// What is wrong with one milestone, if anything.
pub open spec fn milestone_problem(m: MilestoneInput) -> Option<Seq<char>> {
    if m.title@.len() == 0 {
        Some("Milestone title is required"@)
    } else if m.description@.len() == 0 {
        Some("Milestone description is required"@)
    } else if m.fund_allocation_percent < 1 || m.fund_allocation_percent > 100 {
        Some("Milestone allocation must be 1-100"@)
    } else {
        None
    }
}

/// What is wrong with the first faulty milestone of `ms`, if any.
pub open spec fn first_milestone_problem(ms: Seq<MilestoneInput>) -> Option<Seq<char>>
    decreases ms.len(),
{
    if ms.len() == 0 {
        None
    } else {
        match milestone_problem(ms[0]) {
            Some(p) => Some(p),
            None => first_milestone_problem(ms.drop_first()),
        }
    }
}

/// The checks that come before the milestone allocations are summed all pass.
pub open spec fn passes_checks_before_sum(req: CreateMetadataRequest, image_public_url: Seq<char>) -> bool {
    &&& 2 <= utf8_len(req.name@) <= 50
    &&& 2 <= utf8_len(req.symbol@) <= 10
    &&& forall|i: int| 0 <= i < req.symbol@.len() ==> is_symbol_char(#[trigger] req.symbol@[i])
    &&& 1 <= utf8_len(req.category@) <= 50
    &&& image_public_url.len() > 0 && has_prefix(req.image_uri@, image_public_url)
    &&& link_ok(req.homepage) && link_ok(req.twitter) && link_ok(req.telegram) && link_ok(req.discord)
    &&& 2 <= req.milestones@.len() <= 6
}

/// The first problem validation finds in a request, checked in this order: name, symbol
/// length, symbol characters, category, image URI, the links, the number of milestones,
/// the sum of their allocations, then each milestone in turn.
pub open spec fn metadata_problem(req: CreateMetadataRequest, image_public_url: Seq<char>) -> Option<Seq<char>> {
    if utf8_len(req.name@) < 2 || utf8_len(req.name@) > 50 {
        Some("name must be 2-50 characters"@)
    } else if utf8_len(req.symbol@) < 2 || utf8_len(req.symbol@) > 10 {
        Some("symbol must be 2-10 characters"@)
    } else if !(forall|i: int| 0 <= i < req.symbol@.len() ==> is_symbol_char(#[trigger] req.symbol@[i])) {
        Some("symbol must be uppercase letters and digits only"@)
    } else if req.category@.len() == 0 || utf8_len(req.category@) > 50 {
        Some("category must be 1-50 characters"@)
    } else if !(image_public_url.len() > 0 && has_prefix(req.image_uri@, image_public_url)) {
        Some("image_uri must be a valid uploaded image URL"@)
    } else if !link_ok(req.homepage) {
        Some("homepage must start with https://"@)
    } else if !link_ok(req.twitter) {
        Some("twitter must start with https://"@)
    } else if !link_ok(req.telegram) {
        Some("telegram must start with https://"@)
    } else if !link_ok(req.discord) {
        Some("discord must start with https://"@)
    } else if req.milestones@.len() < 2 || req.milestones@.len() > 6 {
        Some("Must have 2-6 milestones"@)
    } else if allocation_sum(req.milestones@) != 100 {
        Some("Milestone allocations must sum to 100, got "@ + int_text(allocation_sum(req.milestones@)))
    } else {
        first_milestone_problem(req.milestones@)
    }
}

/// Every milestone has a title and a description and an allocation from 1 to 100.
proof fn lemma_no_milestone_problem(ms: Seq<MilestoneInput>)
    requires
        forall|i: int|
            0 <= i < ms.len() ==> (#[trigger] ms[i]).title@.len() > 0 && ms[i].description@.len() > 0 && 1
                <= ms[i].fund_allocation_percent <= 100,
    ensures
        first_milestone_problem(ms) is None,
    decreases ms.len(),
{
    if ms.len() > 0 {
        let t = ms.drop_first();
        assert forall|i: int| 0 <= i < t.len() implies (#[trigger] t[i]).title@.len() > 0 && t[i].description@.len()
            > 0 && 1 <= t[i].fund_allocation_percent <= 100 by {
            assert(t[i] == ms[i + 1]);
        }
        assert(ms[0].title@.len() > 0);
        lemma_no_milestone_problem(t);
    }
}

/// Every refusal a single milestone can cause differs from the milestone-count refusal.
proof fn lemma_milestone_problem_not_count(ms: Seq<MilestoneInput>)
    ensures
        first_milestone_problem(ms) != Some("Must have 2-6 milestones"@),
    decreases ms.len(),
{
    reveal_strlit("Must have 2-6 milestones");
    reveal_strlit("Milestone title is required");
    reveal_strlit("Milestone description is required");
    reveal_strlit("Milestone allocation must be 1-100");
    assert("Milestone title is required"@ != "Must have 2-6 milestones"@) by {
        assert("Milestone title is required"@.len() != "Must have 2-6 milestones"@.len());
    }
    assert("Milestone description is required"@ != "Must have 2-6 milestones"@) by {
        assert("Milestone description is required"@.len() != "Must have 2-6 milestones"@.len());
    }
    assert("Milestone allocation must be 1-100"@ != "Must have 2-6 milestones"@) by {
        assert("Milestone allocation must be 1-100"@.len() != "Must have 2-6 milestones"@.len());
    }
    if ms.len() > 0 {
        lemma_milestone_problem_not_count(ms.drop_first());
    }
}

/// A request is accepted when nothing is wrong with it: a name of 2 to 50 bytes, a symbol
/// of 2 to 10 bytes of uppercase letters and digits, a category of 1 to 50 bytes, an
/// image under the bucket's public URL, `https://` links, two to six milestones (six
/// included) whose allocations sum to 100, each with a title, a description and an
/// allocation from 1 to 100. The milestone count is refused only for fewer than two or
/// more than six milestones.
pub proof fn lemma_valid_metadata_accepted(req: CreateMetadataRequest, image_public_url: Seq<char>)
    ensures
        ({
            &&& 2 <= utf8_len(req.name@) <= 50
            &&& 2 <= utf8_len(req.symbol@) <= 10
            &&& forall|i: int| 0 <= i < req.symbol@.len() ==> {
                let c = #[trigger] req.symbol@[i];
                ('A' <= c && c <= 'Z') || ('0' <= c && c <= '9')
            }
            &&& req.category@.len() > 0 && utf8_len(req.category@) <= 50
            &&& image_public_url.len() > 0 && has_prefix(req.image_uri@, image_public_url)
            &&& req.homepage matches Some(u) ==> has_prefix(u@, "https://"@)
            &&& req.twitter matches Some(u) ==> has_prefix(u@, "https://"@)
            &&& req.telegram matches Some(u) ==> has_prefix(u@, "https://"@)
            &&& req.discord matches Some(u) ==> has_prefix(u@, "https://"@)
            &&& 2 <= req.milestones@.len() <= 6
            &&& allocation_sum(req.milestones@) == 100
            &&& forall|i: int|
                0 <= i < req.milestones@.len() ==> (#[trigger] req.milestones@[i]).title@.len() > 0
                    && req.milestones@[i].description@.len() > 0 && 1 <= req.milestones@[i].fund_allocation_percent
                    <= 100
        }) ==> metadata_problem(req, image_public_url) is None,
        2 <= req.milestones@.len() <= 6 ==> metadata_problem(req, image_public_url) != Some(
            "Must have 2-6 milestones"@,
        ),
{
    reveal_strlit("Must have 2-6 milestones");
    reveal_strlit("name must be 2-50 characters");
    reveal_strlit("symbol must be 2-10 characters");
    reveal_strlit("symbol must be uppercase letters and digits only");
    reveal_strlit("category must be 1-50 characters");
    reveal_strlit("image_uri must be a valid uploaded image URL");
    reveal_strlit("homepage must start with https://");
    reveal_strlit("twitter must start with https://");
    reveal_strlit("telegram must start with https://");
    reveal_strlit("discord must start with https://");
    reveal_strlit("Milestone allocations must sum to 100, got ");
    assert("name must be 2-50 characters"@ != "Must have 2-6 milestones"@) by {
        assert("name must be 2-50 characters"@.len() != "Must have 2-6 milestones"@.len());
    }
    assert("symbol must be 2-10 characters"@ != "Must have 2-6 milestones"@) by {
        assert("symbol must be 2-10 characters"@.len() != "Must have 2-6 milestones"@.len());
    }
    assert("symbol must be uppercase letters and digits only"@ != "Must have 2-6 milestones"@) by {
        assert("symbol must be uppercase letters and digits only"@.len() != "Must have 2-6 milestones"@.len());
    }
    assert("category must be 1-50 characters"@ != "Must have 2-6 milestones"@) by {
        assert("category must be 1-50 characters"@.len() != "Must have 2-6 milestones"@.len());
    }
    assert("image_uri must be a valid uploaded image URL"@ != "Must have 2-6 milestones"@) by {
        assert("image_uri must be a valid uploaded image URL"@.len() != "Must have 2-6 milestones"@.len());
    }
    assert("homepage must start with https://"@ != "Must have 2-6 milestones"@) by {
        assert("homepage must start with https://"@.len() != "Must have 2-6 milestones"@.len());
    }
    assert("twitter must start with https://"@ != "Must have 2-6 milestones"@) by {
        assert("twitter must start with https://"@.len() != "Must have 2-6 milestones"@.len());
    }
    assert("telegram must start with https://"@ != "Must have 2-6 milestones"@) by {
        assert("telegram must start with https://"@.len() != "Must have 2-6 milestones"@.len());
    }
    assert("discord must start with https://"@ != "Must have 2-6 milestones"@) by {
        assert("discord must start with https://"@.len() != "Must have 2-6 milestones"@.len());
    }
    lemma_milestone_problem_not_count(req.milestones@);
    if forall|i: int|
        0 <= i < req.milestones@.len() ==> (#[trigger] req.milestones@[i]).title@.len() > 0
            && req.milestones@[i].description@.len() > 0 && 1 <= req.milestones@[i].fund_allocation_percent <= 100 {
        lemma_no_milestone_problem(req.milestones@);
    }
    let sum_msg = "Milestone allocations must sum to 100, got "@ + int_text(allocation_sum(req.milestones@));
    assert(sum_msg.len() >= 43);
    assert(sum_msg != "Must have 2-6 milestones"@) by {
        assert(sum_msg.len() != "Must have 2-6 milestones"@.len());
    }
}

fn link_is_https(url: &Option<String>) -> (r: bool)
    ensures
        r == link_ok(*url),
{
    match url {
        Some(u) => text_starts_with(u.as_str(), "https://"),
        None => true,
    }
}

fn symbol_chars_ok(symbol: &str) -> (r: bool)
    ensures
        r == (forall|i: int| 0 <= i < symbol@.len() ==> is_symbol_char(#[trigger] symbol@[i])),
{
    let v = chars_of(symbol);
    let mut i: usize = 0;
    while i < v.len()
        invariant
            v@ == symbol@,
            0 <= i <= v@.len(),
            forall|j: int| 0 <= j < i ==> is_symbol_char(#[trigger] v@[j]),
        decreases v@.len() - i,
    {
        let c = v[i];
        if !(('A' <= c && c <= 'Z') || ('0' <= c && c <= '9')) {
            return false;
        }
        i = i + 1;
    }
    true
}

fn byte_len_upto(s: &str, limit: usize) -> (r: usize)
    requires
        limit < 1000,
    ensures
        r == if utf8_len(s@) <= limit { utf8_len(s@) } else { (limit + 1) as nat },
{
    let v = chars_of(s);
    proof {
        assert(v@.subrange(0, v@.len() as int) =~= v@);
    }
    utf8_len_upto(&v, 0, v.len(), limit)
}

/// The allocations summed exactly (at most six of them are ever summed).
fn sum_allocations(ms: &Vec<MilestoneInput>) -> (r: i64)
    requires
        ms@.len() <= 6,
    ensures
        r == allocation_sum(ms@),
{
    let mut total: i64 = 0;
    let mut i: usize = 0;
    while i < ms.len()
        invariant
            ms@.len() <= 6,
            0 <= i <= ms@.len(),
            total == allocation_sum(ms@.take(i as int)),
            -(i as int) * 0x8000_0000 <= total <= (i as int) * 0x8000_0000,
        decreases ms@.len() - i,
    {
        proof {
            assert(ms@.take(i + 1).drop_last() =~= ms@.take(i as int));
        }
        total = total + ms[i].fund_allocation_percent as i64;
        i = i + 1;
    }
    proof {
        assert(ms@.take(ms@.len() as int) =~= ms@);
    }
    total
}

/// Whether every running total of the allocations fits in an `i32`.
fn running_sums_fit(ms: &Vec<MilestoneInput>) -> (r: bool)
    requires
        ms@.len() <= 6,
    ensures
        r == allocation_sums_fit(ms@),
{
    let mut total: i64 = 0;
    let mut i: usize = 0;
    proof {
        assert(ms@.take(0) =~= Seq::<MilestoneInput>::empty());
    }
    while i < ms.len()
        invariant
            ms@.len() <= 6,
            0 <= i <= ms@.len(),
            total == allocation_sum(ms@.take(i as int)),
            i32::MIN <= total <= i32::MAX,
            forall|k: int| 0 <= k <= i ==> i32::MIN <= #[trigger] allocation_sum(ms@.take(k)) <= i32::MAX,
        decreases ms@.len() - i,
    {
        proof {
            assert(ms@.take(i + 1).drop_last() =~= ms@.take(i as int));
        }
        total = total + ms[i].fund_allocation_percent as i64;
        if total < i32::MIN as i64 || total > i32::MAX as i64 {
            proof {
                assert(!(i32::MIN <= allocation_sum(ms@.take(i + 1)) <= i32::MAX));
            }
            return false;
        }
        i = i + 1;
    }
    proof {
        assert(ms@.take(ms@.len() as int) =~= ms@);
    }
    true
}

fn check_milestones(ms: &Vec<MilestoneInput>) -> (r: Option<&'static str>)
    ensures
        match first_milestone_problem(ms@) {
            Some(p) => r matches Some(m) && m@ == p,
            None => r is None,
        },
{
    let mut i: usize = 0;
    proof {
        assert(ms@.skip(0) =~= ms@);
    }
    while i < ms.len()
        invariant
            0 <= i <= ms@.len(),
            first_milestone_problem(ms@) == first_milestone_problem(ms@.skip(i as int)),
        decreases ms@.len() - i,
    {
        let m = &ms[i];
        proof {
            assert(ms@.skip(i as int)[0] == ms@[i as int]);
            assert(ms@.skip(i as int).drop_first() =~= ms@.skip(i + 1));
        }
        if m.title.as_str().is_empty() {
            return Some("Milestone title is required");
        }
        if m.description.as_str().is_empty() {
            return Some("Milestone description is required");
        }
        if m.fund_allocation_percent < 1 || m.fund_allocation_percent > 100 {
            return Some("Milestone allocation must be 1-100");
        }
        i = i + 1;
    }
    None
}

fn bad_request(msg: &str) -> (r: Result<(), AppError>)
    ensures
        is_bad_request(r, msg@),
{
    Err(AppError::BadRequest(String::from_str(msg)))
}

impl CreateMetadataRequest {
    /// Whether validation would get as far as summing the allocations and find that a
    /// running total leaves the `i32` range: the one input `validate` does not take.
    pub fn allocation_sum_overflows(&self, image_public_url: &str) -> (r: bool)
        ensures
            r == (passes_checks_before_sum(*self, image_public_url@) && !allocation_sums_fit(self.milestones@)),
    {
        let name_len = byte_len_upto(self.name.as_str(), 50);
        if name_len < 2 || name_len > 50 {
            return false;
        }
        let symbol_len = byte_len_upto(self.symbol.as_str(), 10);
        if symbol_len < 2 || symbol_len > 10 {
            return false;
        }
        if !symbol_chars_ok(self.symbol.as_str()) {
            return false;
        }
        let category_len = byte_len_upto(self.category.as_str(), 50);
        if self.category.as_str().is_empty() || category_len > 50 {
            return false;
        }
        if !validate_image_uri(self.image_uri.as_str(), image_public_url) {
            return false;
        }
        if !link_is_https(&self.homepage) || !link_is_https(&self.twitter) || !link_is_https(&self.telegram)
            || !link_is_https(&self.discord) {
            return false;
        }
        if self.milestones.len() < 2 || self.milestones.len() > 6 {
            return false;
        }
        !running_sums_fit(&self.milestones)
    }

    /// Check the request; `image_public_url` is the public URL prefix of the image bucket
    /// that uploaded images are served from.
    pub fn validate(&self, image_public_url: &str) -> (r: Result<(), AppError>)
        requires
            passes_checks_before_sum(*self, image_public_url@) ==> allocation_sums_fit(self.milestones@),
        ensures
            match metadata_problem(*self, image_public_url@) {
                Some(msg) => is_bad_request(r, msg),
                None => r is Ok,
            },
            2 <= self.milestones@.len() <= 6 ==> !is_bad_request(r, "Must have 2-6 milestones"@),
    {
        proof {
            lemma_valid_metadata_accepted(*self, image_public_url@);
        }
        let name_len = byte_len_upto(self.name.as_str(), 50);
        if name_len < 2 || name_len > 50 {
            return bad_request("name must be 2-50 characters");
        }
        let symbol_len = byte_len_upto(self.symbol.as_str(), 10);
        if symbol_len < 2 || symbol_len > 10 {
            return bad_request("symbol must be 2-10 characters");
        }
        if !symbol_chars_ok(self.symbol.as_str()) {
            return bad_request("symbol must be uppercase letters and digits only");
        }
        let category_len = byte_len_upto(self.category.as_str(), 50);
        if self.category.as_str().is_empty() || category_len > 50 {
            return bad_request("category must be 1-50 characters");
        }
        if !validate_image_uri(self.image_uri.as_str(), image_public_url) {
            return bad_request("image_uri must be a valid uploaded image URL");
        }
        if !link_is_https(&self.homepage) {
            return bad_request("homepage must start with https://");
        }
        if !link_is_https(&self.twitter) {
            return bad_request("twitter must start with https://");
        }
        if !link_is_https(&self.telegram) {
            return bad_request("telegram must start with https://");
        }
        if !link_is_https(&self.discord) {
            return bad_request("discord must start with https://");
        }
        if self.milestones.len() < 2 || self.milestones.len() > 6 {
            return bad_request("Must have 2-6 milestones");
        }
        let total = sum_allocations(&self.milestones);
        if total != 100 {
            let mut msg = String::from_str("Milestone allocations must sum to 100, got ");
            let total_text = i128_to_string(total as i128);
            msg.append(total_text.as_str());
            return Err(AppError::BadRequest(msg));
        }
        match check_milestones(&self.milestones) {
            Some(problem) => bad_request(problem),
            None => Ok(()),
        }
    }
}

} // verus!
