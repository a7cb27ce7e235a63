use vstd::prelude::*;

use crate::app_error::{is_bad_request, AppError};
use crate::decimal::{parse_i32, parse_i32_spec};
use crate::text::{has_prefix, text_starts_with};

verus! {

/// The database id a public milestone id `ms_<n>` stands for: `n` must parse as an `i32`
/// (optionally signed) and must not be negative.
pub open spec fn milestone_db_id_spec(milestone_id: Seq<char>) -> Option<i32> {
    if has_prefix(milestone_id, "ms_"@) {
        match parse_i32_spec(milestone_id.skip(3)) {
            Some(id) => if id >= 0 { Some(id) } else { None },
            None => None,
        }
    } else {
        None
    }
}

/// Parse milestone_id format "ms_001" to DB integer id.
pub fn parse_milestone_db_id(milestone_id: &str) -> (r: Result<i32, AppError>)
    ensures
        match milestone_db_id_spec(milestone_id@) {
            Some(id) => r == Ok::<i32, AppError>(id),
            None => is_bad_request(r, "Invalid milestone ID format: "@ + milestone_id@),
        },
{
    let parsed = if text_starts_with(milestone_id, "ms_") {
        proof {
            reveal_strlit("ms_");
        }
        let digits = milestone_id.substring_char(3, milestone_id.unicode_len());
        match parse_i32(digits) {
            Some(id) => if id >= 0 { Some(id) } else { None },
            None => None,
        }
    } else {
        None
    };
    match parsed {
        Some(id) => Ok(id),
        None => {
            let mut msg = String::from_str("Invalid milestone ID format: ");
            msg.append(milestone_id);
            Err(AppError::BadRequest(msg))
        },
    }
}

/// Evidence for a milestone must come with a description.
pub fn check_evidence_text(evidence_text: &str) -> (r: Result<(), AppError>)
    ensures
        evidence_text@.len() == 0 ==> is_bad_request(r, "Evidence text is required"@),
        evidence_text@.len() > 0 ==> r is Ok,
{
    if evidence_text.is_empty() {
        Err(AppError::BadRequest(String::from_str("Evidence text is required")))
    } else {
        Ok(())
    }
}

} // verus!
