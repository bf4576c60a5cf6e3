//! Resolving a title's compatibility tier from the lookup service's answer.
//! A non-success response degrades to the sentinel tier "UNKNOWN" and never
//! aborts the batch; a success response must carry a tier string, which is
//! uppercased.

use vstd::prelude::*;

use crate::SyncError;
use crate::json::{extract_tier, tier_field_of};

verus! {

/// What uppercasing a character sequence yields: the result of
/// `str::to_uppercase`, a function of the characters alone.
pub uninterp spec fn upper_of(s: Seq<char>) -> Seq<char>;

/// Relies on `str::to_uppercase`: the string's uppercase equivalent,
/// depending on its characters alone.
#[verifier::external_body]
fn to_upper(s: &str) -> (r: String)
    ensures
        r@ == upper_of(s@),
{
    s.to_uppercase()
}

/// Resolve a tier from the lookup's outcome.  A non-success response yields
/// the sentinel "UNKNOWN", whatever the body held; a success response must
/// carry the tier string, which is uppercased, and is a decode failure
/// otherwise.
pub fn tier_from_parts(success: bool, tier: Option<String>) -> (r: Result<String, SyncError>)
    ensures
        !success ==> (r matches Ok(t) && t@ == "UNKNOWN"@),
        success ==> ((r is Ok) <==> (tier is Some)),
        success ==> (r matches Ok(t) ==> t@ == upper_of(tier.unwrap()@)),
        r matches Err(e) ==> e == SyncError::Decode && success,
{
    if !success {
        return Ok("UNKNOWN".to_owned());
    }
    match tier {
        Some(t) => Ok(to_upper(t.as_str())),
        None => Err(SyncError::Decode),
    }
}

/// Resolve a tier from the raw lookup response: the success flag and the
/// body.  On success the body must be a JSON object with a string field
/// "tier", whose uppercased value is the tier; on non-success the body is
/// ignored and the tier is "UNKNOWN".
pub fn decode_tier(success: bool, body: &str) -> (r: Result<String, SyncError>)
    ensures
        !success ==> (r matches Ok(t) && t@ == "UNKNOWN"@),
        success ==> ((r is Ok) <==> tier_field_of(body@) is Some),
        success ==> (r matches Ok(t) ==> t@ == upper_of(tier_field_of(body@).unwrap())),
        r matches Err(e) ==> e == SyncError::Decode && success,
{
    if !success {
        return tier_from_parts(false, None);
    }
    tier_from_parts(true, extract_tier(body))
}

} // verus!
