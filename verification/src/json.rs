//! Trusted access to the two services' JSON payloads, through serde_json.
//! What each extraction returns is a function of the body's characters alone,
//! so each result carries a name that the library's contracts speak of: the
//! extractor is trusted to hand that named result back, and everything that
//! decodes, defaults or checks it is verified.

use vstd::prelude::*;

use crate::titles::{RawTitle, RawTitleFields};

verus! {

#[verifier::external_type_specification]
#[verifier::external_body]
pub struct ExValue(serde_json::Value);

/// The raw fields of the one title entry that `body` spells as a JSON object:
/// a required "appid" integer beside optional "name", "playtime_forever",
/// "playtime_2weeks" and "rtime_last_played" fields, each kept absent or with
/// its value; `None` when `body` is not such an object.
pub uninterp spec fn title_fields_of(body: Seq<char>) -> Option<RawTitle>;

/// The raw fields of every title entry that `body`'s inventory envelope
/// carries, in the payload's order: `body` must spell a JSON object holding a
/// "response" object with a "game_count" integer and a "games" array whose
/// entries each read as [`title_fields_of`] does; `None` otherwise.
pub uninterp spec fn inventory_fields_of(body: Seq<char>) -> Option<Seq<RawTitle>>;

/// The "tier" string field of the JSON object that `body` spells; `None` when
/// `body` is not an object with a string field of that name.
pub uninterp spec fn tier_field_of(body: Seq<char>) -> Option<Seq<char>>;

/// Relies on `serde_json::Value::{get, as_u64, as_str}` and `str::to_owned`:
/// one title entry's raw fields — "appid" required, the others kept absent or
/// with their string or integer value; `None` when the entry is not such an
/// object.
#[verifier::external_body]
fn raw_title(v: &serde_json::Value) -> (r: Option<RawTitleFields>) {
    Some(RawTitleFields {
        app_id: v.get("appid")?.as_u64()?,
        name: match v.get("name") { None => None, Some(f) => Some(f.as_str()?.to_owned()) },
        playtime_forever: match v.get("playtime_forever") { None => None, Some(f) => Some(f.as_u64()?) },
        playtime_2weeks: match v.get("playtime_2weeks") { None => None, Some(f) => Some(f.as_u64()?) },
        rtime_last_played: match v.get("rtime_last_played") { None => None, Some(f) => Some(f.as_u64()?) },
    })
}

/// Relies on `serde_json::from_str` and the field reads of [`raw_title`]: the
/// one title entry that `body` spells, under its name.
#[verifier::external_body]
pub(crate) fn extract_title(body: &str) -> (r: Option<RawTitleFields>)
    ensures
        r matches Some(f) ==> title_fields_of(body@) == Some(f@),
        r is None ==> title_fields_of(body@) is None,
{
    raw_title(&serde_json::from_str::<serde_json::Value>(body).ok()?)
}

/// Relies on `serde_json::from_str` and `Value::{get, as_u64, as_array}`,
/// with the field reads of [`raw_title`] per entry: the inventory envelope's
/// title entries, in order, under their name.
#[verifier::external_body]
pub(crate) fn extract_inventory(body: &str) -> (r: Option<Vec<RawTitleFields>>)
    ensures
        r matches Some(v) ==> inventory_fields_of(body@) == Some(
            v@.map_values(|f: RawTitleFields| f@),
        ),
        r is None ==> inventory_fields_of(body@) is None,
{
    let doc: serde_json::Value = serde_json::from_str(body).ok()?;
    let response = doc.get("response")?;
    response.get("game_count")?.as_u64()?;
    response.get("games")?.as_array()?.iter().map(raw_title).collect()
}

/// Relies on `serde_json::from_str`, `Value::{get, as_str}` and
/// `str::to_owned`: the body's "tier" string field, under its name.
#[verifier::external_body]
pub(crate) fn extract_tier(body: &str) -> (r: Option<String>)
    ensures
        r matches Some(s) ==> tier_field_of(body@) == Some(s@),
        r is None ==> tier_field_of(body@) is None,
{
    let doc: serde_json::Value = serde_json::from_str(body).ok()?;
    Some(doc.get("tier")?.as_str()?.to_owned())
}

} // verus!
