//! Decoding the inventory service's payload: an object holding a nested
//! object with a title count and an ordered list of title entries.  Optional
//! fields of an entry fall back to the documented defaults; any other shape
//! mismatch is a decode failure, fatal to the run.

use vstd::prelude::*;

use crate::SyncError;
use crate::json::{extract_inventory, extract_title, inventory_fields_of, title_fields_of};
use crate::titles::{RawTitle, RawTitleFields, SteamGameInfo, decoded_title, fields_decodable};

verus! {

/// When a whole inventory body decodes: it spells the expected envelope, and
/// every title entry's raw fields pass the decoding rules.
pub open spec fn inventory_decodable(body: Seq<char>) -> bool {
    &&& inventory_fields_of(body) is Some
    &&& (forall|i: int|
        0 <= i < inventory_fields_of(body).unwrap().len() ==> fields_decodable(
            #[trigger] inventory_fields_of(body).unwrap()[i],
        ))
}

/// The titles a decodable inventory body decodes to, in the payload's order.
pub open spec fn decoded_inventory(body: Seq<char>) -> Seq<crate::titles::Title> {
    inventory_fields_of(body).unwrap().map_values(|f: RawTitle| decoded_title(f))
}

/// Decode one title entry given as JSON text: success exactly when the body
/// spells a title entry whose raw fields pass the decoding rules, and then
/// the titles is those fields decoded.
pub fn decode_title(body: &str) -> (r: Result<SteamGameInfo, SyncError>)
    ensures
        r is Ok <==> (title_fields_of(body@) matches Some(f) && fields_decodable(f)),
        r matches Ok(t) ==> t@ == decoded_title(title_fields_of(body@).unwrap()),
        r matches Err(e) ==> e == SyncError::Decode,
{
    match extract_title(body) {
        Some(fields) => SteamGameInfo::from_fields(&fields),
        None => Err(SyncError::Decode),
    }
}

/// Decode the whole inventory payload into the ordered list of owned titles:
/// success exactly when the body spells the envelope and every entry passes
/// the decoding rules, and then the list is the payload's entries decoded in
/// order.
pub fn decode_inventory(body: &str) -> (r: Result<Vec<SteamGameInfo>, SyncError>)
    ensures
        r is Ok <==> inventory_decodable(body@),
        r matches Ok(ts) ==> ts@.map_values(|t: SteamGameInfo| t@) == decoded_inventory(body@),
        r matches Err(e) ==> e == SyncError::Decode,
{
    let raw = match extract_inventory(body) {
        Some(v) => v,
        None => {
            return Err(SyncError::Decode);
        },
    };
    let ghost fs = inventory_fields_of(body@).unwrap();
    proof {
        assert(fs == raw@.map_values(|f: RawTitleFields| f@));
    }
    let mut titles: Vec<SteamGameInfo> = Vec::new();
    let mut i: usize = 0;
    let n = raw.len();
    while i < n
        invariant
            i <= n,
            n == raw@.len(),
            inventory_fields_of(body@) == Some(fs),
            fs == raw@.map_values(|f: RawTitleFields| f@),
            titles@.len() == i,
            forall|j: int| 0 <= j < i ==> fields_decodable(#[trigger] fs[j]),
            forall|j: int|
                0 <= j < i ==> #[trigger] titles@[j]@ == decoded_title(fs[j]),
        decreases n - i,
    {
        let title = match SteamGameInfo::from_fields(&raw[i]) {
            Ok(t) => t,
            Err(e) => {
                proof {
                    assert(inventory_fields_of(body@).unwrap() == fs);
                    assert(!fields_decodable(inventory_fields_of(body@).unwrap()[i as int]));
                    assert(!inventory_decodable(body@));
                }
                return Err(e);
            },
        };
        proof {
            assert(fields_decodable(fs[i as int]));
        }
        titles.push(title);
        i = i + 1;
    }
    proof {
        assert(titles@.map_values(|t: SteamGameInfo| t@) =~= decoded_inventory(body@));
    }
    Ok(titles)
}

} // verus!
