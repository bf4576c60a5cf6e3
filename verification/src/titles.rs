//! Owned titles as the inventory service reports them, and the decoding
//! rules for a single title entry: optional fields fall back to documented
//! defaults, a missing last-played timestamp is a decode failure.

use vstd::prelude::*;

use crate::SyncError;

verus! {

/// One owned title, as decoded from the inventory payload.  Produced fresh on
/// every sync and never persisted directly.
#[derive(Debug)]
pub struct SteamGameInfo {
    pub app_id: u32,
    pub name: String,
    pub playtime_forever: u32,
    pub playtime_2weeks: u32,
    pub rtime_last_played: u32,
}

/// The mathematical image of a [`SteamGameInfo`].
pub ghost struct Title {
    pub app_id: u32,
    pub name: Seq<char>,
    pub playtime_forever: u32,
    pub playtime_2weeks: u32,
    pub rtime_last_played: u32,
}

impl View for SteamGameInfo {
    type V = Title;

    open spec fn view(&self) -> Title {
        Title {
            app_id: self.app_id,
            name: self.name@,
            playtime_forever: self.playtime_forever,
            playtime_2weeks: self.playtime_2weeks,
            rtime_last_played: self.rtime_last_played,
        }
    }
}

/// The raw fields of one title entry, as the payload carries them, before the
/// decoding rules are applied: the identifier is required, every other field
/// may be absent.
pub struct RawTitleFields {
    pub app_id: u64,
    pub name: Option<String>,
    pub playtime_forever: Option<u64>,
    pub playtime_2weeks: Option<u64>,
    pub rtime_last_played: Option<u64>,
}

/// The mathematical image of a [`RawTitleFields`].
pub ghost struct RawTitle {
    pub app_id: u64,
    pub name: Option<Seq<char>>,
    pub playtime_forever: Option<u64>,
    pub playtime_2weeks: Option<u64>,
    pub rtime_last_played: Option<u64>,
}

impl View for RawTitleFields {
    type V = RawTitle;

    open spec fn view(&self) -> RawTitle {
        RawTitle {
            app_id: self.app_id,
            name: match self.name {
                Some(n) => Some(n@),
                None => None,
            },
            playtime_forever: self.playtime_forever,
            playtime_2weeks: self.playtime_2weeks,
            rtime_last_played: self.rtime_last_played,
        }
    }
}

/// The name a title gets when the payload carries none.
pub fn default_name() -> (r: String)
    ensures
        r@ == "NOT FOUND"@,
{
    "NOT FOUND".to_owned()
}

/// The playtime a title gets when the payload carries none.
pub fn default_playtime() -> (r: u32)
    ensures
        r == 0,
{
    0
}

/// The name a decoded title ends up with: the payload's own, or the
/// placeholder when the payload omits it.
pub open spec fn decoded_name(name: Option<Seq<char>>) -> Seq<char> {
    match name {
        Some(n) => n,
        None => "NOT FOUND"@,
    }
}

/// The playtime a decoded title ends up with: the payload's own, or zero when
/// the payload omits it.
pub open spec fn decoded_playtime(p: Option<u64>) -> u64 {
    match p {
        Some(v) => v,
        None => 0,
    }
}

/// When a set of raw fields decodes successfully: the identifier and every
/// present numeric field fit the record's width, and the last-played
/// timestamp, which has no documented default, is present.
pub open spec fn fields_decodable(f: RawTitle) -> bool {
    &&& f.app_id <= u32::MAX
    &&& (f.rtime_last_played matches Some(v) && v <= u32::MAX)
    &&& decoded_playtime(f.playtime_forever) <= u32::MAX
    &&& decoded_playtime(f.playtime_2weeks) <= u32::MAX
}

/// The title a decodable set of raw fields decodes to: the defaults filled
/// in, every value carried over whole.
pub open spec fn decoded_title(f: RawTitle) -> Title {
    Title {
        app_id: f.app_id as u32,
        name: decoded_name(f.name),
        playtime_forever: decoded_playtime(f.playtime_forever) as u32,
        playtime_2weeks: decoded_playtime(f.playtime_2weeks) as u32,
        rtime_last_played: f.rtime_last_played.unwrap() as u32,
    }
}

impl SteamGameInfo {
    /// Decode one title from its raw payload fields.  A missing name becomes
    /// the placeholder, missing playtimes become zero; a missing last-played
    /// timestamp, or any numeric field out of range, is a decode failure.
    pub fn from_fields(fields: &RawTitleFields) -> (r: Result<SteamGameInfo, SyncError>)
        ensures
            r is Ok <==> fields_decodable(fields@),
            r matches Ok(t) ==> t@ == decoded_title(fields@),
            r matches Err(e) ==> e == SyncError::Decode,
    {
        if fields.app_id > u32::MAX as u64 {
            return Err(SyncError::Decode);
        }
        let rtime: u32 = match fields.rtime_last_played {
            Some(v) => {
                if v > u32::MAX as u64 {
                    return Err(SyncError::Decode);
                }
                v as u32
            },
            None => {
                return Err(SyncError::Decode);
            },
        };
        let forever: u32 = match fields.playtime_forever {
            Some(v) => {
                if v > u32::MAX as u64 {
                    return Err(SyncError::Decode);
                }
                v as u32
            },
            None => default_playtime(),
        };
        let recent: u32 = match fields.playtime_2weeks {
            Some(v) => {
                if v > u32::MAX as u64 {
                    return Err(SyncError::Decode);
                }
                v as u32
            },
            None => default_playtime(),
        };
        let title_name: String = match &fields.name {
            Some(n) => n.clone(),
            None => default_name(),
        };
        Ok(SteamGameInfo {
            app_id: fields.app_id as u32,
            name: title_name,
            playtime_forever: forever,
            playtime_2weeks: recent,
            rtime_last_played: rtime,
        })
    }
}

impl PartialEq for SteamGameInfo {
    fn eq(&self, other: &Self) -> (r: bool) {
        self.app_id == other.app_id && self.name == other.name
            && self.playtime_forever == other.playtime_forever
            && self.playtime_2weeks == other.playtime_2weeks
            && self.rtime_last_played == other.rtime_last_played
    }
}

impl vstd::std_specs::cmp::PartialEqSpecImpl for SteamGameInfo {
    open spec fn obeys_eq_spec() -> bool {
        true
    }

    open spec fn eq_spec(&self, other: &Self) -> bool {
        self@ == other@
    }
}

} // verus!
