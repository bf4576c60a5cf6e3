//! The canonical cached record: one owned title joined with its
//! compatibility tier and a freshness timestamp.  Building one is the pure
//! reconciliation step between the two remote domains and the store.

use vstd::prelude::*;

verus! {

/// One persisted row of the local store.  The identifier is the key; every
/// other column is overwritten whole on each sync that sees the title.
#[derive(Debug)]
pub struct LocalGameInfo {
    pub app_id: u32,
    pub name: String,
    pub playtime_forever: u32,
    pub playtime_2weeks: u32,
    pub rtime_last_played: u32,
    pub proton_status: String,
    pub last_fetch: u64,
}

/// The mathematical image of a [`LocalGameInfo`]: one row of the store's
/// table, keyed by `app_id`.
pub ghost struct GameRow {
    pub app_id: u32,
    pub name: Seq<char>,
    pub playtime_forever: u32,
    pub playtime_2weeks: u32,
    pub rtime_last_played: u32,
    pub proton_tier: Seq<char>,
    pub last_fetch: u64,
}

impl View for LocalGameInfo {
    type V = GameRow;

    open spec fn view(&self) -> GameRow {
        GameRow {
            app_id: self.app_id,
            name: self.name@,
            playtime_forever: self.playtime_forever,
            playtime_2weeks: self.playtime_2weeks,
            rtime_last_played: self.rtime_last_played,
            proton_tier: self.proton_status@,
            last_fetch: self.last_fetch,
        }
    }
}

impl LocalGameInfo {
    /// Join one title's inventory fields with its resolved tier and the
    /// moment of enrichment.  Last value wins: the record is exactly its
    /// arguments, nothing averaged, nothing kept back.
    pub fn new(
        app_id: u32,
        name: String,
        playtime_forever: u32,
        playtime_2weeks: u32,
        rtime_last_played: u32,
        proton_tier: String,
        last_fetch: u64,
    ) -> (r: Self)
        ensures
            r@ == (GameRow {
                app_id: app_id,
                name: name@,
                playtime_forever: playtime_forever,
                playtime_2weeks: playtime_2weeks,
                rtime_last_played: rtime_last_played,
                proton_tier: proton_tier@,
                last_fetch: last_fetch,
            }),
    {
        Self {
            app_id: app_id,
            name: name,
            playtime_forever: playtime_forever,
            playtime_2weeks: playtime_2weeks,
            rtime_last_played: rtime_last_played,
            proton_status: proton_tier,
            last_fetch: last_fetch,
        }
    }
}

impl PartialEq for LocalGameInfo {
    fn eq(&self, other: &Self) -> (r: bool) {
        self.app_id == other.app_id && self.name == other.name
            && self.playtime_forever == other.playtime_forever
            && self.playtime_2weeks == other.playtime_2weeks
            && self.rtime_last_played == other.rtime_last_played
            && self.proton_status == other.proton_status && self.last_fetch == other.last_fetch
    }
}

impl vstd::std_specs::cmp::PartialEqSpecImpl for LocalGameInfo {
    open spec fn obeys_eq_spec() -> bool {
        true
    }

    open spec fn eq_spec(&self, other: &Self) -> bool {
        self@ == other@
    }
}

} // verus!
