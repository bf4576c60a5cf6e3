//! The sync run: a linear state machine that takes the inventory fetch's
//! outcome, then one compatibility lookup per title, upserting as it goes.
//! There is no retry and no rollback: a failed inventory fetch aborts the run
//! before any write, a failed tier lookup degrades to "UNKNOWN" and the run
//! proceeds, a storage or decode failure aborts it where it stands.

use vstd::prelude::*;

use crate::SyncError;
use crate::decode::{decode_inventory, decoded_inventory, inventory_decodable};
use crate::json::tier_field_of;
use crate::records::{GameRow, LocalGameInfo};
use crate::store::{GameStore, upsert_row};
use crate::tier::{decode_tier, upper_of};
use crate::titles::{SteamGameInfo, Title};

verus! {

/// Where a run stands: waiting for the inventory, enriching fetched titles
/// one at a time, finished, or aborted with the failure's kind.
#[derive(Clone, Copy, Debug, PartialEq, Eq, Structural)]
pub enum SyncPhase {
    NeedInventory,
    Enriching,
    Done,
    Aborted(SyncError),
}

/// The mathematical image of a [`SyncRun`].
pub ghost struct RunView {
    pub titles: Seq<Title>,
    pub next: int,
    pub upserted: int,
    pub phase: SyncPhase,
}

/// One sync run.  It owns no credentials and performs no calls of its own:
/// the caller fetches, the run decides and writes.
pub struct SyncRun {
    titles: Vec<SteamGameInfo>,
    next: usize,
    upserted: usize,
    phase: SyncPhase,
}

impl View for SyncRun {
    type V = RunView;

    closed spec fn view(&self) -> RunView {
        RunView {
            titles: self.titles@.map_values(|t: SteamGameInfo| t@),
            next: self.next as int,
            upserted: self.upserted as int,
            phase: self.phase,
        }
    }
}

impl SyncRun {
    #[verifier::type_invariant]
    spec fn wf(self) -> bool {
        &&& self.next <= self.titles@.len()
        &&& self.upserted <= self.next
        &&& (self.phase is Enriching ==> self.next < self.titles@.len())
        &&& (self.phase is NeedInventory ==> self.next == 0 && self.upserted == 0
            && self.titles@.len() == 0)
    }

    /// A fresh run, waiting for the inventory fetch's outcome.
    pub fn new() -> (r: SyncRun)
        ensures
            r@.phase == SyncPhase::NeedInventory,
            r@.titles.len() == 0,
            r@.next == 0,
            r@.upserted == 0,
    {
        SyncRun { titles: Vec::new(), next: 0, upserted: 0, phase: SyncPhase::NeedInventory }
    }

    /// Where the run stands.
    pub fn phase(&self) -> (r: SyncPhase)
        ensures
            r == self@.phase,
    {
        self.phase
    }

    /// How many titles the inventory fetch produced.
    pub fn title_count(&self) -> (r: usize)
        ensures
            r as int == self@.titles.len(),
    {
        self.titles.len()
    }

    /// How many records this run has upserted so far.
    pub fn upserted_count(&self) -> (r: usize)
        ensures
            r as int == self@.upserted,
    {
        self.upserted
    }

    /// Take the inventory fetch's outcome: `None` for a transport error or a
    /// non-success status, both fatal; otherwise the body, which aborts the
    /// run with a decode error exactly when it does not decode.  When it
    /// does, the run's titles are the payload's entries decoded in order, and
    /// the run turns to enriching them, first of the list first; an empty
    /// inventory is already done.  Nothing is written to any store here: an
    /// aborted run has upserted nothing.
    pub fn on_inventory(&mut self, outcome: Option<&str>)
        requires
            old(self)@.phase == SyncPhase::NeedInventory,
        ensures
            final(self)@.upserted == old(self)@.upserted,
            outcome is None ==> final(self)@.phase == SyncPhase::Aborted(SyncError::Network),
            outcome matches Some(b) ==> ({
                &&& ((final(self)@.phase == SyncPhase::Aborted(SyncError::Decode))
                    <==> !inventory_decodable(b@))
                &&& (inventory_decodable(b@) ==> ({
                    &&& final(self)@.titles == decoded_inventory(b@)
                    &&& final(self)@.next == 0
                    &&& final(self)@.phase == (if decoded_inventory(b@).len() == 0 {
                        SyncPhase::Done
                    } else {
                        SyncPhase::Enriching
                    })
                }))
            }),
    {
        proof {
            use_type_invariant(&*self);
        }
        match outcome {
            None => {
                self.phase = SyncPhase::Aborted(SyncError::Network);
            },
            Some(body) => {
                match decode_inventory(body) {
                    Err(e) => {
                        self.phase = SyncPhase::Aborted(e);
                    },
                    Ok(titles) => {
                        let phase = if titles.len() == 0 {
                            SyncPhase::Done
                        } else {
                            SyncPhase::Enriching
                        };
                        *self = SyncRun { titles, next: 0, upserted: 0, phase };
                    },
                }
            },
        }
    }

    /// The identifier whose compatibility tier the run waits for: `Some`
    /// exactly while the run is enriching.
    pub fn pending_app_id(&self) -> (r: Option<u32>)
        ensures
            (r is Some) <==> self@.phase == SyncPhase::Enriching,
            r matches Some(id) ==> id == self@.titles[self@.next].app_id,
    {
        proof {
            use_type_invariant(self);
        }
        match self.phase {
            SyncPhase::Enriching => Some(self.titles[self.next].app_id),
            _ => None,
        }
    }

    /// Take the pending title's compatibility lookup outcome, join it with
    /// the title's inventory fields and the moment `now`, and upsert the
    /// record.  A non-success lookup degrades to the tier "UNKNOWN" and never
    /// aborts; a success response's uppercased "tier" field is the stored
    /// tier, and its absence — exactly that — aborts with a decode error,
    /// writing nothing; a storage failure aborts, the store unchanged.
    pub fn on_tier(&mut self, store: &mut GameStore, success: bool, body: &str, now: u64) -> (r:
        Result<(), SyncError>)
        requires
            old(self)@.phase == SyncPhase::Enriching,
        ensures
            final(self)@.titles == old(self)@.titles,
            r matches Ok(_) ==> ({
                let title = old(self)@.titles[old(self)@.next];
                &&& final(store)@.contains_key(title.app_id)
                &&& final(store)@.remove(title.app_id) == old(store)@.remove(title.app_id)
                &&& ({
                    let row = final(store)@[title.app_id];
                    &&& row.app_id == title.app_id
                    &&& row.name == title.name
                    &&& row.playtime_forever == title.playtime_forever
                    &&& row.playtime_2weeks == title.playtime_2weeks
                    &&& row.rtime_last_played == title.rtime_last_played
                    &&& row.last_fetch == now
                    &&& (!success ==> row.proton_tier == "UNKNOWN"@)
                    &&& (success ==> row.proton_tier == upper_of(tier_field_of(body@).unwrap()))
                })
                &&& final(self)@.next == old(self)@.next + 1
                &&& final(self)@.upserted == old(self)@.upserted + 1
                &&& final(self)@.phase == (if final(self)@.next == final(self)@.titles.len() {
                    SyncPhase::Done
                } else {
                    SyncPhase::Enriching
                })
            }),
            success ==> ((r == Err::<(), SyncError>(SyncError::Decode)) <==> tier_field_of(body@)
                is None),
            r matches Err(e) ==> ({
                &&& final(store)@ == old(store)@
                &&& final(self)@.phase == SyncPhase::Aborted(e)
                &&& (e == SyncError::Decode || e == SyncError::Storage)
                &&& (e == SyncError::Decode ==> success)
                &&& final(self)@.next == old(self)@.next
                &&& final(self)@.upserted == old(self)@.upserted
            }),
    {
        proof {
            use_type_invariant(&*self);
        }
        let tier = match decode_tier(success, body) {
            Ok(t) => t,
            Err(e) => {
                self.phase = SyncPhase::Aborted(e);
                return Err(e);
            },
        };
        let title = &self.titles[self.next];
        let rec = LocalGameInfo::new(
            title.app_id,
            title.name.clone(),
            title.playtime_forever,
            title.playtime_2weeks,
            title.rtime_last_played,
            tier,
            now,
        );
        match store.upsert(&rec) {
            Ok(_) => {},
            Err(e) => {
                self.phase = SyncPhase::Aborted(e);
                return Err(e);
            },
        }
        proof {
            assert(store@.remove(rec.app_id) =~= old(store)@.remove(rec.app_id));
        }
        let len = self.titles.len();
        let finished = self.next + 1 == len;
        if finished {
            self.phase = SyncPhase::Done;
        }
        self.next = self.next + 1;
        self.upserted = self.upserted + 1;
        Ok(())
    }
}

/// The table a whole run leaves behind, given the records it built: each one
/// upserted in order, the first of the list first.
pub open spec fn apply_all(m: Map<u32, GameRow>, rows: Seq<GameRow>) -> Map<u32, GameRow>
    decreases rows.len(),
{
    if rows.len() == 0 {
        m
    } else {
        apply_all(upsert_row(m, rows[0]), rows.drop_first())
    }
}

/// The table a whole run leaves behind, as a function of the inventory
/// fetch's outcome: the fetched titles' records upserted in order, or, when
/// the fetch failed, the table exactly as it was.
pub open spec fn run_outcome(m: Map<u32, GameRow>, fetched: Option<Seq<GameRow>>) -> Map<
    u32,
    GameRow,
> {
    match fetched {
        Some(rows) => apply_all(m, rows),
        None => m,
    }
}

/// Law: each enrichment step extends the run's outcome by exactly one upsert,
/// so a run that takes the titles in order realizes [`apply_all`] of its
/// records.
pub proof fn lemma_apply_all_step(m: Map<u32, GameRow>, rows: Seq<GameRow>, row: GameRow)
    ensures
        apply_all(m, rows.push(row)) == upsert_row(apply_all(m, rows), row),
    decreases rows.len(),
{
    if rows.len() == 0 {
        assert(rows.push(row)[0] == row);
        assert(rows.push(row).drop_first() =~= Seq::<GameRow>::empty());
        assert(apply_all(m, rows) == m);
        assert(apply_all(m, rows.push(row)) == apply_all(
            upsert_row(m, row),
            Seq::<GameRow>::empty(),
        ));
        assert(apply_all(upsert_row(m, row), Seq::<GameRow>::empty()) == upsert_row(m, row));
    } else {
        assert(rows.push(row)[0] == rows[0]);
        assert(rows.push(row).drop_first() =~= rows.drop_first().push(row));
        assert(apply_all(m, rows.push(row)) == apply_all(
            upsert_row(m, rows[0]),
            rows.drop_first().push(row),
        ));
        lemma_apply_all_step(upsert_row(m, rows[0]), rows.drop_first(), row);
        assert(apply_all(m, rows) == apply_all(upsert_row(m, rows[0]), rows.drop_first()));
    }
}

/// Law: a run whose inventory call fails leaves the store with zero new or
/// modified rows.
pub proof fn lemma_failed_fetch_leaves_store(m: Map<u32, GameRow>)
    ensures
        run_outcome(m, None) == m,
{
}

/// Law: the core never deletes.  Every cached row survives a run, and a row
/// whose identifier the run's records do not carry is left exactly as it was:
/// titles the inventory no longer returns stay cached, their staleness
/// visible only through the last-fetch column.
pub proof fn lemma_run_never_deletes(m: Map<u32, GameRow>, rows: Seq<GameRow>, id: u32)
    requires
        m.contains_key(id),
    ensures
        apply_all(m, rows).contains_key(id),
        (forall|i: int| 0 <= i < rows.len() ==> rows[i].app_id != id) ==> apply_all(m, rows)[id]
            == m[id],
    decreases rows.len(),
{
    if rows.len() > 0 {
        let m1 = upsert_row(m, rows[0]);
        lemma_run_never_deletes(m1, rows.drop_first(), id);
        if forall|i: int| 0 <= i < rows.len() ==> rows[i].app_id != id {
            assert(rows[0].app_id != id);
            assert(m1[id] == m[id]);
            assert forall|i: int| 0 <= i < rows.drop_first().len() implies rows.drop_first()[i].app_id
                != id by {
                assert(rows.drop_first()[i] == rows[i + 1]);
            }
        }
    }
}

} // verus!
