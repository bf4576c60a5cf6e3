//! The local store: one persistent table of cached game records, keyed by
//! the title identifier.  The handle carries a ghost map that mirrors the
//! table's rows; each trusted call states how it moves that map, and the
//! upsert laws are proved of the map itself.

use vstd::prelude::*;

use crate::SyncError;
use crate::records::{GameRow, LocalGameInfo};

verus! {

#[verifier::external_type_specification]
#[verifier::external_body]
pub struct ExConnection(rusqlite::Connection);

/// A handle on the store.  `table` is the ghost mirror of the table's rows:
/// the record under each identifier.
pub struct GameStore {
    conn: rusqlite::Connection,
    table: Ghost<Map<u32, GameRow>>,
}

impl View for GameStore {
    type V = Map<u32, GameRow>;

    closed spec fn view(&self) -> Map<u32, GameRow> {
        self.table@
    }
}

/// What one upsert does to the table: the row moves in under its identifier,
/// replacing whatever sat there; every other row stays.
pub open spec fn upsert_row(m: Map<u32, GameRow>, row: GameRow) -> Map<u32, GameRow> {
    m.insert(row.app_id, row)
}

/// Relies on `rusqlite::Connection::open_in_memory`: a connection to a fresh
/// database that holds no rows at all — [`GameStore::in_memory`] starts its
/// ghost mirror at the empty map on the strength of exactly this; `None` when
/// SQLite cannot create one.
#[verifier::external_body]
fn connect_in_memory() -> (r: Option<rusqlite::Connection>) {
    rusqlite::Connection::open_in_memory().ok()
}

/// Relies on `rusqlite::Connection::open`: a connection to the database file
/// at `path`, created when absent; its table may already hold rows, finitely
/// many.  `None` when SQLite cannot open the file.
#[verifier::external_body]
fn connect_file(path: &str) -> (r: Option<rusqlite::Connection>) {
    rusqlite::Connection::open(path).ok()
}

impl GameStore {
    /// A store on a fresh in-memory database, which holds no rows.
    pub fn in_memory() -> (r: Result<GameStore, SyncError>)
        ensures
            r matches Ok(s) ==> s@ == Map::<u32, GameRow>::empty(),
            r matches Err(e) ==> e == SyncError::Storage,
    {
        match connect_in_memory() {
            Some(conn) => Ok(GameStore { conn, table: Ghost(Map::empty()) }),
            None => Err(SyncError::Storage),
        }
    }

    /// A store on the database file at `path`, created when absent.  Which
    /// rows its table already holds is unknown here; only that there are
    /// finitely many.
    pub fn open(path: &str) -> (r: Result<GameStore, SyncError>)
        ensures
            r matches Ok(s) ==> s@.dom().finite(),
            r matches Err(e) ==> e == SyncError::Storage,
    {
        match connect_file(path) {
            Some(conn) => {
                proof {
                    assert(Map::<u32, GameRow>::empty().dom().finite());
                }
                let ghost rows = choose|m: Map<u32, GameRow>| m.dom().finite();
                Ok(GameStore { conn, table: Ghost(rows) })
            },
            None => Err(SyncError::Storage),
        }
    }

    /// Relies on `rusqlite::Connection::execute` with CREATE TABLE IF NOT
    /// EXISTS: creates the table when it is absent and leaves existing rows
    /// alone, so the call is idempotent and safe before every batch.
    #[verifier::external_body]
    pub fn ensure_schema(&mut self) -> (r: Result<(), SyncError>)
        ensures
            final(self)@ == old(self)@,
            r matches Err(e) ==> e == SyncError::Storage,
    {
        let sql = "CREATE TABLE IF NOT EXISTS game_info (app_id INTEGER PRIMARY KEY, name TEXT NOT NULL, playtime_forever INTEGER DEFAULT 0, playtime_2weeks INTEGER DEFAULT 0, rtime_last_played INTEGER DEFAULT 0, proton_tier TEXT DEFAULT 'UNKNOWN', last_fetch INTEGER DEFAULT 0)";
        match self.conn.execute(sql, ()) {
            Ok(_) => Ok(()),
            Err(_) => Err(SyncError::Storage),
        }
    }

    /// Relies on `rusqlite::Connection::execute` with INSERT ... ON
    /// CONFLICT(app_id) DO UPDATE: one atomic statement that inserts the row
    /// under an unseen identifier and otherwise overwrites every non-key
    /// column, reporting one affected row; on failure the table is unchanged.
    #[verifier::external_body]
    pub fn upsert(&mut self, rec: &LocalGameInfo) -> (r: Result<usize, SyncError>)
        ensures
            r matches Ok(n) ==> n == 1 && final(self)@ == upsert_row(old(self)@, rec@),
            r matches Err(e) ==> e == SyncError::Storage && final(self)@ == old(self)@,
    {
        let sql = "INSERT INTO game_info (app_id, name, playtime_forever, playtime_2weeks, rtime_last_played, proton_tier, last_fetch) VALUES (?1, ?2, ?3, ?4, ?5, ?6, ?7) ON CONFLICT(app_id) DO UPDATE SET name=?2, playtime_forever=?3, playtime_2weeks=?4, rtime_last_played=?5, proton_tier=?6, last_fetch=?7";
        let fetch = match i64::try_from(rec.last_fetch) {
            Ok(v) => v,
            Err(_) => return Err(SyncError::Storage),
        };
        let args = (rec.app_id, &rec.name, rec.playtime_forever, rec.playtime_2weeks,
            rec.rtime_last_played, &rec.proton_status, fetch);
        match self.conn.execute(sql, args) {
            Ok(n) => Ok(n),
            Err(_) => Err(SyncError::Storage),
        }
    }

    /// Relies on `rusqlite::Connection::query_row` with SELECT ... WHERE
    /// app_id: the row under that identifier with exactly its stored
    /// columns, or no row at all.
    #[verifier::external_body]
    pub fn get(&self, app_id: u32) -> (r: Result<Option<LocalGameInfo>, SyncError>)
        ensures
            r matches Ok(found) ==> (match found {
                Some(rec) => self@.contains_key(app_id) && rec@ == self@[app_id],
                None => !self@.contains_key(app_id),
            }),
            r matches Err(e) ==> e == SyncError::Storage,
    {
        let sql = "SELECT app_id, name, playtime_forever, playtime_2weeks, rtime_last_played, proton_tier, last_fetch FROM game_info WHERE app_id = ?1";
        let got = self.conn.query_row(sql, (app_id,), |row| {
            Ok((row.get(0)?, row.get(1)?, row.get(2)?, row.get(3)?, row.get(4)?, row.get(5)?, row.get::<usize, i64>(6)?))
        });
        match got {
            Ok((app_id, name, playtime_forever, playtime_2weeks, rtime_last_played, proton_status, fetch)) => match u64::try_from(fetch) {
                Ok(last_fetch) => Ok(Some(LocalGameInfo {
                    app_id, name, playtime_forever, playtime_2weeks, rtime_last_played, proton_status, last_fetch,
                })),
                Err(_) => Err(SyncError::Storage),
            },
            Err(rusqlite::Error::QueryReturnedNoRows) => Ok(None),
            Err(_) => Err(SyncError::Storage),
        }
    }

    /// Relies on `rusqlite::Connection::query_row` with SELECT count(*): the
    /// number of rows the table holds.
    #[verifier::external_body]
    pub fn count_rows(&self) -> (r: Result<usize, SyncError>)
        ensures
            r matches Ok(n) ==> n as nat == self@.len(),
            r matches Err(e) ==> e == SyncError::Storage,
    {
        let got = self.conn.query_row("SELECT count(*) FROM game_info", (), |row| {
            row.get::<usize, i64>(0)
        });
        match got {
            Ok(n) => match usize::try_from(n) {
                Ok(count) => Ok(count),
                Err(_) => Err(SyncError::Storage),
            },
            Err(_) => Err(SyncError::Storage),
        }
    }
}

/// Law: upsert is idempotent.  Applying the same record twice leaves exactly
/// the table of applying it once, with the row under its identifier equal to
/// the record.
pub proof fn lemma_upsert_idempotent(m: Map<u32, GameRow>, row: GameRow)
    ensures
        upsert_row(upsert_row(m, row), row) == upsert_row(m, row),
        upsert_row(m, row).contains_key(row.app_id),
        upsert_row(m, row)[row.app_id] == row,
{
    assert(upsert_row(upsert_row(m, row), row) =~= upsert_row(m, row));
}

/// Law: the last value wins.  Upserting a second record under the same
/// identifier leaves exactly one row for it, carrying the second record's
/// values whole, and touches no other row.
pub proof fn lemma_upsert_overwrites(m: Map<u32, GameRow>, first: GameRow, second: GameRow)
    requires
        first.app_id == second.app_id,
    ensures
        upsert_row(upsert_row(m, first), second) == upsert_row(m, second),
        upsert_row(upsert_row(m, first), second)[second.app_id] == second,
        upsert_row(upsert_row(m, first), second).dom() == m.dom().insert(second.app_id),
{
    assert(upsert_row(upsert_row(m, first), second) =~= upsert_row(m, second));
    assert(upsert_row(upsert_row(m, first), second).dom() =~= m.dom().insert(second.app_id));
}

/// Law: the identifier is the sole uniqueness constraint.  An upsert under a
/// fresh identifier goes through even when its name collides with an existing
/// row's name: afterwards both rows stand, each under its own identifier,
/// the colliding names intact, and nothing else has moved.
pub proof fn lemma_upsert_name_collision(m: Map<u32, GameRow>, existing: GameRow, incoming: GameRow)
    requires
        incoming.app_id != existing.app_id,
        incoming.name == existing.name,
    ensures
        ({
            let after = upsert_row(upsert_row(m, existing), incoming);
            &&& after.contains_key(existing.app_id)
            &&& after.contains_key(incoming.app_id)
            &&& after[existing.app_id] == existing
            &&& after[incoming.app_id] == incoming
            &&& after[existing.app_id].name == after[incoming.app_id].name
            &&& after.remove(incoming.app_id) == upsert_row(m, existing).remove(incoming.app_id)
        }),
{
    let after = upsert_row(upsert_row(m, existing), incoming);
    assert(after.remove(incoming.app_id) =~= upsert_row(m, existing).remove(incoming.app_id));
}

} // verus!
