use steam_sync::records::LocalGameInfo;
use steam_sync::store::GameStore;

fn record(app_id: u32, name: &str, tier: &str, last_fetch: u64) -> LocalGameInfo {
    LocalGameInfo::new(app_id, name.to_string(), 120, 30, 1000, tier.to_string(), last_fetch)
}

#[test]
fn upsert_then_get_round_trips() {
    let mut store = GameStore::in_memory().unwrap();
    store.ensure_schema().unwrap();
    let rec = record(70, "Half-Life", "GOLD", 11);
    assert_eq!(store.upsert(&rec), Ok(1));
    let got = store.get(70).unwrap().unwrap();
    assert_eq!(got.app_id, 70);
    assert_eq!(got.name, "Half-Life");
    assert_eq!(got.playtime_forever, 120);
    assert_eq!(got.playtime_2weeks, 30);
    assert_eq!(got.rtime_last_played, 1000);
    assert_eq!(got.proton_status, "GOLD");
    assert_eq!(got.last_fetch, 11);
    assert_eq!(store.get(71).unwrap(), None);
}

#[test]
fn upsert_is_idempotent() {
    let mut store = GameStore::in_memory().unwrap();
    store.ensure_schema().unwrap();
    let rec = record(70, "Half-Life", "GOLD", 11);
    assert_eq!(store.upsert(&rec), Ok(1));
    assert_eq!(store.upsert(&rec), Ok(1));
    assert_eq!(store.count_rows(), Ok(1));
    let got = store.get(70).unwrap().unwrap();
    assert_eq!(got.name, "Half-Life");
    assert_eq!(got.proton_status, "GOLD");
    assert_eq!(got.last_fetch, 11);
}

#[test]
fn colliding_names_under_distinct_identifiers_both_stand() {
    let mut store = GameStore::in_memory().unwrap();
    store.ensure_schema().unwrap();
    assert_eq!(store.upsert(&record(70, "Half-Life", "GOLD", 11)), Ok(1));
    assert_eq!(store.upsert(&record(220, "Half-Life", "PLATINUM", 12)), Ok(1));
    assert_eq!(store.count_rows(), Ok(2));
    assert_eq!(store.get(70).unwrap().unwrap().name, "Half-Life");
    assert_eq!(store.get(220).unwrap().unwrap().name, "Half-Life");
}

#[test]
fn later_upsert_overwrites_tier_and_fetch_time() {
    let mut store = GameStore::in_memory().unwrap();
    store.ensure_schema().unwrap();
    assert_eq!(store.upsert(&record(70, "Half-Life", "GOLD", 100)), Ok(1));
    assert_eq!(store.upsert(&record(70, "Half-Life", "PLATINUM", 200)), Ok(1));
    assert_eq!(store.count_rows(), Ok(1));
    let got = store.get(70).unwrap().unwrap();
    assert_eq!(got.proton_status, "PLATINUM");
    assert_eq!(got.last_fetch, 200);
}

#[test]
fn ensure_schema_is_idempotent_and_keeps_rows() {
    let mut store = GameStore::in_memory().unwrap();
    store.ensure_schema().unwrap();
    assert_eq!(store.upsert(&record(70, "Half-Life", "GOLD", 11)), Ok(1));
    store.ensure_schema().unwrap();
    assert_eq!(store.count_rows(), Ok(1));
    assert_eq!(store.get(70).unwrap().unwrap().name, "Half-Life");
}

#[test]
fn missing_schema_is_a_storage_error() {
    let mut store = GameStore::in_memory().unwrap();
    assert_eq!(
        store.upsert(&record(70, "Half-Life", "GOLD", 11)),
        Err(steam_sync::SyncError::Storage)
    );
    assert_eq!(store.count_rows(), Err(steam_sync::SyncError::Storage));
}

#[test]
fn unstorable_fetch_time_is_a_storage_error() {
    let mut store = GameStore::in_memory().unwrap();
    store.ensure_schema().unwrap();
    let rec = record(70, "Half-Life", "GOLD", u64::MAX);
    assert_eq!(store.upsert(&rec), Err(steam_sync::SyncError::Storage));
    assert_eq!(store.count_rows(), Ok(0));
}

#[test]
fn fresh_store_is_empty() {
    let mut store = GameStore::in_memory().unwrap();
    store.ensure_schema().unwrap();
    assert_eq!(store.count_rows(), Ok(0));
    assert_eq!(store.get(70).unwrap(), None);
}
