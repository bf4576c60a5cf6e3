use steam_sync::SyncError;
use steam_sync::decode::{decode_inventory, decode_title};
use steam_sync::titles::{SteamGameInfo, default_name, default_playtime};

#[test]
fn deserialize_steam_game() {
    let game_json = r#"
    {
        "appid": 70,
        "name": "Half-Life",
        "playtime_forever": 0,
        "img_icon_url": "95be6d131fc61f145797317ca437c9765f24b41c",
        "playtime_windows_forever": 0,
        "playtime_mac_forever": 0,
        "playtime_linux_forever": 0,
        "rtime_last_played": 0,
        "has_workshop": false,
        "has_market": false,
        "has_dlc": true,
        "playtime_disconnected": 0
    }"#;
    let expected: SteamGameInfo = SteamGameInfo {
        app_id: 70,
        name: "Half-Life".to_string(),
        playtime_forever: 0,
        playtime_2weeks: 0,
        rtime_last_played: 0,
    };
    let deserialized = decode_title(game_json).unwrap();

    assert_eq!(deserialized, expected);
}

#[test]
fn missing_optional_fields_take_defaults() {
    let title = decode_title(r#"{"appid": 440, "rtime_last_played": 7}"#).unwrap();
    assert_eq!(title.app_id, 440);
    assert_eq!(title.name, "NOT FOUND");
    assert_eq!(title.name, default_name());
    assert_eq!(title.playtime_forever, 0);
    assert_eq!(title.playtime_2weeks, 0);
    assert_eq!(title.playtime_forever, default_playtime());
    assert_eq!(title.rtime_last_played, 7);
}

#[test]
fn missing_last_played_is_a_decode_failure() {
    let r = decode_title(r#"{"appid": 440, "name": "Team Fortress 2"}"#);
    assert_eq!(r, Err(SyncError::Decode));
}

#[test]
fn missing_identifier_is_a_decode_failure() {
    let r = decode_title(r#"{"name": "Team Fortress 2", "rtime_last_played": 0}"#);
    assert_eq!(r, Err(SyncError::Decode));
}

#[test]
fn oversized_fields_are_decode_failures() {
    let r = decode_title(r#"{"appid": 5000000000, "rtime_last_played": 0}"#);
    assert_eq!(r, Err(SyncError::Decode));
    let r = decode_title(r#"{"appid": 70, "rtime_last_played": 5000000000}"#);
    assert_eq!(r, Err(SyncError::Decode));
    let r = decode_title(r#"{"appid": 70, "rtime_last_played": 0, "playtime_forever": 5000000000}"#);
    assert_eq!(r, Err(SyncError::Decode));
}

#[test]
fn largest_identifier_still_decodes() {
    let title = decode_title(r#"{"appid": 4294967295, "rtime_last_played": 0}"#).unwrap();
    assert_eq!(title.app_id, u32::MAX);
    let r = decode_title(r#"{"appid": 4294967296, "rtime_last_played": 0}"#);
    assert_eq!(r, Err(SyncError::Decode));
}

#[test]
fn mistyped_optional_field_is_a_decode_failure() {
    let r = decode_title(r#"{"appid": 70, "rtime_last_played": 0, "name": 3}"#);
    assert_eq!(r, Err(SyncError::Decode));
    let r = decode_title(r#"{"appid": 70, "rtime_last_played": 0, "playtime_2weeks": "a lot"}"#);
    assert_eq!(r, Err(SyncError::Decode));
}

#[test]
fn inventory_decodes_in_order() {
    let body = r#"{"response": {"game_count": 2, "games": [
        {"appid": 70, "name": "Half-Life", "playtime_forever": 120, "rtime_last_played": 1000},
        {"appid": 440, "rtime_last_played": 0}
    ]}}"#;
    let titles = decode_inventory(body).unwrap();
    assert_eq!(titles.len(), 2);
    assert_eq!(titles[0].app_id, 70);
    assert_eq!(titles[0].name, "Half-Life");
    assert_eq!(titles[0].playtime_forever, 120);
    assert_eq!(titles[1].app_id, 440);
    assert_eq!(titles[1].name, "NOT FOUND");
}

#[test]
fn inventory_shape_mismatches_fail() {
    assert_eq!(decode_inventory("not json at all"), Err(SyncError::Decode));
    assert_eq!(decode_inventory(r#"{}"#), Err(SyncError::Decode));
    assert_eq!(decode_inventory(r#"{"response": {}}"#), Err(SyncError::Decode));
    assert_eq!(
        decode_inventory(r#"{"response": {"game_count": 1}}"#),
        Err(SyncError::Decode)
    );
    assert_eq!(
        decode_inventory(r#"{"response": {"games": []}}"#),
        Err(SyncError::Decode)
    );
    assert_eq!(
        decode_inventory(r#"{"response": {"game_count": 1, "games": [{"appid": 70}]}}"#),
        Err(SyncError::Decode)
    );
}

#[test]
fn empty_inventory_decodes_to_no_titles() {
    let titles = decode_inventory(r#"{"response": {"game_count": 0, "games": []}}"#).unwrap();
    assert_eq!(titles.len(), 0);
}
