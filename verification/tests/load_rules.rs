use pg_auto_dw::controller::dv_load_rules::{
    digest_input, ghost_records, hub_has_key, new_hub_rows, new_satellite_rows,
    satellite_has_pair, HubRow, SatelliteRow,
};

fn hub_row(hash_key: &str, values: &[&str]) -> HubRow {
    HubRow {
        hash_key: hash_key.to_string(),
        load_ts: "2024-05-01 10:00:00.000001".to_string(),
        record_source: "public".to_string(),
        key_values: values.iter().map(|v| v.to_string()).collect(),
    }
}

fn satellite_row(hash_key: &str, hash_diff: &str, values: &[&str]) -> SatelliteRow {
    SatelliteRow {
        hash_key: hash_key.to_string(),
        hash_diff: hash_diff.to_string(),
        load_ts: "2024-05-01 10:00:00".to_string(),
        record_source: "public".to_string(),
        values: values.iter().map(|v| v.to_string()).collect(),
    }
}

fn keys(rows: &[HubRow]) -> Vec<String> {
    rows.iter().map(|r| r.hash_key.clone()).collect()
}

fn pairs(rows: &[SatelliteRow]) -> Vec<(String, String)> {
    rows.iter().map(|r| (r.hash_key.clone(), r.hash_diff.clone())).collect()
}

#[test]
fn digest_is_taken_of_the_values_joined_by_commas() {
    let ab = vec!["A".to_string(), "B".to_string()];
    let ac = vec!["A".to_string(), "C".to_string()];
    assert_eq!(digest_input(&ab), "A,B");
    assert_eq!(digest_input(&ab), digest_input(&ab));
    assert_ne!(digest_input(&ab), digest_input(&ac));
    assert_eq!(digest_input(&vec!["A".to_string()]), "A");
    assert_eq!(digest_input(&Vec::new()), "");
    assert_eq!(digest_input(&vec!["".to_string(), "".to_string(), "x".to_string()]), ",,x");
}

#[test]
fn empty_hub_gets_two_ghost_records() {
    let rows = ghost_records(&Vec::new(), 2, "h-unknown", "h-na");
    assert_eq!(rows.len(), 2);
    assert_eq!(rows[0].hash_key, "h-unknown");
    assert_eq!(rows[0].key_values, vec!["-1".to_string(), "-1".to_string()]);
    assert_eq!(rows[0].load_ts, "0001-01-01");
    assert_eq!(rows[0].record_source, "SYSTEM");
    assert_eq!(rows[1].hash_key, "h-na");
    assert_eq!(rows[1].key_values, vec!["-2".to_string(), "-2".to_string()]);
    assert_eq!(rows[1].load_ts, "0001-01-01");
    assert_eq!(rows[1].record_source, "SYSTEM");
}

#[test]
fn initialized_hub_gets_no_ghost_record() {
    let mut hub = ghost_records(&Vec::new(), 1, "h-unknown", "h-na");
    assert!(ghost_records(&hub, 1, "h-unknown", "h-na").is_empty());
    hub.clear();
    hub.push(hub_row("h1", &["A"]));
    assert!(ghost_records(&hub, 1, "h-unknown", "h-na").is_empty());
}

#[test]
fn second_hub_load_adds_no_row() {
    let mut hub = vec![hub_row("h1", &["A"])];
    let staged = vec![hub_row("h2", &["B"]), hub_row("h1", &["A"]), hub_row("h3", &["C"]), hub_row("h2", &["B"])];
    let first = new_hub_rows(&hub, &staged);
    assert_eq!(keys(&first), vec!["h2", "h3", "h2"]);
    assert_eq!(first[1].key_values, vec!["C".to_string()]);
    assert_eq!(first[1].record_source, "public");
    hub.extend(first);
    let count = hub.len();
    let second = new_hub_rows(&hub, &staged);
    assert!(second.is_empty());
    hub.extend(second);
    assert_eq!(hub.len(), count);
    assert!(hub_has_key(&hub, "h3"));
    assert!(!hub_has_key(&hub, "h4"));
}

#[test]
fn changed_descriptor_adds_a_row_and_keeps_the_old_one() {
    let mut satellite = vec![satellite_row("h1", "D1", &["Berlin"])];
    let staged = vec![satellite_row("h1", "D2", &["Hamburg"])];
    let added = new_satellite_rows(&satellite, &staged);
    assert_eq!(pairs(&added), vec![("h1".to_string(), "D2".to_string())]);
    assert_eq!(added[0].values, vec!["Hamburg".to_string()]);
    satellite.extend(added);
    assert_eq!(pairs(&satellite), vec![("h1".to_string(), "D1".to_string()), ("h1".to_string(), "D2".to_string())]);
    assert_eq!(satellite[0].values, vec!["Berlin".to_string()]);
    assert!(new_satellite_rows(&satellite, &staged).is_empty());
}

#[test]
fn satellite_load_joins_on_both_columns() {
    let satellite = vec![satellite_row("h1", "D1", &["x"]), satellite_row("h2", "D2", &["y"])];
    let staged = vec![
        satellite_row("h1", "D1", &["x"]),
        satellite_row("h1", "D2", &["y"]),
        satellite_row("h2", "D1", &["x"]),
        satellite_row("h2", "D2", &["y"]),
        satellite_row("h3", "D3", &["z"]),
    ];
    let added = new_satellite_rows(&satellite, &staged);
    assert_eq!(
        pairs(&added),
        vec![
            ("h1".to_string(), "D2".to_string()),
            ("h2".to_string(), "D1".to_string()),
            ("h3".to_string(), "D3".to_string()),
        ]
    );
    assert!(satellite_has_pair(&satellite, "h1", "D1"));
    assert!(!satellite_has_pair(&satellite, "h1", "D2"));
    assert!(!satellite_has_pair(&Vec::new(), "h1", "D1"));
}

#[test]
fn value_seen_before_adds_no_row_again() {
    let satellite = vec![satellite_row("h1", "D1", &["Berlin"]), satellite_row("h1", "D2", &["Hamburg"])];
    let staged = vec![satellite_row("h1", "D1", &["Berlin"])];
    assert!(new_satellite_rows(&satellite, &staged).is_empty());
}

#[test]
fn nothing_staged_adds_nothing() {
    assert!(new_hub_rows(&vec![hub_row("h1", &["A"])], &Vec::new()).is_empty());
    assert!(new_satellite_rows(&Vec::new(), &Vec::new()).is_empty());
    assert_eq!(new_hub_rows(&Vec::new(), &vec![hub_row("h1", &["A"])]).len(), 1);
}
