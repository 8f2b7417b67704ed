use songdb::registry::LiveUpdates;

#[test]
fn open_channel_gets_the_broadcast() {
    let mut channels = LiveUpdates::new();
    channels.open(7);
    channels.open(9);
    let pushes = channels.broadcast("Song uploaded successfully");
    let mut ids: Vec<u32> = pushes.iter().map(|p| p.channel_id).collect();
    ids.sort();
    assert_eq!(ids, vec![7, 9]);
    for p in &pushes {
        assert_eq!(p.payload, "{\"type\":\"update\",\"data\":\"Song uploaded successfully\"}");
    }
}

#[test]
fn closed_channel_gets_nothing_more() {
    let mut channels = LiveUpdates::new();
    channels.open(7);
    channels.open(9);
    channels.close(7);
    assert!(!channels.is_open(7));
    assert!(channels.is_open(9));
    let pushes = channels.broadcast("x");
    assert_eq!(pushes.len(), 1);
    assert_eq!(pushes[0].channel_id, 9);
}

#[test]
fn opening_twice_registers_once() {
    let mut channels = LiveUpdates::new();
    channels.open(3);
    channels.open(3);
    assert_eq!(channels.broadcast("x").len(), 1);
}

#[test]
fn closing_an_unknown_channel_changes_nothing() {
    let mut channels = LiveUpdates::new();
    channels.open(3);
    channels.close(4);
    assert!(channels.is_open(3));
    assert_eq!(channels.broadcast("x").len(), 1);
}

#[test]
fn empty_registry_broadcasts_to_nobody() {
    let channels = LiveUpdates::new();
    assert!(channels.broadcast("x").is_empty());
}

#[test]
fn payload_escapes_the_message() {
    let mut channels = LiveUpdates::new();
    channels.open(1);
    let pushes = channels.broadcast("say \"hi\"\n\\");
    assert_eq!(pushes[0].payload, "{\"type\":\"update\",\"data\":\"say \\\"hi\\\"\\n\\\\\"}");
    let value: serde_json::Value = serde_json::from_str(&pushes[0].payload).unwrap();
    assert_eq!(value["type"], "update");
    assert_eq!(value["data"], "say \"hi\"\n\\");
}
