use timers::alerts::AlertConfig;
use timers::codec::decode_alert_config;
use timers::codec::decode_pomodoro_settings;
use timers::codec::deserialize_countdowns;
use timers::codec::encode_alert_config;
use timers::codec::encode_pomodoro_settings;
use timers::codec::serialize_countdowns;
use timers::countdown::CountdownEntry;

#[test]
fn countdown_list_round_trips_including_non_ascii_names() {
    let entries = vec![
        CountdownEntry { name: String::from("Tea"), duration_ms: 180_000 },
        CountdownEntry { name: String::from("caf\u{e9} au lait \u{2615}"), duration_ms: 240_000 },
        CountdownEntry { name: String::from(""), duration_ms: 1 },
        CountdownEntry { name: String::from("\u{7dd1}\u{8336}"), duration_ms: 90_000 },
    ];
    let bytes = serialize_countdowns(&entries);
    let back = deserialize_countdowns(&bytes);
    assert_eq!(back.len(), entries.len());
    for (a, b) in entries.iter().zip(back.iter()) {
        assert_eq!(a.name, b.name);
        assert_eq!(a.duration_ms, b.duration_ms);
    }
}

#[test]
fn empty_list_round_trips() {
    let entries: Vec<CountdownEntry> = Vec::new();
    let bytes = serialize_countdowns(&entries);
    assert_eq!(bytes, vec![0, 0, 0, 0]);
    assert!(deserialize_countdowns(&bytes).is_empty());
}

#[test]
fn truncated_countdown_data_keeps_what_was_whole() {
    let entries = vec![
        CountdownEntry { name: String::from("one"), duration_ms: 1000 },
        CountdownEntry { name: String::from("two"), duration_ms: 2000 },
    ];
    let bytes = serialize_countdowns(&entries);
    // Cut into the second entry: only the first survives.
    let cut = &bytes[..bytes.len() - 3];
    let back = deserialize_countdowns(cut);
    assert_eq!(back.len(), 1);
    assert_eq!(back[0].name, "one");
    assert_eq!(back[0].duration_ms, 1000);
}

#[test]
fn countdown_data_shorter_than_its_count_field_is_empty() {
    assert!(deserialize_countdowns(&[]).is_empty());
    assert!(deserialize_countdowns(&[5, 0, 0]).is_empty());
    // A count with no entry data behind it.
    assert!(deserialize_countdowns(&[3, 0, 0, 0]).is_empty());
}

#[test]
fn pomodoro_settings_round_trip() {
    let bytes = encode_pomodoro_settings(1_500_000, 300_000, 900_000, 4);
    assert_eq!(bytes.len(), 25);
    assert_eq!(decode_pomodoro_settings(&bytes), Some((1_500_000, 300_000, 900_000, 4)));
}

#[test]
fn short_pomodoro_settings_are_rejected() {
    assert_eq!(decode_pomodoro_settings(&[0; 24]), None);
    assert_eq!(decode_pomodoro_settings(&[]), None);
}

#[test]
fn alert_config_round_trip_and_default_fallback() {
    let cfg = AlertConfig { vibration: false, audio: true, notification: false };
    let bytes = encode_alert_config(&cfg);
    assert_eq!(bytes, vec![0, 1, 0]);
    let back = decode_alert_config(&bytes);
    assert_eq!(back, cfg);

    // Corrupt (short) data falls back to the default configuration.
    let fallback = decode_alert_config(&[1]);
    assert_eq!(fallback, AlertConfig::default());
    assert!(fallback.vibration && !fallback.audio && fallback.notification);
}
