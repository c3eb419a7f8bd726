use amalgam::backplane::{
    action_byte, action_from_byte, decode_message, default_channel, duration_to_millis,
    encode_message,
};
use amalgam::{BackplaneAction, BackplaneMessage, Duration, Timestamp};

#[test]
fn action_byte_round_trips() {
    for action in [
        BackplaneAction::Put,
        BackplaneAction::Remove,
        BackplaneAction::Expire,
    ] {
        assert_eq!(action_from_byte(action_byte(action)), Some(action));
    }
    assert_eq!(action_from_byte(0), None);
    assert_eq!(action_from_byte(99), None);
}

#[test]
fn message_round_trips_through_wire_including_separator_in_key() {
    let original = BackplaneMessage {
        source_id: "node-a".into(),
        timestamp: Timestamp::from_ticks(123_456_789),
        action: BackplaneAction::Expire,
        key: "tenant|42|user:7".into(), // separator inside the key must survive
    };
    let decoded =
        decode_message(encode_message(&original).as_bytes()).expect("encoded message decodes");
    assert_eq!(&*decoded.source_id, "node-a");
    assert_eq!(decoded.timestamp, original.timestamp);
    assert_eq!(decoded.action, BackplaneAction::Expire);
    assert_eq!(&*decoded.key, "tenant|42|user:7");
}

#[test]
fn decode_rejects_malformed_input() {
    assert!(decode_message(b"not-enough-fields").is_none());
    assert!(decode_message(b"src|not-a-number|1|key").is_none());
    assert!(decode_message(b"src|10|255|key").is_none()); // unknown action
    assert!(decode_message(&[0xff, 0xfe]).is_none()); // invalid UTF-8
}

#[test]
fn duration_to_millis_floors_to_one() {
    assert_eq!(duration_to_millis(Duration::from_micros(1)), 1);
    assert_eq!(duration_to_millis(Duration::from_millis(250)), 250);
}

#[test]
fn messages_are_written_as_lines() {
    let message = BackplaneMessage {
        source_id: "n".into(),
        timestamp: Timestamp::from_ticks(-7),
        action: BackplaneAction::Put,
        key: "k".into(),
    };
    assert_eq!(encode_message(&message), "n|-7|1|k");
    assert_eq!(default_channel(), "amalgam:backplane");
}

#[test]
fn odd_fields_are_read_or_refused() {
    let key_of = |bytes: &[u8]| decode_message(bytes).map(|m| m.key);
    assert_eq!(key_of(b"|+5|+2|"), Some(String::new()));
    assert_eq!(key_of("s|0|3|\u{fc}|x".as_bytes()), Some("\u{fc}|x".to_owned()));
    assert_eq!(key_of(b"s|5|2"), None);
    assert_eq!(key_of(b"s|5"), None);
    assert_eq!(key_of(b"s||1|k"), None);
    assert_eq!(key_of(b"s|9223372036854775808|1|k"), None);
    assert_eq!(key_of(b"s|1|256|k"), None);
    assert_eq!(key_of(b"s|1|-1|k"), None);
    assert_eq!(key_of(b""), None);
    assert_eq!(key_of(b"s|1|1|\xff"), None);
}

#[test]
fn a_separator_in_the_source_does_not_round_trip() {
    let message = BackplaneMessage {
        source_id: "a|b".into(),
        timestamp: Timestamp::from_ticks(1),
        action: BackplaneAction::Put,
        key: "k".into(),
    };
    assert!(decode_message(encode_message(&message).as_bytes()).is_none());
}

#[test]
fn very_long_spans_are_capped_in_milliseconds() {
    assert_eq!(duration_to_millis(Duration::from_secs(u64::MAX)), u64::MAX);
    assert_eq!(duration_to_millis(Duration::zero()), 1);
    assert_eq!(duration_to_millis(Duration::from_micros(2_999)), 2);
}
