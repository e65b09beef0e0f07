use std::str::FromStr;
use std::time::{Duration, SystemTime, UNIX_EPOCH};
use timeflake_rs::Timeflake;
use timeflake_tiny::{TimeflakeTiny, TinyError};

const SOME_TIME: u64 = 123456;
const SOME_RAND: u16 = 17890;

#[test]
fn parse_test() {
    let flake =
        TimeflakeTiny::from_values(Duration::from_millis(SOME_TIME), Some(SOME_RAND)).unwrap();
    let flake2 = TimeflakeTiny::parse(&flake.to_string()).unwrap();

    assert_eq!(flake.timestamp.as_millis() as u64, SOME_TIME);
    assert_eq!(flake.random, SOME_RAND);
    assert_eq!(flake.timestamp, flake2.timestamp);
    assert_eq!(flake.random, flake2.random);
}

#[test]
fn convert_to_timeflake_than_revert() {
    let tiny =
        TimeflakeTiny::from_values(Duration::from_millis(SOME_TIME), Some(SOME_RAND)).unwrap();
    let huge =
        Timeflake::from_values(Duration::from_millis(SOME_TIME), Some(SOME_RAND as u128)).unwrap();

    let huge_from_tiny = TimeflakeTiny::to_timeflake(&tiny).unwrap();
    let reverted = TimeflakeTiny::from_timeflake(&huge_from_tiny).unwrap();

    assert_eq!(huge.as_uuid(), tiny.get_uuid());
    assert_eq!(huge.as_uuid(), huge_from_tiny.as_uuid());

    assert_eq!(huge.timestamp, huge_from_tiny.timestamp);
    assert_eq!(huge.random, huge_from_tiny.random);

    assert_eq!(tiny.get_uuid(), reverted.get_uuid());
    assert_eq!(tiny.timestamp, reverted.timestamp);
    assert_eq!(tiny.random, reverted.random);
}

#[test]
fn example() {
    let time = SystemTime::now().duration_since(UNIX_EPOCH).unwrap();
    println!("{}", TimeflakeTiny::random().unwrap().to_string());
    println!("{}", TimeflakeTiny::from_values(time, Some(0)).unwrap().to_string());
    println!("{}", TimeflakeTiny::from_values(time, None).unwrap().to_string());
    println!("{}", TimeflakeTiny::from_values(time, None).unwrap().to_string());
}

#[test]
fn int_form_of_known_values() {
    let flake =
        TimeflakeTiny::from_values(Duration::from_millis(SOME_TIME), Some(SOME_RAND)).unwrap();
    assert_eq!(flake.as_u64(), 17890 | (123456 << 16));
    assert_eq!(flake.as_u64(), 8090830306);
}

#[test]
fn text_of_known_values() {
    let flake =
        TimeflakeTiny::from_values(Duration::from_millis(SOME_TIME), Some(SOME_RAND)).unwrap();
    assert_eq!(flake.to_string(), "00000001-e240-0000-0000-0000000045e2");
    assert_eq!(flake.get_uuid().as_u128(), (123456u128 << 80) | 17890);
}

#[test]
fn parse_rejects_malformed_text() {
    let r = TimeflakeTiny::parse("not-a-uuid");
    assert!(matches!(r, Err(TinyError::MalformedData { .. })));
    let r = TimeflakeTiny::parse("00000001-e240-0000-0000-0000000045g2");
    assert!(matches!(r, Err(TinyError::MalformedData { .. })));
    let r = TimeflakeTiny::parse("");
    assert!(matches!(r, Err(TinyError::MalformedData { .. })));
}

#[test]
fn parse_accepts_hyphenated_form_of_either_case() {
    for text in [
        "00000001-e240-0000-0000-0000000045e2",
        "00000001-E240-0000-0000-0000000045E2",
    ] {
        let flake = TimeflakeTiny::parse(text).unwrap();
        assert_eq!(flake.timestamp, Duration::from_millis(SOME_TIME));
        assert_eq!(flake.random, SOME_RAND);
    }
}

#[test]
fn parse_rejects_other_uuid_forms() {
    for text in [
        "00000001e240000000000000000045e2",
        "{00000001-e240-0000-0000-0000000045e2}",
        "URN:uuid:00000001-e240-0000-0000-0000000045e2",
        "00000001e-240-0000-0000-0000000045e2",
    ] {
        let r = TimeflakeTiny::parse(text);
        assert!(matches!(r, Err(TinyError::MalformedData { .. })));
    }
}

#[test]
fn parse_error_carries_uuid_message() {
    let expected = uuid::fmt::Hyphenated::from_str("not-a-uuid").unwrap_err().to_string();
    match TimeflakeTiny::parse("not-a-uuid") {
        Err(TinyError::MalformedData { msg }) => assert_eq!(msg, expected),
        _ => panic!("expected a malformed-data error"),
    }
}

#[test]
fn parse_ignores_middle_bits() {
    let flake = TimeflakeTiny::parse("00000001-e240-ffff-ffff-ffffffff45e2").unwrap();
    assert_eq!(flake.timestamp.as_millis(), 123456);
    assert_eq!(flake.random, 17890);
}

#[test]
fn largest_timestamp_round_trips() {
    let ms: u64 = 0xFFFF_FFFF_FFFF;
    let flake = TimeflakeTiny::from_values(Duration::from_millis(ms), Some(u16::MAX)).unwrap();
    assert_eq!(flake.as_u64(), u64::MAX);
    assert_eq!(flake.to_string(), "ffffffff-ffff-0000-0000-00000000ffff");
    let back = TimeflakeTiny::parse(&flake.to_string()).unwrap();
    assert_eq!(back.timestamp, flake.timestamp);
    assert_eq!(back.random, u16::MAX);
}

#[test]
fn zero_round_trips() {
    let flake = TimeflakeTiny::from_values(Duration::ZERO, Some(0)).unwrap();
    assert_eq!(flake.as_u64(), 0);
    assert_eq!(flake.to_string(), "00000000-0000-0000-0000-000000000000");
    let back = TimeflakeTiny::parse(&flake.to_string()).unwrap();
    assert_eq!(back.timestamp, Duration::ZERO);
    assert_eq!(back.random, 0);
}

#[test]
fn timestamp_beyond_48_bits_loses_high_bits() {
    let ms: u64 = (1 << 48) + 5;
    let flake = TimeflakeTiny::from_values(Duration::from_millis(ms), Some(7)).unwrap();
    assert_eq!(flake.as_u64(), 7 | (5 << 16));
    assert_eq!(flake.get_uuid().as_u128(), (5u128 << 80) | 7);
}

#[test]
fn sub_millisecond_precision_is_kept_and_truncated_when_packed() {
    let ts = Duration::new(1, 500_999_999);
    let flake = TimeflakeTiny::from_values(ts, Some(1)).unwrap();
    assert_eq!(flake.timestamp, ts);
    assert_eq!(flake.as_u64(), 1 | (1500 << 16));
    let back = TimeflakeTiny::parse(&flake.to_string()).unwrap();
    assert_eq!(back.timestamp, Duration::from_millis(1500));
    assert_eq!(back.random, 1);
}

#[test]
fn default_random_lies_in_range() {
    let ts = Duration::from_millis(SOME_TIME);
    let a = TimeflakeTiny::from_values(ts, None).unwrap();
    let b = TimeflakeTiny::from_values(ts, None).unwrap();
    assert_eq!(a.timestamp, ts);
    assert_eq!(b.timestamp, ts);
    assert!((a.random as u32) <= 65535);
    assert!((b.random as u32) <= 65535);
}

#[test]
fn from_timeflake_keeps_low_sixteen_random_bits() {
    let huge = Timeflake::from_values(Duration::from_millis(SOME_TIME), Some(0x1_0000_45E2)).unwrap();
    let tiny = TimeflakeTiny::from_timeflake(&huge).unwrap();
    assert_eq!(tiny.timestamp, huge.timestamp);
    assert_eq!(tiny.random, 0x45E2);
}

#[test]
fn larger_form_has_same_value() {
    let tiny = TimeflakeTiny::from_values(Duration::from_millis(42), Some(9)).unwrap();
    let huge = tiny.to_timeflake().unwrap();
    assert_eq!(huge.random, 9);
    assert_eq!(huge.timestamp, tiny.timestamp);
    assert_eq!(huge.as_u128(), tiny.get_uuid().as_u128());
}

#[test]
fn int_forms_sort_by_time_then_random() {
    let a = TimeflakeTiny::from_values(Duration::from_millis(10), Some(u16::MAX)).unwrap();
    let b = TimeflakeTiny::from_values(Duration::from_millis(11), Some(0)).unwrap();
    let c = TimeflakeTiny::from_values(Duration::from_millis(11), Some(1)).unwrap();
    assert!(a.as_u64() < b.as_u64());
    assert!(b.as_u64() < c.as_u64());
}

#[test]
fn current_time_identifier_is_made() {
    let flake = TimeflakeTiny::random().unwrap();
    assert!(flake.timestamp > Duration::ZERO);
}
