use monitor_control::settings::MonitorSettings;
use monitor_control::store::{decode_settings, encode_settings, load, StoreError};

#[test]
fn encode_writes_compact_record() {
    let text = encode_settings(&MonitorSettings::new(30, 40));
    assert_eq!(text, "{\"brightness\":30,\"contrast\":40}");
    let text = encode_settings(&MonitorSettings::new(-5, 0));
    assert_eq!(text, "{\"brightness\":-5,\"contrast\":0}");
}

#[test]
fn save_then_load_round_trips() {
    let values = [0, 1, -1, 30, 40, 255, i32::MIN, i32::MAX];
    for b in values {
        for c in values {
            let s = MonitorSettings::new(b, c);
            assert_eq!(decode_settings(&encode_settings(&s)), Ok(s));
            assert_eq!(load(Ok(encode_settings(&s))), Ok(s));
        }
    }
}

#[test]
fn decode_reads_stored_pair() {
    let r = decode_settings("{\"brightness\":30,\"contrast\":40}");
    assert_eq!(r, Ok(MonitorSettings::new(30, 40)));
    let r = decode_settings(" { \"contrast\" : 40 , \"brightness\" : 30, \"extra\": true } ");
    assert_eq!(r, Ok(MonitorSettings::new(30, 40)));
}

#[test]
fn decode_rejects_malformed_records() {
    for text in [
        "",
        "not json",
        "{\"brightness\":30}",
        "{\"brightness\":30,\"contrast\":\"40\"}",
        "{\"brightness\":30.5,\"contrast\":40}",
        "{\"brightness\":2147483648,\"contrast\":40}",
        "{\"brightness\":30,\"contrast\":-2147483649}",
        "[30,40]",
    ] {
        assert_eq!(decode_settings(text), Err(StoreError::Malformed), "{}", text);
    }
}

#[test]
fn load_passes_read_errors_on() {
    assert_eq!(load(Err(StoreError::NotFound)), Err(StoreError::NotFound));
    assert_eq!(load(Err(StoreError::IoFailure)), Err(StoreError::IoFailure));
    assert_eq!(load(Ok("{}".to_string())), Err(StoreError::Malformed));
}
