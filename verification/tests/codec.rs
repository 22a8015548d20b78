use battery_brightness::codec::from_json;
use battery_brightness::codec::settings_from_file;
use battery_brightness::codec::to_json;
use battery_brightness::errors::ControllerError;
use battery_brightness::power::PowerCondition;
use battery_brightness::settings::Settings;

fn settings(ac: u8, dc: u8) -> Settings {
    Settings { ac_brightness: ac, dc_brightness: dc }
}

#[test]
fn encoding_is_the_pretty_json_object() {
    let bytes = to_json(&Settings::default());
    let expected: &[u8] = b"{\n  \"ac_brightness\": 100,\n  \"dc_brightness\": 0\n}";
    assert_eq!(bytes.as_slice(), expected);
}

#[test]
fn save_then_load_round_trips() {
    let pairs = [
        (0u8, 0u8),
        (100, 0),
        (0, 100),
        (100, 100),
        (42, 7),
        (10, 99),
        (1, 9),
        (55, 10),
    ];
    for &(ac, dc) in pairs.iter() {
        let s = settings(ac, dc);
        assert_eq!(from_json(&to_json(&s)), Some(s));
    }
}

#[test]
fn every_brightness_pair_round_trips() {
    for ac in 0u8..=100 {
        for dc in 0u8..=100 {
            let s = settings(ac, dc);
            assert_eq!(from_json(&to_json(&s)), Some(s));
        }
    }
}

#[test]
fn missing_file_yields_defaults_without_error() {
    assert_eq!(settings_from_file(None), Ok(settings(100, 0)));
}

#[test]
fn stored_contents_are_decoded() {
    let bytes = to_json(&settings(33, 66));
    assert_eq!(settings_from_file(Some(&bytes)), Ok(settings(33, 66)));
}

#[test]
fn malformed_contents_are_a_persistence_error() {
    let garbage: Vec<u8> = b"not json at all".to_vec();
    assert_eq!(settings_from_file(Some(&garbage)), Err(ControllerError::Persistence));
    let empty: Vec<u8> = Vec::new();
    assert_eq!(settings_from_file(Some(&empty)), Err(ControllerError::Persistence));
}

#[test]
fn decoder_rejects_out_of_range_and_malformed_numbers() {
    let over: Vec<u8> = b"{\n  \"ac_brightness\": 101,\n  \"dc_brightness\": 0\n}".to_vec();
    assert_eq!(from_json(&over), None);
    let huge: Vec<u8> = b"{\n  \"ac_brightness\": 1000,\n  \"dc_brightness\": 0\n}".to_vec();
    assert_eq!(from_json(&huge), None);
    let leading_zero: Vec<u8> = b"{\n  \"ac_brightness\": 007,\n  \"dc_brightness\": 0\n}".to_vec();
    assert_eq!(from_json(&leading_zero), None);
    let no_digits: Vec<u8> = b"{\n  \"ac_brightness\": ,\n  \"dc_brightness\": 0\n}".to_vec();
    assert_eq!(from_json(&no_digits), None);
}

#[test]
fn decoder_rejects_wrong_keys_and_trailing_bytes() {
    let wrong_key: Vec<u8> = b"{\n  \"ac_brightnesz\": 10,\n  \"dc_brightness\": 0\n}".to_vec();
    assert_eq!(from_json(&wrong_key), None);
    let trailing: Vec<u8> = b"{\n  \"ac_brightness\": 10,\n  \"dc_brightness\": 0\n} ".to_vec();
    assert_eq!(from_json(&trailing), None);
    let truncated: Vec<u8> = b"{\n  \"ac_brightness\": 10,\n  \"dc_brightness\": 0".to_vec();
    assert_eq!(from_json(&truncated), None);
}

#[test]
fn settings_accessors_follow_the_condition() {
    let mut s = settings(70, 20);
    assert_eq!(s.brightness_for(PowerCondition::Ac), 70);
    assert_eq!(s.brightness_for(PowerCondition::Dc), 20);
    s.set_brightness_for(PowerCondition::Dc, 35);
    assert_eq!(s, settings(70, 35));
    s.set_brightness_for(PowerCondition::Ac, 90);
    assert_eq!(s, settings(90, 35));
}
