use fluster::{
    encode_key_event, raw_locales, DartObject, KeyEvent, KeyEventDeviceType, KeyPhase, Locale,
    RawDartValue,
};

fn key(character: Option<&[u8]>) -> KeyEvent {
    KeyEvent {
        timestamp_micros: 1_500,
        phase: KeyPhase::Down,
        physical: 0x70004,
        logical: 0x61,
        character: character.map(|c| c.to_vec()),
        synthesized: false,
        device_type: KeyEventDeviceType::Keyboard,
    }
}

#[test]
fn key_event_is_written_with_codes_and_terminated_character() {
    let raw = encode_key_event(&key(Some(b"a"))).unwrap();
    assert_eq!(raw.timestamp_micros, 1_500);
    assert_eq!(raw.event_type, 2);
    assert_eq!(raw.device_type, 1);
    assert_eq!(raw.physical, 0x70004);
    assert_eq!(raw.character, Some(b"a\0".to_vec()));
    assert_eq!(encode_key_event(&key(None)).unwrap().character, None);
}

#[test]
fn key_event_with_nul_character_is_refused() {
    assert!(encode_key_event(&key(Some(b"a\0b"))).is_none());
}

fn locale(lang: &[u8], country: Option<&[u8]>) -> Locale {
    Locale {
        language_code: lang.to_vec(),
        country_code: country.map(|c| c.to_vec()),
        script_code: None,
        variant_code: None,
    }
}

#[test]
fn locales_keep_the_preferred_one_first() {
    let raws = raw_locales(&[locale(b"en", Some(b"US")), locale(b"de", None)]).unwrap();
    assert_eq!(raws.len(), 2);
    assert_eq!(raws[0].language_code, b"en\0".to_vec());
    assert_eq!(raws[0].country_code, Some(b"US\0".to_vec()));
    assert_eq!(raws[1].language_code, b"de\0".to_vec());
    assert_eq!(raws[1].country_code, None);
    assert!(raw_locales(&[]).unwrap().is_empty());
}

#[test]
fn locale_with_nul_is_refused() {
    assert!(raw_locales(&[locale(b"en", Some(b"U\0S"))]).is_none());
}

#[test]
fn dart_objects_are_tagged() {
    let raw = DartObject::Int64(-3).encode().unwrap();
    assert_eq!(raw.object_type, 3);
    assert!(matches!(raw.value, RawDartValue::Int64(-3)));
    let raw = DartObject::Double(2.5f64.to_bits()).encode().unwrap();
    assert_eq!(raw.object_type, 4);
    assert!(matches!(raw.value, RawDartValue::Double(b) if f64::from_bits(b) == 2.5));
    let raw = DartObject::String(b"hi".to_vec()).encode().unwrap();
    assert_eq!(raw.object_type, 5);
    assert!(matches!(raw.value, RawDartValue::String(ref s) if s == b"hi\0"));
    let raw = DartObject::SharedBuffer { data: 8, len: 3, collect: 2 }.encode().unwrap();
    assert_eq!(raw.object_type, 6);
    assert!(matches!(raw.value, RawDartValue::SharedBuffer { data: 8, len: 3, collect: 2 }));
    assert_eq!(DartObject::Null.encode().unwrap().object_type, 0);
    assert!(DartObject::String(b"\0".to_vec()).encode().is_none());
}
