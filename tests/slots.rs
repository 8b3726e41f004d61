use fluster::{return_out_param, AOTData, Error, FlutterEngineResult, Slots};

#[test]
fn parked_value_is_reclaimed_exactly_once() {
    let mut slots: Slots<String> = Slots::new();
    let a = slots.park("a".to_string());
    let b = slots.park("b".to_string());
    assert_ne!(a, b);
    assert_eq!(slots.get(b).map(|s| s.as_str()), Some("b"));
    assert_eq!(slots.reclaim(a), Some("a".to_string()));
    assert_eq!(slots.reclaim(a), None);
    assert_eq!(slots.get(a), None);
    assert_eq!(slots.reclaim(b), Some("b".to_string()));
    assert_eq!(slots.reclaim(99), None);
}

#[test]
fn restored_value_is_reachable_under_the_same_token() {
    let mut slots: Slots<u8> = Slots::new();
    let t = slots.park(1);
    assert_eq!(slots.reclaim(t), Some(1));
    slots.restore(t, 2);
    assert_eq!(slots.reclaim(t), Some(2));
}

#[test]
fn out_param_written_only_with_a_value() {
    let mut out = 0u32;
    assert!(return_out_param(&mut out, Some(7)));
    assert_eq!(out, 7);
    assert!(!return_out_param(&mut out, None));
    assert_eq!(out, 7);
}

#[test]
fn aot_data_follows_the_create_status() {
    let data = AOTData::new(FlutterEngineResult(0), 0xF00).unwrap();
    assert_eq!(data.data(), 0xF00);
    assert!(matches!(AOTData::new(FlutterEngineResult(2), 0xF00), Err(Error::InvalidArguments)));
}

#[test]
fn strings_cross_with_one_nul() {
    assert_eq!(fluster::nul_terminated(b"assets"), Some(b"assets\0".to_vec()));
    assert_eq!(fluster::nul_terminated(b""), Some(vec![0u8]));
    assert_eq!(fluster::nul_terminated(b"as\0sets"), None);
    assert_eq!(fluster::nul_terminated(b"\0"), None);
}
