use fluster::{EngineResult, Error, FlutterEngineResult, NativeEnum};

#[test]
fn success_code_maps_to_ok() {
    assert_eq!(FlutterEngineResult(0).to_result(), Ok(()));
}

#[test]
fn each_failure_code_maps_to_its_error() {
    assert_eq!(FlutterEngineResult(1).to_result(), Err(Error::InvalidLibraryVersion));
    assert_eq!(FlutterEngineResult(2).to_result(), Err(Error::InvalidArguments));
    assert_eq!(FlutterEngineResult(3).to_result(), Err(Error::InternalInconsistency));
}

#[test]
fn unknown_status_code_is_refused_without_panic() {
    assert_eq!(EngineResult::from_raw(4), Err(4));
    assert_eq!(EngineResult::from_raw(u32::MAX), Err(u32::MAX));
}

#[test]
fn engine_result_round_trips() {
    for v in [
        EngineResult::Success,
        EngineResult::InvalidLibraryVersion,
        EngineResult::InvalidArguments,
        EngineResult::InternalInconsistency,
    ] {
        assert_eq!(EngineResult::from_raw(v.to_raw()), Ok(v));
    }
}

#[test]
fn engine_result_into_result() {
    assert_eq!(EngineResult::Success.into_result(), Ok(()));
    assert_eq!(EngineResult::InvalidArguments.into_result(), Err(Error::InvalidArguments));
}

#[test]
fn error_messages_are_distinct_and_non_empty() {
    let a = Error::InvalidLibraryVersion.message();
    let b = Error::InvalidArguments.message();
    let c = Error::InternalInconsistency.message();
    assert!(!a.is_empty() && !b.is_empty() && !c.is_empty());
    assert_ne!(a, b);
    assert_ne!(b, c);
    assert!(c.starts_with("Internal inconsistency"));
}
