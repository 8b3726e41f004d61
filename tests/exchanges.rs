use std::cell::RefCell;
use std::rc::Rc;

use fluster::{
    Engine, EngineState, EngineUserData, Error, FlutterEngineResult, PlatformMessageResponse,
    RendererType, TeardownStep, ViewId,
};

const OK: FlutterEngineResult = FlutterEngineResult(0);
const INVALID_ARGUMENTS: FlutterEngineResult = FlutterEngineResult(2);

type Continuation = Box<dyn FnOnce(&[u8])>;

fn user_data() -> EngineUserData {
    EngineUserData {
        renderer: RendererType::Software,
        has_compositor: false,
        has_custom_task_runners: false,
        has_aot_data: false,
        shutdown_dart_vm_when_done: false,
    }
}

fn running() -> Engine<Continuation> {
    match Engine::run(user_data(), OK, 77) {
        Ok(engine) => engine,
        Err(e) => panic!("engine did not start: {e:?}"),
    }
}

fn counter() -> (Rc<RefCell<Vec<Vec<u8>>>>, Continuation) {
    let calls = Rc::new(RefCell::new(Vec::new()));
    let seen = calls.clone();
    (calls, Box::new(move |data: &[u8]| seen.borrow_mut().push(data.to_vec())))
}

/// Plays the engine's side: answers `token` with `reply` as often as asked.
fn answer(engine: &mut Engine<Continuation>, token: usize, reply: &[u8], times: usize) -> Vec<Option<u64>> {
    let mut released = Vec::new();
    for _ in 0..times {
        if let Some(exchange) = engine.complete(token) {
            (exchange.continuation)(reply);
            released.push(exchange.response_handle);
        }
    }
    released
}

#[test]
fn started_add_view_runs_its_continuation_once() {
    let mut engine = running();
    let (calls, cont) = counter();
    let token = engine.add_view(ViewId(3), cont).unwrap();
    assert_eq!(engine.report_start(token, OK), (Ok(()), None));
    answer(&mut engine, token, &[1], 3);
    assert_eq!(calls.borrow().len(), 1);
}

#[test]
fn refused_remove_view_never_runs_its_continuation() {
    let mut engine = running();
    let (calls, cont) = counter();
    let token = engine.remove_view(ViewId(9), cont).unwrap();
    assert_eq!(engine.report_start(token, INVALID_ARGUMENTS), (Err(Error::InvalidArguments), None));
    assert!(!engine.complete(token).is_some());
    assert_eq!(calls.borrow().len(), 0);
}

#[test]
fn implicit_view_is_refused_synchronously() {
    let mut engine = running();
    let (calls, cont) = counter();
    assert!(matches!(engine.add_view(ViewId(0), cont), Err(Error::InvalidArguments)));
    let (calls2, cont2) = counter();
    assert!(matches!(engine.remove_view(ViewId(0), cont2), Err(Error::InvalidArguments)));
    // nothing was left waiting for the engine to answer
    assert!(engine.complete(0).is_none());
    assert_eq!(calls.borrow().len() + calls2.borrow().len(), 0);
}

#[test]
fn key_event_continuation_runs_once_when_started() {
    let mut engine = running();
    let (calls, cont) = counter();
    let token = engine.begin_exchange(cont);
    assert_eq!(engine.report_start(token, OK).0, Ok(()));
    answer(&mut engine, token, &[1], 2);
    assert_eq!(calls.borrow().as_slice(), &[vec![1u8]]);
}

#[test]
fn next_frame_continuation_refused_runs_zero_times() {
    let mut engine = running();
    let (calls, cont) = counter();
    let token = engine.begin_exchange(cont);
    assert_eq!(engine.report_start(token, FlutterEngineResult(3)).0, Err(Error::InternalInconsistency));
    answer(&mut engine, token, &[], 2);
    assert_eq!(calls.borrow().len(), 0);
}

#[test]
fn platform_message_reply_runs_once_and_releases_handle() {
    let mut engine = running();
    // the message on "test/channel" with [1, 2, 3] carries `token` as its
    // user data; the engine's reply is [4, 5, 6]
    let (calls, cont) = counter();
    let token = engine.begin_exchange(cont);
    assert_eq!(engine.attach_response_handle(token, OK, 555), Ok(()));
    assert_eq!(engine.report_start(token, OK), (Ok(()), None));
    let released = answer(&mut engine, token, &[4, 5, 6], 2);
    assert_eq!(calls.borrow().as_slice(), &[vec![4u8, 5, 6]]);
    assert_eq!(released, vec![Some(555)]);
}

#[test]
fn platform_message_refused_after_handle_returns_handle_for_release() {
    let mut engine = running();
    let (calls, cont) = counter();
    let token = engine.begin_exchange(cont);
    assert_eq!(engine.attach_response_handle(token, OK, 9), Ok(()));
    assert_eq!(engine.report_start(token, INVALID_ARGUMENTS), (Err(Error::InvalidArguments), Some(9)));
    answer(&mut engine, token, &[1], 1);
    assert_eq!(calls.borrow().len(), 0);
}

#[test]
fn platform_message_without_response_handle_is_dropped() {
    let mut engine = running();
    let (calls, cont) = counter();
    let token = engine.begin_exchange(cont);
    assert_eq!(engine.attach_response_handle(token, FlutterEngineResult(3), 9), Err(Error::InternalInconsistency));
    assert!(!engine.is_waiting_for(token));
    answer(&mut engine, token, &[1], 1);
    assert_eq!(calls.borrow().len(), 0);
}

#[test]
fn mismatched_struct_size_yields_invalid_library_version() {
    let started: Result<Engine<Continuation>, Error> = Engine::run(user_data(), FlutterEngineResult(1), 77);
    assert!(matches!(started, Err(Error::InvalidLibraryVersion)));
}

#[test]
fn started_engine_is_running_with_its_handle() {
    let engine = running();
    assert_eq!(engine.lifecycle(), EngineState::Running);
    assert_eq!(engine.engine_handle(), 77);
}

#[test]
fn shutdown_signals_native_side_then_releases_in_order() {
    let mut engine: Engine<Continuation> = match Engine::run(
        EngineUserData {
            renderer: RendererType::OpenGL,
            has_compositor: true,
            has_custom_task_runners: true,
            has_aot_data: true,
            shutdown_dart_vm_when_done: true,
        },
        OK,
        12,
    ) {
        Ok(e) => e,
        Err(e) => panic!("{e:?}"),
    };
    assert_eq!(engine.shutdown(), 12);
    assert_eq!(engine.lifecycle(), EngineState::ShuttingDown);
    assert_eq!(
        engine.terminate(),
        vec![
            TeardownStep::ReleaseCompositor,
            TeardownStep::ReleaseTaskRunners,
            TeardownStep::ReleaseAotData,
            TeardownStep::ReleaseHandler,
        ]
    );
    assert_eq!(engine.lifecycle(), EngineState::Terminated);
}

#[test]
fn aot_data_is_kept_forever_when_vm_outlives_engine() {
    let ud = EngineUserData {
        renderer: RendererType::Metal,
        has_compositor: false,
        has_custom_task_runners: false,
        has_aot_data: true,
        shutdown_dart_vm_when_done: false,
    };
    assert!(ud.aot_data_kept_forever());
    assert_eq!(ud.teardown_steps(), vec![TeardownStep::ReleaseHandler]);
}

#[test]
fn minimal_engine_releases_only_its_handler() {
    assert_eq!(user_data().teardown_steps(), vec![TeardownStep::ReleaseHandler]);
    assert!(!user_data().aot_data_kept_forever());
}

#[test]
fn response_is_sent_with_its_engine_and_handle() {
    let response = PlatformMessageResponse::new(4, 8);
    assert_eq!(response.send(), (4, 8));
}

#[test]
fn duplicate_view_fails_through_its_continuation_not_synchronously() {
    let mut engine: Engine<Box<dyn FnOnce(bool)>> = match Engine::run(user_data(), OK, 1) {
        Ok(e) => e,
        Err(e) => panic!("{e:?}"),
    };
    let outcomes = Rc::new(RefCell::new(Vec::new()));
    let (o1, o2) = (outcomes.clone(), outcomes.clone());
    let first = engine.add_view(ViewId(5), Box::new(move |added| o1.borrow_mut().push(added))).unwrap();
    let second = engine.add_view(ViewId(5), Box::new(move |added| o2.borrow_mut().push(added))).unwrap();
    assert_ne!(first, second);
    assert_eq!(engine.report_start(first, OK).0, Ok(()));
    assert_eq!(engine.report_start(second, OK).0, Ok(()));
    (engine.complete(first).unwrap().continuation)(true);
    (engine.complete(second).unwrap().continuation)(false);
    assert_eq!(outcomes.borrow().as_slice(), &[true, false]);
}

#[test]
fn empty_reply_reaches_the_continuation() {
    let mut engine = running();
    let (calls, cont) = counter();
    let token = engine.begin_exchange(cont);
    assert_eq!(engine.attach_response_handle(token, OK, 1), Ok(()));
    assert_eq!(engine.report_start(token, OK).0, Ok(()));
    assert_eq!(answer(&mut engine, token, &[], 1), vec![Some(1)]);
    assert_eq!(calls.borrow().as_slice(), &[Vec::<u8>::new()]);
}
