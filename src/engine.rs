//! The engine lifecycle, the per-engine user data and the exchanges that an
//! engine carries.
use vstd::prelude::*;

use crate::bridge::SlotToken;
use crate::enums::RendererType;
use crate::error::{Error, FlutterEngineResult};
use crate::exchange::{answered, attached, begun, reported, waiting, Exchange, Exchanges};

verus! {

/// The identifier of the view that every engine has without adding it.
pub const IMPLICIT_VIEW_ID: i64 = 0;

/// The identifier of a view of an engine.
#[derive(Debug, Clone, Copy, PartialEq, Eq, Hash, Structural)]
pub struct ViewId(pub i64);

impl ViewId {
    /// Whether this is the view that the engine has from the start, which
    /// cannot be added or removed.
    pub open spec fn is_implicit(self) -> bool {
        self.0 == IMPLICIT_VIEW_ID
    }
}

/// A baton that the engine hands out with a vsync request and expects back.
#[derive(Debug, PartialEq, Eq, Hash, Structural)]
pub struct VsyncBaton(pub isize);

/// Where an engine is in its life.
#[derive(Debug, Clone, Copy, PartialEq, Eq, Hash, Structural)]
pub enum EngineState {
    NotStarted,
    Running,
    ShuttingDown,
    Terminated,
}

/// One step of releasing what an engine owned, in the order it must happen.
#[derive(Debug, Clone, Copy, PartialEq, Eq, Hash, Structural)]
pub enum TeardownStep {
    /// Release the compositor's callback state.
    ReleaseCompositor,
    /// Release the custom task runners' callback state.
    ReleaseTaskRunners,
    /// Drop this engine's share of the AOT data.
    ReleaseAotData,
    /// Release the handler of engine callbacks.
    ReleaseHandler,
}

/// What the engine's user data holds besides the handler, which every
/// engine has.
#[derive(Debug, Clone, Copy, PartialEq, Eq, Hash, Structural)]
pub struct EngineUserData {
    pub renderer: RendererType,
    pub has_compositor: bool,
    pub has_custom_task_runners: bool,
    pub has_aot_data: bool,
    /// Whether the VM shuts down with the last engine. If it does not, AOT
    /// data may be read by the VM after this engine is gone, so this engine's
    /// share of it is never released.
    pub shutdown_dart_vm_when_done: bool,
}

impl EngineUserData {
    /// Whether this engine's share of the AOT data must outlive the process.
    pub open spec fn keeps_aot_data_forever(self) -> bool {
        self.has_aot_data && !self.shutdown_dart_vm_when_done
    }

    /// The releases that end an engine, in order: compositor state, task
    /// runner state, the AOT data share unless it is kept forever, and last
    /// the handler.
    pub open spec fn teardown(self) -> Seq<TeardownStep> {
        let s0 = Seq::<TeardownStep>::empty();
        let s1 = if self.has_compositor {
            s0.push(TeardownStep::ReleaseCompositor)
        } else {
            s0
        };
        let s2 = if self.has_custom_task_runners {
            s1.push(TeardownStep::ReleaseTaskRunners)
        } else {
            s1
        };
        let s3 = if self.has_aot_data && !self.keeps_aot_data_forever() {
            s2.push(TeardownStep::ReleaseAotData)
        } else {
            s2
        };
        s3.push(TeardownStep::ReleaseHandler)
    }

    /// Whether this engine's share of the AOT data must outlive the process.
    pub fn aot_data_kept_forever(&self) -> (r: bool)
        ensures
            r == self.keeps_aot_data_forever(),
    {
        self.has_aot_data && !self.shutdown_dart_vm_when_done
    }

    /// The releases that end an engine, in order.
    pub fn teardown_steps(&self) -> (r: Vec<TeardownStep>)
        ensures
            r@ == self.teardown(),
    {
        let mut steps: Vec<TeardownStep> = Vec::new();
        if self.has_compositor {
            steps.push(TeardownStep::ReleaseCompositor);
        }
        if self.has_custom_task_runners {
            steps.push(TeardownStep::ReleaseTaskRunners);
        }
        if self.has_aot_data && !self.aot_data_kept_forever() {
            steps.push(TeardownStep::ReleaseAotData);
        }
        steps.push(TeardownStep::ReleaseHandler);
        steps
    }
}

/// A response that the embedder owes the engine for one platform message.
/// Sending it consumes it, so it can be sent at most once.
pub struct PlatformMessageResponse {
    engine: u64,
    handle: u64,
}

impl PlatformMessageResponse {
    pub closed spec fn engine(&self) -> u64 {
        self.engine
    }

    pub closed spec fn handle(&self) -> u64 {
        self.handle
    }

    /// The response owed for the message that came with native response
    /// handle `handle` from engine `engine`.
    pub fn new(engine: u64, handle: u64) -> (r: PlatformMessageResponse)
        ensures
            r.engine() == engine,
            r.handle() == handle,
    {
        PlatformMessageResponse { engine, handle }
    }

    /// Gives up the response: the engine and the response handle that the
    /// reply is to be sent with. Nothing is left to send it a second time.
    pub fn send(self) -> (r: (u64, u64))
        ensures
            r == (self.engine(), self.handle()),
    {
        (self.engine, self.handle)
    }
}

/// A running engine, as far as this layer tracks it: its native identity,
/// its user data and the exchanges that wait for it.
pub struct Engine<C> {
    state: EngineState,
    handle: u64,
    user_data: EngineUserData,
    exchanges: Exchanges<C>,
}

impl<C> Engine<C> {
    pub closed spec fn state(&self) -> EngineState {
        self.state
    }

    pub closed spec fn handle(&self) -> u64 {
        self.handle
    }

    pub closed spec fn user_data(&self) -> EngineUserData {
        self.user_data
    }

    /// The exchanges of this engine; entry `t` is the one under token `t`.
    pub closed spec fn exchanges(&self) -> Seq<Option<Exchange<C>>> {
        self.exchanges@
    }

    /// Whether embedder operations may be made on this engine.
    pub open spec fn is_running(&self) -> bool {
        self.state() == EngineState::Running
    }

    /// Starts tracking an engine once the native start call has returned.
    /// If the engine did not start, no engine comes out, and the user data
    /// prepared for it is dropped here, since the engine will never call back
    /// to release it.
    pub fn run(
        user_data: EngineUserData,
        status: FlutterEngineResult,
        handle: u64,
    ) -> (r: Result<Engine<C>, Error>)
        requires
            status.is_known(),
        ensures
            r is Ok <==> status.result() is Ok,
            r matches Err(e) ==> status.result() == Err::<(), Error>(e),
            r matches Ok(engine) ==> {
                &&& engine.is_running()
                &&& engine.handle() == handle
                &&& engine.user_data() == user_data
                &&& engine.exchanges() == Seq::<Option<Exchange<C>>>::empty()
            },
    {
        match status.to_result() {
            Ok(()) => Ok(
                Engine { state: EngineState::Running, handle, user_data, exchanges: Exchanges::new() },
            ),
            Err(e) => Err(e),
        }
    }

    /// The native identity of the engine.
    pub fn engine_handle(&self) -> (r: u64)
        ensures
            r == self.handle(),
    {
        self.handle
    }

    /// The lifecycle state.
    pub fn lifecycle(&self) -> (r: EngineState)
        ensures
            r == self.state(),
    {
        self.state
    }

    fn start_view_operation(&mut self, view_id: ViewId, callback: C) -> (r: Result<SlotToken, Error>)
        requires
            old(self).is_running(),
        ensures
            view_id.is_implicit() ==> r == Err::<SlotToken, Error>(Error::InvalidArguments)
                && *final(self) == *old(self),
            !view_id.is_implicit() ==> {
                &&& r matches Ok(t) && t == old(self).exchanges().len()
                &&& final(self).exchanges() == begun(old(self).exchanges(), callback)
                &&& final(self).state() == old(self).state()
                &&& final(self).handle() == old(self).handle()
                &&& final(self).user_data() == old(self).user_data()
            },
    {
        if view_id.0 == IMPLICIT_VIEW_ID {
            Err(Error::InvalidArguments)
        } else {
            Ok(self.exchanges.begin(callback))
        }
    }

    /// Starts adding a view. The implicit view cannot be added: that fails
    /// here, before the engine is asked, and `callback` is dropped unrun.
    /// Otherwise `callback` waits under the returned token, which the native
    /// add-view call carries; its outcome goes to [`Engine::report_start`].
    pub fn add_view(&mut self, view_id: ViewId, callback: C) -> (r: Result<SlotToken, Error>)
        requires
            old(self).is_running(),
        ensures
            view_id.is_implicit() ==> r == Err::<SlotToken, Error>(Error::InvalidArguments)
                && *final(self) == *old(self),
            !view_id.is_implicit() ==> {
                &&& r matches Ok(t) && t == old(self).exchanges().len()
                &&& final(self).exchanges() == begun(old(self).exchanges(), callback)
                &&& final(self).state() == old(self).state()
                &&& final(self).handle() == old(self).handle()
                &&& final(self).user_data() == old(self).user_data()
            },
    {
        self.start_view_operation(view_id, callback)
    }

    /// Starts removing a view, under the same rules as [`Engine::add_view`].
    pub fn remove_view(&mut self, view_id: ViewId, callback: C) -> (r: Result<SlotToken, Error>)
        requires
            old(self).is_running(),
        ensures
            view_id.is_implicit() ==> r == Err::<SlotToken, Error>(Error::InvalidArguments)
                && *final(self) == *old(self),
            !view_id.is_implicit() ==> {
                &&& r matches Ok(t) && t == old(self).exchanges().len()
                &&& final(self).exchanges() == begun(old(self).exchanges(), callback)
                &&& final(self).state() == old(self).state()
                &&& final(self).handle() == old(self).handle()
                &&& final(self).user_data() == old(self).user_data()
            },
    {
        self.start_view_operation(view_id, callback)
    }

    /// Registers the continuation of an exchange that the engine is about to
    /// be asked to start (a key event, a platform message, a next-frame
    /// callback, a render-thread task) and returns its token.
    pub fn begin_exchange(&mut self, continuation: C) -> (token: SlotToken)
        requires
            old(self).is_running(),
        ensures
            token == old(self).exchanges().len(),
            final(self).exchanges() == begun(old(self).exchanges(), continuation),
            final(self).state() == old(self).state(),
            final(self).handle() == old(self).handle(),
            final(self).user_data() == old(self).user_data(),
    {
        self.exchanges.begin(continuation)
    }

    /// Records the outcome of creating the native response handle for the
    /// platform message under `token`; see
    /// [`Exchanges::attach_response_handle`].
    pub fn attach_response_handle(
        &mut self,
        token: SlotToken,
        status: FlutterEngineResult,
        response_handle: u64,
    ) -> (r: Result<(), Error>)
        requires
            waiting(old(self).exchanges(), token),
            status.is_known(),
        ensures
            r == status.result(),
            r is Ok ==> final(self).exchanges() == attached(old(self).exchanges(), token, response_handle),
            r is Err ==> final(self).exchanges() == old(self).exchanges().update(token as int, None),
            final(self).state() == old(self).state(),
            final(self).handle() == old(self).handle(),
            final(self).user_data() == old(self).user_data(),
    {
        self.exchanges.attach_response_handle(token, status, response_handle)
    }

    /// Records whether the engine started the exchange under `token`. A
    /// refused exchange ends here without running; its response handle, if
    /// any, comes back to be released.
    pub fn report_start(&mut self, token: SlotToken, status: FlutterEngineResult) -> (r: (
        Result<(), Error>,
        Option<u64>,
    ))
        requires
            waiting(old(self).exchanges(), token),
            status.is_known(),
        ensures
            r.0 == status.result(),
            final(self).exchanges() == reported(old(self).exchanges(), token, status),
            r.1 == (if status.result() is Ok {
                None
            } else {
                old(self).exchanges()[token as int].unwrap().response_handle
            }),
            final(self).state() == old(self).state(),
            final(self).handle() == old(self).handle(),
            final(self).user_data() == old(self).user_data(),
    {
        self.exchanges.report_start(token, status)
    }

    /// The engine answers the exchange under `token`. The exchange is handed
    /// out if it still waits: its continuation is to run once, and its
    /// response handle, if any, to be released.
    pub fn complete(&mut self, token: SlotToken) -> (r: Option<Exchange<C>>)
        ensures
            (final(self).exchanges(), r) == answered(old(self).exchanges(), token),
            final(self).state() == old(self).state(),
            final(self).handle() == old(self).handle(),
            final(self).user_data() == old(self).user_data(),
    {
        self.exchanges.complete(token)
    }

    /// Whether the exchange under `token` still waits for the engine.
    pub fn is_waiting_for(&self, token: SlotToken) -> (r: bool)
        ensures
            r == waiting(self.exchanges(), token),
    {
        self.exchanges.is_waiting(token)
    }

    /// Begins shutting the engine down and returns the native identity to
    /// signal shutdown to, before anything it owned is released. From here
    /// on only the engine's own answers are taken.
    pub fn shutdown(&mut self) -> (r: u64)
        requires
            old(self).is_running(),
        ensures
            r == old(self).handle(),
            final(self).state() == EngineState::ShuttingDown,
            final(self).handle() == old(self).handle(),
            final(self).user_data() == old(self).user_data(),
            final(self).exchanges() == old(self).exchanges(),
    {
        self.state = EngineState::ShuttingDown;
        self.handle
    }

    /// Ends the engine once the native side has shut down, and returns what
    /// it owned in the order in which it is to be released.
    pub fn terminate(&mut self) -> (r: Vec<TeardownStep>)
        requires
            old(self).state() == EngineState::ShuttingDown,
        ensures
            r@ == old(self).user_data().teardown(),
            final(self).state() == EngineState::Terminated,
            final(self).handle() == old(self).handle(),
            final(self).user_data() == old(self).user_data(),
            final(self).exchanges() == old(self).exchanges(),
    {
        self.state = EngineState::Terminated;
        self.user_data.teardown_steps()
    }
}

/// The handler is released last, after the compositor and the task runners.
pub proof fn lemma_handler_released_last(user_data: EngineUserData)
    ensures
        user_data.teardown().len() >= 1,
        user_data.teardown().last() == TeardownStep::ReleaseHandler,
        forall|i: int|
            0 <= i < user_data.teardown().len() - 1 ==> user_data.teardown()[i]
                != TeardownStep::ReleaseHandler,
        user_data.has_compositor ==> user_data.teardown()[0] == TeardownStep::ReleaseCompositor,
        user_data.keeps_aot_data_forever() ==> forall|i: int|
            0 <= i < user_data.teardown().len() ==> user_data.teardown()[i]
                != TeardownStep::ReleaseAotData,
{
}

} // verus!
