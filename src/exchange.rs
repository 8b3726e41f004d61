//! Asynchronous exchanges with the engine and their single-use continuations.
//!
//! An exchange starts when the embedder asks the engine for something whose
//! outcome arrives later (a view added or removed, a key event handled, a
//! reply to a platform message, the next frame drawn). The continuation waits
//! under a token that the engine carries as its user data. If the engine
//! refuses to start the exchange, the continuation is dropped at once and can
//! never run; if it accepts, the engine's callback takes the continuation out
//! exactly once.
use vstd::prelude::*;

use crate::bridge::{SlotToken, Slots};
use crate::error::{Error, FlutterEngineResult};

verus! {

/// A pending exchange: what runs when the engine answers, and the native
/// response handle that must be released when the exchange ends.
pub struct Exchange<C> {
    pub continuation: C,
    pub response_handle: Option<u64>,
}

/// The exchanges that have been started and not yet answered.
pub struct Exchanges<C> {
    slots: Slots<Exchange<C>>,
}

/// The state of the exchanges after a new one is registered.
pub open spec fn begun<C>(s: Seq<Option<Exchange<C>>>, continuation: C) -> Seq<Option<Exchange<C>>> {
    s.push(Some(Exchange { continuation, response_handle: None }))
}

/// Whether exchange `token` is still waiting for the engine.
pub open spec fn waiting<C>(s: Seq<Option<Exchange<C>>>, token: SlotToken) -> bool {
    token < s.len() && s[token as int] is Some
}

/// The state after the native response handle `handle` was created for
/// exchange `token`.
pub open spec fn attached<C>(s: Seq<Option<Exchange<C>>>, token: SlotToken, handle: u64) -> Seq<
    Option<Exchange<C>>,
> {
    s.update(
        token as int,
        Some(Exchange { continuation: s[token as int].unwrap().continuation, response_handle: Some(handle) }),
    )
}

/// The state after the engine reported whether it started exchange `token`:
/// a refused exchange is gone.
pub open spec fn reported<C>(
    s: Seq<Option<Exchange<C>>>,
    token: SlotToken,
    status: FlutterEngineResult,
) -> Seq<Option<Exchange<C>>> {
    if status.result() is Ok {
        s
    } else {
        s.update(token as int, None)
    }
}

/// The state after the engine answered exchange `token`, and what the answer
/// hands out: the exchange if it was still waiting, else nothing.
pub open spec fn answered<C>(s: Seq<Option<Exchange<C>>>, token: SlotToken) -> (
    Seq<Option<Exchange<C>>>,
    Option<Exchange<C>>,
) {
    if token < s.len() {
        (s.update(token as int, None), s[token as int])
    } else {
        (s, None)
    }
}

impl<C> View for Exchanges<C> {
    type V = Seq<Option<Exchange<C>>>;

    /// Entry `t` is the exchange under token `t`, `None` once it ended.
    closed spec fn view(&self) -> Seq<Option<Exchange<C>>> {
        self.slots@
    }
}

impl<C> Exchanges<C> {
    /// No exchange has started.
    pub fn new() -> (r: Exchanges<C>)
        ensures
            r@ == Seq::<Option<Exchange<C>>>::empty(),
    {
        Exchanges { slots: Slots::new() }
    }

    /// Registers the continuation of an exchange that is about to be started
    /// and returns the token that the engine will carry.
    pub fn begin(&mut self, continuation: C) -> (token: SlotToken)
        ensures
            token == old(self)@.len(),
            final(self)@ == begun(old(self)@, continuation),
    {
        self.slots.park(Exchange { continuation, response_handle: None })
    }

    /// Records the outcome of creating the native response handle of
    /// exchange `token`. If it could not be created, the engine will never
    /// answer, so the exchange ends here without running.
    pub fn attach_response_handle(
        &mut self,
        token: SlotToken,
        status: FlutterEngineResult,
        handle: u64,
    ) -> (r: Result<(), Error>)
        requires
            waiting(old(self)@, token),
            status.is_known(),
        ensures
            r == status.result(),
            r is Ok ==> final(self)@ == attached(old(self)@, token, handle),
            r is Err ==> final(self)@ == old(self)@.update(token as int, None),
    {
        let result = status.to_result();
        let pending = self.slots.reclaim(token);
        match pending {
            Some(exchange) => {
                if result.is_ok() {
                    self.slots.restore(
                        token,
                        Exchange { continuation: exchange.continuation, response_handle: Some(handle) },
                    );
                }
            },
            None => {},
        }
        result
    }

    /// Records whether the engine started exchange `token`. A refused
    /// exchange ends here: its continuation is dropped without running, and
    /// its response handle, if it has one, is handed back to be released.
    pub fn report_start(&mut self, token: SlotToken, status: FlutterEngineResult) -> (r: (
        Result<(), Error>,
        Option<u64>,
    ))
        requires
            waiting(old(self)@, token),
            status.is_known(),
        ensures
            r.0 == status.result(),
            final(self)@ == reported(old(self)@, token, status),
            r.1 == (if status.result() is Ok {
                None
            } else {
                old(self)@[token as int].unwrap().response_handle
            }),
    {
        let result = status.to_result();
        if result.is_ok() {
            (result, None)
        } else {
            let refused = self.slots.reclaim(token);
            match refused {
                Some(exchange) => (result, exchange.response_handle),
                None => (result, None),
            }
        }
    }

    /// The engine answers exchange `token`: its continuation is handed out
    /// if it is still waiting. A second answer finds nothing.
    pub fn complete(&mut self, token: SlotToken) -> (r: Option<Exchange<C>>)
        ensures
            (final(self)@, r) == answered(old(self)@, token),
    {
        self.slots.reclaim(token)
    }

    /// Whether exchange `token` is still waiting.
    pub fn is_waiting(&self, token: SlotToken) -> (r: bool)
        ensures
            r == waiting(self@, token),
    {
        self.slots.get(token).is_some()
    }
}

/// An exchange that the engine refused to start hands its continuation out
/// to no answer; one that it started hands it out to its first answer and
/// to none after that.
pub proof fn lemma_continuation_runs_once<C>(
    s: Seq<Option<Exchange<C>>>,
    continuation: C,
    status: FlutterEngineResult,
    token: SlotToken,
)
    requires
        status.is_known(),
        token == s.len(),
    ensures
        ({
            let started = reported(begun(s, continuation), token, status);
            let (after_first, first) = answered(started, token);
            let (after_second, second) = answered(after_first, token);
            &&& status.result() is Ok ==> first == Some(
                Exchange { continuation, response_handle: None },
            )
            &&& status.result() is Err ==> first is None
            &&& second is None
            &&& !waiting(after_first, token)
            &&& !waiting(after_second, token)
        }),
{
}

/// A platform message whose response handle was created hands the handle
/// out exactly once to be released: with the reply if the engine started the
/// exchange, at the refusal if it did not.
pub proof fn lemma_response_handle_released_once<C>(
    s: Seq<Option<Exchange<C>>>,
    continuation: C,
    handle: u64,
    status: FlutterEngineResult,
    token: SlotToken,
)
    requires
        status.is_known(),
        token == s.len(),
    ensures
        ({
            let with_handle = attached(begun(s, continuation), token, handle);
            let started = reported(with_handle, token, status);
            let (after_first, first) = answered(started, token);
            let (_, second) = answered(after_first, token);
            &&& with_handle[token as int].unwrap().response_handle == Some(handle)
            &&& status.result() is Ok ==> first == Some(
                Exchange { continuation, response_handle: Some(handle) },
            )
            &&& status.result() is Err ==> first is None
            &&& second is None
        }),
{
}

/// An exchange that is no longer waiting hands nothing out to any later
/// answer and stays ended.
pub proof fn lemma_ended_stays_ended<C>(s: Seq<Option<Exchange<C>>>, token: SlotToken)
    requires
        !waiting(s, token),
    ensures
        answered(s, token).1 is None,
        !waiting(answered(s, token).0, token),
{
}

} // verus!
