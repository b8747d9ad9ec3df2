//! The retry-send primitive as a state machine: a task that owns a client
//! handle and a single-use stop signal; each iteration executes the command,
//! applies the caller's predicate, and waits the interval; transport errors
//! force a reconnect; the stop signal ends the task with the distinguished
//! `Done` outcome.
//!
//! The decisions live here; a driver performs the actions (connect, send,
//! sleep) and feeds the outcomes back as events.

use vstd::prelude::*;
use crate::resp::Resp;

verus! {

/// How a client call can fail, and the distinguished cooperative-stop
/// outcome `Done`.
#[derive(PartialEq, Eq, Structural, Clone, Copy, Debug)]
pub enum ClientError {
    /// Cooperative cancellation; not an error.
    Done,
    /// The connection was closed by the peer.
    Closed,
    /// A client could not be obtained.
    ConnectionFailed,
    /// The peer answered something unusable.
    InvalidReply,
}

/// Where the retry task stands: waiting for a client, or holding one.
#[derive(PartialEq, Eq, Structural, Clone, Copy, Debug)]
pub enum RetryState {
    NeedClient,
    HasClient,
}

/// What the driver observed since the last step.
#[derive(PartialEq, Eq, Structural, Clone, Copy, Debug)]
pub enum RetryEvent {
    /// `create_client` handed a fresh client over.
    ConnectSucceeded,
    /// `create_client` failed.
    ConnectFailed,
    /// The send succeeded and the predicate said continue.
    ResponseOk,
    /// The send succeeded and the predicate ended the task with this
    /// outcome.
    ResponseTerminal(ClientError),
    /// The send itself failed.
    SendFailed,
    /// The stop signal fired.
    StopFired,
}

/// What the driver must do next.
#[derive(PartialEq, Eq, Structural, Clone, Copy, Debug)]
pub enum RetryAction {
    /// Obtain a fresh client from the factory.
    Connect,
    /// Send the command with the held client, then wait the interval.
    ExecuteAndDelay,
    /// The task is over with this outcome.
    Finish(ClientError),
}

/// One step of the retry task. The stop signal always wins and ends the
/// task with `Done`; a terminal verdict of `Done` ends it likewise; every
/// other predicate verdict and every transport failure drops the client and
/// reconnects; only a held client is ever asked to send.
pub open spec fn retry_step_spec(s: RetryState, ev: RetryEvent) -> (RetryState, RetryAction) {
    match ev {
        RetryEvent::StopFired => (s, RetryAction::Finish(ClientError::Done)),
        RetryEvent::ConnectSucceeded => (RetryState::HasClient, RetryAction::ExecuteAndDelay),
        RetryEvent::ConnectFailed => (RetryState::NeedClient, RetryAction::Connect),
        RetryEvent::ResponseOk => match s {
            RetryState::HasClient => (RetryState::HasClient, RetryAction::ExecuteAndDelay),
            RetryState::NeedClient => (RetryState::NeedClient, RetryAction::Connect),
        },
        RetryEvent::ResponseTerminal(e) => match e {
            ClientError::Done => (s, RetryAction::Finish(ClientError::Done)),
            _ => (RetryState::NeedClient, RetryAction::Connect),
        },
        RetryEvent::SendFailed => (RetryState::NeedClient, RetryAction::Connect),
    }
}

/// Advance the retry task by one observed event.
pub fn retry_step(s: RetryState, ev: RetryEvent) -> (r: (RetryState, RetryAction))
    ensures
        r == retry_step_spec(s, ev),
{
    match ev {
        RetryEvent::StopFired => (s, RetryAction::Finish(ClientError::Done)),
        RetryEvent::ConnectSucceeded => (RetryState::HasClient, RetryAction::ExecuteAndDelay),
        RetryEvent::ConnectFailed => (RetryState::NeedClient, RetryAction::Connect),
        RetryEvent::ResponseOk => match s {
            RetryState::HasClient => (RetryState::HasClient, RetryAction::ExecuteAndDelay),
            RetryState::NeedClient => (RetryState::NeedClient, RetryAction::Connect),
        },
        RetryEvent::ResponseTerminal(e) => match e {
            ClientError::Done => (s, RetryAction::Finish(ClientError::Done)),
            _ => (RetryState::NeedClient, RetryAction::Connect),
        },
        RetryEvent::SendFailed => (RetryState::NeedClient, RetryAction::Connect),
    }
}

/// After every send failure the task holds no client and must obtain the
/// next one from the factory; a failed connect attempt likewise never leaves
/// a client held.
pub proof fn lemma_send_failure_reconnects(s: RetryState)
    ensures
        retry_step_spec(s, RetryEvent::SendFailed) == (RetryState::NeedClient, RetryAction::Connect),
        retry_step_spec(s, RetryEvent::ConnectFailed) == (
            RetryState::NeedClient,
            RetryAction::Connect,
        ),
{
}

/// The stop signal ends the task with the distinguished `Done` outcome,
/// whatever state it is in.
pub proof fn lemma_stop_finishes_done(s: RetryState)
    ensures
        retry_step_spec(s, RetryEvent::StopFired).1 == RetryAction::Finish(ClientError::Done),
{
}

/// One iteration of a single-client send loop: the predicate's verdict, or
/// the send failure, decides whether the loop ends and with what outcome.
/// `None` keeps the client and sends again after the interval.
pub open spec fn send_step_spec(ev: RetryEvent) -> Option<ClientError> {
    match ev {
        RetryEvent::ResponseOk => None,
        RetryEvent::ResponseTerminal(e) => Some(e),
        RetryEvent::SendFailed => Some(ClientError::Closed),
        RetryEvent::StopFired => Some(ClientError::Done),
        _ => None,
    }
}

/// Decide one iteration of the single-client send loop.
pub fn keep_sending_step(ev: RetryEvent) -> (r: Option<ClientError>)
    ensures
        r == send_step_spec(ev),
{
    match ev {
        RetryEvent::ResponseOk => None,
        RetryEvent::ResponseTerminal(e) => Some(e),
        RetryEvent::SendFailed => Some(ClientError::Closed),
        RetryEvent::StopFired => Some(ClientError::Done),
        _ => None,
    }
}

/// The always-continue predicate of the plain retrying loop: every reply,
/// error replies included, keeps the loop going.
pub fn retry_handle_func(response: &Resp) -> (r: Result<(), ClientError>)
    ensures
        r is Ok,
{
    match response {
        Resp::Error(_) => Ok(()),
        _ => Ok(()),
    }
}

/// The retriever that publishes an integer observation from a retry-driven
/// control loop, and owns the loop's single-use stop signal.
pub struct I64Retriever {
    pub data: i64,
    pub stopped: bool,
}

/// One `try_stop` call: the result says whether this call consumed the
/// single-use stop signal, and the signal is consumed afterwards either way.
pub open spec fn try_stop_rel(pre: I64Retriever, post: I64Retriever, r: bool) -> bool {
    r == !pre.stopped && post.stopped && post.data == pre.data
}

impl I64Retriever {
    /// A retriever holding the initial observation, stop signal unused.
    pub fn new(init_data: i64) -> (r: I64Retriever)
        ensures
            r.data == init_data,
            !r.stopped,
    {
        I64Retriever { data: init_data, stopped: false }
    }

    /// The last observation the driven predicate published.
    pub fn get_data(&self) -> (r: i64)
        ensures
            r == self.data,
    {
        self.data
    }

    /// Publish a new observation; the driven predicate calls this on every
    /// reply it accepts.
    pub fn update(&mut self, value: i64)
        ensures
            final(self).data == value,
            final(self).stopped == old(self).stopped,
    {
        self.data = value;
    }

    /// Consume the stop signal. The first call returns `true` and fires it;
    /// any later call returns `false` and is harmless.
    pub fn try_stop(&mut self) -> (r: bool)
        ensures
            try_stop_rel(*old(self), *final(self), r),
    {
        let r = !self.stopped;
        self.stopped = true;
        r
    }

    /// Stop the driven loop; a second stop is not an error.
    pub fn stop(&mut self)
        ensures
            try_stop_rel(*old(self), *final(self), !old(self).stopped),
    {
        let _ = self.try_stop();
    }
}

/// Stop idempotence: over any two consecutive `try_stop` calls, the second
/// returns `false`; once consumed, the signal stays consumed.
pub proof fn lemma_stop_at_most_once(
    s0: I64Retriever,
    s1: I64Retriever,
    s2: I64Retriever,
    r1: bool,
    r2: bool,
)
    requires
        try_stop_rel(s0, s1, r1),
        try_stop_rel(s1, s2, r2),
    ensures
        !r2,
        s1.stopped,
        s2.stopped,
        r1 == !s0.stopped,
{
}

} // verus!
