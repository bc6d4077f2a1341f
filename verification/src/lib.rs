//! A generic `WebSocket` pool: one handler owns many workers (connections) and
//! routes the traffic between them.

mod channel;
pub mod event_loop;
pub mod handler;
pub mod worker;
pub mod ws;

pub use event_loop::EventLoopAction;
pub use handler::{Handler, HandlerContext, LoopInput, Route, Worker, WorkerCommand, WorkerEvent};
pub use worker::context::{closes_connection, text_of, FrameRead, WsContext, WsReadError};
pub use worker::handler::{route_worker_input, Loopback, WorkerInput, WorkerRoute};
pub use ws::{
    connect_target, handshake_headers, is_secure_scheme, make_request, plan_connect, tls_server_name,
    ConnectTarget, HandshakeRequest, Socket, StartError,
};

use vstd::prelude::*;

verus! {

/// Generic error indicating a message couldn't be sent over an MPSC channel as
/// it's already closed. It cannot be built outside the crate, and like an `Rc`
/// it stays on the thread where it was made.
#[derive(Debug, Clone, Copy)]
pub struct SendError {
    _priv: core::marker::PhantomData<std::rc::Rc<()>>,
}

impl PartialEq for SendError {
    fn eq(&self, _other: &Self) -> (r: bool) {
        true
    }
}

impl Eq for SendError {
}

impl vstd::std_specs::cmp::PartialEqSpecImpl for SendError {
    open spec fn obeys_eq_spec() -> bool {
        true
    }

    open spec fn eq_spec(&self, other: &Self) -> bool {
        true
    }
}

impl SendError {
    /// The one value of the type.
    pub closed spec fn closed_channel() -> SendError {
        SendError { _priv: core::marker::PhantomData }
    }
}

impl Default for SendError {
    fn default() -> (r: Self)
        ensures
            r == SendError::closed_channel(),
    {
        SendError { _priv: core::marker::PhantomData }
    }
}

impl<T> From<tokio::sync::mpsc::error::SendError<T>> for SendError {
    fn from(_value: tokio::sync::mpsc::error::SendError<T>) -> (r: Self) {
        SendError { _priv: core::marker::PhantomData }
    }
}

impl<T> vstd::std_specs::convert::FromSpecImpl<tokio::sync::mpsc::error::SendError<T>> for SendError {
    open spec fn obeys_from_spec() -> bool {
        true
    }

    open spec fn from_spec(v: tokio::sync::mpsc::error::SendError<T>) -> Self {
        SendError::closed_channel()
    }
}

/// Every `SendError` is the same value: it carries no information beyond its
/// presence.
pub proof fn lemma_send_errors_equal(a: SendError, b: SendError)
    ensures
        a == b,
{
}

/// Maps the outcome of a channel send to the library's own error.
pub fn lift_send<T>(r: Result<(), tokio::sync::mpsc::error::SendError<T>>) -> (out: Result<(), SendError>)
    ensures
        out == match r {
            Ok(()) => Ok::<(), SendError>(()),
            Err(_) => Err(SendError::closed_channel()),
        },
{
    match r {
        Ok(()) => Ok(()),
        Err(e) => Err(SendError::from(e)),
    }
}

} // verus!
