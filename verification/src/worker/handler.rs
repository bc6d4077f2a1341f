//! The handle that lets other tasks send commands back to a worker, and how a
//! worker's loop routes what reaches it.
use vstd::prelude::*;

use crate::channel::{unbounded_send, weak_upgrade};
use crate::handler::WorkerCommand;
use crate::worker::context::{connection_lost, text_outcome, FrameRead, WsReadError};
use tokio::sync::mpsc::WeakUnboundedSender;

verus! {

/// A (weak) handle to the worker, which can be used to send commands back to
/// the worker across tasks.
#[verifier::reject_recursive_types(C)]
pub struct Loopback<C> {
    tx: WeakUnboundedSender<WorkerCommand<C>>,
}

impl<C> Loopback<C> {
    /// The weak sender of the worker's commands.
    pub closed spec fn spec_sender(&self) -> WeakUnboundedSender<WorkerCommand<C>> {
        self.tx
    }

    /// Wraps the weak sender of a worker's commands.
    pub fn new(tx: WeakUnboundedSender<WorkerCommand<C>>) -> (r: Self)
        ensures
            r.spec_sender() == tx,
    {
        Loopback { tx }
    }

    /// Tries to send a command to the worker, as [`WorkerCommand::user`] of it.
    /// Returns true if it has been sent and false if the worker is closed.
    /// Whether the worker is still alive depends on its task: the answer is
    /// not stated.
    pub fn try_send(&self, command: C) -> (r: bool) {
        match weak_upgrade(&self.tx) {
            None => false,
            Some(locked) => unbounded_send(&locked, WorkerCommand::user(command)).is_ok(),
        }
    }
}


/// What reaches a worker's loop in one turn.
pub enum WorkerInput<M, E, C> {
    /// The outcome of reading one message from the connection.
    Read(Result<M, WsReadError<E>>),
    /// A command from the handler, or `None` once the handler dropped the
    /// worker's command channel.
    Command(Option<WorkerCommand<C>>),
}

/// What a worker's loop does with one input.
pub enum WorkerRoute<M, C> {
    /// Hand the message to the worker's `on_message`.
    Message(M),
    /// Hand the command to the worker's `on_command`.
    Command(C),
    /// Drop the input and read on.
    Skip,
    /// Leave the loop and close the worker.
    Stop,
}

/// How a worker's loop routes `input`: a parsed message goes to
/// `on_message`, a user command to `on_command`; a read that timed out or
/// failed ended the connection, and a close command or a handler that let go of
/// the worker ends it too; a frame that is not usable text is skipped.
pub open spec fn worker_routed<M, E, C>(input: WorkerInput<M, E, C>) -> WorkerRoute<M, C> {
    match input {
        WorkerInput::Read(Ok(message)) => WorkerRoute::Message(message),
        WorkerInput::Read(Err(WsReadError::Timeout)) => WorkerRoute::Stop,
        WorkerInput::Read(Err(WsReadError::Parse)) => WorkerRoute::Stop,
        WorkerInput::Read(Err(_)) => WorkerRoute::Skip,
        WorkerInput::Command(Some(WorkerCommand::User(command))) => WorkerRoute::Command(command),
        WorkerInput::Command(Some(WorkerCommand::Close)) => WorkerRoute::Stop,
        WorkerInput::Command(None) => WorkerRoute::Stop,
    }
}

/// Routes one input of a worker's loop, as [`worker_routed`] says.
pub fn route_worker_input<M, E, C>(input: WorkerInput<M, E, C>) -> (r: WorkerRoute<M, C>)
    ensures
        r == worker_routed(input),
{
    match input {
        WorkerInput::Read(Ok(message)) => WorkerRoute::Message(message),
        WorkerInput::Read(Err(WsReadError::Timeout)) => WorkerRoute::Stop,
        WorkerInput::Read(Err(WsReadError::Parse)) => WorkerRoute::Stop,
        WorkerInput::Read(Err(_)) => WorkerRoute::Skip,
        WorkerInput::Command(Some(WorkerCommand::User(command))) => WorkerRoute::Command(command),
        WorkerInput::Command(Some(WorkerCommand::Close)) => WorkerRoute::Stop,
        WorkerInput::Command(None) => WorkerRoute::Stop,
    }
}

/// A close command always ends the worker, and so does a read that the
/// connection did not survive: a worker that is told to close never runs
/// another callback.
pub proof fn lemma_close_stops_worker<M, E, C>()
    ensures
        worker_routed(WorkerInput::<M, E, C>::Command(Some(WorkerCommand::Close))) is Stop,
        worker_routed(WorkerInput::<M, E, C>::Command(None)) is Stop,
        worker_routed(WorkerInput::<M, E, C>::Read(Err(WsReadError::Timeout))) is Stop,
        worker_routed(WorkerInput::<M, E, C>::Read(Err(WsReadError::Parse))) is Stop,
{
}

/// A read that the connection did not survive (it timed out or failed) never
/// reaches `on_message`: it ends the worker. This is what makes a read that
/// takes longer than the timeout close the connection.
pub proof fn lemma_lost_connection_stops_worker<M, C>(read: FrameRead)
    requires
        connection_lost(read),
    ensures
        text_outcome::<M>(read) matches Err(e) && worker_routed(
            WorkerInput::<M, M, C>::Read(Err(e)),
        ) is Stop,
{
}

} // verus!
