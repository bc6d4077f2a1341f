//! The context of one worker: its connection, its id, its read timeout and the
//! channel it reports to the handler on; and what a read of the socket yields.
use vstd::prelude::*;
use vstd::string::StringSliceAdditionalSpecFns;

use crate::handler::WorkerEvent;
use crate::ws::Socket;
use core::time::Duration;
use tokio::sync::mpsc::Sender;

verus! {

/// The read timeout of a new worker, in seconds.
pub const READ_TIMEOUT_SECS: u64 = 60;

/// What `Duration::from_secs` returns: the duration of `secs` whole seconds.
pub uninterp spec fn secs_duration(secs: u64) -> Duration;

/// `Duration::from_secs`: the duration of `secs` whole seconds.
#[verifier::external_body]
fn duration_from_secs(secs: u64) -> (r: Duration)
    ensures
        r == secs_duration(secs),
{
    Duration::from_secs(secs)
}

/// `std::str::from_utf8`: the bytes as a string slice when they are valid
/// UTF-8, as std documents it; `None` (std's `Utf8Error`) otherwise.
#[verifier::external_body]
fn str_from_utf8(bytes: &[u8]) -> (r: Option<&str>)
    ensures
        r is Some <==> vstd::utf8::valid_utf8(bytes@),
        r matches Some(s) ==> s.spec_bytes() == bytes@,
{
    std::str::from_utf8(bytes).ok()
}

/// Context for a worker (one `WebSocket` connection).
#[verifier::reject_recursive_types(E)]
pub struct WsContext<E> {
    id: usize,
    sock: Socket,
    timeout: Duration,
    tx: Sender<WorkerEvent<E>>,
}

impl<E> WsContext<E> {
    /// The worker's id.
    pub closed spec fn spec_id(&self) -> usize {
        self.id
    }

    /// The worker's connection.
    pub closed spec fn spec_sock(&self) -> Socket {
        self.sock
    }

    /// How long a read may take before the connection counts as dead.
    pub closed spec fn spec_timeout(&self) -> Duration {
        self.timeout
    }

    /// The sender that the worker reports to the handler on.
    pub closed spec fn spec_tx(&self) -> Sender<WorkerEvent<E>> {
        self.tx
    }

    /// The same worker: the same id and the same sender to the handler.
    pub open spec fn same_worker(self, other: Self) -> bool {
        &&& self.spec_id() == other.spec_id()
        &&& self.spec_tx() == other.spec_tx()
    }

    /// A context for the worker `id` on the connection `sock`, reporting on
    /// `tx`, with a read timeout of [`READ_TIMEOUT_SECS`] seconds.
    pub fn new(id: usize, sock: Socket, tx: Sender<WorkerEvent<E>>) -> (r: Self)
        ensures
            r.spec_id() == id,
            r.spec_sock() == sock,
            r.spec_tx() == tx,
            r.spec_timeout() == secs_duration(READ_TIMEOUT_SECS),
    {
        WsContext { id, sock, timeout: duration_from_secs(READ_TIMEOUT_SECS), tx }
    }

    /// Get the ID of the current worker.
    pub fn id(&self) -> (r: usize)
        ensures
            r == self.spec_id(),
    {
        self.id
    }

    /// The read timeout.
    pub fn timeout(&self) -> (r: Duration)
        ensures
            r == self.spec_timeout(),
    {
        self.timeout
    }

    /// Set the read timeout. If a read takes longer than the specified
    /// duration, the connection is considered dead and is closed.
    pub fn set_timeout(&mut self, timeout: Duration)
        ensures
            final(self).spec_timeout() == timeout,
            final(self).same_worker(*old(self)),
            final(self).spec_id() == old(self).spec_id(),
            final(self).spec_sock() == old(self).spec_sock(),
            final(self).spec_tx() == old(self).spec_tx(),
    {
        self.timeout = timeout;
    }

    /// The connection, for reading and writing frames and for replacing it on
    /// a reconnect.
    pub fn socket_mut(&mut self) -> (r: &mut Socket)
        ensures
            *r == old(self).spec_sock(),
            final(self).spec_sock() == *final(r),
            final(self).same_worker(*old(self)),
            final(self).spec_id() == old(self).spec_id(),
            final(self).spec_timeout() == old(self).spec_timeout(),
            final(self).spec_tx() == old(self).spec_tx(),
    {
        &mut self.sock
    }

    /// The sender that the worker reports to the handler on.
    pub fn event_sender(&self) -> (r: &Sender<WorkerEvent<E>>)
        ensures
            *r == self.spec_tx(),
    {
        &self.tx
    }

    /// What the worker sends the handler to emit `event`: the event, under the
    /// worker's id.
    pub fn user_event(&self, event: E) -> (r: WorkerEvent<E>)
        ensures
            r == WorkerEvent::User(self.spec_id(), event),
    {
        WorkerEvent::User(self.id, event)
    }

    /// What the worker sends the handler when it closes: its id.
    pub fn closed_event(&self) -> (r: WorkerEvent<E>)
        ensures
            r == WorkerEvent::<E>::Closed(self.spec_id()),
    {
        WorkerEvent::Closed(self.id)
    }
}

/// A worker's id is fixed for its whole life: along any run of calls that
/// each keep the worker (setting the timeout and using or replacing the
/// socket do), every context has the first one's id and sender, so every
/// event it emits is tagged with that id and its close reports that id.
pub proof fn lemma_worker_keeps_its_id<E>(run: Seq<WsContext<E>>)
    requires
        run.len() > 0,
        forall|k: int| 0 <= k < run.len() - 1 ==> #[trigger] run[k + 1].same_worker(run[k]),
    ensures
        forall|k: int|
            0 <= k < run.len() ==> {
                &&& #[trigger] run[k].spec_id() == run[0].spec_id()
                &&& run[k].spec_tx() == run[0].spec_tx()
            },
    decreases run.len(),
{
    if run.len() > 1 {
        let prefix = run.drop_last();
        assert forall|k: int| 0 <= k < prefix.len() - 1 implies #[trigger] prefix[k + 1].same_worker(
            prefix[k],
        ) by {
            assert(prefix[k + 1] == run[k + 1] && prefix[k] == run[k]);
        }
        lemma_worker_keeps_its_id(prefix);
        assert forall|k: int| 0 <= k < run.len() implies {
            &&& #[trigger] run[k].spec_id() == run[0].spec_id()
            &&& run[k].spec_tx() == run[0].spec_tx()
        } by {
            if k < run.len() - 1 {
                assert(prefix[k] == run[k]);
            } else {
                let j = k - 1;
                assert(run[j + 1].same_worker(run[j]));
                assert(prefix[j] == run[j]);
            }
        }
    }
}

/// What one read of the socket produced.
pub enum FrameRead {
    /// The read did not finish within the timeout.
    TimedOut,
    /// The socket failed to produce a frame.
    Failed,
    /// A whole frame arrived: whether it is a text frame, and its payload.
    Frame { text: bool, payload: Vec<u8> },
}

/// Why a read did not give a message.
#[derive(Debug)]
pub enum WsReadError<E> {
    /// Read timed out.
    Timeout,
    /// Failed to parse the `WebSocket` message.
    Parse,
    /// The `WebSocket` message wasn't text.
    NotText,
    /// The `WebSocket` message wasn't valid UTF-8.
    NotUtf8,
    /// Failed to deserialize the message.
    Deserialize(E),
}

/// A read that timed out or failed leaves a dead connection, which the worker
/// closes.
pub open spec fn connection_lost(read: FrameRead) -> bool {
    read is TimedOut || read is Failed
}

/// The UTF-8 bytes of the text that a read carries, or why there is none.
pub open spec fn text_outcome<E>(read: FrameRead) -> Result<Seq<u8>, WsReadError<E>> {
    match read {
        FrameRead::TimedOut => Err(WsReadError::Timeout),
        FrameRead::Failed => Err(WsReadError::Parse),
        FrameRead::Frame { text, payload } => if !text {
            Err(WsReadError::NotText)
        } else if vstd::utf8::valid_utf8(payload@) {
            Ok(payload@)
        } else {
            Err(WsReadError::NotUtf8)
        },
    }
}

/// A text frame whose payload is valid UTF-8, of any length, gives exactly
/// its payload as the text; `NotUtf8` comes only from a text frame whose
/// payload is not valid UTF-8, and `NotText` only from a frame that is not
/// text.
pub proof fn lemma_text_frame_gives_its_payload<E>(payload: Vec<u8>, read: FrameRead)
    ensures
        vstd::utf8::valid_utf8(payload@) ==> text_outcome::<E>(
            FrameRead::Frame { text: true, payload },
        ) == Ok::<Seq<u8>, WsReadError<E>>(payload@),
        (text_outcome::<E>(read) matches Err(WsReadError::NotUtf8)) <==> (read matches FrameRead::Frame {
            text,
            payload: p,
        } && text && !vstd::utf8::valid_utf8(p@)),
        (text_outcome::<E>(read) matches Err(WsReadError::NotText)) <==> (read matches FrameRead::Frame {
            text,
            ..
        } && !text),
        (text_outcome::<E>(read) is Ok) <==> (read matches FrameRead::Frame { text, payload: p } && text
            && vstd::utf8::valid_utf8(p@)),
{
}

/// Whether a read left a dead connection that the worker closes.
pub fn closes_connection(read: &FrameRead) -> (r: bool)
    ensures
        r == connection_lost(*read),
{
    match read {
        FrameRead::TimedOut => true,
        FrameRead::Failed => true,
        FrameRead::Frame { .. } => false,
    }
}

/// The text that a read carries, before the user's type parses it: a read
/// that timed out or failed, a frame that is not text, or a payload that is
/// not UTF-8 gives the matching error.
pub fn text_of<E>(read: &FrameRead) -> (r: Result<&str, WsReadError<E>>)
    ensures
        match text_outcome::<E>(*read) {
            Ok(bytes) => r matches Ok(s) && s.spec_bytes() == bytes,
            Err(e) => r == Err::<&str, WsReadError<E>>(e),
        },
{
    match read {
        FrameRead::TimedOut => Err(WsReadError::Timeout),
        FrameRead::Failed => Err(WsReadError::Parse),
        FrameRead::Frame { text, payload } => {
            if !*text {
                return Err(WsReadError::NotText);
            }
            match str_from_utf8(payload.as_slice()) {
                Some(s) => Ok(s),
                None => Err(WsReadError::NotUtf8),
            }
        },
    }
}

} // verus!
