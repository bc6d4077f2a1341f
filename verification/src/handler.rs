//! The handler side of the pool: the table of workers, how new workers get
//! their ids, and how each event that reaches the handler's loop is routed.
use vstd::prelude::*;

use crate::channel::{bounded_channel, sender_clone, unbounded_send, weak_clone};
use crate::lift_send;
use crate::ws::url_clone;
use crate::SendError;
use tokio::sync::mpsc::{Receiver, Sender, UnboundedSender, WeakUnboundedSender};
use url::Url;

verus! {

/// The types a handler works with. The callbacks that react to them are async
/// and are declared next to the loop that awaits them.
pub trait Handler {
    /// Worker -> Handler
    type Message;
    /// Handler -> Worker
    type Command;
    /// External command - from a user of a wrapping library
    type External;
    /// Events emitted by the handler - to the user of a wrapping library
    type Event;
    /// Data for a worker (in the handler)
    type WorkerData;
}

/// What a worker tells the handler.
pub enum WorkerEvent<T> {
    /// The worker with this id has stopped.
    Closed(usize),
    /// The worker with this id sent a message.
    User(usize, T),
}

/// What the handler tells a worker.
pub enum WorkerCommand<T> {
    /// Close the connection.
    Close,
    /// A command of the user's protocol.
    User(T),
}

impl<T> WorkerCommand<T> {
    /// The command that [`Worker::close`] hands to the worker's channel.
    pub fn close() -> (r: Self)
        ensures
            r == WorkerCommand::<T>::Close,
    {
        WorkerCommand::Close
    }

    /// The command that [`Worker::send`] and [`Loopback::try_send`] hand to the
    /// worker's channel for `command`.
    pub fn user(command: T) -> (r: Self)
        ensures
            r == WorkerCommand::User(command),
    {
        WorkerCommand::User(command)
    }
}

/// A worker handle in the handler.
pub struct Worker<H: Handler> {
    id: usize,
    tx: UnboundedSender<WorkerCommand<H::Command>>,
    data: H::WorkerData,
}

impl<H: Handler> Worker<H> {
    /// The worker's id.
    pub closed spec fn worker_id(self) -> usize {
        self.id
    }

    /// The data stored with the worker.
    pub closed spec fn worker_data(self) -> H::WorkerData {
        self.data
    }

    /// The sending half of the worker's command channel.
    pub closed spec fn worker_tx(self) -> UnboundedSender<WorkerCommand<H::Command>> {
        self.tx
    }

    /// Get the ID of the worker.
    pub fn id(&self) -> (r: usize)
        ensures
            r == self.worker_id(),
    {
        self.id
    }

    /// Get the associated data.
    pub fn data(&self) -> (r: &H::WorkerData)
        ensures
            *r == self.worker_data(),
    {
        &self.data
    }

    /// Get a mutable reference to the associated data. Only the data changes.
    pub fn data_mut(&mut self) -> (r: &mut H::WorkerData)
        ensures
            *r == old(self).worker_data(),
            final(self).worker_data() == *final(r),
            final(self).worker_id() == old(self).worker_id(),
            final(self).worker_tx() == old(self).worker_tx(),
    {
        &mut self.data
    }

    /// Close the worker: hands [`WorkerCommand::close`] to the worker's command
    /// channel. It still shows up in the handler's `on_worker_closed`. The send
    /// fails when the worker's task has already ended; that depends on the
    /// other task, so the outcome is not stated.
    pub fn close(&self) -> (r: Result<(), SendError>) {
        lift_send(unbounded_send(&self.tx, WorkerCommand::close()))
    }

    /// Send a command to the worker: hands [`WorkerCommand::user`] of it to the
    /// worker's command channel. The send fails when the worker's task has
    /// already ended; that depends on the other task, so the outcome is not
    /// stated.
    pub fn send(&self, command: H::Command) -> (r: Result<(), SendError>) {
        lift_send(unbounded_send(&self.tx, WorkerCommand::user(command)))
    }
}

/// The workers keyed by their ids, the later of two workers with one id
/// winning (the table never holds two).
pub open spec fn pool_of<H: Handler>(s: Seq<Worker<H>>) -> Map<usize, Worker<H>>
    decreases s.len(),
{
    if s.len() == 0 {
        Map::empty()
    } else {
        pool_of(s.drop_last()).insert(s.last().worker_id(), s.last())
    }
}

/// No two workers share an id.
pub open spec fn ids_distinct<H: Handler>(s: Seq<Worker<H>>) -> bool {
    forall|i: int, j: int|
        0 <= i < s.len() && 0 <= j < s.len() && i != j ==> #[trigger] s[i].worker_id()
            != #[trigger] s[j].worker_id()
}

/// What reaches the handler's loop in one turn.
pub enum LoopInput<M, X> {
    /// An event from one of the workers.
    Worker(WorkerEvent<M>),
    /// A command from the library's user.
    External(X),
    /// Both channels are closed: nothing will ever arrive again.
    Exhausted,
}

/// What the handler's loop does with one input.
pub enum Route<H: Handler> {
    /// Nothing to call: go on with the loop.
    Continue,
    /// Leave the loop.
    Stop,
    /// The worker with this id stopped; it is out of the table and its data is
    /// handed to `on_worker_closed`.
    WorkerClosed(usize, H::WorkerData),
    /// A message from the live worker with this id, for `on_message`.
    Message(usize, H::Message),
    /// A command from the user, for `on_external`.
    External(H::External),
}

/// How the loop routes `input` when the table holds `pool`: the table after the
/// input, and what the loop does next.
pub open spec fn routed<H: Handler>(
    pool: Map<usize, Worker<H>>,
    input: LoopInput<H::Message, H::External>,
) -> (Map<usize, Worker<H>>, Route<H>) {
    match input {
        LoopInput::Worker(WorkerEvent::Closed(id)) => if pool.contains_key(id) {
            (pool.remove(id), Route::WorkerClosed(id, pool[id].worker_data()))
        } else {
            (pool, Route::Continue)
        },
        LoopInput::Worker(WorkerEvent::User(id, message)) => if pool.contains_key(id) {
            (pool, Route::Message(id, message))
        } else {
            (pool, Route::Continue)
        },
        LoopInput::External(x) => (pool, Route::External(x)),
        LoopInput::Exhausted => (pool, Route::Stop),
    }
}

/// Full context for the handler. This is the heart of a connection pool.
pub struct HandlerContext<H: Handler> {
    /// The live workers in the order they were created; `pool` is their view
    /// by id.
    workers: Vec<Worker<H>>,
    next_id: usize,
    url: Url,
    message_tx: Sender<WorkerEvent<H::Message>>,
    message_rx: Receiver<WorkerEvent<H::Message>>,
    event_tx: UnboundedSender<H::Event>,
    external_loopback_tx: WeakUnboundedSender<H::External>,
}

impl<H: Handler> HandlerContext<H> {
    /// The live workers, by id.
    pub closed spec fn pool(&self) -> Map<usize, Worker<H>> {
        pool_of(self.workers@)
    }

    /// The id that the next worker gets.
    pub closed spec fn spec_next_id(&self) -> usize {
        self.next_id
    }

    /// The URL that new workers connect to.
    pub closed spec fn spec_url(&self) -> Url {
        self.url
    }

    /// The sending half that workers report to.
    pub closed spec fn spec_message_tx(&self) -> Sender<WorkerEvent<H::Message>> {
        self.message_tx
    }

    /// The receiving half that the loop reads workers' events from.
    pub closed spec fn spec_message_rx(&self) -> Receiver<WorkerEvent<H::Message>> {
        self.message_rx
    }

    /// The sender of the handler's events.
    pub closed spec fn spec_event_tx(&self) -> UnboundedSender<H::Event> {
        self.event_tx
    }

    /// The weak sender that loops commands back to the handler.
    pub closed spec fn spec_loopback_tx(&self) -> WeakUnboundedSender<H::External> {
        self.external_loopback_tx
    }

    /// The table is well formed: no two workers share an id, and every id is
    /// below the next one to issue.
    pub closed spec fn wf(&self) -> bool {
        &&& ids_distinct(self.workers@)
        &&& forall|i: int|
            0 <= i < self.workers@.len() ==> #[trigger] self.workers@[i].worker_id()
                < self.next_id
    }

    /// Everything but the table and the id counter is as in `other`.
    pub open spec fn same_channels(self, other: Self) -> bool {
        &&& self.spec_url() == other.spec_url()
        &&& self.spec_message_tx() == other.spec_message_tx()
        &&& self.spec_message_rx() == other.spec_message_rx()
        &&& self.spec_event_tx() == other.spec_event_tx()
        &&& self.spec_loopback_tx() == other.spec_loopback_tx()
    }

    /// One operation's effect on the id counter: it stays, or goes up by one
    /// when a worker is created. Every method here takes such a step.
    pub open spec fn steps_to(self, after: Self) -> bool {
        after.spec_next_id() == self.spec_next_id() || after.spec_next_id() == self.spec_next_id() + 1
    }

    /// `after` is this context with one worker more: filed under the next id,
    /// holding `data` and the command sender `tx`; the counter went up by one
    /// and nothing else changed.
    pub open spec fn adds_worker(
        self,
        after: Self,
        data: H::WorkerData,
        tx: UnboundedSender<WorkerCommand<H::Command>>,
    ) -> bool {
        let id = self.spec_next_id();
        &&& after.wf()
        &&& after.same_channels(self)
        &&& after.spec_next_id() == id + 1
        &&& !self.pool().contains_key(id)
        &&& after.pool().contains_key(id)
        &&& after.pool().remove(id) == self.pool()
        &&& after.pool()[id].worker_id() == id
        &&& after.pool()[id].worker_data() == data
        &&& after.pool()[id].worker_tx() == tx
    }
}


/// The room of the channel that workers report to the handler on.
pub const MESSAGE_BUFFER: usize = 16;

proof fn lemma_ids_distinct_drop_last<H: Handler>(s: Seq<Worker<H>>)
    requires
        ids_distinct(s),
        s.len() > 0,
    ensures
        ids_distinct(s.drop_last()),
{
    let t = s.drop_last();
    assert forall|i: int, j: int|
        0 <= i < t.len() && 0 <= j < t.len() && i != j implies #[trigger] t[i].worker_id()
        != #[trigger] t[j].worker_id() by {
        assert(t[i] == s[i] && t[j] == s[j]);
    }
}

/// With distinct ids the table files every worker under its id, and holds
/// nothing else.
proof fn lemma_pool_of<H: Handler>(s: Seq<Worker<H>>)
    requires
        ids_distinct(s),
    ensures
        forall|k: usize|
            pool_of(s).contains_key(k) <==> exists|i: int|
                0 <= i < s.len() && #[trigger] s[i].worker_id() == k,
        forall|i: int| 0 <= i < s.len() ==> pool_of(s)[#[trigger] s[i].worker_id()] == s[i],
    decreases s.len(),
{
    if s.len() > 0 {
        let t = s.drop_last();
        let n = s.len() - 1;
        lemma_ids_distinct_drop_last(s);
        lemma_pool_of(t);
        assert(pool_of(s) == pool_of(t).insert(s[n].worker_id(), s[n]));
        assert forall|k: usize|
            pool_of(s).contains_key(k) <==> exists|i: int|
                0 <= i < s.len() && #[trigger] s[i].worker_id() == k by {
            if pool_of(s).contains_key(k) {
                if k == s.last().worker_id() {
                    assert(s[n].worker_id() == k);
                } else {
                    let i = choose|i: int| 0 <= i < t.len() && #[trigger] t[i].worker_id() == k;
                    assert(s[i] == t[i]);
                }
            }
            if exists|i: int| 0 <= i < s.len() && #[trigger] s[i].worker_id() == k {
                let i = choose|i: int| 0 <= i < s.len() && #[trigger] s[i].worker_id() == k;
                if i < n {
                    assert(t[i] == s[i]);
                }
            }
        }
        assert forall|i: int| 0 <= i < s.len() implies pool_of(s)[#[trigger] s[i].worker_id()]
            == s[i] by {
            if i < n {
                assert(s[i].worker_id() != s[n].worker_id());
                assert(t[i] == s[i]);
            }
        }
    }
}

proof fn lemma_pool_push<H: Handler>(s: Seq<Worker<H>>, w: Worker<H>)
    requires
        ids_distinct(s),
        !pool_of(s).contains_key(w.worker_id()),
    ensures
        ids_distinct(s.push(w)),
        pool_of(s.push(w)) == pool_of(s).insert(w.worker_id(), w),
{
    lemma_pool_of(s);
    let r = s.push(w);
    assert(r.drop_last() =~= s);
    assert forall|i: int, j: int|
        0 <= i < r.len() && 0 <= j < r.len() && i != j implies #[trigger] r[i].worker_id()
        != #[trigger] r[j].worker_id() by {
        if i < s.len() && j < s.len() {
            assert(r[i] == s[i] && r[j] == s[j]);
        } else if i < s.len() {
            assert(r[i] == s[i]);
        } else {
            assert(r[j] == s[j]);
        }
    }
}

proof fn lemma_pool_update<H: Handler>(s: Seq<Worker<H>>, i: int)
    requires
        ids_distinct(s),
        0 <= i < s.len(),
    ensures
        forall|w: Worker<H>|
            w.worker_id() == s[i].worker_id() ==> {
                &&& ids_distinct(#[trigger] s.update(i, w))
                &&& pool_of(s.update(i, w)) == pool_of(s).insert(w.worker_id(), w)
            },
{
    lemma_pool_of(s);
    assert forall|w: Worker<H>| w.worker_id() == s[i].worker_id() implies {
        &&& ids_distinct(#[trigger] s.update(i, w))
        &&& pool_of(s.update(i, w)) == pool_of(s).insert(w.worker_id(), w)
    } by {
        let r = s.update(i, w);
        assert forall|a: int, b: int|
            0 <= a < r.len() && 0 <= b < r.len() && a != b implies #[trigger] r[a].worker_id()
            != #[trigger] r[b].worker_id() by {
            assert(r[a].worker_id() == s[a].worker_id());
            assert(r[b].worker_id() == s[b].worker_id());
        }
        lemma_pool_of(r);
        assert forall|k: usize| #[trigger] pool_of(r).contains_key(k) <==> pool_of(s).insert(
            w.worker_id(),
            w,
        ).contains_key(k) by {
            if pool_of(r).contains_key(k) {
                let a = choose|a: int| 0 <= a < r.len() && #[trigger] r[a].worker_id() == k;
                assert(r[a].worker_id() == s[a].worker_id());
            }
            if pool_of(s).contains_key(k) {
                let a = choose|a: int| 0 <= a < s.len() && #[trigger] s[a].worker_id() == k;
                assert(r[a].worker_id() == s[a].worker_id());
            }
            if k == w.worker_id() {
                assert(r[i] == w);
            }
        }
        assert forall|k: usize| #[trigger] pool_of(r).contains_key(k) implies pool_of(r)[k]
            == pool_of(s).insert(w.worker_id(), w)[k] by {
            let a = choose|a: int| 0 <= a < r.len() && #[trigger] r[a].worker_id() == k;
            if a == i {
                assert(r[a] == w);
            } else {
                assert(r[a] == s[a]);
                assert(s[a].worker_id() != s[i].worker_id());
            }
        }
        assert(pool_of(r) =~= pool_of(s).insert(w.worker_id(), w));
    }
}

proof fn lemma_pool_remove<H: Handler>(s: Seq<Worker<H>>, i: int)
    requires
        ids_distinct(s),
        0 <= i < s.len(),
    ensures
        ids_distinct(s.remove(i)),
        pool_of(s.remove(i)) == pool_of(s).remove(s[i].worker_id()),
{
    let r = s.remove(i);
    assert forall|a: int, b: int|
        0 <= a < r.len() && 0 <= b < r.len() && a != b implies #[trigger] r[a].worker_id()
        != #[trigger] r[b].worker_id() by {
        let a2 = if a < i { a } else { a + 1 };
        let b2 = if b < i { b } else { b + 1 };
        assert(r[a] == s[a2] && r[b] == s[b2]);
    }
    lemma_pool_of(s);
    lemma_pool_of(r);
    let k0 = s[i].worker_id();
    assert forall|k: usize| #[trigger] pool_of(r).contains_key(k) <==> pool_of(s).remove(
        k0,
    ).contains_key(k) by {
        if pool_of(r).contains_key(k) {
            let a = choose|a: int| 0 <= a < r.len() && #[trigger] r[a].worker_id() == k;
            let a2 = if a < i { a } else { a + 1 };
            assert(r[a] == s[a2]);
        }
        if pool_of(s).remove(k0).contains_key(k) {
            let a = choose|a: int| 0 <= a < s.len() && #[trigger] s[a].worker_id() == k;
            assert(a != i);
            let a2 = if a < i { a } else { a - 1 };
            assert(r[a2] == s[a]);
        }
    }
    assert forall|k: usize| #[trigger] pool_of(r).contains_key(k) implies pool_of(r)[k]
        == pool_of(s)[k] by {
        let a = choose|a: int| 0 <= a < r.len() && #[trigger] r[a].worker_id() == k;
        let a2 = if a < i { a } else { a + 1 };
        assert(r[a] == s[a2]);
    }
    assert(pool_of(r) =~= pool_of(s).remove(k0));
}

impl<H: Handler> HandlerContext<H> {
    /// Creates a new handler context.
    /// `url` is the initial URL the workers should connect to,
    /// `event_tx` a sender of events and `external_loopback_tx` a weak sender of
    /// external events that loop back to the handler (see
    /// [`HandlerContext::loopback`]).
    pub fn new(
        url: Url,
        event_tx: UnboundedSender<H::Event>,
        external_loopback_tx: WeakUnboundedSender<H::External>,
    ) -> (r: Self)
        ensures
            r.wf(),
            r.pool() == Map::<usize, Worker<H>>::empty(),
            r.spec_next_id() == 0,
            r.spec_url() == url,
            r.spec_event_tx() == event_tx,
            r.spec_loopback_tx() == external_loopback_tx,
    {
        let (message_tx, message_rx) = bounded_channel(MESSAGE_BUFFER);
        let r = HandlerContext {
            workers: Vec::new(),
            next_id: 0,
            url,
            message_tx,
            message_rx,
            event_tx,
            external_loopback_tx,
        };
        assert(r.workers@ =~= Seq::<Worker<H>>::empty());
        r
    }

    /// The id that the next worker will get.
    pub fn next_id(&self) -> (r: usize)
        ensures
            r == self.spec_next_id(),
    {
        self.next_id
    }

    /// The number of live workers.
    pub fn len(&self) -> (r: usize)
        requires
            self.wf(),
        ensures
            r == self.pool().len(),
    {
        proof {
            lemma_pool_len(self.workers@);
        }
        self.workers.len()
    }

    fn position(&self, id: usize) -> (r: Option<usize>)
        requires
            self.wf(),
        ensures
            match r {
                Some(i) => i < self.workers@.len() && self.workers@[i as int].worker_id() == id,
                None => !self.pool().contains_key(id),
            },
    {
        let mut i: usize = 0;
        while i < self.workers.len()
            invariant
                i <= self.workers@.len(),
                forall|j: int| 0 <= j < i ==> #[trigger] self.workers@[j].worker_id() != id,
            decreases self.workers@.len() - i,
        {
            if self.workers[i].id == id {
                return Some(i);
            }
            i = i + 1;
        }
        proof {
            lemma_pool_of(self.workers@);
        }
        None
    }

    fn push_worker(&mut self, w: Worker<H>)
        requires
            old(self).wf(),
            w.worker_id() < old(self).spec_next_id(),
            !old(self).pool().contains_key(w.worker_id()),
        ensures
            final(self).wf(),
            final(self).pool() == old(self).pool().insert(w.worker_id(), w),
            final(self).spec_next_id() == old(self).spec_next_id(),
            final(self).same_channels(*old(self)),
    {
        proof {
            lemma_pool_push(self.workers@, w);
        }
        self.workers.push(w);
    }

    /// Find a worker using the predicate `pred`: some live worker for which `pred`
    /// answered `true`, or `None` when `pred` answered `false` for every one.
    /// Which of several matching workers comes back is not fixed.
    pub fn find_mut<F>(&mut self, pred: F) -> (r: Option<&mut Worker<H>>)
        where
            F: Fn(usize, &H::WorkerData) -> bool,
        requires
            old(self).wf(),
            forall|id: usize, d: &H::WorkerData| pred.requires((id, d)),
        ensures
            old(self).steps_to(*final(self)),
            final(self).spec_next_id() == old(self).spec_next_id(),
            final(self).same_channels(*old(self)),
            match r {
                Some(w) => {
                    &&& old(self).pool().contains_key(w.worker_id())
                    &&& old(self).pool()[w.worker_id()] == *w
                    &&& pred.ensures((w.worker_id(), &w.worker_data()), true)
                    &&& final(w).worker_id() == w.worker_id() ==> {
                        &&& final(self).wf()
                        &&& final(self).pool() == old(self).pool().insert(w.worker_id(), *final(w))
                    }
                },
                None => {
                    &&& *final(self) == *old(self)
                    &&& forall|id: usize| #[trigger]
                        old(self).pool().contains_key(id) ==> pred.ensures(
                            (id, &old(self).pool()[id].worker_data()),
                            false,
                        )
                },
            },
    {
        proof {
            lemma_pool_of(self.workers@);
        }
        let mut i: usize = 0;
        while i < self.workers.len()
            invariant
                *self == *old(self),
                self.wf(),
                i <= self.workers@.len(),
                forall|id: usize, d: &H::WorkerData| pred.requires((id, d)),
                forall|j: int|
                    0 <= j < i ==> pred.ensures(
                        (#[trigger] self.workers@[j].worker_id(), &self.workers@[j].worker_data()),
                        false,
                    ),
            decreases self.workers@.len() - i,
        {
            let hit = pred(self.workers[i].id, &self.workers[i].data);
            if hit {
                proof {
                    lemma_pool_of(self.workers@);
                    lemma_pool_update(self.workers@, i as int);
                }
                return Some(&mut self.workers[i]);
            }
            i = i + 1;
        }
        proof {
            lemma_pool_of(self.workers@);
            assert forall|id: usize| #[trigger]
                old(self).pool().contains_key(id) implies pred.ensures(
                (id, &old(self).pool()[id].worker_data()),
                false,
            ) by {
                let j = choose|j: int|
                    0 <= j < self.workers@.len() && #[trigger] self.workers@[j].worker_id() == id;
            }
        }
        None
    }
}

impl<H: Handler> HandlerContext<H> {
    /// The live worker with this id, for the loop that hands it to
    /// `on_message`; `None` when no live worker has it.
    pub fn worker_mut(&mut self, id: usize) -> (r: Option<&mut Worker<H>>)
        requires
            old(self).wf(),
        ensures
            old(self).steps_to(*final(self)),
            final(self).spec_next_id() == old(self).spec_next_id(),
            final(self).same_channels(*old(self)),
            r is Some <==> old(self).pool().contains_key(id),
            match r {
                Some(w) => {
                    &&& old(self).pool()[id] == *w
                    &&& final(w).worker_id() == id ==> {
                        &&& final(self).wf()
                        &&& final(self).pool() == old(self).pool().insert(id, *final(w))
                    }
                },
                None => *final(self) == *old(self),
            },
    {
        match self.position(id) {
            Some(i) => {
                proof {
                    lemma_pool_of(self.workers@);
                    lemma_pool_update(self.workers@, i as int);
                }
                Some(&mut self.workers[i])
            },
            None => None,
        }
    }

    /// Routes one input of the handler's loop: a worker that stopped leaves
    /// the table and its data goes to `on_worker_closed`; a message from a live
    /// worker goes to `on_message`; events of workers that are gone are
    /// dropped; a user's command goes to `on_external`; when nothing can
    /// arrive any more the loop stops.
    pub fn route(&mut self, input: LoopInput<H::Message, H::External>) -> (r: Route<H>)
        requires
            old(self).wf(),
        ensures
            old(self).steps_to(*final(self)),
            final(self).wf(),
            final(self).spec_next_id() == old(self).spec_next_id(),
            final(self).same_channels(*old(self)),
            (final(self).pool(), r) == routed(old(self).pool(), input),
    {
        proof {
            lemma_pool_of(self.workers@);
        }
        match input {
            LoopInput::Worker(WorkerEvent::Closed(id)) => match self.position(id) {
                Some(i) => {
                    proof {
                        lemma_pool_remove(self.workers@, i as int);
                    }
                    let w = self.workers.remove(i);
                    Route::WorkerClosed(id, w.data)
                },
                None => Route::Continue,
            },
            LoopInput::Worker(WorkerEvent::User(id, message)) => match self.position(id) {
                Some(_) => Route::Message(id, message),
                None => Route::Continue,
            },
            LoopInput::External(x) => Route::External(x),
            LoopInput::Exhausted => Route::Stop,
        }
    }

    /// Create a new worker with a factory that receives the worker's id, the
    /// sender that the worker reports on and the URL it connects to, starts
    /// the worker, and returns the data stored with it and the sender of its
    /// commands. The worker gets the next id, which no live worker holds.
    pub fn create_with<F>(&mut self, make: F)
        where
            F: FnOnce(usize, Sender<WorkerEvent<H::Message>>, Url) -> (
                H::WorkerData,
                UnboundedSender<WorkerCommand<H::Command>>,
            ),
        requires
            old(self).wf(),
            old(self).spec_next_id() < usize::MAX,
            make.requires((old(self).spec_next_id(), old(self).spec_message_tx(), old(self).spec_url())),
        ensures
            old(self).adds_worker(
                *final(self),
                final(self).pool()[old(self).spec_next_id()].worker_data(),
                final(self).pool()[old(self).spec_next_id()].worker_tx(),
            ),
            old(self).steps_to(*final(self)),
            make.ensures(
                (old(self).spec_next_id(), old(self).spec_message_tx(), old(self).spec_url()),
                (
                    final(self).pool()[old(self).spec_next_id()].worker_data(),
                    final(self).pool()[old(self).spec_next_id()].worker_tx(),
                ),
            ),
    {
        proof {
            lemma_pool_of(self.workers@);
        }
        let id = self.next_id;
        self.next_id = self.next_id + 1;
        let (data, tx) = make(id, sender_clone(&self.message_tx), url_clone(&self.url));
        self.push_worker(Worker { id, tx, data });
        proof {
            assert(self.pool().remove(id) =~= old(self).pool());
        }
    }

    /// Create a new worker that stores `data`; `spawn` receives the worker's
    /// id, the sender that the worker reports on and the URL it connects to,
    /// starts the worker, and returns the sender of its commands. This is
    /// `create_with` with a factory that returns `data` beside what `spawn`
    /// returns, and it is written as that call.
    pub fn create<S>(&mut self, data: H::WorkerData, spawn: S)
        where
            S: FnOnce(usize, Sender<WorkerEvent<H::Message>>, Url) -> UnboundedSender<
                WorkerCommand<H::Command>,
            >,
        requires
            old(self).wf(),
            old(self).spec_next_id() < usize::MAX,
            spawn.requires((old(self).spec_next_id(), old(self).spec_message_tx(), old(self).spec_url())),
        ensures
            old(self).adds_worker(
                *final(self),
                data,
                final(self).pool()[old(self).spec_next_id()].worker_tx(),
            ),
            old(self).steps_to(*final(self)),
            spawn.ensures(
                (old(self).spec_next_id(), old(self).spec_message_tx(), old(self).spec_url()),
                final(self).pool()[old(self).spec_next_id()].worker_tx(),
            ),
    {
        let ghost d = data;
        let make = move |id: usize, message_tx: Sender<WorkerEvent<H::Message>>, url: Url| -> (r:
            (H::WorkerData, UnboundedSender<WorkerCommand<H::Command>>))
            requires
                spawn.requires((id, message_tx, url)),
            ensures
                r.0 == d,
                spawn.ensures((id, message_tx, url), r.1),
            {
                let tx = spawn(id, message_tx, url);
                (data, tx)
            };
        self.create_with(make);
    }

    /// Get a loopback sender to send external messages back to the handler.
    /// This can be used when spawning tasks in `on_external` or
    /// `on_worker_closed` that need to communicate their result back to the
    /// handler.
    pub fn loopback(&self) -> (r: WeakUnboundedSender<H::External>)
        ensures
            r == self.spec_loopback_tx(),
    {
        weak_clone(&self.external_loopback_tx)
    }

    /// Emit a handler event. The send fails when the user dropped the
    /// receiving half; that depends on the other side, so the outcome is not
    /// stated.
    pub fn emit(&self, event: H::Event) -> (r: Result<(), SendError>) {
        lift_send(unbounded_send(&self.event_tx, event))
    }

    /// The sender of the handler's events, as `on_message` receives it.
    pub fn event_sender(&self) -> (r: &UnboundedSender<H::Event>)
        ensures
            *r == self.spec_event_tx(),
    {
        &self.event_tx
    }

    /// The receiving half of the workers' events, which the loop reads.
    pub fn worker_events(&mut self) -> (r: &mut Receiver<WorkerEvent<H::Message>>)
        ensures
            old(self).steps_to(*final(self)),
            *r == old(self).spec_message_rx(),
            final(self).spec_message_rx() == *final(r),
            final(self).pool() == old(self).pool(),
            final(self).spec_next_id() == old(self).spec_next_id(),
            final(self).wf() == old(self).wf(),
            final(self).spec_url() == old(self).spec_url(),
            final(self).spec_message_tx() == old(self).spec_message_tx(),
            final(self).spec_event_tx() == old(self).spec_event_tx(),
            final(self).spec_loopback_tx() == old(self).spec_loopback_tx(),
    {
        &mut self.message_rx
    }
}

proof fn lemma_pool_len<H: Handler>(s: Seq<Worker<H>>)
    requires
        ids_distinct(s),
    ensures
        pool_of(s).len() == s.len(),
        pool_of(s).dom().finite(),
    decreases s.len(),
{
    if s.len() > 0 {
        let t = s.drop_last();
        lemma_ids_distinct_drop_last(s);
        lemma_pool_len(t);
        lemma_pool_of(t);
        assert forall|i: int| 0 <= i < t.len() implies #[trigger] t[i].worker_id()
            != s.last().worker_id() by {
            assert(t[i] == s[i]);
        }
    }
}


/// Ids are never reused: every live worker's id is below the id that the next
/// worker gets, so a new worker never shares its id with a live one; and every
/// live worker is filed under its own id, which no method changes (each keeps
/// `wf`), so a worker keeps the id it was created with for its whole life.
pub proof fn lemma_live_ids_below_next<H: Handler>(ctx: HandlerContext<H>)
    requires
        ctx.wf(),
    ensures
        forall|id: usize| #[trigger] ctx.pool().contains_key(id) ==> id < ctx.spec_next_id(),
        forall|id: usize| #[trigger] ctx.pool().contains_key(id) ==> ctx.pool()[id].worker_id() == id,
{
    lemma_pool_of(ctx.workers@);
    assert forall|id: usize| #[trigger] ctx.pool().contains_key(id) implies id
        < ctx.spec_next_id() && ctx.pool()[id].worker_id() == id by {
        let i = choose|i: int|
            0 <= i < ctx.workers@.len() && #[trigger] ctx.workers@[i].worker_id() == id;
    }
}

/// A worker that has closed is gone: a second close of its id, and any later
/// message from it, are dropped without a callback.
pub proof fn lemma_closed_worker_is_forgotten<H: Handler>(
    pool: Map<usize, Worker<H>>,
    id: usize,
    message: H::Message,
)
    ensures
        ({
            let after = routed(pool, LoopInput::<H::Message, H::External>::Worker(WorkerEvent::Closed(id))).0;
            &&& !after.contains_key(id)
            &&& routed(after, LoopInput::<H::Message, H::External>::Worker(WorkerEvent::Closed(id)))
                == (after, Route::<H>::Continue)
            &&& routed(after, LoopInput::<H::Message, H::External>::Worker(WorkerEvent::User(id, message)))
                == (after, Route::<H>::Continue)
        }),
{
}

/// What a worker was created with comes back when it closes: closing a worker
/// that was added to a table that did not hold its id gives back that table and
/// hands the worker's data to `on_worker_closed`.
pub proof fn lemma_close_returns_created_data<H: Handler>(
    pool: Map<usize, Worker<H>>,
    worker: Worker<H>,
)
    requires
        !pool.contains_key(worker.worker_id()),
    ensures
        routed(
            pool.insert(worker.worker_id(), worker),
            LoopInput::<H::Message, H::External>::Worker(WorkerEvent::Closed(worker.worker_id())),
        ) == (pool, Route::<H>::WorkerClosed(worker.worker_id(), worker.worker_data())),
{
    assert(pool.insert(worker.worker_id(), worker).remove(worker.worker_id()) =~= pool);
}

/// Routing never adds a worker, and only a close removes one: messages, user
/// commands and the end of input leave the table as it was.
pub proof fn lemma_route_only_removes<H: Handler>(
    pool: Map<usize, Worker<H>>,
    input: LoopInput<H::Message, H::External>,
)
    ensures
        routed(pool, input).0.submap_of(pool),
        !(input matches LoopInput::Worker(WorkerEvent::Closed(_))) ==> routed(pool, input).0 == pool,
{
}

/// The handler's loop stops on its own only when nothing can arrive any more;
/// every other stop comes from a callback.
pub proof fn lemma_stops_only_when_exhausted<H: Handler>(
    pool: Map<usize, Worker<H>>,
    input: LoopInput<H::Message, H::External>,
)
    ensures
        (routed(pool, input).1 is Stop) <==> (input is Exhausted),
{
}

/// A message is handed to `on_message` exactly when its sender is a live
/// worker, and then it is handed on as the sender's own: under the sender's
/// id, with the message unchanged, whatever other workers are live; the table
/// stays as it was either way.
pub proof fn lemma_message_reaches_live_worker<H: Handler>(
    pool: Map<usize, Worker<H>>,
    id: usize,
    message: H::Message,
)
    ensures
        (routed(pool, LoopInput::<H::Message, H::External>::Worker(WorkerEvent::User(id, message))).1
            is Message) <==> pool.contains_key(id),
        pool.contains_key(id) ==> routed(
            pool,
            LoopInput::<H::Message, H::External>::Worker(WorkerEvent::User(id, message)),
        ) == (pool, Route::<H>::Message(id, message)),
        !pool.contains_key(id) ==> routed(
            pool,
            LoopInput::<H::Message, H::External>::Worker(WorkerEvent::User(id, message)),
        ) == (pool, Route::<H>::Continue),
{
}

/// Every command of the user reaches `on_external`, unchanged, whatever the
/// table holds (an empty one too: that is how the first worker gets made),
/// and the table stays as it was.
pub proof fn lemma_external_reaches_handler<H: Handler>(
    pool: Map<usize, Worker<H>>,
    external: H::External,
)
    ensures
        routed(pool, LoopInput::<H::Message, H::External>::External(external)) == (
            pool,
            Route::<H>::External(external),
        ),
{
}

/// Along a run of contexts in which each step is an operation of this type,
/// the id counter is at least as large at a later point as at an earlier one.
proof fn lemma_next_id_monotone<H: Handler>(run: Seq<HandlerContext<H>>, a: int, b: int)
    requires
        forall|k: int| 0 <= k < run.len() - 1 ==> #[trigger] run[k].steps_to(run[k + 1]),
        0 <= a <= b < run.len(),
    ensures
        run[a].spec_next_id() <= run[b].spec_next_id(),
    decreases b - a,
{
    if a < b {
        lemma_next_id_monotone(run, a, b - 1);
        let k = b - 1;
        assert(run[k].steps_to(run[k + 1]));
    }
}

/// Ids are never reused over a whole history. Take a run of well-formed
/// contexts, each step an operation of this type (every method here takes
/// such a step). A step that creates a worker hands out the counter's value
/// before it; the id handed out at a later creation is larger than at an
/// earlier one, and no worker alive at any point up to that later creation
/// holds it.
pub proof fn lemma_ids_never_reused<H: Handler>(run: Seq<HandlerContext<H>>, i: int, j: int)
    requires
        forall|k: int| 0 <= k < run.len() ==> #[trigger] run[k].wf(),
        forall|k: int| 0 <= k < run.len() - 1 ==> #[trigger] run[k].steps_to(run[k + 1]),
        0 <= i < j < run.len() - 1,
        run[i + 1].spec_next_id() == run[i].spec_next_id() + 1,
    ensures
        run[i].spec_next_id() < run[j].spec_next_id(),
        forall|k: int|
            0 <= k <= j ==> !(#[trigger] run[k].pool()).contains_key(run[j].spec_next_id()),
{
    lemma_next_id_monotone(run, i + 1, j);
    assert forall|k: int| 0 <= k <= j implies !(#[trigger] run[k].pool()).contains_key(
        run[j].spec_next_id(),
    ) by {
        lemma_next_id_monotone(run, k, j);
        lemma_live_ids_below_next(run[k]);
    }
}

/// How many steps of the run up to point `k` created a worker.
pub open spec fn creations<H: Handler>(run: Seq<HandlerContext<H>>, k: int) -> nat
    decreases k,
{
    if k <= 0 {
        0
    } else {
        creations(run, k - 1) + if run[k].spec_next_id() == run[k - 1].spec_next_id() + 1 {
            1nat
        } else {
            0nat
        }
    }
}

/// Ids are handed out as 0, 1, 2, ... in the order of creation: along a run
/// that starts from a new context (whose counter is 0, see `new`), the
/// counter at each point is the number of workers created so far, so the
/// n-th creation (counting from 0) gives its worker the id n.
pub proof fn lemma_ids_count_creations<H: Handler>(run: Seq<HandlerContext<H>>)
    requires
        run.len() > 0,
        run[0].spec_next_id() == 0,
        forall|k: int| 0 <= k < run.len() - 1 ==> #[trigger] run[k].steps_to(run[k + 1]),
    ensures
        forall|k: int| 0 <= k < run.len() ==> #[trigger] run[k].spec_next_id() == creations(run, k),
    decreases run.len(),
{
    if run.len() > 1 {
        let prefix = run.drop_last();
        assert forall|k: int| 0 <= k < prefix.len() - 1 implies #[trigger] prefix[k].steps_to(
            prefix[k + 1],
        ) by {
            assert(prefix[k] == run[k] && prefix[k + 1] == run[k + 1]);
        }
        lemma_ids_count_creations(prefix);
        assert forall|k: int| 0 <= k < prefix.len() implies creations(prefix, k) == creations(run, k) by {
            lemma_creations_prefix(run, prefix, k);
        }
        assert forall|k: int| 0 <= k < run.len() implies #[trigger] run[k].spec_next_id()
            == creations(run, k) by {
            if k < run.len() - 1 {
                assert(prefix[k] == run[k]);
            } else {
                let j = k - 1;
                assert(run[j].steps_to(run[j + 1]));
                assert(prefix[j] == run[j]);
            }
        }
    }
}

proof fn lemma_creations_prefix<H: Handler>(
    run: Seq<HandlerContext<H>>,
    prefix: Seq<HandlerContext<H>>,
    k: int,
)
    requires
        prefix.len() <= run.len(),
        forall|i: int| 0 <= i < prefix.len() ==> prefix[i] == run[i],
        0 <= k < prefix.len(),
    ensures
        creations(prefix, k) == creations(run, k),
    decreases k,
{
    if k > 0 {
        lemma_creations_prefix(run, prefix, k - 1);
    }
}

/// `create` is `create_with` with a factory that returns the data beside the
/// sender: both leave exactly the context that [`HandlerContext::adds_worker`]
/// describes, and that context is fixed by the data and sender that the new
/// worker holds. So a `create` and a `create_with` that end with the same data
/// and sender leave equal tables, counters and channels.
pub proof fn lemma_added_worker_fixes_context<H: Handler>(
    before: HandlerContext<H>,
    a: HandlerContext<H>,
    b: HandlerContext<H>,
    data: H::WorkerData,
    tx: UnboundedSender<WorkerCommand<H::Command>>,
)
    requires
        before.adds_worker(a, data, tx),
        before.adds_worker(b, data, tx),
    ensures
        a.pool() == b.pool(),
        a.spec_next_id() == b.spec_next_id(),
        a.same_channels(b),
{
    let id = before.spec_next_id();
    let wa = a.pool()[id];
    let wb = b.pool()[id];
    assert(wa == wb);
    assert(a.pool() =~= a.pool().remove(id).insert(id, wa));
    assert(b.pool() =~= b.pool().remove(id).insert(id, wb));
}

/// A change to a worker's data stays with it: closing a worker whose entry
/// was written back to the table (as `worker_mut`, `find_mut` and `data_mut`
/// do) hands the data it holds now to `on_worker_closed`.
pub proof fn lemma_close_returns_current_data<H: Handler>(
    pool: Map<usize, Worker<H>>,
    worker: Worker<H>,
)
    ensures
        routed(
            pool.insert(worker.worker_id(), worker),
            LoopInput::<H::Message, H::External>::Worker(WorkerEvent::Closed(worker.worker_id())),
        ) == (
            pool.remove(worker.worker_id()),
            Route::<H>::WorkerClosed(worker.worker_id(), worker.worker_data()),
        ),
{
    assert(pool.insert(worker.worker_id(), worker).remove(worker.worker_id()) =~= pool.remove(
        worker.worker_id(),
    ));
}

} // verus!
