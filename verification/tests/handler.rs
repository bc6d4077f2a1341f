use tokio::sync::mpsc::{unbounded_channel, UnboundedReceiver, UnboundedSender};
use ws_pool::{
    Handler, HandlerContext, Loopback, LoopInput, Route, WorkerCommand, WorkerEvent,
};

struct TestHandler;

impl Handler for TestHandler {
    type Message = String;
    type Command = u32;
    type External = String;
    type Event = String;
    type WorkerData = Vec<String>;
}

type Ctx = HandlerContext<TestHandler>;

fn context() -> (Ctx, UnboundedReceiver<String>, UnboundedSender<String>) {
    let (event_tx, event_rx) = unbounded_channel();
    let (ext_tx, _ext_rx) = unbounded_channel::<String>();
    let url = url::Url::parse("ws://localhost:9001/").unwrap();
    (HandlerContext::new(url, event_tx, ext_tx.downgrade()), event_rx, ext_tx)
}

/// Creates a worker holding `topics`; returns its id and the receiving half of
/// its commands.
fn add(ctx: &mut Ctx, topics: &[&str]) -> (usize, UnboundedReceiver<WorkerCommand<u32>>) {
    let (tx, rx) = unbounded_channel();
    let mut seen = None;
    ctx.create(topics.iter().map(|s| s.to_string()).collect(), |id, _events, url| {
        assert_eq!(url.as_str(), "ws://localhost:9001/");
        seen = Some(id);
        tx
    });
    (seen.unwrap(), rx)
}

#[test]
fn new_context_is_empty() {
    let (ctx, _e, _x) = context();
    assert_eq!(ctx.len(), 0);
    assert_eq!(ctx.next_id(), 0);
}

#[test]
fn ids_count_up_and_are_not_reused() {
    let (mut ctx, _e, _x) = context();
    let (a, _ra) = add(&mut ctx, &["t1"]);
    let (b, _rb) = add(&mut ctx, &["t2"]);
    assert_eq!((a, b), (0, 1));
    assert!(matches!(ctx.route(LoopInput::Worker(WorkerEvent::Closed(a))), Route::WorkerClosed(0, _)));
    let (c, _rc) = add(&mut ctx, &[]);
    assert_eq!(c, 2);
    assert_eq!(ctx.len(), 2);
    assert_eq!(ctx.next_id(), 3);
}

#[test]
fn create_with_stores_what_make_returns() {
    let (mut ctx, _e, _x) = context();
    let (tx, _rx) = unbounded_channel();
    ctx.create_with(|id, _events, _url| (vec![format!("worker-{id}")], tx));
    let w = ctx.worker_mut(0).unwrap();
    assert_eq!(w.id(), 0);
    assert_eq!(w.data(), &vec!["worker-0".to_string()]);
}

#[test]
fn close_returns_created_data() {
    let (mut ctx, _e, _x) = context();
    let (id, _r) = add(&mut ctx, &["a", "b"]);
    match ctx.route(LoopInput::Worker(WorkerEvent::Closed(id))) {
        Route::WorkerClosed(closed, data) => {
            assert_eq!(closed, id);
            assert_eq!(data, vec!["a".to_string(), "b".to_string()]);
        }
        _ => panic!("expected WorkerClosed"),
    }
    assert_eq!(ctx.len(), 0);
}

#[test]
fn closed_worker_is_forgotten() {
    let (mut ctx, _e, _x) = context();
    let (id, _r) = add(&mut ctx, &[]);
    let _ = ctx.route(LoopInput::Worker(WorkerEvent::Closed(id)));
    assert!(matches!(ctx.route(LoopInput::Worker(WorkerEvent::Closed(id))), Route::Continue));
    assert!(matches!(
        ctx.route(LoopInput::Worker(WorkerEvent::User(id, "late".to_string()))),
        Route::Continue
    ));
    assert!(ctx.worker_mut(id).is_none());
}

#[test]
fn message_from_live_worker() {
    let (mut ctx, _e, _x) = context();
    let (id, _r) = add(&mut ctx, &[]);
    match ctx.route(LoopInput::Worker(WorkerEvent::User(id, "open".to_string()))) {
        Route::Message(from, m) => {
            assert_eq!(from, id);
            assert_eq!(m, "open");
        }
        _ => panic!("expected Message"),
    }
    assert_eq!(ctx.len(), 1);
}

#[test]
fn message_from_unknown_worker_is_dropped() {
    let (mut ctx, _e, _x) = context();
    assert!(matches!(
        ctx.route(LoopInput::Worker(WorkerEvent::User(42, "x".to_string()))),
        Route::Continue
    ));
}

#[test]
fn external_and_exhausted() {
    let (mut ctx, _e, _x) = context();
    let (_id, _r) = add(&mut ctx, &[]);
    match ctx.route(LoopInput::External("sub".to_string())) {
        Route::External(x) => assert_eq!(x, "sub"),
        _ => panic!("expected External"),
    }
    assert!(matches!(ctx.route(LoopInput::Exhausted), Route::Stop));
    assert_eq!(ctx.len(), 1);
}

#[test]
fn find_mut_finds_a_match() {
    let (mut ctx, _e, _x) = context();
    add(&mut ctx, &["a", "b", "c"]);
    add(&mut ctx, &["d"]);
    let w = ctx.find_mut(|_, data| data.len() < 2).unwrap();
    assert_eq!(w.id(), 1);
    w.data_mut().push("e".to_string());
    assert!(ctx.find_mut(|_, data| data.len() < 2).is_none());
    assert_eq!(ctx.worker_mut(1).unwrap().data().len(), 2);
}

#[test]
fn find_mut_on_empty() {
    let (mut ctx, _e, _x) = context();
    assert!(ctx.find_mut(|_, _| true).is_none());
}

#[test]
fn worker_send_and_close_reach_the_worker() {
    let (mut ctx, _e, _x) = context();
    let (id, mut rx) = add(&mut ctx, &[]);
    let w = ctx.worker_mut(id).unwrap();
    assert!(w.send(7).is_ok());
    assert!(w.close().is_ok());
    assert!(matches!(rx.try_recv(), Ok(WorkerCommand::User(7))));
    assert!(matches!(rx.try_recv(), Ok(WorkerCommand::Close)));
    drop(rx);
    let w = ctx.worker_mut(id).unwrap();
    assert!(w.send(8).is_err());
}

#[test]
fn emit_reaches_the_user() {
    let (ctx, mut events, _x) = context();
    assert!(ctx.emit("hello".to_string()).is_ok());
    assert_eq!(events.try_recv().unwrap(), "hello");
    drop(events);
    assert!(ctx.emit("lost".to_string()).is_err());
}

#[test]
fn loopback_reaches_the_handler() {
    let (event_tx, _event_rx) = unbounded_channel::<String>();
    let (ext_tx, mut ext_rx) = unbounded_channel::<String>();
    let url = url::Url::parse("ws://localhost:9001/").unwrap();
    let ctx: Ctx = HandlerContext::new(url, event_tx, ext_tx.downgrade());
    let weak = ctx.loopback();
    weak.upgrade().unwrap().send("again".to_string()).unwrap();
    assert_eq!(ext_rx.try_recv().unwrap(), "again");
    drop(ext_tx);
    assert!(ctx.loopback().upgrade().is_none());
}

#[test]
fn loopback_try_send() {
    let (tx, mut rx) = unbounded_channel::<WorkerCommand<u32>>();
    let lb = Loopback::new(tx.downgrade());
    assert!(lb.try_send(3));
    assert!(matches!(rx.try_recv(), Ok(WorkerCommand::User(3))));
    drop(tx);
    assert!(!lb.try_send(4));
}
