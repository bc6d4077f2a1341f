use ws_pool::{closes_connection, text_of, FrameRead, WsReadError};

#[test]
fn timeout_closes() {
    let r = FrameRead::TimedOut;
    assert!(closes_connection(&r));
    assert!(matches!(text_of::<()>(&r), Err(WsReadError::Timeout)));
}

#[test]
fn failure_closes() {
    let r = FrameRead::Failed;
    assert!(closes_connection(&r));
    assert!(matches!(text_of::<()>(&r), Err(WsReadError::Parse)));
}

#[test]
fn binary_is_not_text() {
    let r = FrameRead::Frame { text: false, payload: b"open=1".to_vec() };
    assert!(!closes_connection(&r));
    assert!(matches!(text_of::<()>(&r), Err(WsReadError::NotText)));
}

#[test]
fn invalid_utf8() {
    let r = FrameRead::Frame { text: true, payload: vec![0x66, 0xff, 0x6f] };
    assert!(!closes_connection(&r));
    assert!(matches!(text_of::<()>(&r), Err(WsReadError::NotUtf8)));
}

#[test]
fn text_frame() {
    let r = FrameRead::Frame { text: true, payload: "event=héllo".as_bytes().to_vec() };
    assert_eq!(text_of::<()>(&r).unwrap(), "event=héllo");
}

#[test]
fn empty_text_frame() {
    let r = FrameRead::Frame { text: true, payload: vec![] };
    assert_eq!(text_of::<()>(&r).unwrap(), "");
}

use ws_pool::{route_worker_input, WorkerCommand, WorkerInput, WorkerRoute};

type Input = WorkerInput<String, String, u32>;

#[test]
fn worker_routes_message_and_command() {
    let r = route_worker_input(Input::Read(Ok("open".to_string())));
    assert!(matches!(r, WorkerRoute::Message(m) if m == "open"));
    let r = route_worker_input(Input::Command(Some(WorkerCommand::User(5))));
    assert!(matches!(r, WorkerRoute::Command(5)));
}

#[test]
fn worker_stops_on_close_and_dead_reads() {
    assert!(matches!(route_worker_input(Input::Command(Some(WorkerCommand::Close))), WorkerRoute::Stop));
    assert!(matches!(route_worker_input(Input::Command(None)), WorkerRoute::Stop));
    assert!(matches!(route_worker_input(Input::Read(Err(WsReadError::Timeout))), WorkerRoute::Stop));
    assert!(matches!(route_worker_input(Input::Read(Err(WsReadError::Parse))), WorkerRoute::Stop));
}

#[test]
fn worker_skips_unusable_frames() {
    assert!(matches!(route_worker_input(Input::Read(Err(WsReadError::NotText))), WorkerRoute::Skip));
    assert!(matches!(route_worker_input(Input::Read(Err(WsReadError::NotUtf8))), WorkerRoute::Skip));
    assert!(matches!(
        route_worker_input(Input::Read(Err(WsReadError::Deserialize("bad".to_string())))),
        WorkerRoute::Skip
    ));
}
