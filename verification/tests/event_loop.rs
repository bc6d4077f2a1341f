use ws_pool::{EventLoopAction, SendError};

#[test]
fn ok_continues() {
    let r: Result<(), String> = Ok(());
    assert_eq!(EventLoopAction::from(r), EventLoopAction::Continue);
}

#[test]
fn err_stops() {
    let r: Result<(), SendError> = Err(SendError::default());
    assert_eq!(EventLoopAction::from(r), EventLoopAction::Stop);
}

#[test]
fn into_from_result() {
    let action: EventLoopAction = Err::<(), u8>(7).into();
    assert!(action.is_stop());
    assert!(!action.is_continue());
}

#[test]
fn continue_is_not_stop() {
    assert!(EventLoopAction::Continue.is_continue());
    assert!(!EventLoopAction::Continue.is_stop());
    assert!(EventLoopAction::Stop.is_stop());
    assert!(!EventLoopAction::Stop.is_continue());
}

#[test]
fn send_errors_are_equal() {
    let (tx, rx) = tokio::sync::mpsc::unbounded_channel::<u32>();
    drop(rx);
    let e = tx.send(5).unwrap_err();
    assert_eq!(SendError::from(e), SendError::default());
}

#[test]
fn lift_send_maps_outcomes() {
    let (tx, rx) = tokio::sync::mpsc::unbounded_channel::<u32>();
    assert_eq!(ws_pool::lift_send(tx.send(1)), Ok(()));
    drop(rx);
    assert_eq!(ws_pool::lift_send(tx.send(2)), Err(SendError::default()));
}
