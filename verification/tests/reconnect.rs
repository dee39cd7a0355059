use async_bzip::reconnect::{
    pause_before_reconnect, Buffer, ConnectionEnd, FlushPlan, SendPlan, RECONNECT_PAUSE_MS,
};

#[test]
fn refused_connection_is_retried_after_a_pause() {
    assert_eq!(pause_before_reconnect(&ConnectionEnd::Refused), 100);
    assert_eq!(pause_before_reconnect(&ConnectionEnd::Refused), RECONNECT_PAUSE_MS);
    assert_eq!(pause_before_reconnect(&ConnectionEnd::Closed), 0);
}

#[test]
fn buffer_without_sender_connects_and_hands_back() {
    let mut buffer: Buffer<Vec<String>> = Buffer::new();
    assert!(!buffer.has_tx());
    assert!(matches!(buffer.start_send(), SendPlan::ConnectAndHandBack));
    assert!(matches!(buffer.poll_complete(), FlushPlan::NotReady));
    assert!(buffer.sender_mut().is_none());
}

#[test]
fn buffer_with_sender_forwards() {
    let mut buffer: Buffer<Vec<String>> = Buffer::new();
    buffer.set_tx(Vec::new());
    assert!(buffer.has_tx());
    assert!(matches!(buffer.start_send(), SendPlan::ForwardAndAccept));
    assert!(matches!(buffer.poll_complete(), FlushPlan::FlushAndReady));
    buffer.sender_mut().unwrap().push("messaggio 1".to_string());
    assert_eq!(buffer.sender_mut().unwrap().len(), 1);
}
