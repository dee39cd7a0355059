use async_bzip::message_buffer::Buffer;
use async_bzip::sample::Sample;

#[test]
fn buffer_keeps_messages_in_order() {
    let mut buffer = Buffer::new(1);
    assert!(!buffer.remote_server_is_ready());
    assert!(buffer.messages().is_empty());
    buffer.start_send("first".to_string());
    buffer.start_send("second".to_string());
    assert_eq!(buffer.messages(), &vec!["first".to_string(), "second".to_string()]);
}

#[test]
fn buffer_counter_and_readiness() {
    let mut buffer = Buffer::new(1);
    buffer.increment_foo();
    assert_eq!(buffer.foo(), 2);
    buffer.set_foo(254);
    buffer.increment_foo();
    assert_eq!(buffer.foo(), 255);
    buffer.ready();
    assert!(buffer.remote_server_is_ready());
    assert_eq!(buffer.foo(), 255);
}

#[test]
fn sample_without_waiting_task_wakes_nobody() {
    let mut sample: Sample<u32> = Sample::new(20);
    assert!(sample.foo().is_none());
    assert!(sample.task().is_none());
    let wake = sample.set_foo(55);
    assert!(!wake);
    assert_eq!(sample.foo(), Some(55));
}
