use async_bzip::messages::{log_record_message, message_schedule, next_tick, numbered_message};

#[test]
fn numbered_messages() {
    assert_eq!(numbered_message(0), "Messagio 0");
    assert_eq!(numbered_message(7), "Messagio 7");
    assert_eq!(numbered_message(1234), "Messagio 1234");
    assert_eq!(numbered_message(u64::MAX), format!("Messagio {}", u64::MAX));
}

#[test]
fn log_record_messages() {
    let expected = r#"{"@timestamp":"2017-03-24T09:16:42.636040+01:00","@source":"dev-all-onebiptrusty cli","@fields":{"channel":"integrationtest-client","level":100,"extra_level_name":"DEBUG","extra_uname":"dev-all-onebiptrusty","extra_sapi":"cli","extra_process_id":17954},"@message":"Message 42"}"#;
    assert_eq!(log_record_message(42), expected);
}

#[test]
fn ticks_count_up() {
    assert_eq!(next_tick(0), 1);
    assert_eq!(next_tick(41), 42);
}

#[test]
fn schedule_of_ten_messages() {
    let schedule = message_schedule();
    assert_eq!(schedule.len(), 10);
    for (k, (delay, text)) in schedule.iter().enumerate() {
        assert_eq!(*delay, k as u64 + 1);
        assert_eq!(*text, format!("Messagio {}", k + 1));
    }
}
