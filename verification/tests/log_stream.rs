use hexa_client::log_stream::{forward_log_item, LogStreamItem};

#[test]
fn messages_are_tagged_by_stream() {
    let out = forward_log_item(LogStreamItem::Message {
        log: "compiling".to_string(),
        is_error: false,
        is_final: false,
    });
    assert_eq!(out.line, "[OUT] compiling");
    assert!(!out.stop);

    let err = forward_log_item(LogStreamItem::Message {
        log: "boom".to_string(),
        is_error: true,
        is_final: false,
    });
    assert_eq!(err.line, "[ERR] boom");
    assert!(!err.stop);
}

#[test]
fn final_message_ends_forwarding() {
    let last = forward_log_item(LogStreamItem::Message {
        log: "done".to_string(),
        is_error: false,
        is_final: true,
    });
    assert_eq!(last.line, "[OUT] done");
    assert!(last.stop);
}

#[test]
fn stream_failure_sends_fatal_line_and_stops() {
    let failed = forward_log_item(LogStreamItem::Failure);
    assert_eq!(failed.line, "[FATAL] Stream error while receiving logs!");
    assert!(failed.stop);
}
