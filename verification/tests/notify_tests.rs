use tomchat::notify::{
    notify_fallback, state_notification_json, status_event_json, u64_to_dec, NotifyBackend,
    StatusEventKind,
};

#[test]
fn decimal_rendering() {
    assert_eq!(u64_to_dec(0), "0");
    assert_eq!(u64_to_dec(7), "7");
    assert_eq!(u64_to_dec(42), "42");
    assert_eq!(u64_to_dec(1234567890), "1234567890");
    assert_eq!(u64_to_dec(u64::MAX), "18446744073709551615");
}

#[test]
fn state_update_payloads() {
    assert_eq!(
        state_notification_json(true, 1700000000),
        "{\"recording\":true,\"timestamp\":1700000000}"
    );
    assert_eq!(state_notification_json(false, 0), "{\"recording\":false,\"timestamp\":0}");
}

#[test]
fn http_failure_falls_back_to_the_file() {
    assert_eq!(notify_fallback(true), None);
    assert_eq!(notify_fallback(false), Some(NotifyBackend::FileWrite));
}

#[test]
fn event_kind_names() {
    assert_eq!(StatusEventKind::RecordingStarted.name(), "recording_started");
    assert_eq!(StatusEventKind::RecordingStopped.name(), "recording_stopped");
    assert_eq!(StatusEventKind::Transcribing.name(), "transcribing");
    assert_eq!(StatusEventKind::TranscriptionComplete.name(), "transcription_complete");
    assert_eq!(StatusEventKind::TranscriptionError.name(), "transcription_error");
}

#[test]
fn status_event_payload() {
    assert_eq!(
        status_event_json(StatusEventKind::RecordingStarted, "Recording started", 12),
        "{\"event\":\"recording_started\",\"message\":\"Recording started\",\"timestamp\":12}"
    );
}

#[test]
fn status_event_escapes_the_message() {
    assert_eq!(
        status_event_json(StatusEventKind::TranscriptionError, "say \"hi\"\nback\\slash", 5),
        "{\"event\":\"transcription_error\",\"message\":\"say \\\"hi\\\"\\nback\\\\slash\",\"timestamp\":5}"
    );
    let with_control = status_event_json(StatusEventKind::Transcribing, "\u{1}\t\u{8}\u{c}\r", 1);
    assert_eq!(
        with_control,
        "{\"event\":\"transcribing\",\"message\":\"\\u0001\\t\\b\\f\\r\",\"timestamp\":1}"
    );
}
