use pulsar::command_download_ops::{
    ensure_success_status, maybe_emit_download_progress_with, progress_payload,
};
use pulsar::models::InstallProgressPayload;
use std::sync::Mutex;

#[test]
fn progress_payload_formats_expected_fields() {
    let payload = progress_payload("abc", 42);
    assert_eq!(payload.id, "abc");
    assert_eq!(payload.step, "Downloading: 42%");
    assert_eq!(payload.progress, Some(42));
}

#[test]
fn maybe_emit_download_progress_with_emits_only_when_percent_available() {
    let emitted = Mutex::new(Vec::<InstallProgressPayload>::new());

    maybe_emit_download_progress_with(Some("abc"), 5, 10, &mut |payload| {
        emitted.lock().expect("emitted lock").push(payload)
    });
    maybe_emit_download_progress_with(Some("abc"), 1, 0, &mut |payload| {
        emitted.lock().expect("emitted lock").push(payload)
    });
    maybe_emit_download_progress_with(None, 5, 10, &mut |payload| {
        emitted.lock().expect("emitted lock").push(payload)
    });

    let events = emitted.into_inner().expect("emitted into_inner");
    assert_eq!(events.len(), 1);
    assert_eq!(events[0].id, "abc");
    assert_eq!(events[0].progress, Some(50));
}

#[test]
fn ensure_success_status_accepts_success_and_formats_error() {
    ensure_success_status(reqwest::StatusCode::OK.as_u16()).expect("ok should pass");
    let err = ensure_success_status(reqwest::StatusCode::BAD_REQUEST.as_u16()).expect_err("expected err");
    assert!(err.contains("400 Bad Request"));
    assert_eq!(err, "Download failed with HTTP status: 400 Bad Request");
    ensure_success_status(299).expect("299 is a success");
    assert_eq!(
        ensure_success_status(199).expect_err("199 is no success"),
        "Download failed with HTTP status: 199 <unknown status code>"
    );
}
