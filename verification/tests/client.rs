use office_convert_client::client::is_error_status;
use office_convert_client::client::ClientOptions;
use office_convert_client::client::StatusResponse;
use office_convert_client::client::SupportedFormat;
use office_convert_client::client::VersionResponse;
use office_convert_client::client::DEFAULT_CONNECT_TIMEOUT_MS;
use office_convert_client::slot::ProbeOutcome;

/// Default client options: a 700 ms connection bound, no read bound.
#[test]
fn default_client_options() {
    let options = ClientOptions::default();
    assert_eq!(DEFAULT_CONNECT_TIMEOUT_MS, 700);
    assert_eq!(options.connect_timeout_ms, Some(700));
    assert_eq!(options.read_timeout_ms, None);
}

/// Only the client-error and server-error status classes are failures.
#[test]
fn error_status_classes() {
    assert!(!is_error_status(200));
    assert!(!is_error_status(204));
    assert!(!is_error_status(399));
    assert!(is_error_status(400));
    assert!(is_error_status(404));
    assert!(is_error_status(500));
    assert!(is_error_status(503));
    assert!(is_error_status(599));
    assert!(!is_error_status(600));
    assert!(!is_error_status(100));
}

/// A status reply's busy flag feeds the probe outcome directly.
#[test]
fn status_reply_drives_probe_outcome() {
    let busy = StatusResponse { is_busy: true };
    let free = StatusResponse { is_busy: false };
    assert!(busy.busy());
    assert!(!free.busy());
    assert_eq!(ProbeOutcome::of_reply(Some(busy.busy())), ProbeOutcome::Busy);
    assert_eq!(ProbeOutcome::of_reply(Some(free.busy())), ProbeOutcome::Free);
}

/// The reply carriers hold what the backend reports, as plain values.
#[test]
fn reply_carriers_hold_fields() {
    let format = SupportedFormat {
        name: String::from("writer_pdf_Export"),
        mime: String::from("application/pdf"),
    };
    assert_eq!(format.name, "writer_pdf_Export");
    assert_eq!(format.mime, "application/pdf");

    let version = VersionResponse {
        major: 24,
        minor: 2,
        build_id: String::from("420(Build:2)"),
    };
    assert_eq!(version.major, 24);
    assert_eq!(version.minor, 2);
    assert_eq!(version.build_id, "420(Build:2)");
}
