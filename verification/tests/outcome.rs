use easy_process::{outcome, Captured, CommandError, Error, ExitStatus, Output};
use std::io;

fn captured(stdout: &[u8], stderr: &[u8]) -> Captured {
    Captured {
        stdout: stdout.to_vec(),
        stderr: stderr.to_vec(),
    }
}

#[test]
fn default_output_is_empty() {
    let output = Output::default();
    assert_eq!(output.stdout, "");
    assert_eq!(output.stderr, "");
}

#[test]
fn decode_reads_utf8_as_it_stands() {
    let output = Output::decode(&captured("ok\n".as_bytes(), "grüße 💖".as_bytes()));
    assert_eq!(output.stdout, "ok\n");
    assert_eq!(output.stderr, "grüße 💖");
}

#[test]
fn decode_replaces_what_is_not_utf8() {
    let output = Output::decode(&captured(b"Hello \xF0\x90\x80World", b"\xff"));
    assert_eq!(output.stdout, "Hello \u{FFFD}World");
    assert_eq!(output.stderr, "\u{FFFD}");
}

#[test]
fn exit_status_succeeds_on_zero_only() {
    assert!(ExitStatus::new(Some(0)).success());
    assert!(!ExitStatus::new(Some(1)).success());
    assert!(!ExitStatus::new(Some(-1)).success());
    assert!(!ExitStatus::new(None).success());
    assert_eq!(ExitStatus::new(Some(7)).code(), Some(7));
    assert_eq!(ExitStatus::new(None).code(), None);
}

#[test]
fn successful_report_gives_decoded_output() {
    match outcome(Ok(captured(b"1 2 3 4\n", b"warn\xfe\n"))) {
        Ok(output) => {
            assert_eq!(output.stdout, "1 2 3 4\n");
            assert_eq!(output.stderr, "warn\u{FFFD}\n");
        }
        Err(error) => panic!("unexpected error: {:?}", error),
    }
}

#[test]
fn failed_report_keeps_status_and_output() {
    let report = Err(CommandError::Failure(
        ExitStatus::new(Some(1)),
        Some(captured(b"partial", b"error\n")),
    ));
    match outcome(report) {
        Err(Error::Failure(status, output)) => {
            assert_eq!(status.code(), Some(1));
            assert_eq!(output.stdout, "partial");
            assert_eq!(output.stderr, "error\n");
        }
        other => panic!("unexpected result: {:?}", other),
    }
}

#[test]
fn failed_report_without_output_gives_empty_output() {
    let report = Err(CommandError::Failure(ExitStatus::new(None), None));
    match outcome(report) {
        Err(Error::Failure(status, output)) => {
            assert_eq!(status.code(), None);
            assert_eq!(output.stdout, "");
            assert_eq!(output.stderr, "");
        }
        other => panic!("unexpected result: {:?}", other),
    }
}

#[test]
fn io_report_keeps_the_system_error() {
    let report = Err(CommandError::Io(io::Error::new(
        io::ErrorKind::PermissionDenied,
        "not allowed",
    )));
    match outcome(report) {
        Err(Error::Io(error)) => {
            assert_eq!(error.kind(), io::ErrorKind::PermissionDenied);
            assert_eq!(error.to_string(), "not allowed");
        }
        other => panic!("unexpected result: {:?}", other),
    }
}

#[test]
fn error_from_converts_each_kind() {
    let failure = Error::from(CommandError::Failure(
        ExitStatus::new(Some(2)),
        Some(captured(b"", b"bad\n")),
    ));
    match failure {
        Error::Failure(status, output) => {
            assert_eq!(status.code(), Some(2));
            assert_eq!(output.stderr, "bad\n");
        }
        other => panic!("unexpected error: {:?}", other),
    }
    let io_error = Error::from(CommandError::Io(io::Error::from(io::ErrorKind::BrokenPipe)));
    match io_error {
        Error::Io(error) => assert_eq!(error.kind(), io::ErrorKind::BrokenPipe),
        other => panic!("unexpected error: {:?}", other),
    }
}
