//! Classifying finished runs: timeout, spawn failure, non-zero exit, the
//! ignore-errors opt-in, and the raw fallback.

use youtube_dl::builder::YoutubeDl;
use youtube_dl::json::{Json, JsonError};
use youtube_dl::{Error, ProcessOutcome};

#[test]
fn timeout_is_reported_as_process_timeout() {
    let dl = YoutubeDl::new("https://example.com/watch?v=x");
    let dl = dl.process_timeout(250);
    assert_eq!(dl.process_timeout, Some(250));
    let result = dl.finish_run(ProcessOutcome::TimedOut);
    assert_eq!(result.unwrap_err(), Error::ProcessTimeout);
}

#[test]
fn spawn_failure_is_reported_as_io() {
    let dl = YoutubeDl::new("https://example.com/watch?v=x");
    let outcome = ProcessOutcome::SpawnFailed("no such executable".to_string());
    match dl.finish_run(outcome).unwrap_err() {
        Error::Io(message) => assert_eq!(message, "no such executable"),
        other => panic!("expected an I/O failure, got {other:?}"),
    }
}

#[test]
fn nonzero_exit_carries_code_and_stderr() {
    let dl = YoutubeDl::new("https://example.com/watch?v=x");
    let outcome = ProcessOutcome::Completed {
        code: Some(1),
        stdout: Vec::new(),
        stderr: b"ERROR: video unavailable".to_vec(),
    };
    match dl.finish_run(outcome).unwrap_err() {
        Error::ExitCode { code, stderr } => {
            assert_eq!(code, 1);
            assert_eq!(stderr, "ERROR: video unavailable");
        },
        other => panic!("expected an exit-code failure, got {other:?}"),
    }
}

#[test]
fn signal_exit_maps_to_code_one() {
    let dl = YoutubeDl::new("https://example.com/watch?v=x");
    let outcome = ProcessOutcome::Completed {
        code: None,
        stdout: Vec::new(),
        stderr: Vec::new(),
    };
    match dl.finish_run(outcome).unwrap_err() {
        Error::ExitCode { code, stderr } => {
            assert_eq!(code, 1);
            assert_eq!(stderr, "");
        },
        other => panic!("expected an exit-code failure, got {other:?}"),
    }
}

#[test]
fn stderr_is_decoded_permissively() {
    let dl = YoutubeDl::new("https://example.com/watch?v=x");
    let outcome = ProcessOutcome::Completed {
        code: Some(2),
        stdout: Vec::new(),
        stderr: vec![b'b', b'a', b'd', b' ', 0xFF],
    };
    match dl.finish_run(outcome).unwrap_err() {
        Error::ExitCode { code, stderr } => {
            assert_eq!(code, 2);
            assert_eq!(stderr, "bad \u{FFFD}");
        },
        other => panic!("expected an exit-code failure, got {other:?}"),
    }
}

#[test]
fn ignore_errors_still_deserializes_stdout() {
    let dl = YoutubeDl::new("https://example.com/watch?v=x").ignore_errors(true);
    let outcome = ProcessOutcome::Completed {
        code: Some(1),
        stdout: b"{\"id\": \"a\", \"title\": \"t\"}".to_vec(),
        stderr: b"ERROR: video unavailable".to_vec(),
    };
    let video = dl.finish_run(outcome).unwrap().into_single_video().unwrap();
    assert_eq!(video.id, "a");
}

#[test]
fn ignore_errors_with_empty_stdout_is_a_syntax_error() {
    let dl = YoutubeDl::new("https://example.com/watch?v=x").ignore_errors(true);
    let outcome = ProcessOutcome::Completed {
        code: Some(1),
        stdout: Vec::new(),
        stderr: Vec::new(),
    };
    assert_eq!(
        dl.finish_run(outcome).unwrap_err(),
        Error::Json(JsonError::Syntax)
    );
}

#[test]
fn successful_exit_deserializes_stdout() {
    let dl = YoutubeDl::new("https://example.com/watch?v=x");
    let outcome = ProcessOutcome::Completed {
        code: Some(0),
        stdout: b"{\"id\": \"ok\", \"title\": \"fine\"}".to_vec(),
        stderr: Vec::new(),
    };
    let video = dl.finish_run(outcome).unwrap().into_single_video().unwrap();
    assert_eq!(video.id, "ok");
    assert_eq!(video.title, "fine");
}

#[test]
fn raw_run_keeps_the_generic_document() {
    let dl = YoutubeDl::new("https://example.com/watch?v=x");
    let outcome = ProcessOutcome::Completed {
        code: Some(0),
        stdout: b"{\"unexpected\": [1, 2, 3]}".to_vec(),
        stderr: Vec::new(),
    };
    let value = dl.finish_run_raw(outcome).unwrap();
    match value.get("unexpected") {
        Some(Json::Arr(items)) => assert_eq!(items.len(), 3),
        _ => panic!("expected the array back"),
    }
}

#[test]
fn raw_run_reports_timeouts_too() {
    let dl = YoutubeDl::new("https://example.com/watch?v=x");
    assert_eq!(
        dl.finish_run_raw(ProcessOutcome::TimedOut).unwrap_err(),
        Error::ProcessTimeout
    );
}
