use v8_runner::platform::download::{
    ensure_allowed_download_size, get_text, remaining_budget, DownloadAsk, DownloadError,
    DownloadEvent, DownloadRun, MAX_DOWNLOAD_BYTES,
};
use v8_runner::time::Span;

const URL: &str = "https://example.invalid/file";

fn ms(millis: u64) -> Span {
    Span::from_millis(millis)
}

fn answered(status: u16, status_text: &str, content_length: Option<u64>) -> DownloadEvent {
    DownloadEvent::Answered {
        status,
        status_text: status_text.to_owned(),
        content_length,
    }
}

fn received(part: &[u8]) -> DownloadEvent {
    DownloadEvent::Received {
        part: part.to_vec(),
    }
}

fn refused() -> DownloadEvent {
    DownloadEvent::RequestFailed {
        source: "connection refused".to_owned(),
        timed_out: false,
        unconnected: true,
    }
}

/// Lets the pauses pass until something else is asked for; gives the time at which it is.
fn sleep(run: &mut DownloadRun, mut ask: DownloadAsk, mut elapsed: u64) -> (DownloadAsk, u64) {
    while let DownloadAsk::Sleep { span } = ask {
        assert!(span.as_millis() <= 25);
        elapsed += span.as_millis().max(1);
        ask = run.step(DownloadEvent::Woke, false, ms(elapsed));
    }
    (ask, elapsed)
}

#[test]
fn download_size_limit_accepts_boundary_size() {
    ensure_allowed_download_size(URL, MAX_DOWNLOAD_BYTES).expect("boundary size is accepted");
}

#[test]
fn download_size_limit_rejects_oversized_response() {
    let error = ensure_allowed_download_size(URL, MAX_DOWNLOAD_BYTES + 1)
        .expect_err("oversized response is rejected");

    assert!(matches!(
        error,
        DownloadError::ResponseTooLarge {
            size_bytes,
            max_bytes,
            ..
        } if size_bytes == MAX_DOWNLOAD_BYTES + 1 && max_bytes == MAX_DOWNLOAD_BYTES
    ));
}

#[test]
fn body_is_put_together_from_its_parts() {
    let (mut run, ask) = DownloadRun::get_bytes(URL, Some(ms(60_000)), false, ms(0));
    assert_eq!(
        ask,
        DownloadAsk::Send {
            request_timeout: Some(ms(60_000)),
            connect_timeout: ms(30_000)
        }
    );
    assert_eq!(
        run.step(answered(200, "200 OK", Some(6)), false, ms(1)),
        DownloadAsk::Read
    );
    assert_eq!(
        run.step(received(b"abc"), false, ms(2)),
        DownloadAsk::Read
    );
    assert_eq!(
        run.step(received(b"def"), false, ms(3)),
        DownloadAsk::Read
    );
    assert_eq!(
        run.step(received(b""), false, ms(4)),
        DownloadAsk::Done {
            bytes: b"abcdef".to_vec()
        }
    );
}

#[test]
fn attempts_end_with_the_last_failure() {
    let (mut run, ask) = DownloadRun::get_bytes(URL, None, false, ms(0));
    assert!(matches!(ask, DownloadAsk::Send { .. }));
    let mut elapsed: u64 = 1;
    for _ in 0..2 {
        let ask = run.step(refused(), false, ms(elapsed));
        let (ask, now) = sleep(&mut run, ask, elapsed);
        assert!(matches!(ask, DownloadAsk::Send { .. }));
        assert!(now >= elapsed + 2000);
        elapsed = now;
    }
    match run.step(answered(503, "503 Service Unavailable", None), false, ms(elapsed)) {
        DownloadAsk::Failed { error } => assert_eq!(
            error.message(),
            "HTTP GET https://example.invalid/file returned status 503 Service Unavailable"
        ),
        other => panic!("unexpected ask: {other:?}"),
    }
}

#[test]
fn hopeless_failure_is_not_tried_again() {
    let (mut run, _) = DownloadRun::get_bytes(URL, None, false, ms(0));
    assert!(matches!(
        run.step(answered(404, "404 Not Found", None), false, ms(1)),
        DownloadAsk::Failed {
            error: DownloadError::Status { status: 404, .. }
        }
    ));
    assert_eq!(run.step(refused(), false, ms(2)), DownloadAsk::Repeat);

    let (mut run, _) = DownloadRun::get_bytes(URL, None, false, ms(0));
    let failed = DownloadEvent::ClientFailed {
        source: "no tls".to_owned(),
    };
    assert!(matches!(
        run.step(failed, false, ms(1)),
        DownloadAsk::Failed {
            error: DownloadError::Client { .. }
        }
    ));
}

#[test]
fn failed_read_starts_the_body_over() {
    let (mut run, _) = DownloadRun::get_bytes(URL, None, false, ms(0));
    run.step(answered(200, "200 OK", None), false, ms(1));
    run.step(received(b"half"), false, ms(2));
    let ask = run.step(
        DownloadEvent::ReadFailed {
            source: "reset".to_owned(),
        },
        false,
        ms(3),
    );
    let (ask, now) = sleep(&mut run, ask, 3);
    assert!(matches!(ask, DownloadAsk::Send { .. }));
    run.step(answered(200, "200 OK", None), false, ms(now));
    run.step(received(b"whole"), false, ms(now));
    assert_eq!(
        run.step(received(b""), false, ms(now)),
        DownloadAsk::Done {
            bytes: b"whole".to_vec()
        }
    );
}

#[test]
fn oversized_body_is_refused_by_its_announcement() {
    let (mut run, _) = DownloadRun::get_bytes(URL, None, false, ms(0));
    assert!(matches!(
        run.step(
            answered(200, "200 OK", Some(MAX_DOWNLOAD_BYTES + 1)),
            false,
            ms(1)
        ),
        DownloadAsk::Failed {
            error: DownloadError::ResponseTooLarge { .. }
        }
    ));
}

#[test]
fn cancelled_and_late_downloads_stop() {
    let (_, ask) = DownloadRun::get_bytes(URL, None, true, ms(0));
    assert_eq!(
        ask,
        DownloadAsk::Failed {
            error: DownloadError::Cancelled
        }
    );
    let (_, ask) = DownloadRun::get_bytes(URL, Some(ms(0)), false, ms(0));
    assert_eq!(
        ask,
        DownloadAsk::Failed {
            error: DownloadError::TimedOut { timeout_ms: 0 }
        }
    );
    let (mut run, _) = DownloadRun::get_bytes(URL, Some(ms(50)), false, ms(0));
    run.step(answered(200, "200 OK", None), false, ms(10));
    assert_eq!(
        run.step(received(b"late"), false, ms(60)),
        DownloadAsk::Failed {
            error: DownloadError::TimedOut { timeout_ms: 50 }
        }
    );
    assert_eq!(remaining_budget(Some(ms(50)), ms(20)), Ok(Some(ms(30))));
    assert_eq!(remaining_budget(None, ms(20)), Ok(None));
}

#[test]
fn downloaded_text_has_to_be_utf8() {
    assert_eq!(
        get_text("текст".as_bytes().to_vec()),
        Ok("текст".to_owned())
    );
    let error = get_text(vec![0xff]).expect_err("invalid text");
    assert!(error.message().starts_with("response is not UTF-8: "));
}

#[test]
fn download_errors_have_their_messages() {
    assert_eq!(
        DownloadError::Cancelled.message(),
        "HTTP download was cancelled"
    );
    assert_eq!(
        DownloadError::TimedOut { timeout_ms: 7 }.message(),
        "HTTP download timed out after 7ms"
    );
    assert_eq!(
        DownloadError::ResponseTooLarge {
            url: "u".to_owned(),
            size_bytes: 3,
            max_bytes: 2
        }
        .message(),
        "HTTP response for u exceeds maximum download size 2 bytes: 3 bytes"
    );
    assert!(DownloadError::Read {
        url: "u".to_owned(),
        source: "s".to_owned()
    }
    .is_retryable());
    assert!(!DownloadError::Cancelled.is_retryable());
}
