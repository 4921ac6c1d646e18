//! Laws of a download: when it is tried again, how long it waits, and how it fails.

use vstd::prelude::*;
use crate::platform::download::{
    after_failure, budget_left, download_error_text, download_start, download_step,
    may_succeed_later, DownloadAskView, DownloadErrorView, DownloadEventView, DownloadPhase,
    DownloadRunView,
};
use crate::text_number::decimal;
use crate::time::{whole_millis, Span};

verus! {

/// Every attempt is sent with what is left of the time, and connects within that and within half a
/// minute.
pub proof fn attempt_has_what_is_left(
    url: Seq<char>,
    limit: Span,
    s: DownloadRunView,
    until: Span,
    elapsed: Span,
)
    requires
        s.attempt < u32::MAX,
        s.phase == (DownloadPhase::Pause { until }),
        until.nanos <= elapsed.nanos,
    ensures
        ({
            let free = download_start(url, None, false, elapsed).1;
            let timed = download_start(url, Some(limit), false, elapsed).1;
            let again = download_step(s, DownloadEventView::Woke, false, elapsed);
            &&& free is Send && free->request_timeout is None && free->connect_timeout.nanos
                == 30_000_000_000
            &&& elapsed.nanos < limit.nanos ==> {
                &&& timed is Send
                &&& timed->request_timeout is Some
                &&& timed->request_timeout->0.nanos + elapsed.nanos == limit.nanos
                &&& timed->connect_timeout.nanos <= timed->request_timeout->0.nanos
                &&& timed->connect_timeout.nanos <= 30_000_000_000
                &&& timed->connect_timeout.nanos == 30_000_000_000 || timed->connect_timeout
                    == timed->request_timeout->0
            }
            &&& elapsed.nanos >= limit.nanos ==> timed is Failed && timed->error is TimedOut
            &&& s.timeout is None ==> again.1 == free && again.0.attempt == s.attempt + 1
                && again.0.bytes.len() == 0 && again.0.phase is Response
            &&& s.timeout == Some(limit) && elapsed.nanos < limit.nanos ==> again.1 == timed
        }),
{
}

/// Whatever came last, a download that is cancelled or whose time is up asks for nothing more: it
/// fails, and says for which of the two. Cancellation is told first.
pub proof fn nothing_is_asked_for_after_the_end(
    url: Seq<char>,
    timeout: Option<Span>,
    s: DownloadRunView,
    part: Seq<u8>,
    status_text: Seq<char>,
    elapsed: Span,
)
    requires
        0 < part.len(),
        s.bytes.len() + part.len() <= 536_870_912,
    ensures
        timeout is None || timeout->0.nanos > 0 ==> download_start(url, timeout, true, elapsed).1
            == (DownloadAskView::Failed { error: DownloadErrorView::Cancelled }),
        s.phase is Body ==> download_step(
            s,
            DownloadEventView::Received { part },
            true,
            elapsed,
        ).1 == (DownloadAskView::Failed { error: DownloadErrorView::Cancelled }),
        s.phase is Body && s.timeout is Some && elapsed.nanos >= s.timeout->0.nanos
            ==> download_step(s, DownloadEventView::Received { part }, false, elapsed).1 == (
        DownloadAskView::Failed {
            error: DownloadErrorView::TimedOut { timeout_ms: whole_millis(s.timeout->0) },
        }),
        s.phase is Response ==> download_step(
            s,
            DownloadEventView::Answered { status: 200, status_text, content_length: None },
            true,
            elapsed,
        ).1 == (DownloadAskView::Failed { error: DownloadErrorView::Cancelled }),
        download_start(url, Some(Span { nanos: 0 }), false, elapsed).1 == (DownloadAskView::Failed {
            error: DownloadErrorView::TimedOut { timeout_ms: 0 },
        }),
{
}

/// The body of an answer is read where its status is a success and it is not too large; a status of
/// another class is told, and at once where it is not the server's.
pub proof fn only_a_success_is_read(
    s: DownloadRunView,
    status: u16,
    status_text: Seq<char>,
    content_length: Option<u64>,
    elapsed: Span,
)
    requires
        s.phase is Response,
        s.timeout is None,
    ensures
        ({
            let ask = download_step(
                s,
                DownloadEventView::Answered { status, status_text, content_length },
                false,
                elapsed,
            ).1;
            let small = content_length is None || content_length->0 <= 536_870_912;
            &&& 200 <= status <= 299 && small ==> ask is Read
            &&& 200 <= status <= 299 && !small ==> ask == (DownloadAskView::Failed {
                error: DownloadErrorView::ResponseTooLarge {
                    url: s.url,
                    size_bytes: content_length->0,
                    max_bytes: 536_870_912,
                },
            })
            &&& !(200 <= status <= 299) && !(500 <= status <= 599) ==> ask == (
            DownloadAskView::Failed {
                error: DownloadErrorView::Status { url: s.url, status, status_text },
            })
            &&& 500 <= status <= 599 && s.attempt < 3 && elapsed.nanos + 2_000_000_000 <= u128::MAX
                ==> ask is Sleep
            &&& 500 <= status <= 599 && s.attempt >= 3 ==> ask == (DownloadAskView::Failed {
                error: DownloadErrorView::Status { url: s.url, status, status_text },
            })
        }),
{
}

/// What may pass is tried again: a request that timed out or found no connection, a body that broke
/// off, and a failure of the server. Nothing else is.
pub proof fn what_may_pass_is_tried_again(
    url: Seq<char>,
    source: Seq<char>,
    timed_out: bool,
    unconnected: bool,
    status: u16,
    n: u64,
)
    ensures
        may_succeed_later(
            DownloadErrorView::Request { url, source, timed_out, unconnected },
        ) <==> timed_out || unconnected,
        may_succeed_later(DownloadErrorView::Read { url, source }),
        may_succeed_later(
            DownloadErrorView::Status { url, status, status_text: source },
        ) <==> 500 <= status <= 599,
        !may_succeed_later(DownloadErrorView::Client { source }),
        !may_succeed_later(
            DownloadErrorView::ResponseTooLarge { url, size_bytes: n, max_bytes: n },
        ),
        !may_succeed_later(DownloadErrorView::TimedOut { timeout_ms: n }),
        !may_succeed_later(DownloadErrorView::Cancelled),
        !may_succeed_later(DownloadErrorView::InvalidUtf8 { source }),
{
}

/// Between two attempts two seconds pass, or what is left of the time where that is less; they are
/// slept through in short naps, none of which goes beyond them.
pub proof fn attempts_are_two_seconds_apart(
    s: DownloadRunView,
    error: DownloadErrorView,
    elapsed: Span,
)
    requires
        may_succeed_later(error),
        s.attempt < 3,
        elapsed.nanos + 2_000_000_000 <= u128::MAX,
    ensures
        ({
            let (next, ask) = after_failure(s, error, false, elapsed);
            let late = s.timeout is Some && elapsed.nanos >= s.timeout->0.nanos;
            &&& late ==> ask == (DownloadAskView::Failed {
                error: DownloadErrorView::TimedOut { timeout_ms: whole_millis(s.timeout->0) },
            })
            &&& !late ==> {
                &&& ask is Sleep
                &&& 0 < ask->span.nanos <= 25_000_000
                &&& next.phase is Pause
                &&& next.attempt == s.attempt
                &&& s.timeout is None ==> next.phase->until.nanos == elapsed.nanos + 2_000_000_000
                &&& s.timeout is Some ==> next.phase->until.nanos <= s.timeout->0.nanos
                    && next.phase->until.nanos <= elapsed.nanos + 2_000_000_000
                    && (next.phase->until.nanos == elapsed.nanos + 2_000_000_000
                    || next.phase->until.nanos == s.timeout->0.nanos)
                &&& elapsed.nanos + ask->span.nanos <= next.phase->until.nanos
            }
        }),
{
}

/// A pause goes on in naps until it is over, unless the download is cancelled.
pub proof fn pause_goes_on_until_it_is_over(s: DownloadRunView, until: Span, elapsed: Span)
    requires
        s.phase == (DownloadPhase::Pause { until }),
        elapsed.nanos < until.nanos,
    ensures
        ({
            let (next, ask) = download_step(s, DownloadEventView::Woke, false, elapsed);
            &&& next == s
            &&& ask is Sleep && 0 < ask->span.nanos <= 25_000_000
            &&& elapsed.nanos + ask->span.nanos <= until.nanos
            &&& ask->span.nanos == 25_000_000 || elapsed.nanos + ask->span.nanos == until.nanos
        }),
        download_step(s, DownloadEventView::Woke, true, elapsed).1 == (DownloadAskView::Failed {
            error: DownloadErrorView::Cancelled,
        }),
{
}

/// A body that grows beyond the limit is given up, and the failure tells how large it had grown; an
/// empty part ends the body, and what was read is the result.
pub proof fn body_ends_at_an_empty_part(s: DownloadRunView, part: Seq<u8>, elapsed: Span)
    requires
        s.phase is Body,
        s.bytes.len() + part.len() <= u64::MAX,
    ensures
        part.len() == 0 ==> download_step(
            s,
            DownloadEventView::Received { part },
            false,
            elapsed,
        ).1 == (DownloadAskView::Done { bytes: s.bytes }),
        part.len() > 0 && s.bytes.len() + part.len() > 536_870_912 ==> download_step(
            s,
            DownloadEventView::Received { part },
            false,
            elapsed,
        ).1 == (DownloadAskView::Failed {
            error: DownloadErrorView::ResponseTooLarge {
                url: s.url,
                size_bytes: (s.bytes.len() + part.len()) as u64,
                max_bytes: 536_870_912,
            },
        }),
{
}

/// The text of a failure tells what was asked for and what became of it.
pub proof fn text_of_a_failure_tells_what_became_of_it(
    url: Seq<char>,
    source: Seq<char>,
    timed_out: bool,
    unconnected: bool,
    status: u16,
    size_bytes: u64,
    max_bytes: u64,
)
    ensures
        download_error_text(DownloadErrorView::Request { url, source, timed_out, unconnected })
            == "HTTP GET "@ + url + " failed: "@ + source,
        download_error_text(DownloadErrorView::Status { url, status, status_text: source })
            == "HTTP GET "@ + url + " returned status "@ + source,
        download_error_text(DownloadErrorView::ResponseTooLarge { url, size_bytes, max_bytes })
            == "HTTP response for "@ + url + " exceeds maximum download size "@ + decimal(
            max_bytes as nat,
        ) + " bytes: "@ + decimal(size_bytes as nat) + " bytes"@,
        download_error_text(DownloadErrorView::TimedOut { timeout_ms: size_bytes })
            == "HTTP download timed out after "@ + decimal(size_bytes as nat) + "ms"@,
{
}

/// What is left of the time and what has passed make up the limit; without a limit there is no end
/// to it.
pub proof fn budget_and_elapsed_make_up_the_limit(limit: Span, elapsed: Span)
    ensures
        budget_left(None, elapsed) == Ok::<Option<Span>, DownloadErrorView>(None),
        elapsed.nanos < limit.nanos ==> budget_left(Some(limit), elapsed) is Ok && budget_left(
            Some(limit),
            elapsed,
        )->Ok_0 is Some && budget_left(Some(limit), elapsed)->Ok_0->0.nanos + elapsed.nanos
            == limit.nanos,
        elapsed.nanos >= limit.nanos ==> budget_left(Some(limit), elapsed) == Err::<
            Option<Span>,
            DownloadErrorView,
        >(DownloadErrorView::TimedOut { timeout_ms: whole_millis(limit) }),
{
}

} // verus!
