//! Download over HTTP: attempts, limits and what is given back.

use vstd::prelude::*;
use vstd::utf8::{encode_utf8, valid_utf8};
use crate::outside::decode_utf8;
use crate::text::{cat2, cat3, cat4};
use crate::text_number::{decimal, decimal_u64};
use crate::time::{shorter, whole_millis, Span};

verus! {

/// Largest download.
pub const MAX_DOWNLOAD_BYTES: u64 = 536_870_912;

/// Number of attempts.
pub const RETRY_ATTEMPTS: u32 = 3;

/// Longest time to connect.
pub open spec fn connect_limit() -> Span {
    Span { nanos: 30_000_000_000 }
}

/// Pause between attempts.
pub open spec fn retry_pause() -> Span {
    Span { nanos: 2_000_000_000 }
}

/// Longest sleep within a pause, so that a cancellation is noticed.
pub open spec fn nap() -> Span {
    Span { nanos: 25_000_000 }
}

/// Failure of a download.
#[derive(Debug, PartialEq, Eq)]
pub enum DownloadError {
    Client { source: String },
    /// The request failed; it may have timed out or have found no connection.
    Request { url: String, source: String, timed_out: bool, unconnected: bool },
    /// The server answered with another status than success.
    Status { url: String, status: u16, status_text: String },
    Read { url: String, source: String },
    ResponseTooLarge { url: String, size_bytes: u64, max_bytes: u64 },
    TimedOut { timeout_ms: u64 },
    Cancelled,
    InvalidUtf8 { source: String },
}

/// Mathematical value of [`DownloadError`].
pub enum DownloadErrorView {
    Client { source: Seq<char> },
    Request { url: Seq<char>, source: Seq<char>, timed_out: bool, unconnected: bool },
    Status { url: Seq<char>, status: u16, status_text: Seq<char> },
    Read { url: Seq<char>, source: Seq<char> },
    ResponseTooLarge { url: Seq<char>, size_bytes: u64, max_bytes: u64 },
    TimedOut { timeout_ms: u64 },
    Cancelled,
    InvalidUtf8 { source: Seq<char> },
}

impl View for DownloadError {
    type V = DownloadErrorView;

    open spec fn view(&self) -> DownloadErrorView {
        match *self {
            DownloadError::Client { source } => DownloadErrorView::Client { source: source@ },
            DownloadError::Request {
                url,
                source,
                timed_out,
                unconnected,
            } => DownloadErrorView::Request {
                url: url@,
                source: source@,
                timed_out,
                unconnected,
            },
            DownloadError::Status { url, status, status_text } => DownloadErrorView::Status {
                url: url@,
                status,
                status_text: status_text@,
            },
            DownloadError::Read { url, source } => DownloadErrorView::Read {
                url: url@,
                source: source@,
            },
            DownloadError::ResponseTooLarge {
                url,
                size_bytes,
                max_bytes,
            } => DownloadErrorView::ResponseTooLarge {
                url: url@,
                size_bytes,
                max_bytes,
            },
            DownloadError::TimedOut { timeout_ms } => DownloadErrorView::TimedOut { timeout_ms },
            DownloadError::Cancelled => DownloadErrorView::Cancelled,
            DownloadError::InvalidUtf8 { source } => DownloadErrorView::InvalidUtf8 {
                source: source@,
            },
        }
    }
}

/// Text shown for a failure.
pub open spec fn download_error_text(error: DownloadErrorView) -> Seq<char> {
    match error {
        DownloadErrorView::Client { source } => "HTTP client setup failed: "@ + source,
        DownloadErrorView::Request { url, source, .. } => "HTTP GET "@ + url + " failed: "@
            + source,
        DownloadErrorView::Status { url, status_text, .. } => "HTTP GET "@ + url
            + " returned status "@ + status_text,
        DownloadErrorView::Read { url, source } => "HTTP response read failed for "@ + url + ": "@
            + source,
        DownloadErrorView::ResponseTooLarge { url, size_bytes, max_bytes } =>
            "HTTP response for "@ + url + " exceeds maximum download size "@ + decimal(
            max_bytes as nat,
        ) + " bytes: "@ + decimal(size_bytes as nat) + " bytes"@,
        DownloadErrorView::TimedOut { timeout_ms } => "HTTP download timed out after "@ + decimal(
            timeout_ms as nat,
        ) + "ms"@,
        DownloadErrorView::Cancelled => "HTTP download was cancelled"@,
        DownloadErrorView::InvalidUtf8 { source } => "response is not UTF-8: "@ + source,
    }
}

/// Another attempt may succeed where this one failed.
pub open spec fn may_succeed_later(error: DownloadErrorView) -> bool {
    match error {
        DownloadErrorView::Request { timed_out, unconnected, .. } => timed_out || unconnected,
        DownloadErrorView::Read { .. } => true,
        DownloadErrorView::Status { status, .. } => 500 <= status < 600,
        _ => false,
    }
}

impl DownloadError {
    /// Text shown to the user.
    pub fn message(&self) -> (r: String)
        ensures
            r@ == download_error_text(self@),
    {
        match self {
            DownloadError::Client { source } => cat2("HTTP client setup failed: ", source.as_str()),
            DownloadError::Request { url, source, .. } => cat4(
                "HTTP GET ",
                url.as_str(),
                " failed: ",
                source.as_str(),
            ),
            DownloadError::Status { url, status_text, .. } => cat4(
                "HTTP GET ",
                url.as_str(),
                " returned status ",
                status_text.as_str(),
            ),
            DownloadError::Read { url, source } => cat4(
                "HTTP response read failed for ",
                url.as_str(),
                ": ",
                source.as_str(),
            ),
            DownloadError::ResponseTooLarge { url, size_bytes, max_bytes } => {
                let mut text = cat4(
                    "HTTP response for ",
                    url.as_str(),
                    " exceeds maximum download size ",
                    decimal_u64(*max_bytes).as_str(),
                );
                text.append(" bytes: ");
                text.append(decimal_u64(*size_bytes).as_str());
                text.append(" bytes");
                text
            },
            DownloadError::TimedOut { timeout_ms } => cat3(
                "HTTP download timed out after ",
                decimal_u64(*timeout_ms).as_str(),
                "ms",
            ),
            DownloadError::Cancelled => "HTTP download was cancelled".to_owned(),
            DownloadError::InvalidUtf8 { source } => cat2(
                "response is not UTF-8: ",
                source.as_str(),
            ),
        }
    }

    /// Whether another attempt may succeed where this one failed.
    pub fn is_retryable(&self) -> (r: bool)
        ensures
            r == may_succeed_later(self@),
    {
        match self {
            DownloadError::Request { timed_out, unconnected, .. } => *timed_out || *unconnected,
            DownloadError::Read { .. } => true,
            DownloadError::Status { status, .. } => 500 <= *status && *status < 600,
            _ => false,
        }
    }
}

/// Refuses a download that is too large.
pub fn ensure_allowed_download_size(url: &str, size_bytes: u64) -> (r: Result<(), DownloadError>)
    ensures
        match r {
            Ok(_) => size_bytes <= MAX_DOWNLOAD_BYTES,
            Err(e) => size_bytes > MAX_DOWNLOAD_BYTES && e@ == too_large(url@, size_bytes),
        },
{
    if size_bytes > MAX_DOWNLOAD_BYTES {
        Err(
            DownloadError::ResponseTooLarge {
                url: url.to_owned(),
                size_bytes,
                max_bytes: MAX_DOWNLOAD_BYTES,
            },
        )
    } else {
        Ok(())
    }
}

/// Failure of a download that is too large.
pub open spec fn too_large(url: Seq<char>, size_bytes: u64) -> DownloadErrorView {
    DownloadErrorView::ResponseTooLarge { url, size_bytes, max_bytes: MAX_DOWNLOAD_BYTES }
}

/// What is left of the limit after the time that has passed, or the failure where nothing is.
pub open spec fn budget_left(timeout: Option<Span>, elapsed: Span) -> Result<
    Option<Span>,
    DownloadErrorView,
> {
    match timeout {
        None => Ok(None),
        Some(limit) => if limit.nanos > elapsed.nanos {
            Ok(Some(Span { nanos: (limit.nanos - elapsed.nanos) as u128 }))
        } else {
            Err(DownloadErrorView::TimedOut { timeout_ms: whole_millis(limit) })
        },
    }
}

/// What is left of the limit after the time that has passed.
pub fn remaining_budget(timeout: Option<Span>, elapsed: Span) -> (r: Result<
    Option<Span>,
    DownloadError,
>)
    ensures
        match r {
            Ok(left) => budget_left(timeout, elapsed) == Ok::<Option<Span>, DownloadErrorView>(
                left,
            ),
            Err(e) => budget_left(timeout, elapsed) == Err::<Option<Span>, DownloadErrorView>(e@),
        },
{
    match timeout {
        None => Ok(None),
        Some(limit) => {
            if limit.nanos > elapsed.nanos {
                Ok(Some(Span { nanos: limit.nanos - elapsed.nanos }))
            } else {
                Err(DownloadError::TimedOut { timeout_ms: limit.as_millis() })
            }
        },
    }
}

// ---------------------------------------------------------------------------------------------
// The download

/// What the download waits for.
#[derive(Clone, Copy, Debug, PartialEq, Eq, Structural)]
pub enum DownloadPhase {
    /// Answer of the server.
    Response,
    /// Next part of the body.
    Body,
    /// End of a pause, counted from the start of the download.
    Pause { until: Span },
    /// Nothing: it is over.
    Over,
}

/// Download under way.
#[derive(Debug, PartialEq, Eq)]
pub struct DownloadRun {
    pub url: String,
    pub timeout: Option<Span>,
    pub attempt: u32,
    pub phase: DownloadPhase,
    pub bytes: Vec<u8>,
}

/// Mathematical value of [`DownloadRun`].
pub struct DownloadRunView {
    pub url: Seq<char>,
    pub timeout: Option<Span>,
    pub attempt: u32,
    pub phase: DownloadPhase,
    pub bytes: Seq<u8>,
}

impl View for DownloadRun {
    type V = DownloadRunView;

    open spec fn view(&self) -> DownloadRunView {
        DownloadRunView {
            url: self.url@,
            timeout: self.timeout,
            attempt: self.attempt,
            phase: self.phase,
            bytes: self.bytes@,
        }
    }
}

/// What happened.
#[derive(Debug, PartialEq, Eq)]
pub enum DownloadEvent {
    /// The client could not be set up.
    ClientFailed { source: String },
    RequestFailed { source: String, timed_out: bool, unconnected: bool },
    Answered { status: u16, status_text: String, content_length: Option<u64> },
    /// Part of the body; an empty one ends it.
    Received { part: Vec<u8> },
    ReadFailed { source: String },
    /// A sleep is over.
    Woke,
}

/// Mathematical value of [`DownloadEvent`].
pub enum DownloadEventView {
    ClientFailed { source: Seq<char> },
    RequestFailed { source: Seq<char>, timed_out: bool, unconnected: bool },
    Answered { status: u16, status_text: Seq<char>, content_length: Option<u64> },
    Received { part: Seq<u8> },
    ReadFailed { source: Seq<char> },
    Woke,
}

impl View for DownloadEvent {
    type V = DownloadEventView;

    open spec fn view(&self) -> DownloadEventView {
        match *self {
            DownloadEvent::ClientFailed { source } => DownloadEventView::ClientFailed {
                source: source@,
            },
            DownloadEvent::RequestFailed {
                source,
                timed_out,
                unconnected,
            } => DownloadEventView::RequestFailed {
                source: source@,
                timed_out,
                unconnected,
            },
            DownloadEvent::Answered {
                status,
                status_text,
                content_length,
            } => DownloadEventView::Answered {
                status,
                status_text: status_text@,
                content_length,
            },
            DownloadEvent::Received { part } => DownloadEventView::Received { part: part@ },
            DownloadEvent::ReadFailed { source } => DownloadEventView::ReadFailed {
                source: source@,
            },
            DownloadEvent::Woke => DownloadEventView::Woke,
        }
    }
}

/// What is done next.
#[derive(Debug, PartialEq, Eq)]
pub enum DownloadAsk {
    /// Send the request with these limits.
    Send { request_timeout: Option<Span>, connect_timeout: Span },
    /// Read the next part of the body.
    Read,
    Sleep { span: Span },
    Done { bytes: Vec<u8> },
    Failed { error: DownloadError },
    /// The event does not belong here: wait on.
    Repeat,
}

/// Mathematical value of [`DownloadAsk`].
pub enum DownloadAskView {
    Send { request_timeout: Option<Span>, connect_timeout: Span },
    Read,
    Sleep { span: Span },
    Done { bytes: Seq<u8> },
    Failed { error: DownloadErrorView },
    Repeat,
}

impl View for DownloadAsk {
    type V = DownloadAskView;

    open spec fn view(&self) -> DownloadAskView {
        match *self {
            DownloadAsk::Send { request_timeout, connect_timeout } => DownloadAskView::Send {
                request_timeout,
                connect_timeout,
            },
            DownloadAsk::Read => DownloadAskView::Read,
            DownloadAsk::Sleep { span } => DownloadAskView::Sleep { span },
            DownloadAsk::Done { bytes } => DownloadAskView::Done { bytes: bytes@ },
            DownloadAsk::Failed { error } => DownloadAskView::Failed { error: error@ },
            DownloadAsk::Repeat => DownloadAskView::Repeat,
        }
    }
}

/// The download with another phase.
pub open spec fn in_phase(s: DownloadRunView, phase: DownloadPhase) -> DownloadRunView {
    DownloadRunView { phase, ..s }
}

/// End with a failure.
pub open spec fn give_up(s: DownloadRunView, error: DownloadErrorView) -> (
    DownloadRunView,
    DownloadAskView,
) {
    (in_phase(s, DownloadPhase::Over), DownloadAskView::Failed { error })
}

/// Longest time to connect within the limit.
pub open spec fn connect_timeout_of(left: Option<Span>) -> Span {
    match left {
        Some(span) => shorter(span, connect_limit()),
        None => connect_limit(),
    }
}

/// Start of an attempt.
pub open spec fn send_attempt(s: DownloadRunView, cancelled: bool, elapsed: Span) -> (
    DownloadRunView,
    DownloadAskView,
) {
    if cancelled {
        give_up(s, DownloadErrorView::Cancelled)
    } else {
        match budget_left(s.timeout, elapsed) {
            Err(error) => give_up(s, error),
            Ok(left) => (
                DownloadRunView { phase: DownloadPhase::Response, bytes: Seq::empty(), ..s },
                DownloadAskView::Send {
                    request_timeout: left,
                    connect_timeout: connect_timeout_of(left),
                },
            ),
        }
    }
}

/// Next part of the body.
pub open spec fn read_on(s: DownloadRunView, cancelled: bool, elapsed: Span) -> (
    DownloadRunView,
    DownloadAskView,
) {
    if cancelled {
        give_up(s, DownloadErrorView::Cancelled)
    } else {
        match budget_left(s.timeout, elapsed) {
            Err(error) => give_up(s, error),
            Ok(_) => (in_phase(s, DownloadPhase::Body), DownloadAskView::Read),
        }
    }
}

/// Pause, or the next attempt where it is over.
pub open spec fn sleep_on(s: DownloadRunView, until: Span, cancelled: bool, elapsed: Span) -> (
    DownloadRunView,
    DownloadAskView,
) {
    if elapsed.nanos >= until.nanos {
        send_attempt(
            DownloadRunView { attempt: (s.attempt + 1) as u32, ..s },
            cancelled,
            elapsed,
        )
    } else if cancelled {
        give_up(s, DownloadErrorView::Cancelled)
    } else {
        (
            in_phase(s, DownloadPhase::Pause { until }),
            DownloadAskView::Sleep {
                span: shorter(nap(), Span { nanos: (until.nanos - elapsed.nanos) as u128 }),
            },
        )
    }
}

/// End of a pause that begins now.
pub open spec fn pause_end(left: Option<Span>, elapsed: Span) -> Span {
    let pause = match left {
        Some(span) => shorter(span, retry_pause()),
        None => retry_pause(),
    };
    Span { nanos: (elapsed.nanos + pause.nanos) as u128 }
}

/// What follows a failed attempt: a pause and another attempt, or the failure itself.
pub open spec fn after_failure(
    s: DownloadRunView,
    error: DownloadErrorView,
    cancelled: bool,
    elapsed: Span,
) -> (DownloadRunView, DownloadAskView) {
    if s.attempt < RETRY_ATTEMPTS && may_succeed_later(error) {
        match budget_left(s.timeout, elapsed) {
            Err(late) => give_up(s, late),
            Ok(left) => sleep_on(s, pause_end(left, elapsed), cancelled, elapsed),
        }
    } else {
        give_up(s, error)
    }
}

/// Size of a body with another part, or the largest number where it does not fit.
pub open spec fn size_with(bytes: Seq<u8>, part: Seq<u8>) -> u64 {
    if bytes.len() + part.len() > u64::MAX {
        u64::MAX
    } else {
        (bytes.len() + part.len()) as u64
    }
}

/// What an event leads to.
pub open spec fn download_step(
    s: DownloadRunView,
    event: DownloadEventView,
    cancelled: bool,
    elapsed: Span,
) -> (DownloadRunView, DownloadAskView) {
    match (s.phase, event) {
        (DownloadPhase::Response, DownloadEventView::ClientFailed { source }) => give_up(
            s,
            DownloadErrorView::Client { source },
        ),
        (
            DownloadPhase::Response,
            DownloadEventView::RequestFailed { source, timed_out, unconnected },
        ) => after_failure(
            s,
            DownloadErrorView::Request { url: s.url, source, timed_out, unconnected },
            cancelled,
            elapsed,
        ),
        (
            DownloadPhase::Response,
            DownloadEventView::Answered { status, status_text, content_length },
        ) => if !(200 <= status < 300) {
            after_failure(
                s,
                DownloadErrorView::Status { url: s.url, status, status_text },
                cancelled,
                elapsed,
            )
        } else if content_length is Some && content_length->0 > MAX_DOWNLOAD_BYTES {
            give_up(s, too_large(s.url, content_length->0))
        } else {
            read_on(s, cancelled, elapsed)
        },
        (DownloadPhase::Body, DownloadEventView::Received { part }) => if part.len() == 0 {
            (
                DownloadRunView { phase: DownloadPhase::Over, bytes: Seq::empty(), ..s },
                DownloadAskView::Done { bytes: s.bytes },
            )
        } else if size_with(s.bytes, part) > MAX_DOWNLOAD_BYTES {
            give_up(s, too_large(s.url, size_with(s.bytes, part)))
        } else {
            read_on(DownloadRunView { bytes: s.bytes + part, ..s }, cancelled, elapsed)
        },
        (DownloadPhase::Body, DownloadEventView::ReadFailed { source }) => after_failure(
            s,
            DownloadErrorView::Read { url: s.url, source },
            cancelled,
            elapsed,
        ),
        (DownloadPhase::Pause { until }, DownloadEventView::Woke) => sleep_on(
            s,
            until,
            cancelled,
            elapsed,
        ),
        _ => (s, DownloadAskView::Repeat),
    }
}

/// What every download keeps: it has not run out of attempts, holds no more than it may, and knows
/// the end of its pause.
pub open spec fn sound_download(s: DownloadRunView) -> bool {
    &&& 1 <= s.attempt <= RETRY_ATTEMPTS
    &&& s.bytes.len() <= MAX_DOWNLOAD_BYTES
    &&& s.phase is Pause ==> s.attempt < RETRY_ATTEMPTS
}

/// First step of a download.
pub open spec fn download_start(
    url: Seq<char>,
    timeout: Option<Span>,
    cancelled: bool,
    elapsed: Span,
) -> (DownloadRunView, DownloadAskView) {
    let s = DownloadRunView {
        url,
        timeout,
        attempt: 1,
        phase: DownloadPhase::Over,
        bytes: Seq::empty(),
    };
    if timeout is Some && timeout->0.nanos == 0 {
        (s, DownloadAskView::Failed { error: DownloadErrorView::TimedOut { timeout_ms: 0 } })
    } else {
        send_attempt(s, cancelled, elapsed)
    }
}

impl DownloadRun {
    /// Starts a download: a limit of nothing is over at once.
    pub fn get_bytes(url: &str, timeout: Option<Span>, cancelled: bool, elapsed: Span) -> (r: (
        DownloadRun,
        DownloadAsk,
    ))
        ensures
            (r.0@, r.1@) == download_start(url@, timeout, cancelled, elapsed),
            sound_download(r.0@),
    {
        let mut run = DownloadRun {
            url: url.to_owned(),
            timeout,
            attempt: 1,
            phase: DownloadPhase::Over,
            bytes: Vec::new(),
        };
        assert(run.bytes@ =~= Seq::<u8>::empty());
        if let Some(limit) = timeout {
            if limit.is_zero() {
                return (
                    run,
                    DownloadAsk::Failed { error: DownloadError::TimedOut { timeout_ms: 0 } },
                );
            }
        }
        let ask = run.send(cancelled, elapsed);
        (run, ask)
    }

    fn fail(&mut self, error: DownloadError) -> (r: DownloadAsk)
        ensures
            (final(self)@, r@) == give_up(old(self)@, error@),
    {
        self.phase = DownloadPhase::Over;
        DownloadAsk::Failed { error }
    }

    fn send(&mut self, cancelled: bool, elapsed: Span) -> (r: DownloadAsk)
        ensures
            (final(self)@, r@) == send_attempt(old(self)@, cancelled, elapsed),
    {
        if cancelled {
            return self.fail(DownloadError::Cancelled);
        }
        match remaining_budget(self.timeout, elapsed) {
            Err(error) => self.fail(error),
            Ok(left) => {
                self.phase = DownloadPhase::Response;
                self.bytes = Vec::new();
                assert(self.bytes@ =~= Seq::<u8>::empty());
                let limit = Span { nanos: 30_000_000_000 };
                let connect_timeout = match left {
                    Some(span) => span.min(limit),
                    None => limit,
                };
                DownloadAsk::Send { request_timeout: left, connect_timeout }
            },
        }
    }

    fn read(&mut self, cancelled: bool, elapsed: Span) -> (r: DownloadAsk)
        ensures
            (final(self)@, r@) == read_on(old(self)@, cancelled, elapsed),
    {
        if cancelled {
            return self.fail(DownloadError::Cancelled);
        }
        match remaining_budget(self.timeout, elapsed) {
            Err(error) => self.fail(error),
            Ok(_) => {
                self.phase = DownloadPhase::Body;
                DownloadAsk::Read
            },
        }
    }

    fn sleep(&mut self, until: Span, cancelled: bool, elapsed: Span) -> (r: DownloadAsk)
        requires
            old(self)@.attempt < RETRY_ATTEMPTS,
        ensures
            (final(self)@, r@) == sleep_on(old(self)@, until, cancelled, elapsed),
    {
        if elapsed.nanos >= until.nanos {
            self.attempt = self.attempt + 1;
            return self.send(cancelled, elapsed);
        }
        if cancelled {
            return self.fail(DownloadError::Cancelled);
        }
        self.phase = DownloadPhase::Pause { until };
        let nap = Span { nanos: 25_000_000 };
        DownloadAsk::Sleep { span: nap.min(Span { nanos: until.nanos - elapsed.nanos }) }
    }

    fn fail_attempt(&mut self, error: DownloadError, cancelled: bool, elapsed: Span) -> (r:
        DownloadAsk)
        requires
            elapsed.nanos + 2_000_000_000 <= u128::MAX,
        ensures
            (final(self)@, r@) == after_failure(old(self)@, error@, cancelled, elapsed),
    {
        if self.attempt < RETRY_ATTEMPTS && error.is_retryable() {
            match remaining_budget(self.timeout, elapsed) {
                Err(late) => self.fail(late),
                Ok(left) => {
                    let limit = Span { nanos: 2_000_000_000 };
                    let pause = match left {
                        Some(span) => span.min(limit),
                        None => limit,
                    };
                    let until = Span { nanos: elapsed.nanos + pause.nanos };
                    self.sleep(until, cancelled, elapsed)
                },
            }
        } else {
            self.fail(error)
        }
    }

    fn answered(
        &mut self,
        status: u16,
        status_text: String,
        content_length: Option<u64>,
        cancelled: bool,
        elapsed: Span,
    ) -> (r: DownloadAsk)
        requires
            old(self)@.phase is Response,
            elapsed.nanos + 2_000_000_000 <= u128::MAX,
        ensures
            (final(self)@, r@) == download_step(
                old(self)@,
                DownloadEventView::Answered { status, status_text: status_text@, content_length },
                cancelled,
                elapsed,
            ),
    {
        if !(200 <= status && status < 300) {
            let error = DownloadError::Status { url: self.url.clone(), status, status_text };
            return self.fail_attempt(error, cancelled, elapsed);
        }
        if let Some(size) = content_length {
            if let Err(error) = ensure_allowed_download_size(self.url.as_str(), size) {
                return self.fail(error);
            }
        }
        self.read(cancelled, elapsed)
    }

    fn received(&mut self, part: Vec<u8>, cancelled: bool, elapsed: Span) -> (r: DownloadAsk)
        requires
            old(self)@.phase is Body,
            old(self)@.bytes.len() <= MAX_DOWNLOAD_BYTES,
        ensures
            (final(self)@, r@) == download_step(
                old(self)@,
                DownloadEventView::Received { part: part@ },
                cancelled,
                elapsed,
            ),
    {
        if part.len() == 0 {
            let mut bytes: Vec<u8> = Vec::new();
            std::mem::swap(&mut bytes, &mut self.bytes);
            self.phase = DownloadPhase::Over;
            assert(self.bytes@ =~= Seq::<u8>::empty());
            return DownloadAsk::Done { bytes };
        }
        let have: u64 = self.bytes.len() as u64;
        let more: u64 = part.len() as u64;
        let size: u64 = if more > u64::MAX - have {
            u64::MAX
        } else {
            have + more
        };
        if let Err(error) = ensure_allowed_download_size(self.url.as_str(), size) {
            return self.fail(error);
        }
        let mut part = part;
        self.bytes.append(&mut part);
        self.read(cancelled, elapsed)
    }

    /// What an event leads to.
    pub fn step(&mut self, event: DownloadEvent, cancelled: bool, elapsed: Span) -> (r: DownloadAsk)
        requires
            sound_download(old(self)@),
            elapsed.nanos + 2_000_000_000 <= u128::MAX,
        ensures
            (final(self)@, r@) == download_step(old(self)@, event@, cancelled, elapsed),
            sound_download(final(self)@),
    {
        match self.phase {
            DownloadPhase::Response => match event {
                DownloadEvent::ClientFailed { source } => self.fail(
                    DownloadError::Client { source },
                ),
                DownloadEvent::RequestFailed { source, timed_out, unconnected } => {
                    let error = DownloadError::Request {
                        url: self.url.clone(),
                        source,
                        timed_out,
                        unconnected,
                    };
                    self.fail_attempt(error, cancelled, elapsed)
                },
                DownloadEvent::Answered { status, status_text, content_length } => self.answered(
                    status,
                    status_text,
                    content_length,
                    cancelled,
                    elapsed,
                ),
                _ => DownloadAsk::Repeat,
            },
            DownloadPhase::Body => match event {
                DownloadEvent::Received { part } => self.received(part, cancelled, elapsed),
                DownloadEvent::ReadFailed { source } => {
                    let error = DownloadError::Read { url: self.url.clone(), source };
                    self.fail_attempt(error, cancelled, elapsed)
                },
                _ => DownloadAsk::Repeat,
            },
            DownloadPhase::Pause { until } => match event {
                DownloadEvent::Woke => self.sleep(until, cancelled, elapsed),
                _ => DownloadAsk::Repeat,
            },
            DownloadPhase::Over => DownloadAsk::Repeat,
        }
    }
}

/// Text that was downloaded.
pub fn get_text(bytes: Vec<u8>) -> (r: Result<String, DownloadError>)
    ensures
        match r {
            Ok(text) => valid_utf8(bytes@) && encode_utf8(text@) == bytes@,
            Err(error) => !valid_utf8(bytes@) && error@ is InvalidUtf8,
        },
{
    match decode_utf8(bytes) {
        Ok(text) => Ok(text),
        Err(source) => Err(DownloadError::InvalidUtf8 { source }),
    }
}

// ---------------------------------------------------------------------------------------------
// Laws

/// A download is tried at most three times, holds no more than the limit, and goes on only while
/// an attempt is left: every step keeps this.
pub proof fn attempts_and_size_are_bounded(
    s: DownloadRunView,
    event: DownloadEventView,
    cancelled: bool,
    elapsed: Span,
)
    requires
        sound_download(s),
    ensures
        sound_download(download_step(s, event, cancelled, elapsed).0),
{
}

/// What a download gives is no larger than the limit.
pub proof fn result_is_within_the_limit(
    s: DownloadRunView,
    event: DownloadEventView,
    cancelled: bool,
    elapsed: Span,
)
    requires
        sound_download(s),
    ensures
        match download_step(s, event, cancelled, elapsed).1 {
            DownloadAskView::Done { bytes } => bytes == s.bytes && bytes.len()
                <= MAX_DOWNLOAD_BYTES,
            _ => true,
        },
{
}

/// A failure that another attempt cannot mend ends the download at once.
pub proof fn hopeless_failure_is_final(
    s: DownloadRunView,
    error: DownloadErrorView,
    cancelled: bool,
    elapsed: Span,
)
    requires
        !may_succeed_later(error),
    ensures
        after_failure(s, error, cancelled, elapsed) == give_up(s, error),
{
}

/// The last attempt's failure is the download's failure.
pub proof fn last_failure_is_told(
    s: DownloadRunView,
    error: DownloadErrorView,
    cancelled: bool,
    elapsed: Span,
)
    requires
        s.attempt == RETRY_ATTEMPTS,
    ensures
        after_failure(s, error, cancelled, elapsed) == give_up(s, error),
{
}

/// A body is what its parts make up: with a part that fits, nothing is lost and nothing added.
pub proof fn body_is_the_sum_of_its_parts(
    s: DownloadRunView,
    part: Seq<u8>,
    elapsed: Span,
)
    requires
        s.phase is Body,
        0 < part.len(),
        s.bytes.len() + part.len() <= MAX_DOWNLOAD_BYTES,
        budget_left(s.timeout, elapsed) is Ok,
    ensures
        download_step(s, DownloadEventView::Received { part }, false, elapsed) == (
            DownloadRunView { bytes: s.bytes + part, ..s },
            DownloadAskView::Read,
        ),
{
}

} // verus!
