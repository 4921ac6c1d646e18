//! One request of the HTTP transport from beginning to end: which requests pass, which open a
//! session, and what becomes of the place that such a request takes.

use vstd::prelude::*;
use crate::mcp::http_admission::{
    after_confirmation, after_release, after_removal, after_reservation, closes_session,
    conclude_initialize, has_room, http_rpc_method, is_initialize, missing_initialize_response,
    overload_response, payload_too_large_response, post_headers_valid, route_request,
    rpc_method_in, valid_streamable_post_headers, HttpAnswer, HttpAnswerView, HttpMethod,
    HttpRoute, HttpSessionAdmission, HttpSessionAdmissionView, ReservationEnd,
};
use crate::outside::json_text_members_of;
use crate::text::{opt_str, opt_text, result_view, texts};


verus! {

/// Where a request stands.
#[derive(Clone, Copy, Debug, PartialEq, Eq, Structural)]
pub enum HttpPhase {
    /// Its body is read.
    Reading,
    /// It opens a session, and the sessions that are alive are looked up.
    Admitting,
    /// It was passed on, with or without a place reserved for it.
    Forwarded { reserved: bool },
    /// It was answered.
    Over,
}

/// Request of the HTTP transport.
#[derive(Debug, PartialEq, Eq)]
pub struct HttpCall {
    pub method: HttpMethod,
    pub session_id: Option<String>,
    pub phase: HttpPhase,
}

/// Mathematical value of [`HttpCall`].
pub struct HttpCallView {
    pub method: HttpMethod,
    pub session_id: Option<Seq<char>>,
    pub phase: HttpPhase,
}

impl View for HttpCall {
    type V = HttpCallView;

    open spec fn view(&self) -> HttpCallView {
        HttpCallView {
            method: self.method,
            session_id: opt_text(self.session_id),
            phase: self.phase,
        }
    }
}

/// What a request asks for.
#[derive(Debug, PartialEq, Eq)]
pub enum HttpAsk {
    /// Pass the request on to the MCP server.
    Forward,
    /// Read the body of the request.
    ReadBody,
    /// Look up the sessions that are alive.
    ListSessions,
    /// Answer with the answer of the MCP server.
    PassBack,
    /// Answer without the MCP server.
    Answer { answer: HttpAnswer },
    /// Nothing more: the request was dropped.
    Quit,
    /// The event answers another question. The last one stands.
    Repeat,
}

/// Mathematical value of [`HttpAsk`].
pub enum HttpAskView {
    Forward,
    ReadBody,
    ListSessions,
    PassBack,
    Answer { answer: HttpAnswerView },
    Quit,
    Repeat,
}

impl View for HttpAsk {
    type V = HttpAskView;

    open spec fn view(&self) -> HttpAskView {
        match *self {
            HttpAsk::Forward => HttpAskView::Forward,
            HttpAsk::ReadBody => HttpAskView::ReadBody,
            HttpAsk::ListSessions => HttpAskView::ListSessions,
            HttpAsk::PassBack => HttpAskView::PassBack,
            HttpAsk::Answer { answer } => HttpAskView::Answer { answer: answer@ },
            HttpAsk::Quit => HttpAskView::Quit,
            HttpAsk::Repeat => HttpAskView::Repeat,
        }
    }
}

/// What the outside world answers.
#[derive(Debug, PartialEq, Eq)]
pub enum HttpEvent {
    /// Body of the request, or why it cannot be read.
    Body { body: Result<Vec<u8>, String> },
    /// Sessions that are alive.
    Sessions { live: Vec<String> },
    /// Status of the answer of the MCP server, and the session that it names.
    Response { status: u16, session_id: Option<String> },
    /// The request was dropped before it was answered.
    Dropped,
}

/// Mathematical value of [`HttpEvent`].
pub enum HttpEventView {
    Body { body: Result<Seq<u8>, Seq<char>> },
    Sessions { live: Seq<Seq<char>> },
    Response { status: u16, session_id: Option<Seq<char>> },
    Dropped,
}

impl View for HttpEvent {
    type V = HttpEventView;

    open spec fn view(&self) -> HttpEventView {
        match *self {
            HttpEvent::Body { body } => HttpEventView::Body { body: result_view(body) },
            HttpEvent::Sessions { live } => HttpEventView::Sessions { live: texts(live@) },
            HttpEvent::Response { status, session_id } => HttpEventView::Response {
                status,
                session_id: opt_text(session_id),
            },
            HttpEvent::Dropped => HttpEventView::Dropped,
        }
    }
}

/// A request after an event, and what it asks for.
#[derive(Debug, PartialEq, Eq)]
pub struct HttpStep {
    pub call: HttpCall,
    pub ask: HttpAsk,
}

/// Mathematical value of [`HttpStep`].
pub struct HttpStepView {
    pub call: HttpCallView,
    pub ask: HttpAskView,
}

impl View for HttpStep {
    type V = HttpStepView;

    open spec fn view(&self) -> HttpStepView {
        HttpStepView {
            call: self.call@,
            ask: self.ask@,
        }
    }
}

/// Answer that the session capacity is exhausted.
pub open spec fn overloaded() -> HttpAnswerView {
    HttpAnswerView { status: 503, body: "Service Unavailable: MCP session capacity exhausted"@ }
}

/// Answer that a session has to be opened first.
pub open spec fn uninitialized() -> HttpAnswerView {
    HttpAnswerView {
        status: 400,
        body: "Bad Request: initialize request is required before session creation"@,
    }
}

/// Answer that the body is too long.
pub open spec fn too_large(source: Seq<char>) -> HttpAnswerView {
    HttpAnswerView { status: 413, body: "Payload Too Large: "@ + source }
}

/// The request moves to a phase and asks.
pub open spec fn moves(call: HttpCallView, phase: HttpPhase, ask: HttpAskView) -> HttpStepView {
    HttpStepView { call: HttpCallView { phase, ..call }, ask }
}

/// The request is answered without the MCP server.
pub open spec fn answers(call: HttpCallView, answer: HttpAnswerView) -> HttpStepView {
    moves(call, HttpPhase::Over, HttpAskView::Answer { answer })
}

/// How a request begins: with sessions kept, a proper post outside any session is inspected, and
/// everything else is passed on.
pub open spec fn call_begins(
    stateful_sessions: bool,
    method: HttpMethod,
    session_id: Option<Seq<char>>,
    accept: Option<Seq<char>>,
    content_type: Option<Seq<char>>,
) -> HttpStepView {
    let call = HttpCallView { method, session_id, phase: HttpPhase::Over };
    if stateful_sessions && method == HttpMethod::Post && session_id is None && post_headers_valid(
        accept,
        content_type,
    ) {
        moves(call, HttpPhase::Reading, HttpAskView::ReadBody)
    } else {
        moves(call, HttpPhase::Forwarded { reserved: false }, HttpAskView::Forward)
    }
}

/// Step on the remote call that the body makes.
pub open spec fn inspected(call: HttpCallView, rpc_method: Option<Seq<char>>) -> HttpStepView {
    if rpc_method == Some("initialize"@) {
        moves(call, HttpPhase::Admitting, HttpAskView::ListSessions)
    } else {
        answers(call, uninitialized())
    }
}

/// Sessions after the answer of the MCP server.
pub open spec fn settled(
    s: HttpSessionAdmissionView,
    call: HttpCallView,
    reserved: bool,
    status: u16,
    session_id: Option<Seq<char>>,
) -> HttpSessionAdmissionView {
    if reserved {
        if status == 200 && session_id is Some {
            after_confirmation(s, session_id->0)
        } else {
            after_release(s)
        }
    } else if call.method == HttpMethod::Delete && status == 202 && call.session_id is Some {
        after_removal(s, call.session_id->0)
    } else {
        s
    }
}

/// Step of a request on an event, and the sessions after it.
pub open spec fn call_step(
    s: HttpSessionAdmissionView,
    call: HttpCallView,
    event: HttpEventView,
) -> (HttpSessionAdmissionView, HttpStepView) {
    match (call.phase, event) {
        (HttpPhase::Reading, HttpEventView::Body { body }) => match body {
            Ok(bytes) => (s, inspected(call, rpc_method_in(json_text_members_of(bytes)))),
            Err(source) => (s, answers(call, too_large(source))),
        },
        (HttpPhase::Admitting, HttpEventView::Sessions { live }) => (
            after_reservation(s, live),
            if has_room(s, live) {
                moves(call, HttpPhase::Forwarded { reserved: true }, HttpAskView::Forward)
            } else {
                answers(call, overloaded())
            },
        ),
        (
            HttpPhase::Forwarded { reserved },
            HttpEventView::Response { status, session_id },
        ) => (
            settled(s, call, reserved, status, session_id),
            moves(call, HttpPhase::Over, HttpAskView::PassBack),
        ),
        (HttpPhase::Forwarded { reserved: true }, HttpEventView::Dropped) => (
            after_release(s),
            moves(call, HttpPhase::Over, HttpAskView::Quit),
        ),
        (_, HttpEventView::Dropped) => (s, moves(call, HttpPhase::Over, HttpAskView::Quit)),
        _ => (s, moves(call, call.phase, HttpAskView::Repeat)),
    }
}

impl HttpCall {
    /// Begins a request.
    pub fn begin(
        stateful_sessions: bool,
        method: HttpMethod,
        session_id: Option<String>,
        accept: Option<&str>,
        content_type: Option<&str>,
    ) -> (r: HttpStep)
        ensures
            r@ == call_begins(
                stateful_sessions,
                method,
                opt_text(session_id),
                opt_str(accept),
                opt_str(content_type),
            ),
    {
        let headers_valid = valid_streamable_post_headers(accept, content_type);
        let in_session = session_id.is_some();
        let call = HttpCall { method, session_id, phase: HttpPhase::Over };
        match route_request(stateful_sessions, method, in_session, headers_valid) {
            HttpRoute::Inspect => call.moved(HttpPhase::Reading, HttpAsk::ReadBody),
            HttpRoute::Forward => call.moved(
                HttpPhase::Forwarded { reserved: false },
                HttpAsk::Forward,
            ),
        }
    }

    fn moved(self, phase: HttpPhase, ask: HttpAsk) -> (r: HttpStep)
        ensures
            r@ == moves(self@, phase, ask@),
    {
        HttpStep { call: HttpCall { phase, ..self }, ask }
    }

    fn answered(self, answer: HttpAnswer) -> (r: HttpStep)
        ensures
            r@ == answers(self@, answer@),
    {
        self.moved(HttpPhase::Over, HttpAsk::Answer { answer })
    }

    /// Goes on with the remote call that the body makes.
    pub fn inspect(self, rpc_method: Option<String>) -> (r: HttpStep)
        ensures
            r@ == inspected(self@, opt_text(rpc_method)),
    {
        let initialize = match &rpc_method {
            Some(name) => is_initialize(Some(name.as_str())),
            None => false,
        };
        if initialize {
            self.moved(HttpPhase::Admitting, HttpAsk::ListSessions)
        } else {
            self.answered(missing_initialize_response())
        }
    }

    fn settle(
        &self,
        admission: &mut HttpSessionAdmission,
        reserved: bool,
        status: u16,
        session_id: Option<String>,
    )
        ensures
            final(admission)@ == settled(
                old(admission)@,
                self@,
                reserved,
                status,
                opt_text(session_id),
            ),
    {
        if reserved {
            match conclude_initialize(status, session_id) {
                ReservationEnd::Confirm { session_id } => admission.confirm(session_id.as_str()),
                ReservationEnd::Release => admission.release(),
            }
        } else if closes_session(self.method, status) {
            match &self.session_id {
                Some(session_id) => admission.remove(session_id.as_str()),
                None => {},
            }
        }
    }

    /// Takes an event.
    pub fn step(self, admission: &mut HttpSessionAdmission, event: HttpEvent) -> (r: HttpStep)
        ensures
            (final(admission)@, r@) == call_step(old(admission)@, self@, event@),
    {
        match (self.phase, event) {
            (HttpPhase::Reading, HttpEvent::Body { body }) => match body {
                Ok(bytes) => self.inspect(http_rpc_method(&bytes)),
                Err(source) => self.answered(payload_too_large_response(source.as_str())),
            },
            (HttpPhase::Admitting, HttpEvent::Sessions { live }) => {
                match admission.reserve_initialize(&live) {
                    Ok(_) => self.moved(HttpPhase::Forwarded { reserved: true }, HttpAsk::Forward),
                    Err(_) => self.answered(overload_response()),
                }
            },
            (
                HttpPhase::Forwarded { reserved },
                HttpEvent::Response { status, session_id },
            ) => {
                self.settle(admission, reserved, status, session_id);
                self.moved(HttpPhase::Over, HttpAsk::PassBack)
            },
            (HttpPhase::Forwarded { reserved: true }, HttpEvent::Dropped) => {
                admission.release();
                self.moved(HttpPhase::Over, HttpAsk::Quit)
            },
            (_, HttpEvent::Dropped) => self.moved(HttpPhase::Over, HttpAsk::Quit),
            (phase, _) => self.moved(phase, HttpAsk::Repeat),
        }
    }
}

// ---------------------------------------------------------------------------------------------
// Laws

/// A place reserved for a request is given back or becomes a session, however the request ends:
/// what is reserved afterwards is what was reserved before.
pub proof fn every_reservation_is_settled(
    s: HttpSessionAdmissionView,
    call: HttpCallView,
    live: Seq<Seq<char>>,
    event: HttpEventView,
)
    requires
        call.phase == HttpPhase::Admitting,
        has_room(s, live),
        event is Response || event is Dropped,
    ensures
        ({
            let (held, admitted) = call_step(s, call, HttpEventView::Sessions { live });
            let (last, ended) = call_step(held, admitted.call, event);
            &&& held.reserved == s.reserved + 1
            &&& last.reserved == s.reserved
            &&& ended.call.phase == HttpPhase::Over
        }),
{
}

/// A request takes up no place before it is known to open a session, and none at all where there is
/// no room.
pub proof fn places_are_taken_by_initialize_only(
    s: HttpSessionAdmissionView,
    call: HttpCallView,
    event: HttpEventView,
)
    requires
        call_step(s, call, event).0.reserved > s.reserved,
    ensures
        call.phase == HttpPhase::Admitting,
        event is Sessions,
        has_room(s, event->live),
        call_step(s, call, event).1.ask is Forward,
{
}

/// Only a body that makes the call `initialize` leads to a session.
pub proof fn only_initialize_is_admitted(
    s: HttpSessionAdmissionView,
    call: HttpCallView,
    event: HttpEventView,
)
    requires
        call.phase == HttpPhase::Reading,
        call_step(s, call, event).1.call.phase == HttpPhase::Admitting,
    ensures
        event is Body,
        event->body is Ok,
        rpc_method_in(json_text_members_of(event->body->Ok_0)) == Some("initialize"@),
{
}

} // verus!
