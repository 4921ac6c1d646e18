//! Sessions of the HTTP transport: how many there may be, and which requests open one.

use vstd::prelude::*;
use crate::outside::{json_text_members_of, parse_json, text_member};
use crate::text::{cat2, opt_str, opt_text, text_eq, texts};
use crate::text_scan::{contains, starts_with, text_contains, text_starts_with};

verus! {

// ---------------------------------------------------------------------------------------------
// Capacity

/// There is no room for another session.
#[derive(Clone, Copy, Debug, PartialEq, Eq, Structural)]
pub struct HttpOverloadError;

/// Sessions that are open, and places that are reserved for sessions about to be opened.
#[derive(Debug)]
pub struct HttpSessionAdmission {
    max_sessions: usize,
    reserved: usize,
    active: Vec<String>,
}

/// Mathematical value of [`HttpSessionAdmission`].
pub struct HttpSessionAdmissionView {
    pub max_sessions: nat,
    pub reserved: nat,
    pub active: Set<Seq<char>>,
}

impl View for HttpSessionAdmission {
    type V = HttpSessionAdmissionView;

    closed spec fn view(&self) -> HttpSessionAdmissionView {
        HttpSessionAdmissionView {
            max_sessions: self.max_sessions as nat,
            reserved: self.reserved as nat,
            active: texts(self.active@).to_set(),
        }
    }
}

/// Places in use.
pub open spec fn places_in_use(s: HttpSessionAdmissionView) -> nat {
    s.active.len() + s.reserved
}

/// Sessions among the open ones that are alive.
pub open spec fn alive(s: HttpSessionAdmissionView, live: Seq<Seq<char>>) -> Set<Seq<char>> {
    s.active.intersect(live.to_set())
}

/// State after a place was asked for: sessions that are gone are forgotten, and a place is
/// reserved where one is free.
pub open spec fn after_reservation(
    s: HttpSessionAdmissionView,
    live: Seq<Seq<char>>,
) -> HttpSessionAdmissionView {
    HttpSessionAdmissionView {
        max_sessions: s.max_sessions,
        reserved: if has_room(s, live) {
            s.reserved + 1
        } else {
            s.reserved
        },
        active: alive(s, live),
    }
}

/// A place is free.
pub open spec fn has_room(s: HttpSessionAdmissionView, live: Seq<Seq<char>>) -> bool {
    alive(s, live).len() + s.reserved < s.max_sessions
}

/// One place less is reserved.
pub open spec fn one_less(reserved: nat) -> nat {
    if reserved == 0 {
        0
    } else {
        (reserved - 1) as nat
    }
}

/// State after a reserved place became a session.
pub open spec fn after_confirmation(
    s: HttpSessionAdmissionView,
    id: Seq<char>,
) -> HttpSessionAdmissionView {
    HttpSessionAdmissionView {
        reserved: one_less(s.reserved),
        active: s.active.insert(id),
        ..s
    }
}

/// State after a reserved place was given back.
pub open spec fn after_release(s: HttpSessionAdmissionView) -> HttpSessionAdmissionView {
    HttpSessionAdmissionView { reserved: one_less(s.reserved), ..s }
}

/// State after a session was closed.
pub open spec fn after_removal(
    s: HttpSessionAdmissionView,
    id: Seq<char>,
) -> HttpSessionAdmissionView {
    HttpSessionAdmissionView { active: s.active.remove(id), ..s }
}

fn holds(list: &Vec<String>, id: &str) -> (r: bool)
    ensures
        r == texts(list@).to_set().contains(id@),
{
    let ghost all = texts(list@);
    let mut i: usize = 0;
    while i < list.len()
        invariant
            i <= list.len(),
            all == texts(list@),
            forall|k: int| 0 <= k < i ==> all[k] != id@,
        decreases list.len() - i,
    {
        assert(all[i as int] == list@[i as int]@);
        if text_eq(list[i].as_str(), id) {
            assert(all.contains(id@));
            return true;
        }
        i += 1;
    }
    assert(!all.contains(id@));
    false
}

impl HttpSessionAdmission {
    /// No session is recorded twice.
    #[verifier::type_invariant]
    closed spec fn is_well_formed(&self) -> bool {
        texts(self.active@).no_duplicates()
    }

    /// No sessions, and room for at least one.
    pub fn new(max_sessions: usize) -> (r: Self)
        ensures
            r@ == (HttpSessionAdmissionView {
                max_sessions: if max_sessions < 1 {
                    1
                } else {
                    max_sessions as nat
                },
                reserved: 0,
                active: Set::empty(),
            }),
    {
        let active: Vec<String> = Vec::new();
        assert(texts(active@) =~= Seq::<Seq<char>>::empty());
        assert(texts(active@).to_set() =~= Set::<Seq<char>>::empty());
        HttpSessionAdmission {
            max_sessions: if max_sessions < 1 {
                1
            } else {
                max_sessions
            },
            reserved: 0,
            active,
        }
    }

    /// Asks for a place, with the sessions that are alive.
    pub fn reserve_initialize(&mut self, live: &Vec<String>) -> (r: Result<(), HttpOverloadError>)
        ensures
            final(self)@ == after_reservation(old(self)@, texts(live@)),
            r is Ok <==> has_room(old(self)@, texts(live@)),
    {
        proof {
            use_type_invariant(&*self);
        }
        let ghost before = texts(self.active@);
        let ghost wanted = texts(live@);
        let mut kept: Vec<String> = Vec::new();
        let mut i: usize = 0;
        assert(texts(kept@) =~= Seq::<Seq<char>>::empty());
        while i < self.active.len()
            invariant
                i <= self.active.len(),
                before == texts(self.active@),
                before.no_duplicates(),
                wanted == texts(live@),
                texts(kept@).no_duplicates(),
                forall|id: Seq<char>|
                    #![trigger texts(kept@).contains(id)]
                    texts(kept@).contains(id) <==> before.take(i as int).contains(id)
                        && wanted.contains(id),
            decreases self.active.len() - i,
        {
            let ghost so_far = texts(kept@);
            assert(before[i as int] == self.active@[i as int]@);
            assert(before.take(i + 1) =~= before.take(i as int).push(before[i as int]));
            let id = self.active[i].clone();
            proof {
                lemma_push_contains(before.take(i as int), id@);
                if before.take(i as int).contains(id@) {
                    let k = choose|k: int| 0 <= k < i && before[k] == id@;
                    assert(before[k] == before[i as int]);
                }
            }
            if holds(live, id.as_str()) {
                kept.push(id);
                assert(texts(kept@) =~= so_far.push(id@));
                proof {
                    lemma_push_contains(so_far, id@);
                    assert(!so_far.contains(id@));
                    assert forall|a: int, b: int|
                        0 <= a < b < texts(kept@).len() implies texts(kept@)[a]
                        != texts(kept@)[b] by {
                        if b == so_far.len() {
                            assert(so_far[a] == texts(kept@)[a]);
                        }
                    }
                }
            }
            i += 1;
        }
        assert(before.take(before.len() as int) =~= before);
        proof {
            assert(texts(kept@).to_set() =~= before.to_set().intersect(wanted.to_set())) by {
                assert forall|id: Seq<char>|
                    texts(kept@).to_set().contains(id) == before.to_set().intersect(
                        wanted.to_set(),
                    ).contains(id) by {
                    assert(texts(kept@).contains(id) <==> before.contains(id) && wanted.contains(
                        id,
                    ));
                }
            }
            texts(kept@).unique_seq_to_set();
        }
        self.active = kept;
        if self.active.len() >= self.max_sessions || self.reserved >= self.max_sessions
            - self.active.len() {
            return Err(HttpOverloadError);
        }
        self.reserved = self.reserved + 1;
        Ok(())
    }

    /// Turns a reserved place into a session.
    pub fn confirm(&mut self, session_id: &str)
        ensures
            final(self)@ == after_confirmation(old(self)@, session_id@),
    {
        proof {
            use_type_invariant(&*self);
        }
        let ghost before = texts(self.active@);
        if self.reserved > 0 {
            self.reserved = self.reserved - 1;
        }
        if !holds(&self.active, session_id) {
            let mut active: Vec<String> = Vec::new();
            std::mem::swap(&mut active, &mut self.active);
            active.push(session_id.to_owned());
            proof {
                assert(texts(active@) =~= before.push(session_id@));
                lemma_push_contains(before, session_id@);
                assert(!before.contains(session_id@));
                assert(texts(active@).to_set() =~= before.to_set().insert(session_id@)) by {
                    assert forall|id: Seq<char>|
                        texts(active@).to_set().contains(id) == before.to_set().insert(
                            session_id@,
                        ).contains(id) by {
                        assert(before.push(session_id@).contains(id) <==> before.contains(id) || id
                            == session_id@);
                    }
                }
                assert forall|a: int, b: int|
                    0 <= a < b < texts(active@).len() implies texts(active@)[a]
                    != texts(active@)[b] by {
                    if b == before.len() {
                        assert(before[a] == texts(active@)[a]);
                    }
                }
            }
            self.active = active;
        } else {
            assert(before.to_set() =~= before.to_set().insert(session_id@));
        }
    }

    /// Gives a reserved place back.
    pub fn release(&mut self)
        ensures
            final(self)@ == after_release(old(self)@),
    {
        proof {
            use_type_invariant(&*self);
        }
        if self.reserved > 0 {
            self.reserved = self.reserved - 1;
        }
    }

    /// Closes a session.
    pub fn remove(&mut self, session_id: &str)
        ensures
            final(self)@ == after_removal(old(self)@, session_id@),
    {
        proof {
            use_type_invariant(&*self);
        }
        let ghost before = texts(self.active@);
        let mut kept: Vec<String> = Vec::new();
        let mut i: usize = 0;
        assert(texts(kept@) =~= Seq::<Seq<char>>::empty());
        while i < self.active.len()
            invariant
                i <= self.active.len(),
                before == texts(self.active@),
                before.no_duplicates(),
                texts(kept@).no_duplicates(),
                forall|id: Seq<char>|
                    #![trigger texts(kept@).contains(id)]
                    texts(kept@).contains(id) <==> before.take(i as int).contains(id) && id
                        != session_id@,
            decreases self.active.len() - i,
        {
            let ghost so_far = texts(kept@);
            assert(before[i as int] == self.active@[i as int]@);
            assert(before.take(i + 1) =~= before.take(i as int).push(before[i as int]));
            let id = self.active[i].clone();
            proof {
                lemma_push_contains(before.take(i as int), id@);
                if before.take(i as int).contains(id@) {
                    let k = choose|k: int| 0 <= k < i && before[k] == id@;
                    assert(before[k] == before[i as int]);
                }
            }
            if !text_eq(id.as_str(), session_id) {
                kept.push(id);
                assert(texts(kept@) =~= so_far.push(id@));
                proof {
                    lemma_push_contains(so_far, id@);
                    assert(!so_far.contains(id@));
                    assert forall|a: int, b: int|
                        0 <= a < b < texts(kept@).len() implies texts(kept@)[a]
                        != texts(kept@)[b] by {
                        if b == so_far.len() {
                            assert(so_far[a] == texts(kept@)[a]);
                        }
                    }
                }
            }
            i += 1;
        }
        assert(before.take(before.len() as int) =~= before);
        proof {
            assert(texts(kept@).to_set() =~= before.to_set().remove(session_id@)) by {
                assert forall|id: Seq<char>|
                    texts(kept@).to_set().contains(id) == before.to_set().remove(
                        session_id@,
                    ).contains(id) by {
                    assert(texts(kept@).contains(id) <==> before.contains(id) && id != session_id@);
                }
            }
        }
        self.active = kept;
    }
}

proof fn lemma_push_contains(s: Seq<Seq<char>>, x: Seq<char>)
    ensures
        forall|id: Seq<char>| #[trigger]
            s.push(x).contains(id) <==> s.contains(id) || id == x,
{
    assert forall|id: Seq<char>| #[trigger]
        s.push(x).contains(id) <==> s.contains(id) || id == x by {
        if s.contains(id) {
            let k = choose|k: int| 0 <= k < s.len() && s[k] == id;
            assert(s.push(x)[k] == id);
        }
        if id == x {
            assert(s.push(x)[s.len() as int] == id);
        }
        if s.push(x).contains(id) {
            let k = choose|k: int| 0 <= k < s.push(x).len() && s.push(x)[k] == id;
            if k < s.len() {
                assert(s[k] == id);
            }
        }
    }
}

// ---------------------------------------------------------------------------------------------
// Requests

/// Method of a request, as far as it matters.
#[derive(Clone, Copy, Debug, PartialEq, Eq, Structural)]
pub enum HttpMethod {
    Post,
    Delete,
    Other,
}

/// What is done with a request.
#[derive(Clone, Copy, Debug, PartialEq, Eq, Structural)]
pub enum HttpRoute {
    /// It is passed on.
    Forward,
    /// Its body is read, for it may open a session.
    Inspect,
}

/// A request of these headers may open a session: it accepts both kinds of answer and carries JSON.
pub open spec fn post_headers_valid(
    accept: Option<Seq<char>>,
    content_type: Option<Seq<char>>,
) -> bool {
    &&& accept is Some
    &&& contains(accept->0, "application/json"@)
    &&& contains(accept->0, "text/event-stream"@)
    &&& content_type is Some
    &&& starts_with(content_type->0, "application/json"@)
}

/// Whether a request of these headers may open a session.
pub fn valid_streamable_post_headers(accept: Option<&str>, content_type: Option<&str>) -> (r: bool)
    ensures
        r == post_headers_valid(opt_str(accept), opt_str(content_type)),
{
    let accepts_both = match accept {
        Some(value) => text_contains(value, "application/json") && text_contains(
            value,
            "text/event-stream",
        ),
        None => false,
    };
    let content_type_is_json = match content_type {
        Some(value) => text_starts_with(value, "application/json"),
        None => false,
    };
    accepts_both && content_type_is_json
}

/// What is done with a request: with sessions kept, a post outside any session is inspected.
pub fn route_request(
    stateful_sessions: bool,
    method: HttpMethod,
    in_session: bool,
    headers_valid: bool,
) -> (r: HttpRoute)
    ensures
        r is Inspect <==> stateful_sessions && method == HttpMethod::Post && !in_session
            && headers_valid,
{
    let is_initialize_candidate = stateful_sessions && method == HttpMethod::Post && !in_session;
    if !is_initialize_candidate {
        return HttpRoute::Forward;
    }
    if !headers_valid {
        return HttpRoute::Forward;
    }
    HttpRoute::Inspect
}

/// Name of the remote call that a body makes: the text under `method` of the JSON object.
pub open spec fn rpc_method_in(members: Option<Map<Seq<char>, Seq<char>>>) -> Option<Seq<char>> {
    match members {
        Some(m) => if m.contains_key("method"@) {
            Some(m["method"@])
        } else {
            None
        },
        None => None,
    }
}

/// Name of the remote call that a body makes.
pub fn http_rpc_method(body: &Vec<u8>) -> (r: Option<String>)
    ensures
        opt_text(r) == rpc_method_in(json_text_members_of(body@)),
{
    match parse_json(body) {
        Some(value) => text_member(&value, "method"),
        None => None,
    }
}

/// Whether a remote call opens a session.
pub fn is_initialize(method: Option<&str>) -> (r: bool)
    ensures
        r == (opt_str(method) == Some("initialize"@)),
{
    match method {
        Some(name) => text_eq(name, "initialize"),
        None => false,
    }
}

/// What becomes of a reserved place.
#[derive(Debug, PartialEq, Eq)]
pub enum ReservationEnd {
    Confirm { session_id: String },
    Release,
}

/// What becomes of the place reserved for a request that was answered: only an answer of success
/// that names a session opens one.
pub fn conclude_initialize(status: u16, session_id: Option<String>) -> (r: ReservationEnd)
    ensures
        match r {
            ReservationEnd::Confirm { session_id: id } => status == 200 && session_id == Some(id),
            ReservationEnd::Release => status != 200 || session_id is None,
        },
{
    if status == 200 {
        match session_id {
            Some(session_id) => ReservationEnd::Confirm { session_id },
            None => ReservationEnd::Release,
        }
    } else {
        ReservationEnd::Release
    }
}

/// Whether an answer closes the session of its request.
pub fn closes_session(method: HttpMethod, status: u16) -> (r: bool)
    ensures
        r == (method == HttpMethod::Delete && status == 202),
{
    method == HttpMethod::Delete && status == 202
}

/// Answer that is given without the MCP server: plain text.
#[derive(Debug, PartialEq, Eq)]
pub struct HttpAnswer {
    pub status: u16,
    pub body: String,
}

/// Mathematical value of [`HttpAnswer`].
pub struct HttpAnswerView {
    pub status: u16,
    pub body: Seq<char>,
}

impl View for HttpAnswer {
    type V = HttpAnswerView;

    open spec fn view(&self) -> HttpAnswerView {
        HttpAnswerView {
            status: self.status,
            body: self.body@,
        }
    }
}

/// There is no room for another session.
pub fn overload_response() -> (r: HttpAnswer)
    ensures
        r@ == (HttpAnswerView {
            status: 503,
            body: "Service Unavailable: MCP session capacity exhausted"@,
        }),
{
    HttpAnswer {
        status: 503,
        body: "Service Unavailable: MCP session capacity exhausted".to_owned(),
    }
}

/// A session has to be opened first.
pub fn missing_initialize_response() -> (r: HttpAnswer)
    ensures
        r@ == (HttpAnswerView {
            status: 400,
            body: "Bad Request: initialize request is required before session creation"@,
        }),
{
    HttpAnswer {
        status: 400,
        body: "Bad Request: initialize request is required before session creation".to_owned(),
    }
}

/// The body is too long.
pub fn payload_too_large_response(source: &str) -> (r: HttpAnswer)
    ensures
        r@ == (HttpAnswerView { status: 413, body: "Payload Too Large: "@ + source@ }),
{
    HttpAnswer { status: 413, body: cat2("Payload Too Large: ", source) }
}

// ---------------------------------------------------------------------------------------------
// Laws

/// The places in use stay within the capacity, whichever operation comes next: a reservation is
/// made only where a place is free, a confirmed one takes its own place, and the rest frees places.
pub proof fn capacity_is_never_exceeded(
    s: HttpSessionAdmissionView,
    live: Seq<Seq<char>>,
    id: Seq<char>,
)
    requires
        s.active.finite(),
        places_in_use(s) <= s.max_sessions,
    ensures
        places_in_use(after_reservation(s, live)) <= s.max_sessions,
        s.reserved > 0 ==> places_in_use(after_confirmation(s, id)) <= s.max_sessions,
        places_in_use(after_release(s)) <= s.max_sessions,
        places_in_use(after_removal(s, id)) <= s.max_sessions,
{
    vstd::set_lib::lemma_len_intersect(s.active, live.to_set());
}

/// A reservation that is given back leaves the capacity as it was.
pub proof fn released_place_is_free_again(s: HttpSessionAdmissionView, live: Seq<Seq<char>>)
    requires
        has_room(s, live),
    ensures
        after_release(after_reservation(s, live)).reserved == s.reserved,
        has_room(after_release(after_reservation(s, live)), live),
{
    assert(s.active.intersect(live.to_set()).intersect(live.to_set()) =~= s.active.intersect(
        live.to_set(),
    ));
}

/// A session that is gone takes up no place: asking for one where nothing is reserved and no
/// session is alive always succeeds.
pub proof fn gone_sessions_take_no_place(s: HttpSessionAdmissionView)
    requires
        s.max_sessions >= 1,
        s.reserved == 0,
    ensures
        has_room(s, Seq::empty()),
{
    assert(s.active.intersect(Seq::<Seq<char>>::empty().to_set()) =~= Set::empty());
}

} // verus!
