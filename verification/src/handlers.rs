//! The request handlers' decision logic and response envelopes.
//!
//! Both routes pass the same authorization gate: a request with no verified
//! session is answered 401 without touching the store, and the store is only
//! ever asked about rows owned by the verified identity. The store calls
//! themselves are I/O and are performed by the caller; the functions here
//! decide which call to make and shape its outcome into an [`Envelope`]: a
//! status code with a JSON body. Store failures surface only as an opaque
//! internal error, never with any detail.

use vstd::prelude::*;

use crate::events::{spec_created_event, Event, EventInput, StoreError, EVENT_ID_LEN};
use crate::json::{
    append_dec_i32, append_json_bool, append_json_opt_string, append_json_string, spec_dec_int,
    spec_json_bool, spec_json_opt_string, spec_json_string,
};
use crate::session::Session;
use crate::timestamp::{encode, rfc3339_text_of, Timestamp};

verus! {

pub const STATUS_OK: u16 = 200;

pub const STATUS_CREATED: u16 = 201;

pub const STATUS_BAD_REQUEST: u16 = 400;

pub const STATUS_UNAUTHORIZED: u16 = 401;

pub const STATUS_INTERNAL_ERROR: u16 = 500;

/// An HTTP response: a status code and a JSON body.
pub struct Envelope {
    pub status: u16,
    pub body: String,
}

/// The body of an error envelope: an object with the message under `error`.
pub open spec fn spec_error_body(message: Seq<char>) -> Seq<char> {
    "{\"error\":"@ + spec_json_string(message) + "}"@
}

/// Whether an envelope is the 401 answer to an unverified request.
pub open spec fn spec_is_unauthorized(e: Envelope) -> bool {
    e.status == STATUS_UNAUTHORIZED && e.body@ == spec_error_body("Unauthorized"@)
}

/// Whether an envelope is the 400 answer to an unparsable event date.
pub open spec fn spec_is_invalid_date(e: Envelope) -> bool {
    e.status == STATUS_BAD_REQUEST && e.body@ == spec_error_body("Invalid date format"@)
}

/// Whether an envelope is the opaque 500 answer to a store failure.
pub open spec fn spec_is_internal_error(e: Envelope) -> bool {
    e.status == STATUS_INTERNAL_ERROR && e.body@ == spec_error_body("Internal Server Error"@)
}

/// The JSON value for an optional timestamp: its RFC 3339 text as a string,
/// or `null` when absent.
pub open spec fn spec_json_opt_timestamp(t: Option<Timestamp>) -> Seq<char> {
    match t {
        None => "null"@,
        Some(ts) => spec_json_string(rfc3339_text_of(ts.spec_nanos())),
    }
}

/// The JSON object denoting an event record on the wire, with its date
/// fields rendered through the time codec.
pub open spec fn spec_event_json(e: Event) -> Seq<char> {
    "{\"id\":"@ + spec_json_string(e.id@) + ",\"user_id\":"@ + spec_json_string(e.user_id@)
        + ",\"title\":"@ + spec_json_string(e.title@) + ",\"description\":"@
        + spec_json_opt_string(crate::events::opt_string_view(e.description)) + ",\"duration\":"@
        + spec_dec_int(e.duration as int) + ",\"date\":"@ + spec_json_string(
        rfc3339_text_of(e.date.spec_nanos()),
    ) + ",\"accepted\":"@ + spec_json_bool(e.accepted) + ",\"created_at\":"@
        + spec_json_opt_timestamp(e.created_at) + ",\"updated_at\":"@ + spec_json_opt_timestamp(
        e.updated_at,
    ) + "}"@
}

/// The JSON array denoting a sequence of event records, in the given order.
pub open spec fn spec_events_json(events: Seq<Event>) -> Seq<char> {
    "["@ + spec_events_items(events) + "]"@
}

/// The comma-separated items of the events array.
pub open spec fn spec_events_items(events: Seq<Event>) -> Seq<char>
    decreases events.len(),
{
    if events.len() == 0 {
        Seq::empty()
    } else if events.len() == 1 {
        spec_event_json(events[0])
    } else {
        spec_events_items(events.drop_last()) + ","@ + spec_event_json(events.last())
    }
}

/// Build an error envelope with the message under `error`.
fn error_envelope(status: u16, message: &str) -> (r: Envelope)
    ensures
        r.status == status,
        r.body@ == spec_error_body(message@),
{
    let mut body = String::from_str("{\"error\":");
    append_json_string(&mut body, message);
    body.append("}");
    Envelope { status, body }
}

/// The 401 envelope for an unverified request.
pub fn unauthorized_envelope() -> (r: Envelope)
    ensures
        spec_is_unauthorized(r),
{
    error_envelope(STATUS_UNAUTHORIZED, "Unauthorized")
}

/// The 400 envelope for an unparsable event date.
pub fn invalid_date_envelope() -> (r: Envelope)
    ensures
        spec_is_invalid_date(r),
{
    error_envelope(STATUS_BAD_REQUEST, "Invalid date format")
}

/// The opaque 500 envelope for a store failure.
pub fn internal_error_envelope() -> (r: Envelope)
    ensures
        spec_is_internal_error(r),
{
    error_envelope(STATUS_INTERNAL_ERROR, "Internal Server Error")
}

/// Append the JSON value for an optional timestamp.
fn append_json_opt_timestamp(out: &mut String, t: &Option<Timestamp>)
    ensures
        final(out)@ == old(out)@ + spec_json_opt_timestamp(*t),
{
    match t {
        None => out.append("null"),
        Some(ts) => {
            let text = encode(ts);
            append_json_string(out, text.as_str());
        },
    }
}

/// Render an event record as its JSON object.
pub fn event_json(e: &Event) -> (r: String)
    ensures
        r@ == spec_event_json(*e),
{
    let mut out = String::from_str("{\"id\":");
    append_json_string(&mut out, e.id.as_str());
    out.append(",\"user_id\":");
    append_json_string(&mut out, e.user_id.as_str());
    out.append(",\"title\":");
    append_json_string(&mut out, e.title.as_str());
    out.append(",\"description\":");
    append_json_opt_string(&mut out, &e.description);
    out.append(",\"duration\":");
    append_dec_i32(&mut out, e.duration);
    out.append(",\"date\":");
    let date_text = encode(&e.date);
    append_json_string(&mut out, date_text.as_str());
    out.append(",\"accepted\":");
    append_json_bool(&mut out, e.accepted);
    out.append(",\"created_at\":");
    append_json_opt_timestamp(&mut out, &e.created_at);
    out.append(",\"updated_at\":");
    append_json_opt_timestamp(&mut out, &e.updated_at);
    out.append("}");
    out
}

/// Render a list of event records as their JSON array, in the given order.
pub fn events_json(events: &Vec<Event>) -> (r: String)
    ensures
        r@ == spec_events_json(events@),
{
    let mut out = String::from_str("[");
    let mut i: usize = 0;
    while i < events.len()
        invariant
            i <= events@.len(),
            out@ == "["@ + spec_events_items(events@.take(i as int)),
        decreases events@.len() - i,
    {
        if i > 0 {
            out.append(",");
        }
        let item = event_json(&events[i]);
        out.append(item.as_str());
        proof {
            assert(events@.take(i + 1 as int).drop_last() =~= events@.take(i as int));
            assert(events@.take(i + 1 as int).last() == events@[i as int]);
            if i == 0 {
                assert(events@.take(1).len() == 1);
            }
        }
        i += 1;
    }
    proof {
        assert(events@.take(events@.len() as int) =~= events@);
    }
    out.append("]");
    out
}

/// The next step for answering a list request.
pub enum ListStep {
    /// Answer immediately with this envelope; the store is not consulted.
    Deny(Envelope),
    /// Ask the store for the events owned by exactly this user.
    Fetch { user_id: String },
}

/// The next step for answering a create request.
pub enum CreateStep {
    /// Answer 401 immediately; nothing is validated and nothing is written.
    Deny(Envelope),
    /// Answer 400 immediately: the input failed validation, and nothing is
    /// written.
    Reject(Envelope),
    /// Insert exactly this record, then answer with [`created_reply`].
    Insert(Event),
}

/// The authorization gate of the list route: no verified session is answered
/// 401, and a verified one scopes the store query to its own identity id —
/// never to anything the client supplied.
pub fn handle_list(session: Option<Session>) -> (r: ListStep)
    ensures
        match session {
            None => r matches ListStep::Deny(env) && spec_is_unauthorized(env),
            Some(s) => r matches ListStep::Fetch { user_id } && user_id@ == s.identity.id@,
        },
{
    match session {
        None => ListStep::Deny(unauthorized_envelope()),
        Some(s) => ListStep::Fetch { user_id: s.identity.id },
    }
}

/// Shape the outcome of the scoped list query: the fetched events as a JSON
/// array under 200, or the opaque internal error for a store failure.
pub fn list_reply(fetched: Result<Vec<Event>, StoreError>) -> (r: Envelope)
    ensures
        match fetched {
            Ok(events) => r.status == STATUS_OK && r.body@ == spec_events_json(events@),
            Err(_) => spec_is_internal_error(r),
        },
{
    match fetched {
        Ok(events) => Envelope { status: STATUS_OK, body: events_json(&events) },
        Err(_) => internal_error_envelope(),
    }
}

/// The authorization and validation gate of the create route: no verified
/// session is answered 401 and an unparsable date 400, both without writing
/// anything; otherwise the record to insert is assembled, owned by the
/// session's identity, with a fresh id, `accepted` false and server-set
/// timestamps — whatever the input may have tried to supply for those.
pub fn handle_create(session: Option<Session>, input: &EventInput) -> (r: CreateStep)
    ensures
        match session {
            None => r matches CreateStep::Deny(env) && spec_is_unauthorized(env),
            Some(s) => {
                if crate::timestamp::spec_decode(input.date@) is None {
                    r matches CreateStep::Reject(env) && spec_is_invalid_date(env)
                } else {
                    r matches CreateStep::Insert(event) && spec_created_event(
                        event,
                        *input,
                        s.identity.id@,
                    ) && event.id@.len() == EVENT_ID_LEN as int
                }
            },
        },
{
    match session {
        None => CreateStep::Deny(unauthorized_envelope()),
        Some(s) => match crate::events::create_event(input, s.identity.id) {
            Ok(event) => CreateStep::Insert(event),
            Err(_) => CreateStep::Reject(invalid_date_envelope()),
        },
    }
}

/// Shape the outcome of the insert: the stored record as JSON under 201, or
/// the opaque internal error for a store failure.
pub fn created_reply(event: &Event, stored: Result<(), StoreError>) -> (r: Envelope)
    ensures
        match stored {
            Ok(_) => r.status == STATUS_CREATED && r.body@ == spec_event_json(*event),
            Err(_) => spec_is_internal_error(r),
        },
{
    match stored {
        Ok(_) => Envelope { status: STATUS_CREATED, body: event_json(event) },
        Err(_) => internal_error_envelope(),
    }
}

} // verus!
