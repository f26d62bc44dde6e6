//! Event records and their creation from client input.
//!
//! An [`Event`] is owned by the user whose session created it. Its `id` is
//! assigned server-side, `accepted` starts out false, and the bookkeeping
//! timestamps are set from the server clock; none of these can be supplied by
//! the client, whose whole say is an [`EventInput`]. The `duration` field is
//! a count of minutes.

use vstd::prelude::*;

use crate::timestamp::{spec_decode, Timestamp};

verus! {

/// Number of characters in a server-assigned event id (a hyphenated UUID).
pub const EVENT_ID_LEN: usize = 36;

/// A stored event record.
pub struct Event {
    /// Server-assigned unique identifier.
    pub id: String,
    /// Identity id of the owning user, taken from the creating session.
    pub user_id: String,
    pub title: String,
    pub description: Option<String>,
    /// Length of the event in minutes.
    pub duration: i32,
    /// When the event takes place, as supplied by the caller.
    pub date: Timestamp,
    /// Whether the event has been accepted; always false at creation.
    pub accepted: bool,
    /// When the record was created; absent only if the server clock could
    /// not be read as a renderable instant.
    pub created_at: Option<Timestamp>,
    /// When the record was last updated; like `created_at` at creation.
    pub updated_at: Option<Timestamp>,
}

/// The client-facing creation payload. It deliberately has no id, owner,
/// acceptance flag or bookkeeping timestamps: those are server-owned.
pub struct EventInput {
    pub title: String,
    pub description: Option<String>,
    /// Length of the event in minutes.
    pub duration: i32,
    /// When the event takes place, as an RFC 3339 string.
    pub date: String,
}

/// Rejection of malformed client input: the date string did not parse.
#[derive(Clone, Copy, Debug, PartialEq, Eq, Structural)]
pub struct ValidationError;

/// Failure of the backing store; reported to clients only as an opaque
/// internal error.
#[derive(Clone, Copy, Debug, PartialEq, Eq, Structural)]
pub struct StoreError;

/// The view of an optional string as an optional character sequence.
pub open spec fn opt_string_view(s: Option<String>) -> Option<Seq<char>> {
    match s {
        None => None,
        Some(text) => Some(text@),
    }
}

/// Whether `event` is exactly the record that creating `input` for
/// `user_id` must produce, up to the server-chosen `id` and clock reading.
pub open spec fn spec_created_event(event: Event, input: EventInput, user_id: Seq<char>) -> bool {
    &&& spec_decode(input.date@) == Some(event.date.spec_nanos())
    &&& event.user_id@ == user_id
    &&& event.title@ == input.title@
    &&& opt_string_view(event.description) == opt_string_view(input.description)
    &&& event.duration == input.duration
    &&& event.accepted == false
    &&& event.created_at == event.updated_at
}

impl EventInput {
    /// Assemble the event record for this input, owned by `user_id`, under
    /// the server-chosen `id` and clock reading `now`. Fails with
    /// [`ValidationError`] exactly when the date string does not parse.
    pub fn to_event(&self, user_id: String, id: String, now: Option<Timestamp>) -> (r: Result<
        Event,
        ValidationError,
    >)
        ensures
            r matches Ok(event) ==> {
                &&& spec_created_event(event, *self, user_id@)
                &&& event.id@ == id@
                &&& event.created_at == now
            },
            r is Err <==> spec_decode(self.date@) is None,
    {
        match crate::timestamp::decode(self.date.as_str()) {
            Ok(date) => Ok(
                Event {
                    id,
                    user_id,
                    title: self.title.clone(),
                    description: clone_description(&self.description),
                    duration: self.duration,
                    date,
                    accepted: false,
                    created_at: now,
                    updated_at: now,
                },
            ),
            Err(_) => Err(ValidationError),
        }
    }
}

/// Clone an optional description, keeping its text.
fn clone_description(d: &Option<String>) -> (r: Option<String>)
    ensures
        opt_string_view(r) == opt_string_view(*d),
{
    match d {
        None => None,
        Some(text) => Some(text.clone()),
    }
}

/// Relies on `uuid::Uuid::new_v4` and its `Display` form: a random
/// version-4 UUID rendered hyphenated, which is exactly 36 characters.
#[verifier::external_body]
fn fresh_event_id() -> (r: String)
    ensures
        r@.len() == EVENT_ID_LEN as int,
{
    uuid::Uuid::new_v4().to_string()
}

/// Create the event record for `input`, owned by `user_id`: a fresh unique
/// id is assigned, `accepted` starts out false, and both bookkeeping
/// timestamps are set to the current server time. Fails with
/// [`ValidationError`] exactly when the date string does not parse, and
/// touches no store either way.
pub fn create_event(input: &EventInput, user_id: String) -> (r: Result<Event, ValidationError>)
    ensures
        r matches Ok(event) ==> {
            &&& spec_created_event(event, *input, user_id@)
            &&& event.id@.len() == EVENT_ID_LEN as int
        },
        r is Err <==> spec_decode(input.date@) is None,
{
    let id = fresh_event_id();
    let now = crate::timestamp::current_timestamp();
    input.to_event(user_id, id, now)
}

} // verus!
