//! The session verifier: turning an optional session cookie into a verified
//! identity, by way of a lookup against the external identity provider.
//!
//! The lookup itself is network I/O and is performed by the caller; this
//! module decides everything around it. [`plan_lookup`] says whether a lookup
//! is needed at all and, when it is, exactly which request to make: an absent
//! token is unauthenticated immediately, with no lookup. [`session_from_reply`]
//! collapses every provider failure — transport error, non-success status,
//! unreadable body — into the same unauthenticated outcome; nothing is ever
//! raised as a hard error.

use vstd::prelude::*;

verus! {

/// Profile traits of an identity, as the identity provider reports them.
pub struct Traits {
    pub email: String,
    pub first_name: String,
    pub last_name: String,
    pub username: String,
}

/// The authenticated user's profile record, fetched per request and never
/// persisted here.
pub struct Identity {
    /// Stable external user id; event records are scoped by it.
    pub id: String,
    pub state: String,
    pub traits: Traits,
}

/// A successful verification result; it lives for one request.
pub struct Session {
    pub id: String,
    pub active: bool,
    pub identity: Identity,
}

/// What the identity provider lookup came back with.
pub enum ProviderReply {
    /// The request could not be completed at all.
    Transport,
    /// A response arrived with this status code; `session` is the session its
    /// body parsed to, where it parsed at all.
    Response { status: u16, session: Option<Session> },
}

/// The next step for verifying an optional session token.
pub enum LookupPlan {
    /// No token was presented: unauthenticated, and no lookup is made.
    Skip,
    /// Look the token up with this request.
    Fetch { url: String, cookie: String },
}

/// Smallest status code that counts as a successful HTTP response.
pub const HTTP_SUCCESS_MIN: u16 = 200;

/// Smallest status code that no longer counts as a successful HTTP response.
pub const HTTP_SUCCESS_END: u16 = 300;

/// Whether an HTTP status code reports success.
pub open spec fn spec_status_is_success(status: u16) -> bool {
    HTTP_SUCCESS_MIN <= status < HTTP_SUCCESS_END
}

/// Whether an HTTP status code reports success (2xx).
pub fn status_is_success(status: u16) -> (r: bool)
    ensures
        r == spec_status_is_success(status),
{
    HTTP_SUCCESS_MIN <= status && status < HTTP_SUCCESS_END
}

/// Decide whether verifying `token` needs a provider lookup. An absent token
/// is refused outright: the plan is `Skip`, so no request is made and the
/// caller holds no session. A present token is to be looked up at the
/// provider's `whoami` endpoint under `base_url`, presented back as the
/// session cookie.
pub fn plan_lookup(token: &Option<String>, base_url: &str) -> (r: LookupPlan)
    ensures
        match token {
            None => r is Skip,
            Some(t) => r matches LookupPlan::Fetch { url, cookie } && url@ == base_url@
                + "/sessions/whoami"@ && cookie@ == "ory_kratos_session="@ + t@,
        },
{
    match token {
        None => LookupPlan::Skip,
        Some(t) => {
            let mut url = String::from_str(base_url);
            url.append("/sessions/whoami");
            let mut cookie = String::from_str("ory_kratos_session=");
            cookie.append(t.as_str());
            LookupPlan::Fetch { url, cookie }
        },
    }
}

/// Resolve a provider reply into a verification outcome. Only a successful
/// (2xx) response whose body parsed to a session authenticates; a transport
/// failure, a non-success status, or an unreadable body all degrade to
/// `None`, never to an error.
pub fn session_from_reply(reply: ProviderReply) -> (r: Option<Session>)
    ensures
        match reply {
            ProviderReply::Transport => r is None,
            ProviderReply::Response { status, session } => if spec_status_is_success(status) {
                r == session
            } else {
                r is None
            },
        },
{
    match reply {
        ProviderReply::Transport => None,
        ProviderReply::Response { status, session } => {
            if status_is_success(status) {
                session
            } else {
                None
            }
        },
    }
}

} // verus!
