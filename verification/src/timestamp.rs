//! The time codec: timestamps and their RFC 3339 wire representation.
//!
//! A [`Timestamp`] is an instant, counted in nanoseconds since the Unix epoch,
//! restricted to the instants that the wire format can render: the UTC years
//! 0000 through 9999. [`decode`] parses an RFC 3339 string strictly and
//! rejects anything else with [`ParseError`]; [`encode`] renders a timestamp
//! as the RFC 3339 text of the same instant at UTC, so decoding what was
//! encoded always yields the timestamp back (sub-second precision is kept
//! exactly, down to the nanosecond).

use vstd::prelude::*;

verus! {

/// Nanoseconds since the Unix epoch of 0000-01-01T00:00:00Z, the earliest
/// instant the wire format can render.
pub const MIN_EPOCH_NANOS: i128 = -62_167_219_200_000_000_000;

/// Nanoseconds since the Unix epoch of 9999-12-31T23:59:59.999999999Z, the
/// latest instant the wire format can render.
pub const MAX_EPOCH_NANOS: i128 = 253_402_300_799_999_999_999;

/// The instant denoted by an RFC 3339 string, in nanoseconds since the Unix
/// epoch, or `None` where the string is not well-formed RFC 3339.
/// This names what `time::OffsetDateTime::parse` with the `Rfc3339` format
/// returns; it is a function of the text alone.
pub uninterp spec fn rfc3339_instant_of(s: Seq<char>) -> Option<int>;

/// The RFC 3339 rendering, at UTC, of the instant `nanos` nanoseconds after
/// the Unix epoch. This names what `time::OffsetDateTime::format` with the
/// `Rfc3339` format returns; it is a function of the instant alone.
pub uninterp spec fn rfc3339_text_of(nanos: int) -> Seq<char>;

/// Whether an instant lies in the range the wire format can render.
pub open spec fn spec_in_range(nanos: int) -> bool {
    MIN_EPOCH_NANOS as int <= nanos <= MAX_EPOCH_NANOS as int
}

/// What [`decode`] yields on a given string: the parsed instant, provided it
/// is well-formed RFC 3339 and denotes a renderable instant.
pub open spec fn spec_decode(s: Seq<char>) -> Option<int> {
    match rfc3339_instant_of(s) {
        Some(n) => if spec_in_range(n) {
            Some(n)
        } else {
            None
        },
        None => None,
    }
}

/// The error of a strict parse: the input was not a well-formed RFC 3339
/// string denoting a renderable instant.
#[derive(Clone, Copy, Debug, PartialEq, Eq, Structural)]
pub struct ParseError;

/// An instant in time, in nanoseconds since the Unix epoch, always within
/// the range the RFC 3339 wire format can render.
#[derive(Clone, Copy, Debug, PartialEq, Eq, Structural)]
pub struct Timestamp {
    nanos: i128,
}

impl Timestamp {
    #[verifier::type_invariant]
    spec fn inv(self) -> bool {
        MIN_EPOCH_NANOS <= self.nanos <= MAX_EPOCH_NANOS
    }

    /// The instant as nanoseconds since the Unix epoch.
    pub closed spec fn spec_nanos(self) -> int {
        self.nanos as int
    }

    /// A timestamp for the given instant, or `None` where the instant cannot
    /// be rendered on the wire.
    pub fn from_unix_nanos(nanos: i128) -> (r: Option<Timestamp>)
        ensures
            spec_in_range(nanos as int) ==> (r matches Some(t) && t.spec_nanos() == nanos as int),
            !spec_in_range(nanos as int) ==> r is None,
    {
        if MIN_EPOCH_NANOS <= nanos && nanos <= MAX_EPOCH_NANOS {
            Some(Timestamp { nanos })
        } else {
            None
        }
    }

    /// The instant as nanoseconds since the Unix epoch.
    pub fn unix_nanos(&self) -> (r: i128)
        ensures
            r as int == self.spec_nanos(),
            spec_in_range(r as int),
    {
        proof {
            use_type_invariant(self);
        }
        self.nanos
    }
}

/// Relies on `time::OffsetDateTime::parse` with the RFC 3339 well-known
/// format: the outcome is a function of the text alone, and the parsed
/// instant is its count of nanoseconds since the Unix epoch.
#[verifier::external_body]
fn parse_rfc3339_nanos(s: &str) -> (r: Option<i128>)
    ensures
        r matches Some(n) ==> rfc3339_instant_of(s@) == Some(n as int),
        r is None ==> rfc3339_instant_of(s@) is None,
{
    match time::OffsetDateTime::parse(s, &time::format_description::well_known::Rfc3339) {
        Ok(dt) => Some(dt.unix_timestamp_nanos()),
        Err(_) => None,
    }
}

/// Relies on `time::OffsetDateTime::from_unix_timestamp_nanos` and
/// `format` with the RFC 3339 well-known format: within the UTC years 0000
/// through 9999 both succeed, the text is a function of the instant alone,
/// and parsing the produced text yields the same instant back.
#[verifier::external_body]
fn format_rfc3339_nanos(nanos: i128) -> (r: String)
    requires
        MIN_EPOCH_NANOS <= nanos <= MAX_EPOCH_NANOS,
    ensures
        r@ == rfc3339_text_of(nanos as int),
        rfc3339_instant_of(r@) == Some(nanos as int),
{
    let dt = time::OffsetDateTime::from_unix_timestamp_nanos(nanos).unwrap();
    dt.format(&time::format_description::well_known::Rfc3339).unwrap()
}

/// Relies on `time::OffsetDateTime::now_utc`: the current clock reading, as
/// nanoseconds since the Unix epoch. Nothing is assumed about its value.
#[verifier::external_body]
fn now_unix_nanos() -> i128 {
    time::OffsetDateTime::now_utc().unix_timestamp_nanos()
}

/// Strictly parse an RFC 3339 string. Anything that is not well-formed
/// RFC 3339, or denotes an instant outside the renderable UTC years 0000
/// through 9999, fails with [`ParseError`].
pub fn decode(s: &str) -> (r: Result<Timestamp, ParseError>)
    ensures
        r matches Ok(t) ==> spec_decode(s@) == Some(t.spec_nanos()),
        r is Err ==> spec_decode(s@) is None,
{
    match parse_rfc3339_nanos(s) {
        Some(n) => match Timestamp::from_unix_nanos(n) {
            Some(t) => Ok(t),
            None => Err(ParseError),
        },
        None => Err(ParseError),
    }
}

/// Render a timestamp as the RFC 3339 text of its instant at UTC. Decoding
/// the result always yields the timestamp back.
pub fn encode(t: &Timestamp) -> (r: String)
    ensures
        r@ == rfc3339_text_of(t.spec_nanos()),
        spec_decode(r@) == Some(t.spec_nanos()),
{
    proof {
        use_type_invariant(t);
    }
    format_rfc3339_nanos(t.unix_nanos())
}

/// Normalize an RFC 3339 string to the canonical UTC rendering of the
/// instant it denotes. Round-trip stability: decoding the result yields
/// exactly what decoding the input yields, for every input that decodes at
/// all; inputs that do not decode fail with the same [`ParseError`].
pub fn canonicalize(s: &str) -> (r: Result<String, ParseError>)
    ensures
        r matches Ok(text) ==> (spec_decode(s@) matches Some(n) && text@ == rfc3339_text_of(n)
            && spec_decode(text@) == Some(n)),
        r is Err <==> spec_decode(s@) is None,
{
    match decode(s) {
        Ok(t) => Ok(encode(&t)),
        Err(e) => Err(e),
    }
}

/// [`decode`] lifted to an optional wire value: absence maps to `None`.
pub fn decode_optional(s: &Option<String>) -> (r: Result<Option<Timestamp>, ParseError>)
    ensures
        s is None ==> r == Ok::<Option<Timestamp>, ParseError>(None),
        s matches Some(text) ==> match r {
            Ok(o) => o matches Some(t) && spec_decode(text@) == Some(t.spec_nanos()),
            Err(_) => spec_decode(text@) is None,
        },
{
    match s {
        None => Ok(None),
        Some(text) => match decode(text.as_str()) {
            Ok(t) => Ok(Some(t)),
            Err(e) => Err(e),
        },
    }
}

/// [`encode`] lifted to an optional timestamp: absence maps to `None`.
pub fn encode_optional(t: &Option<Timestamp>) -> (r: Option<String>)
    ensures
        t is None ==> r is None,
        t matches Some(ts) ==> (r matches Some(s) && s@ == rfc3339_text_of(ts.spec_nanos())
            && spec_decode(s@) == Some(ts.spec_nanos())),
{
    match t {
        None => None,
        Some(ts) => Some(encode(ts)),
    }
}

/// The current time, or `None` where the system clock lies outside the
/// renderable UTC years 0000 through 9999.
pub fn current_timestamp() -> Option<Timestamp> {
    Timestamp::from_unix_nanos(now_unix_nanos())
}

} // verus!
