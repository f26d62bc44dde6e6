use event_service::events::{EventInput, StoreError};
use event_service::handlers::{
    created_reply, event_json, events_json, handle_create, handle_list, list_reply, CreateStep,
    ListStep,
};
use event_service::session::{
    plan_lookup, session_from_reply, Identity, LookupPlan, ProviderReply, Session, Traits,
};
use event_service::timestamp::{
    current_timestamp, decode, decode_optional, encode, encode_optional, Timestamp,
};

fn session_for(user_id: &str) -> Session {
    Session {
        id: String::from("session-1"),
        active: true,
        identity: Identity {
            id: String::from(user_id),
            state: String::from("active"),
            traits: Traits {
                email: String::from("a@example.com"),
                first_name: String::from("Ada"),
                last_name: String::from("Lovelace"),
                username: String::from("ada"),
            },
        },
    }
}

fn input(title: &str, description: Option<&str>, duration: i32, date: &str) -> EventInput {
    EventInput {
        title: String::from(title),
        description: description.map(String::from),
        duration,
        date: String::from(date),
    }
}

const UNAUTHORIZED_BODY: &str = "{\"error\":\"Unauthorized\"}";
const INVALID_DATE_BODY: &str = "{\"error\":\"Invalid date format\"}";
const INTERNAL_ERROR_BODY: &str = "{\"error\":\"Internal Server Error\"}";

#[test]
fn decode_encode_round_trip_utc() {
    let t = decode("2024-01-01T09:00:00Z").unwrap();
    let text = encode(&t);
    assert_eq!(text, "2024-01-01T09:00:00Z");
    assert_eq!(decode(&text).unwrap(), t);
}

#[test]
fn decode_encode_round_trip_subsecond() {
    let t = decode("1985-04-12T23:20:50.52Z").unwrap();
    let text = encode(&t);
    assert_eq!(decode(&text).unwrap(), t);
    assert_eq!(text, "1985-04-12T23:20:50.52Z");
}

#[test]
fn decode_encode_round_trip_nanosecond() {
    let t = decode("2020-06-01T12:34:56.123456789Z").unwrap();
    let text = encode(&t);
    assert_eq!(decode(&text).unwrap(), t);
}

#[test]
fn decode_normalizes_offsets_to_the_same_instant() {
    let with_offset = decode("2024-01-01T10:00:00+01:00").unwrap();
    let utc = decode("2024-01-01T09:00:00Z").unwrap();
    assert_eq!(with_offset, utc);
    assert_eq!(encode(&with_offset), "2024-01-01T09:00:00Z");
}

#[test]
fn canonicalize_is_round_trip_stable() {
    for s in [
        "2024-01-01T09:00:00Z",
        "2024-01-01T10:00:00+01:00",
        "1985-04-12T23:20:50.52Z",
        "2020-06-01T12:34:56.123456789-07:30",
    ] {
        let canonical = event_service::timestamp::canonicalize(s).unwrap();
        assert_eq!(decode(&canonical).unwrap(), decode(s).unwrap());
        assert_eq!(event_service::timestamp::canonicalize(&canonical).unwrap(), canonical);
    }
    assert_eq!(
        event_service::timestamp::canonicalize("2024-01-01T10:00:00+01:00").unwrap(),
        "2024-01-01T09:00:00Z"
    );
    assert!(event_service::timestamp::canonicalize("not-a-date").is_err());
    // A leap second is valid RFC 3339; whatever instant it denotes, decoding
    // stays stable under re-encoding.
    if let Ok(t) = decode("2016-12-31T23:59:60Z") {
        assert_eq!(decode(&encode(&t)).unwrap(), t);
    }
}

#[test]
fn decode_yields_unix_nanoseconds() {
    let t = decode("2024-01-01T09:00:00Z").unwrap();
    assert_eq!(t.unix_nanos(), 1_704_099_600 * 1_000_000_000);
    let epoch = decode("1970-01-01T00:00:00Z").unwrap();
    assert_eq!(epoch.unix_nanos(), 0);
}

#[test]
fn decode_rejects_malformed_text() {
    assert!(decode("not-a-date").is_err());
    assert!(decode("").is_err());
    assert!(decode("2024-01-01").is_err());
    assert!(decode("2024-01-01T09:00:00").is_err());
    assert!(decode("2024-13-01T09:00:00Z").is_err());
    assert!(decode("2024-02-30T09:00:00Z").is_err());
    assert!(decode("2024-01-01T24:00:00Z").is_err());
}

#[test]
fn decode_rejects_instants_outside_the_renderable_years() {
    // Well-formed RFC 3339, but the instant falls before year 0 at UTC, so it
    // could never be rendered back.
    assert!(decode("0000-01-01T00:00:00+23:59").is_err());
    assert!(decode("0000-01-01T00:00:00Z").is_ok());
    assert!(decode("9999-12-31T23:59:59.999999999Z").is_ok());
}

#[test]
fn optional_codec_maps_absence_to_null() {
    assert_eq!(decode_optional(&None), Ok(None));
    assert_eq!(encode_optional(&None), None);
    let t = decode("2024-01-01T09:00:00Z").unwrap();
    assert_eq!(encode_optional(&Some(t)).unwrap(), "2024-01-01T09:00:00Z");
    let decoded = decode_optional(&Some(String::from("2024-01-01T09:00:00Z"))).unwrap();
    assert_eq!(decoded, Some(t));
    assert!(decode_optional(&Some(String::from("nope"))).is_err());
}

#[test]
fn from_unix_nanos_checks_the_range() {
    assert!(Timestamp::from_unix_nanos(0).is_some());
    assert!(Timestamp::from_unix_nanos(-62_167_219_200_000_000_000).is_some());
    assert!(Timestamp::from_unix_nanos(-62_167_219_200_000_000_001).is_none());
    assert!(Timestamp::from_unix_nanos(253_402_300_799_999_999_999).is_some());
    assert!(Timestamp::from_unix_nanos(253_402_300_800_000_000_000).is_none());
}

#[test]
fn current_timestamp_is_renderable_now() {
    let t = current_timestamp().unwrap();
    let text = encode(&t);
    assert_eq!(decode(&text).unwrap(), t);
}

#[test]
fn plan_lookup_without_token_skips_the_provider() {
    let plan = plan_lookup(&None, "https://idp.example.com");
    assert!(matches!(plan, LookupPlan::Skip));
}

#[test]
fn plan_lookup_with_token_builds_the_whoami_request() {
    let plan = plan_lookup(&Some(String::from("tok-123")), "https://idp.example.com");
    match plan {
        LookupPlan::Fetch { url, cookie } => {
            assert_eq!(url, "https://idp.example.com/sessions/whoami");
            assert_eq!(cookie, "ory_kratos_session=tok-123");
        }
        LookupPlan::Skip => panic!("expected a fetch plan"),
    }
}

#[test]
fn provider_failures_degrade_to_unauthenticated() {
    assert!(session_from_reply(ProviderReply::Transport).is_none());
    let failed = ProviderReply::Response { status: 500, session: Some(session_for("u")) };
    assert!(session_from_reply(failed).is_none());
    let unauthorized = ProviderReply::Response { status: 401, session: None };
    assert!(session_from_reply(unauthorized).is_none());
    let unreadable = ProviderReply::Response { status: 200, session: None };
    assert!(session_from_reply(unreadable).is_none());
}

#[test]
fn provider_status_boundaries() {
    let at_299 = ProviderReply::Response { status: 299, session: Some(session_for("u")) };
    assert!(session_from_reply(at_299).is_some());
    let at_300 = ProviderReply::Response { status: 300, session: Some(session_for("u")) };
    assert!(session_from_reply(at_300).is_none());
    let at_199 = ProviderReply::Response { status: 199, session: Some(session_for("u")) };
    assert!(session_from_reply(at_199).is_none());
}

#[test]
fn provider_success_authenticates() {
    let reply = ProviderReply::Response { status: 200, session: Some(session_for("user-7")) };
    let session = session_from_reply(reply).unwrap();
    assert_eq!(session.identity.id, "user-7");
}

#[test]
fn to_event_fills_the_server_owned_fields() {
    let now = decode("2024-05-05T05:05:05Z").unwrap();
    let event = input("Standup", Some("daily"), 15, "2024-01-01T09:00:00Z")
        .to_event(String::from("user-1"), String::from("id-1"), Some(now))
        .unwrap();
    assert_eq!(event.id, "id-1");
    assert_eq!(event.user_id, "user-1");
    assert_eq!(event.title, "Standup");
    assert_eq!(event.description.as_deref(), Some("daily"));
    assert_eq!(event.duration, 15);
    assert_eq!(event.date, decode("2024-01-01T09:00:00Z").unwrap());
    assert!(!event.accepted);
    assert_eq!(event.created_at, Some(now));
    assert_eq!(event.updated_at, Some(now));
}

#[test]
fn to_event_rejects_an_unparsable_date() {
    let r = input("X", None, 5, "not-a-date").to_event(
        String::from("user-1"),
        String::from("id-1"),
        None,
    );
    assert!(r.is_err());
}

#[test]
fn created_events_get_a_fresh_id_and_are_never_accepted() {
    let payload = input("Standup", None, 15, "2024-01-01T09:00:00Z");
    let event = event_service::events::create_event(&payload, String::from("user-1")).unwrap();
    assert_eq!(event.id.chars().count(), 36);
    assert_eq!(event.user_id, "user-1");
    assert!(!event.accepted);
    assert_eq!(event.created_at, event.updated_at);
    let again = event_service::events::create_event(&payload, String::from("user-1")).unwrap();
    assert_ne!(event.id, again.id);
}

#[test]
fn event_json_renders_every_field() {
    let now = decode("2024-05-05T05:05:05Z").unwrap();
    let event = input("Standup", None, 15, "2024-01-01T09:00:00Z")
        .to_event(
            String::from("user-1"),
            String::from("00000000-0000-4000-8000-000000000000"),
            Some(now),
        )
        .unwrap();
    assert_eq!(
        event_json(&event),
        "{\"id\":\"00000000-0000-4000-8000-000000000000\",\"user_id\":\"user-1\",\
         \"title\":\"Standup\",\"description\":null,\"duration\":15,\
         \"date\":\"2024-01-01T09:00:00Z\",\"accepted\":false,\
         \"created_at\":\"2024-05-05T05:05:05Z\",\"updated_at\":\"2024-05-05T05:05:05Z\"}"
    );
}

#[test]
fn event_json_escapes_strings() {
    let event = input("a\"b\\c\nd\u{1}e", Some("tab\there"), -5, "2024-01-01T09:00:00Z")
        .to_event(String::from("u"), String::from("i"), None)
        .unwrap();
    assert_eq!(
        event_json(&event),
        "{\"id\":\"i\",\"user_id\":\"u\",\"title\":\"a\\\"b\\\\c\\nd\\u0001e\",\
         \"description\":\"tab\\there\",\"duration\":-5,\
         \"date\":\"2024-01-01T09:00:00Z\",\"accepted\":false,\
         \"created_at\":null,\"updated_at\":null}"
    );
}

#[test]
fn event_json_renders_extreme_durations() {
    let event = input("x", None, i32::MIN, "2024-01-01T09:00:00Z")
        .to_event(String::from("u"), String::from("i"), None)
        .unwrap();
    assert!(event_json(&event).contains("\"duration\":-2147483648"));
    let event = input("x", None, i32::MAX, "2024-01-01T09:00:00Z")
        .to_event(String::from("u"), String::from("i"), None)
        .unwrap();
    assert!(event_json(&event).contains("\"duration\":2147483647"));
}

#[test]
fn events_json_renders_the_array_in_order() {
    let e1 = input("first", None, 1, "2024-01-01T09:00:00Z")
        .to_event(String::from("u"), String::from("a"), None)
        .unwrap();
    let e2 = input("second", None, 2, "2024-01-02T09:00:00Z")
        .to_event(String::from("u"), String::from("b"), None)
        .unwrap();
    let one = event_json(&e1);
    let two = event_json(&e2);
    assert_eq!(events_json(&vec![]), "[]");
    assert_eq!(events_json(&vec![e1]), format!("[{}]", one));
    let e1 = input("first", None, 1, "2024-01-01T09:00:00Z")
        .to_event(String::from("u"), String::from("a"), None)
        .unwrap();
    assert_eq!(events_json(&vec![e1, e2]), format!("[{},{}]", one, two));
}

#[test]
fn list_without_session_is_unauthorized() {
    match handle_list(None) {
        ListStep::Deny(env) => {
            assert_eq!(env.status, 401);
            assert_eq!(env.body, UNAUTHORIZED_BODY);
        }
        ListStep::Fetch { .. } => panic!("expected a denial"),
    }
}

#[test]
fn list_is_scoped_to_the_session_identity() {
    match handle_list(Some(session_for("user-42"))) {
        ListStep::Fetch { user_id } => assert_eq!(user_id, "user-42"),
        ListStep::Deny(_) => panic!("expected a fetch"),
    }
}

#[test]
fn list_reply_shapes_success_and_store_failure() {
    let event = input("first", None, 1, "2024-01-01T09:00:00Z")
        .to_event(String::from("u"), String::from("a"), None)
        .unwrap();
    let expected = format!("[{}]", event_json(&event));
    let ok = list_reply(Ok(vec![event]));
    assert_eq!(ok.status, 200);
    assert_eq!(ok.body, expected);
    let failed = list_reply(Err(StoreError));
    assert_eq!(failed.status, 500);
    assert_eq!(failed.body, INTERNAL_ERROR_BODY);
}

#[test]
fn create_without_cookie_is_unauthorized() {
    let payload = input("Standup", None, 15, "2024-01-01T09:00:00Z");
    match handle_create(None, &payload) {
        CreateStep::Deny(env) => {
            assert_eq!(env.status, 401);
            assert_eq!(env.body, UNAUTHORIZED_BODY);
        }
        _ => panic!("expected a denial"),
    }
}

#[test]
fn create_with_valid_cookie_and_body_yields_the_created_event() {
    let payload = input("Standup", None, 15, "2024-01-01T09:00:00Z");
    match handle_create(Some(session_for("user-1")), &payload) {
        CreateStep::Insert(event) => {
            assert_eq!(event.title, "Standup");
            assert_eq!(event.description, None);
            assert_eq!(event.duration, 15);
            assert_eq!(event.user_id, "user-1");
            assert!(!event.accepted);
            assert_eq!(event.id.chars().count(), 36);
            let reply = created_reply(&event, Ok(()));
            assert_eq!(reply.status, 201);
            assert!(reply.body.contains("\"title\":\"Standup\""));
            assert!(reply.body.contains("\"duration\":15"));
            assert!(reply.body.contains("\"accepted\":false"));
            assert!(reply.body.contains("\"date\":\"2024-01-01T09:00:00Z\""));
            assert!(reply.body.contains(&format!("\"id\":\"{}\"", event.id)));
        }
        _ => panic!("expected an insert"),
    }
}

#[test]
fn create_with_unparsable_date_is_a_bad_request() {
    let payload = input("X", None, 5, "not-a-date");
    match handle_create(Some(session_for("user-1")), &payload) {
        CreateStep::Reject(env) => {
            assert_eq!(env.status, 400);
            assert_eq!(env.body, INVALID_DATE_BODY);
        }
        _ => panic!("expected a rejection"),
    }
}

#[test]
fn create_reply_hides_store_failures() {
    let event = input("x", None, 1, "2024-01-01T09:00:00Z")
        .to_event(String::from("u"), String::from("i"), None)
        .unwrap();
    let failed = created_reply(&event, Err(StoreError));
    assert_eq!(failed.status, 500);
    assert_eq!(failed.body, INTERNAL_ERROR_BODY);
}
