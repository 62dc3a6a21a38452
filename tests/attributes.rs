use nanowrimo::attributes::{LocationData, TimerData, UserData};
use nanowrimo::codec::DecodeCause;
use nanowrimo::enums::{AdminLevel, PrivacySetting, RegistrationPath};
use nanowrimo::json::Json;

fn s(x: &str) -> Json {
    Json::Str(x.to_string())
}

fn num(x: &str) -> Json {
    Json::Number(x.to_string())
}

fn obj(entries: Vec<(&str, Json)>) -> Vec<(String, Json)> {
    entries.into_iter().map(|(k, v)| (k.to_string(), v)).collect()
}

fn user_entries() -> Vec<(String, Json)> {
    obj(vec![
        ("admin-level", num("0")),
        ("avatar", Json::Null),
        ("bio", s("Writes things.")),
        ("confirmed-at", s("2019-10-01T12:00:00Z")),
        ("created-at", s("2019-10-01T11:00:00+01:00")),
        ("discourse-username", Json::Null),
        ("email", Json::Null),
        ("halo", Json::Bool(false)),
        ("laurels", num("3")),
        ("location", Json::Null),
        ("name", s("Writer")),
        ("notifications-viewed-at", s("2020-01-01T00:00:00Z")),
        ("plate", Json::Null),
        ("postal-code", s("12345")),
        ("registration-path", s("email")),
        ("setting-session-count-by-session", num("1")),
        ("setting-session-more-info", Json::Bool(true)),
        ("slug", s("writer")),
        ("stats-projects", num("4")),
        ("stats-projects-enabled", Json::Bool(true)),
        ("stats-streak", num("2")),
        ("stats-streak-enabled", Json::Bool(false)),
        ("stats-word-count", num("50000")),
        ("stats-word-count-enabled", Json::Bool(true)),
        ("stats-wordiest", num("6000")),
        ("stats-wordiest-enabled", Json::Bool(true)),
        ("stats-writing-pace-enabled", Json::Bool(false)),
        ("stats-years-enabled", Json::Bool(true)),
        ("stats-years-done", num("2")),
        ("time-zone", s("Europe/London")),
        ("privacy-send-nanomessages", num("1")),
        ("privacy-view-buddies", num("2")),
        ("privacy-view-profile", num("2")),
        ("privacy-view-projects", num("0")),
        ("privacy-view-search", num("2")),
        ("privacy-visibility-activity-logs", Json::Bool(true)),
        ("privacy-visibility-buddy-lists", Json::Bool(true)),
        ("privacy-visibility-regions", Json::Bool(false)),
        ("some-new-field", s("ignored")),
    ])
}

#[test]
fn user_flat_groups_are_read_when_complete() {
    let u = UserData::from_json(&Json::Object(user_entries())).unwrap();
    assert_eq!(u.admin_level, AdminLevel::User);
    assert_eq!(u.registration_path, RegistrationPath::Email);
    assert_eq!(u.postal_code, Some(12345));
    assert_eq!(u.created_at.as_str(), "2019-10-01T10:00:00Z");
    assert_eq!(u.stats.word_count, 50000);
    assert_eq!(u.stats.writing_pace, None);
    assert_eq!(u.stats.years_done, Some(2));
    let p = u.privacy_settings.as_ref().unwrap();
    assert_eq!(p.view_buddies, PrivacySetting::Anyone);
    assert_eq!(p.view_projects, PrivacySetting::Private);
    assert!(u.email_settings.is_none());
    assert!(u.notification_settings.is_none());
}

#[test]
fn user_flat_groups_are_written_back_flat() {
    let u = UserData::from_json(&Json::Object(user_entries())).unwrap();
    let again = UserData::from_json(&u.to_json()).unwrap();
    assert_eq!(again, u);
    match u.to_json() {
        Json::Object(e) => {
            assert!(e.iter().any(|(k, _)| k == "stats-wordiest"));
            assert!(e.iter().any(|(k, v)| k == "postal-code" && matches!(v, Json::Str(t) if t == "12345")));
            assert!(!e.iter().any(|(k, _)| k.starts_with("email-")));
        },
        _ => panic!("object expected"),
    }
}

#[test]
fn user_missing_statistics_is_an_error() {
    let entries: Vec<(String, Json)> =
        user_entries().into_iter().filter(|(k, _)| k != "stats-wordiest").collect();
    let e = UserData::from_json(&Json::Object(entries)).unwrap_err();
    assert_eq!(e.cause, DecodeCause::MissingField);
    assert_eq!(e.path, vec!["stats-wordiest".to_string()]);
}

#[test]
fn location_postal_code_is_lenient_and_coordinates_keep_their_text() {
    let base = || {
        vec![
            ("city", s("Springfield")),
            ("country", s("US")),
            ("latitude", num("44.0462")),
            ("longitude", num("-123.0220")),
            ("name", s("Library")),
            ("state", s("OR")),
        ]
    };
    let mut with_code = base();
    with_code.push(("postal-code", num("97477")));
    let l = LocationData::from_json(&Json::Object(obj(with_code))).unwrap();
    assert_eq!(l.postal_code, None);
    assert_eq!(l.latitude, "44.0462");
    assert_eq!(l.longitude, "-123.0220");
    let mut text_code = base();
    text_code.push(("postal-code", s("97477")));
    let l = LocationData::from_json(&Json::Object(obj(text_code))).unwrap();
    assert_eq!(l.postal_code, Some(97477));
    let e = LocationData::from_json(&Json::Object(obj(base()))).unwrap_err();
    assert_eq!(e.path, vec!["postal-code".to_string()]);
}

#[test]
fn timer_duration_is_minutes() {
    let t = TimerData::from_json(&Json::Object(obj(vec![
        ("cancelled", Json::Bool(false)),
        ("duration", num("25")),
        ("start", s("2020-11-01T09:00:00Z")),
    ])))
    .unwrap();
    assert_eq!(t.duration.minutes, 25);
    let bad = TimerData::from_json(&Json::Object(obj(vec![
        ("cancelled", Json::Bool(false)),
        ("duration", num("25")),
        ("start", s("not a time")),
    ])));
    assert_eq!(bad.unwrap_err().path, vec!["start".to_string()]);
}
