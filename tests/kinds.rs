use nanowrimo::kind::NanoKind;

const ALL: [NanoKind; 24] = [
    NanoKind::Badge,
    NanoKind::Challenge,
    NanoKind::DailyAggregate,
    NanoKind::FavoriteAuthor,
    NanoKind::FavoriteBook,
    NanoKind::Genre,
    NanoKind::Group,
    NanoKind::GroupExternalLink,
    NanoKind::Location,
    NanoKind::NanoMessage,
    NanoKind::Notification,
    NanoKind::Page,
    NanoKind::Post,
    NanoKind::Project,
    NanoKind::ProjectSession,
    NanoKind::StopWatch,
    NanoKind::Timer,
    NanoKind::User,
    NanoKind::WritingLocation,
    NanoKind::WritingMethod,
    NanoKind::GroupUser,
    NanoKind::LocationGroup,
    NanoKind::ProjectChallenge,
    NanoKind::UserBadge,
];

#[test]
fn every_kind_round_trips_through_both_names() {
    for k in ALL {
        assert_eq!(NanoKind::from_name(k.api_name()), Ok(k));
        assert_eq!(NanoKind::from_name(k.api_unique_name()), Ok(k));
    }
}

#[test]
fn known_wire_names() {
    assert_eq!(NanoKind::ProjectChallenge.api_name(), "project-challenges");
    assert_eq!(NanoKind::ProjectChallenge.api_unique_name(), "project-challenge");
    assert_eq!(NanoKind::StopWatch.api_name(), "stopwatches");
    assert_eq!(NanoKind::NanoMessage.api_unique_name(), "nanomessage");
}

#[test]
fn unknown_wire_name_is_refused() {
    let e = NanoKind::from_name("widgets").unwrap_err();
    assert_eq!(e.name, "widgets");
    assert!(NanoKind::from_name("").is_err());
    assert!(NanoKind::from_name("Users").is_err());
}
