use nanowrimo::enums::{
    ActionType, AdheresTo, ContentType, Feeling, How, InvitationStatus, PrivacySetting, ProjectStatus,
    RegistrationPath, Where, WritingType,
};

#[test]
fn strict_integer_codes_round_trip() {
    for v in [PrivacySetting::Private, PrivacySetting::Buddies, PrivacySetting::Anyone] {
        assert_eq!(PrivacySetting::try_from_wire(v.to_wire()), Ok(v));
    }
    for v in [Feeling::Upset, Feeling::Stressed, Feeling::Okay, Feeling::PrettyGood, Feeling::Great] {
        assert_eq!(Feeling::try_from_wire(v.to_wire()), Ok(v));
    }
    for v in [InvitationStatus::Blocked, InvitationStatus::Sent, InvitationStatus::Accepted] {
        assert_eq!(InvitationStatus::try_from_wire(v.to_wire()), Ok(v));
    }
    assert_eq!(InvitationStatus::Blocked.to_wire(), -2);
}

#[test]
fn strict_integer_code_out_of_range_fails() {
    assert!(PrivacySetting::try_from_wire(3).is_err());
    assert!(Feeling::try_from_wire(0).is_err());
    assert!(InvitationStatus::try_from_wire(-1).is_err());
    assert_eq!(
        PrivacySetting::try_from_wire(9),
        Err("Cannot convert u8 into PrivacySetting")
    );
}

#[test]
fn writing_type_other_is_written_as_eight_and_read_from_six_or_eight() {
    assert_eq!(WritingType::Other.to_wire(), 8);
    assert_eq!(WritingType::try_from_wire(8), Ok(WritingType::Other));
    assert_eq!(WritingType::try_from_wire(6), Ok(WritingType::Other));
    assert_eq!(WritingType::try_from_wire(WritingType::Poetry.to_wire()), Ok(WritingType::Poetry));
    assert!(WritingType::try_from_wire(7).is_err());
}

#[test]
fn text_codes_ignore_ascii_case_where_the_api_varies() {
    assert_eq!(ProjectStatus::try_from_wire("In Progress"), Ok(ProjectStatus::InProgress));
    assert_eq!(ProjectStatus::try_from_wire("inprogress"), Ok(ProjectStatus::InProgress));
    assert_eq!(ProjectStatus::try_from_wire("PREPPING"), Ok(ProjectStatus::Prepping));
    assert_eq!(ProjectStatus::InProgress.to_wire(), "In Progress");
    assert_eq!(RegistrationPath::try_from_wire("Facebook"), Ok(RegistrationPath::Facebook));
    assert_eq!(RegistrationPath::Facebook.to_wire(), "Facebook");
    for v in [
        ProjectStatus::Prepping,
        ProjectStatus::InProgress,
        ProjectStatus::Drafted,
        ProjectStatus::Completed,
        ProjectStatus::Published,
    ] {
        assert_eq!(ProjectStatus::try_from_wire(v.to_wire()), Ok(v));
    }
    assert!(ProjectStatus::try_from_wire("done").is_err());
}

#[test]
fn exact_text_codes() {
    assert_eq!(ActionType::try_from_wire("BADGE_AWARDED"), Ok(ActionType::BadgeAwarded));
    assert!(ActionType::try_from_wire("badge_awarded").is_err());
    assert_eq!(ContentType::try_from_wire("Pep Talk"), Ok(ContentType::PepTalk));
    assert!(ContentType::try_from_wire("pep talk").is_err());
    assert_eq!(AdheresTo::try_from_wire(""), Ok(AdheresTo::Unknown));
    assert_eq!(AdheresTo::ProjectChallenge.to_wire(), "project_challenge");
}

#[test]
fn open_codes_keep_unknown_values() {
    assert_eq!(Where::from_wire(2), Where::Library);
    assert_eq!(Where::from_wire(17), Where::Other(17));
    assert_eq!(Where::Other(17).to_wire(), 17);
    assert_eq!(How::from_wire(123456789), How::Other(123456789));
    assert_eq!(How::Phone.to_wire(), 3);
    for code in 0..=255u8 {
        assert_eq!(Where::from_wire(code).to_wire(), code);
    }
}
