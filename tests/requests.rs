use nanowrimo::error::Error;
use nanowrimo::kind::NanoKind;
use nanowrimo::relation::RelationLink;
use nanowrimo::request::{add_filters, add_included, id_path, related_path, slug_path};
use nanowrimo::time::{Date, Timestamp};

#[test]
fn include_parameter_joins_plural_names() {
    let mut q = Vec::new();
    add_included(&mut q, &[]);
    assert!(q.is_empty());
    add_included(&mut q, &[NanoKind::Project, NanoKind::ProjectChallenge, NanoKind::User]);
    assert_eq!(q, vec![("include".to_string(), "projects,project-challenges,users".to_string())]);
}

#[test]
fn filter_parameters_follow_in_order() {
    let mut q = Vec::new();
    add_filters(&mut q, &[("user_id", 12), ("project_id", 0)]);
    add_included(&mut q, &[NanoKind::Badge]);
    assert_eq!(
        q,
        vec![
            ("filter[user_id]".to_string(), "12".to_string()),
            ("filter[project_id]".to_string(), "0".to_string()),
            ("include".to_string(), "badges".to_string()),
        ]
    );
}

#[test]
fn resource_paths() {
    assert_eq!(id_path(NanoKind::Badge, 31), "badges/31");
    assert_eq!(slug_path(NanoKind::User, "some-writer"), "users/some-writer");
}

#[test]
fn relation_cardinality_follows_the_plural_suffix() {
    let many = RelationLink { this: "/a".to_string(), related: "/users/1/projects".to_string() };
    let one = RelationLink { this: "/a".to_string(), related: "/projects/1/user".to_string() };
    assert_eq!(related_path(&many, true), Ok("/users/1/projects".to_string()));
    assert_eq!(related_path(&many, false), Err(Error::WrongCardinality));
    assert_eq!(related_path(&one, false), Ok("/projects/1/user".to_string()));
    assert_eq!(related_path(&one, true), Err(Error::WrongCardinality));
}

#[test]
fn timestamps_are_normalised_to_utc() {
    let t = Timestamp::parse("2020-11-01T10:00:00+02:00").unwrap();
    assert_eq!(t.as_str(), "2020-11-01T08:00:00Z");
    let z = Timestamp::parse("2019-10-31T23:59:59.500Z").unwrap();
    assert_eq!(z.as_str(), "2019-10-31T23:59:59.500Z");
    assert!(Timestamp::parse("yesterday").is_none());
}

#[test]
fn dates_are_read_and_written() {
    assert_eq!(Date::parse("2020-11-30").unwrap().as_str(), "2020-11-30");
    assert_eq!(Date::parse("2015-9-8").unwrap().as_str(), "2015-09-08");
    assert!(Date::parse("2020-02-30").is_none());
    assert!(Date::parse("30/11/2020").is_none());
}
